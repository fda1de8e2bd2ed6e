//! Components: named bundles of packages or commands that can be installed
//! on a server and removed again, with the service that belongs to them.

use vstd::prelude::*;
use vstd::string::*;
use crate::ssh::OsType;
use crate::steps::{
    command_steps, push_command_steps, push_step, require_step, service_step, step_views, Step,
    StepView,
};
use crate::text::{concat, joined, owned, str_eq, views};
use crate::utils::{
    disable_fallback, disable_service, enable_fallback, enable_service, install_line,
    install_packages, start_service, stop_service, uninstall_line, uninstall_packages,
};

verus! {

/// The name of a component and what it is.
#[derive(Debug)]
pub struct ComponentInfo {
    pub name: String,
    pub description: String,
}

/// Whether the component's service is started and enabled with it.
#[derive(Debug)]
pub struct ServiceConfig {
    pub start: Option<bool>,
    pub enable: Option<bool>,
}

/// The command that tells whether the component is installed.
#[derive(Debug)]
pub struct CheckConfig {
    pub command: String,
}

/// How a component is installed.
#[derive(Debug)]
pub enum InstallConfig {
    /// By packages, with commands to run before and after.
    Package { packages: Vec<String>, before: Option<Vec<String>>, after: Option<Vec<String>> },
    /// By commands alone.
    Command { commands: Vec<String> },
}

/// How a component is removed.
#[derive(Debug)]
pub enum UninstallConfig {
    /// By packages, with commands to run before and after.
    Package { packages: Vec<String>, before: Option<Vec<String>>, after: Option<Vec<String>> },
    /// By commands alone.
    Command { commands: Vec<String> },
}

/// One component as described in its file.
#[derive(Debug)]
pub struct ComponentConfig {
    pub info: ComponentInfo,
    pub service: ServiceConfig,
    pub install: InstallConfig,
    pub uninstall: UninstallConfig,
    pub check: Option<CheckConfig>,
}

/// The components known, each under its name.
#[derive(Debug)]
pub struct ComponentManager {
    components: Vec<ComponentConfig>,
}

/// The position of the first component named `name`, or the length where
/// there is none.
pub open spec fn component_index(components: Seq<ComponentConfig>, name: Seq<char>) -> int
    decreases components.len(),
{
    if components.len() == 0 {
        0
    } else if components[0].info.name@ == name {
        0
    } else {
        1 + component_index(components.drop_first(), name)
    }
}

/// No name is borne by two components.
pub open spec fn distinct_components(components: Seq<ComponentConfig>) -> bool {
    forall|i: int, j: int|
        0 <= i < j < components.len() ==> components[i].info.name@ != components[j].info.name@
}

/// `component_index` is the first position of the name, within bounds.
pub proof fn lemma_component_index(components: Seq<ComponentConfig>, name: Seq<char>)
    ensures
        0 <= component_index(components, name) <= components.len(),
        component_index(components, name) < components.len() ==> components[component_index(
            components,
            name,
        )].info.name@ == name,
        forall|j: int|
            0 <= j < component_index(components, name) ==> components[j].info.name@ != name,
    decreases components.len(),
{
    if components.len() > 0 && components[0].info.name@ != name {
        let rest = components.drop_first();
        lemma_component_index(rest, name);
        assert forall|j: int| 0 <= j < component_index(components, name) implies components[j].info.name@
            != name by {
            if j > 0 {
                assert(components[j] == rest[j - 1]);
            }
        }
    }
}

/// A position that bears the name and has none before it that does is
/// `component_index`.
pub proof fn lemma_component_index_is(components: Seq<ComponentConfig>, name: Seq<char>, k: int)
    requires
        0 <= k <= components.len(),
        forall|j: int| 0 <= j < k ==> components[j].info.name@ != name,
        k < components.len() ==> components[k].info.name@ == name,
    ensures
        component_index(components, name) == k,
{
    lemma_component_index(components, name);
    let f = component_index(components, name);
    if f < k {
        assert(components[f].info.name@ != name);
    }
}

impl ComponentManager {
    /// The components held, in the order in which their names first came.
    pub closed spec fn entries(&self) -> Seq<ComponentConfig> {
        self.components@
    }

    /// Each name is held once.
    pub open spec fn wf(&self) -> bool {
        distinct_components(self.entries())
    }

    /// Whether a component named `name` is held.
    pub open spec fn has(&self, name: Seq<char>) -> bool {
        component_index(self.entries(), name) < self.entries().len()
    }

    /// A manager that knows no component.
    pub fn new() -> (m: ComponentManager)
        ensures
            m.entries() == Seq::<ComponentConfig>::empty(),
            m.wf(),
    {
        ComponentManager { components: Vec::new() }
    }

    fn find(&self, name: &str) -> (at: usize)
        ensures
            at == component_index(self.entries(), name@),
            at <= self.entries().len(),
    {
        let mut i: usize = 0;
        while i < self.components.len()
            invariant
                i <= self.components.len(),
                forall|j: int| 0 <= j < i ==> self.components@[j].info.name@ != name@,
            decreases self.components.len() - i,
        {
            if str_eq(self.components[i].info.name.as_str(), name) {
                proof {
                    lemma_component_index_is(self.components@, name@, i as int);
                }
                return i;
            }
            i += 1;
        }
        proof {
            lemma_component_index_is(self.components@, name@, i as int);
        }
        i
    }

    /// Takes a component in under its name. One already held under that name
    /// gives way to it.
    pub fn insert(&mut self, component: ComponentConfig)
        requires
            old(self).wf(),
        ensures
            final(self).wf(),
            final(self).entries() == if old(self).has(component.info.name@) {
                old(self).entries().update(
                    component_index(old(self).entries(), component.info.name@),
                    component,
                )
            } else {
                old(self).entries().push(component)
            },
    {
        let at = self.find(component.info.name.as_str());
        proof {
            lemma_component_index(self.components@, component.info.name@);
        }
        if at < self.components.len() {
            let _old = self.components.remove(at);
            self.components.insert(at, component);
            assert(self.components@ =~= old(self).components@.update(at as int, component));
        } else {
            self.components.push(component);
        }
    }

    /// The number of components held.
    pub fn len(&self) -> (n: usize)
        ensures
            n == self.entries().len(),
    {
        self.components.len()
    }

    /// What every component is, in the order held.
    pub fn list_info(&self) -> (r: Vec<&ComponentInfo>)
        ensures
            r@.len() == self.entries().len(),
            forall|i: int| 0 <= i < r@.len() ==> *r@[i] == self.entries()[i].info,
    {
        let mut r: Vec<&ComponentInfo> = Vec::new();
        let mut i: usize = 0;
        while i < self.components.len()
            invariant
                i <= self.components.len(),
                r@.len() == i,
                forall|j: int| 0 <= j < i ==> *r@[j] == self.components@[j].info,
            decreases self.components.len() - i,
        {
            r.push(&self.components[i].info);
            i += 1;
        }
        r
    }

    /// The name of every component, in the order held.
    pub fn list_names(&self) -> (r: Vec<&String>)
        ensures
            r@.len() == self.entries().len(),
            forall|i: int| 0 <= i < r@.len() ==> *r@[i] == self.entries()[i].info.name,
    {
        let mut r: Vec<&String> = Vec::new();
        let mut i: usize = 0;
        while i < self.components.len()
            invariant
                i <= self.components.len(),
                r@.len() == i,
                forall|j: int| 0 <= j < i ==> *r@[j] == self.components@[j].info.name,
            decreases self.components.len() - i,
        {
            r.push(&self.components[i].info.name);
            i += 1;
        }
        r
    }

    /// Whether a component named `name` is held.
    pub fn contains(&self, name: &str) -> (r: bool)
        ensures
            r == self.has(name@),
    {
        let at = self.find(name);
        at < self.components.len()
    }

    /// The component named `name`, or the error that names what is missing.
    pub fn get_component(&self, name: &str) -> (r: Result<&ComponentConfig, String>)
        ensures
            match r {
                Ok(c) => self.has(name@) && *c == self.entries()[component_index(
                    self.entries(),
                    name@,
                )],
                Err(m) => !self.has(name@) && m@ == "Component '"@ + name@ + "' not found"@,
            },
    {
        let at = self.find(name);
        if at < self.components.len() {
            Ok(&self.components[at])
        } else {
            let mut m = concat("Component '", name);
            m.append("' not found");
            Err(m)
        }
    }
}

/// Every one of `names` is the name of a component held.
pub open spec fn all_known(names: Seq<Seq<char>>, manager: ComponentManager) -> bool {
    forall|i: int| 0 <= i < names.len() ==> manager.has(#[trigger] names[i])
}

/// Whether every one of `comp_names` is a component that `comp_manager`
/// holds.
pub fn check_components(comp_names: &Vec<String>, comp_manager: &ComponentManager) -> (r: bool)
    ensures
        r == all_known(views(comp_names@), *comp_manager),
{
    let mut i: usize = 0;
    while i < comp_names.len()
        invariant
            i <= comp_names.len(),
            forall|j: int| 0 <= j < i ==> comp_manager.has(#[trigger] views(comp_names@)[j]),
        decreases comp_names.len() - i,
    {
        if !comp_manager.contains(comp_names[i].as_str()) {
            assert(!comp_manager.has(views(comp_names@)[i as int]));
            return false;
        }
        i += 1;
    }
    true
}

/// The commands listed, or none.
pub open spec fn commands_of(list: Option<Vec<String>>) -> Seq<Seq<char>> {
    match list {
        Some(v) => views(v@),
        None => Seq::empty(),
    }
}

/// The error of a command that failed.
pub open spec fn command_failed() -> Seq<char> {
    "Failed to execute command: "@
}

/// The steps that install what `config` names: for packages, the commands
/// before, the packages, the commands after; else the commands. Each must
/// succeed.
pub open spec fn install_config_steps(config: InstallConfig, os: OsType) -> Seq<StepView> {
    match config {
        InstallConfig::Package { packages, before, after } => command_steps(
            commands_of(before),
            command_failed(),
        ) + seq![
            require_step(
                install_line(os, joined(views(packages@), " "@)),
                "Failed to install packages"@,
            ),
        ] + command_steps(commands_of(after), command_failed()),
        InstallConfig::Command { commands } => command_steps(views(commands@), command_failed()),
    }
}

/// The steps that remove what `config` names, in the same order as an
/// installation.
pub open spec fn uninstall_config_steps(config: UninstallConfig, os: OsType) -> Seq<StepView> {
    match config {
        UninstallConfig::Package { packages, before, after } => command_steps(
            commands_of(before),
            command_failed(),
        ) + seq![
            require_step(
                uninstall_line(os, joined(views(packages@), " "@)),
                "Failed to uninstall packages"@,
            ),
        ] + command_steps(commands_of(after), command_failed()),
        UninstallConfig::Command { commands } => command_steps(views(commands@), command_failed()),
    }
}

/// The steps on the service named `name`: after an installation it is
/// enabled, then started; before a removal it is stopped, then disabled;
/// each only where the component asks for it.
pub open spec fn service_steps(name: Seq<char>, config: ServiceConfig, os: OsType, is_install: bool) -> Seq<
    StepView,
> {
    let start = config.start == Some(true);
    let enable = config.enable == Some(true);
    let enabling = service_step("systemctl enable "@ + name, enable_fallback(os, name));
    let starting = service_step(
        "systemctl "@ + "start"@ + " "@ + name,
        "service "@ + name + " "@ + "start"@,
    );
    let stopping = service_step(
        "systemctl "@ + "stop"@ + " "@ + name,
        "service "@ + name + " "@ + "stop"@,
    );
    let disabling = service_step("systemctl disable "@ + name, disable_fallback(os, name));
    if is_install {
        (if enable {
            seq![enabling]
        } else {
            Seq::empty()
        }) + (if start {
            seq![starting]
        } else {
            Seq::empty()
        })
    } else {
        (if start {
            seq![stopping]
        } else {
            Seq::empty()
        }) + (if enable {
            seq![disabling]
        } else {
            Seq::empty()
        })
    }
}

fn flag(value: Option<bool>) -> (r: bool)
    ensures
        r == (value == Some(true)),
{
    match value {
        Some(b) => b,
        None => false,
    }
}

fn push_optional_commands(steps: &mut Vec<Step>, commands: &Option<Vec<String>>)
    ensures
        step_views(final(steps)@) == step_views(old(steps)@) + command_steps(
            commands_of(*commands),
            command_failed(),
        ),
{
    match commands {
        Some(list) => {
            push_command_steps(steps, list, "Failed to execute command: ");
        },
        None => {
            assert(step_views(steps@) + command_steps(Seq::empty(), command_failed())
                =~= step_views(steps@));
        },
    }
}

/// Appends the steps that install what `config` names.
pub fn push_install_steps(steps: &mut Vec<Step>, config: &InstallConfig, os: OsType)
    ensures
        step_views(final(steps)@) == step_views(old(steps)@) + install_config_steps(*config, os),
{
    let ghost start = step_views(steps@);
    match config {
        InstallConfig::Package { packages, before, after } => {
            push_optional_commands(steps, before);
            push_step(
                steps,
                Step::require(install_packages(os, packages), owned("Failed to install packages")),
            );
            push_optional_commands(steps, after);
            assert(step_views(steps@) =~= start + install_config_steps(*config, os));
        },
        InstallConfig::Command { commands } => {
            push_command_steps(steps, commands, "Failed to execute command: ");
        },
    }
}

/// Appends the steps that remove what `config` names.
pub fn push_uninstall_steps(steps: &mut Vec<Step>, config: &UninstallConfig, os: OsType)
    ensures
        step_views(final(steps)@) == step_views(old(steps)@) + uninstall_config_steps(*config, os),
{
    let ghost start = step_views(steps@);
    match config {
        UninstallConfig::Package { packages, before, after } => {
            push_optional_commands(steps, before);
            push_step(
                steps,
                Step::require(
                    uninstall_packages(os, packages),
                    owned("Failed to uninstall packages"),
                ),
            );
            push_optional_commands(steps, after);
            assert(step_views(steps@) =~= start + uninstall_config_steps(*config, os));
        },
        UninstallConfig::Command { commands } => {
            push_command_steps(steps, commands, "Failed to execute command: ");
        },
    }
}

/// Appends the steps on the component's service.
pub fn push_service_steps(
    steps: &mut Vec<Step>,
    name: &str,
    config: &ServiceConfig,
    os: OsType,
    is_install: bool,
)
    ensures
        step_views(final(steps)@) == step_views(old(steps)@) + service_steps(
            name@,
            *config,
            os,
            is_install,
        ),
{
    let ghost start_views = step_views(steps@);
    let start = flag(config.start);
    let enable = flag(config.enable);
    if is_install {
        if enable {
            push_step(steps, Step::service(enable_service(os, name)));
        }
        if start {
            push_step(steps, Step::service(start_service(name)));
        }
    } else {
        if start {
            push_step(steps, Step::service(stop_service(name)));
        }
        if enable {
            push_step(steps, Step::service(disable_service(os, name)));
        }
    }
    assert(step_views(steps@) =~= start_views + service_steps(name@, *config, os, is_install));
}

impl ComponentManager {
    /// The command that tells whether the component `name` is installed; a
    /// component without one counts as not installed.
    pub fn check_command(&self, name: &str) -> (r: Result<Option<&str>, String>)
        ensures
            match r {
                Ok(command) => self.has(name@) && match self.entries()[component_index(
                    self.entries(),
                    name@,
                )].check {
                    Some(check) => command matches Some(c) && c@ == check.command@,
                    None => command is None,
                },
                Err(m) => !self.has(name@) && m@ == "Component '"@ + name@ + "' not found"@,
            },
    {
        match self.get_component(name) {
            Ok(config) => match &config.check {
                Some(check) => Ok(Some(check.command.as_str())),
                None => Ok(None),
            },
            Err(m) => Err(m),
        }
    }

    /// The steps that install the component `name`: what its description
    /// names is installed, then its service is enabled and started.
    pub fn install(&self, name: &str, os: OsType) -> (r: Result<Vec<Step>, String>)
        ensures
            match r {
                Ok(steps) => {
                    let c = self.entries()[component_index(self.entries(), name@)];
                    self.has(name@) && step_views(steps@) == install_config_steps(c.install, os)
                        + service_steps(name@, c.service, os, true)
                },
                Err(m) => !self.has(name@) && m@ == "Component '"@ + name@ + "' not found"@,
            },
    {
        match self.get_component(name) {
            Ok(config) => {
                let mut steps: Vec<Step> = Vec::new();
                assert(step_views(steps@) =~= Seq::<StepView>::empty());
                push_install_steps(&mut steps, &config.install, os);
                push_service_steps(&mut steps, name, &config.service, os, true);
                assert(step_views(steps@) =~= install_config_steps(config.install, os)
                    + service_steps(name@, config.service, os, true));
                Ok(steps)
            },
            Err(m) => Err(m),
        }
    }

    /// The steps that remove the component `name`: its service is stopped
    /// and disabled, then what its description names is removed.
    pub fn uninstall(&self, name: &str, os: OsType) -> (r: Result<Vec<Step>, String>)
        ensures
            match r {
                Ok(steps) => {
                    let c = self.entries()[component_index(self.entries(), name@)];
                    self.has(name@) && step_views(steps@) == service_steps(
                        name@,
                        c.service,
                        os,
                        false,
                    ) + uninstall_config_steps(c.uninstall, os)
                },
                Err(m) => !self.has(name@) && m@ == "Component '"@ + name@ + "' not found"@,
            },
    {
        match self.get_component(name) {
            Ok(config) => {
                let mut steps: Vec<Step> = Vec::new();
                assert(step_views(steps@) =~= Seq::<StepView>::empty());
                push_service_steps(&mut steps, name, &config.service, os, false);
                push_uninstall_steps(&mut steps, &config.uninstall, os);
                assert(step_views(steps@) =~= service_steps(name@, config.service, os, false)
                    + uninstall_config_steps(config.uninstall, os));
                Ok(steps)
            },
            Err(m) => Err(m),
        }
    }
}

} // verus!
