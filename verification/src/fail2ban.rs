//! Intrusion prevention with fail2ban: its installation, the jail file, and
//! banning and unbanning an address.

use vstd::prelude::*;
use vstd::string::*;
use vstd::utf8::encode_utf8;
use crate::config::{Fail2banConfig, Fail2banJailConfig, JailEntry, KeyValue};
use crate::ssh::{CommandResult, OsType};
use crate::steps::{
    contains_step, require_step, run_step, service_step, step_views, Expect, ExpectView, Step,
    StepView,
};
use crate::text::{concat, decimal, join, joined, owned, push_decimal, trim, trimmed, views};
use crate::utils::{
    create_file, create_file_line, enable_fallback, enable_service, install, install_line,
    service_status, start_service, ServiceCommand,
};

verus! {

/// The command that makes `backend` the backend of every jail.
pub open spec fn backend_line(backend: Seq<char>) -> Seq<char> {
    "sed -i 's/^backend = auto/backend = "@ + backend + "/' /etc/fail2ban/jail.conf"@
}

/// The command that sets the backend.
pub fn set_backend(backend: &str) -> (r: String)
    ensures
        r@ == backend_line(backend@),
{
    let mut r = concat("sed -i 's/^backend = auto/backend = ", backend);
    r.append("/' /etc/fail2ban/jail.conf");
    r
}

/// The backend to set: the one given, else `systemd`.
pub open spec fn backend_or_default(backend: Option<Seq<char>>) -> Seq<char> {
    match backend {
        Some(b) => b,
        None => "systemd"@,
    }
}

/// The steps that install fail2ban and switch it on: it is installed if its
/// client is missing, the backend is set, which must succeed, the service is
/// enabled, and its state is asked for.
pub open spec fn setup_steps(os: OsType, backend: Option<Seq<char>>) -> Seq<StepView> {
    seq![
        StepView {
            command: "which fail2ban-client"@,
            fallback: Some(install_line(os, "fail2ban"@)),
            expect: ExpectView::Nothing,
        },
        require_step(backend_line(backend_or_default(backend)), "Fail2ban set backend failed"@),
        service_step("systemctl enable "@ + "fail2ban"@, enable_fallback(os, "fail2ban"@)),
        service_step(
            "systemctl "@ + "status"@ + " "@ + "fail2ban"@,
            "service "@ + "fail2ban"@ + " "@ + "status"@,
        ),
    ]
}

/// The steps that install fail2ban and switch it on. The result of the last
/// step says whether the service runs; see [`start_if_stopped`].
pub fn setup(os: OsType, backend: Option<&str>) -> (steps: Vec<Step>)
    ensures
        step_views(steps@) == setup_steps(
            os,
            match backend {
                Some(b) => Some(b@),
                None => None,
            },
        ),
{
    let ghost want = setup_steps(
        os,
        match backend {
            Some(b) => Some(b@),
            None => None,
        },
    );
    let backend = match backend {
        Some(b) => b,
        None => "systemd",
    };
    let mut steps: Vec<Step> = Vec::new();
    steps.push(
        Step {
            command: owned("which fail2ban-client"),
            fallback: Some(install(os, "fail2ban")),
            expect: Expect::Nothing,
        },
    );
    steps.push(Step::require(set_backend(backend), owned("Fail2ban set backend failed")));
    steps.push(Step::service(enable_service(os, "fail2ban")));
    steps.push(Step::service(service_status("fail2ban")));
    assert(step_views(steps@) =~= want);
    steps
}

/// The command that starts fail2ban, where the state asked for shows that it
/// does not run.
pub fn start_if_stopped(status: &CommandResult) -> (r: Option<ServiceCommand>)
    ensures
        status.exit_status == 0 ==> r is None,
        status.exit_status != 0 ==> (r matches Some(c) && c.primary@ == "systemctl "@ + "start"@
            + " "@ + "fail2ban"@ && c.fallback@ == "service "@ + "fail2ban"@ + " "@ + "start"@),
{
    if status.exit_status != 0 {
        Some(start_service("fail2ban"))
    } else {
        None
    }
}

/// `true` or `false`.
pub open spec fn bool_text(b: bool) -> Seq<char> {
    if b {
        "true"@
    } else {
        "false"@
    }
}

/// The lines `key = value` of an option table.
pub open spec fn jail_options(options: Seq<KeyValue>) -> Seq<char>
    decreases options.len(),
{
    if options.len() == 0 {
        Seq::empty()
    } else {
        jail_options(options.drop_last()) + options.last().key@ + " = "@ + options.last().value@
            + "\n"@
    }
}

/// The line that lists the addresses never banned, where there are any.
pub open spec fn ignore_line(jail: Fail2banJailConfig) -> Seq<char> {
    match jail.ignoreip {
        Some(list) => "ignoreip = "@ + joined(views(list@), " "@) + "\n"@,
        None => Seq::empty(),
    }
}

/// The line that names the log, where one is set.
pub open spec fn log_line(jail: Fail2banJailConfig) -> Seq<char> {
    match jail.logpath {
        Some(path) => "logpath = "@ + path@ + "\n"@,
        None => Seq::empty(),
    }
}

/// The lines of the jail's further options, where it has any.
pub open spec fn option_part(jail: Fail2banJailConfig) -> Seq<char> {
    match jail.options {
        Some(options) => jail_options(options@),
        None => Seq::empty(),
    }
}

/// The section of the jail file for one jail: its name in brackets, its
/// settings a line each, and an empty line.
pub open spec fn jail_section(name: Seq<char>, jail: Fail2banJailConfig) -> Seq<char> {
    head_part(name, jail) + limits_part(jail) + (ignore_line(jail) + log_line(jail) + option_part(
        jail,
    )) + "\n"@
}

/// The name of a jail in brackets, and whether it is on, for which port and
/// with which filter.
pub open spec fn head_part(name: Seq<char>, jail: Fail2banJailConfig) -> Seq<char> {
    "["@ + name + "]\n"@ + "enabled = "@ + bool_text(jail.enabled) + "\n"@ + "port = "@ + jail.port@
        + "\n"@ + "filter = "@ + jail.filter@ + "\n"@
}

/// How many failures within what time lead to a ban of what length.
pub open spec fn limits_part(jail: Fail2banJailConfig) -> Seq<char> {
    "maxretry = "@ + decimal(jail.maxretry as nat) + "\n"@ + "findtime = "@ + decimal(
        jail.findtime as nat,
    ) + "\n"@ + "bantime = "@ + decimal(jail.bantime as nat) + "\n"@
}

/// The jail file for `jails`: a section for each, in order.
pub open spec fn jail_file(jails: Seq<JailEntry>) -> Seq<char>
    decreases jails.len(),
{
    if jails.len() == 0 {
        Seq::empty()
    } else {
        jail_file(jails.drop_last()) + jail_section(jails.last().name@, jails.last().config)
    }
}

fn push_jail_options(out: &mut String, options: &Vec<KeyValue>)
    ensures
        final(out)@ == old(out)@ + jail_options(options@),
{
    let ghost head = out@;
    let mut i: usize = 0;
    assert(head + jail_options(options@.take(0)) =~= head);
    while i < options.len()
        invariant
            i <= options.len(),
            out@ == head + jail_options(options@.take(i as int)),
        decreases options.len() - i,
    {
        out.append(options[i].key.as_str());
        out.append(" = ");
        out.append(options[i].value.as_str());
        out.append("\n");
        proof {
            let now = options@.take(i + 1);
            assert(now.drop_last() =~= options@.take(i as int));
            assert(now.last() == options@[i as int]);
            assert(out@ =~= head + jail_options(now));
        }
        i += 1;
    }
    proof {
        assert(options@.take(options.len() as int) =~= options@);
    }
}

fn jail_head(name: &str, jail: &Fail2banJailConfig) -> (r: String)
    ensures
        r@ == head_part(name@, *jail),
{
    let mut r = owned("[");
    r.append(name);
    r.append("]\n");
    r.append("enabled = ");
    r.append(
        if jail.enabled {
            "true"
        } else {
            "false"
        },
    );
    r.append("\n");
    r.append("port = ");
    r.append(jail.port.as_str());
    r.append("\n");
    r.append("filter = ");
    r.append(jail.filter.as_str());
    r.append("\n");
    r
}

fn jail_limits(jail: &Fail2banJailConfig) -> (r: String)
    ensures
        r@ == limits_part(*jail),
{
    let mut r = owned("maxretry = ");
    push_decimal(&mut r, jail.maxretry as u64);
    r.append("\n");
    r.append("findtime = ");
    push_decimal(&mut r, jail.findtime as u64);
    r.append("\n");
    r.append("bantime = ");
    push_decimal(&mut r, jail.bantime as u64);
    r.append("\n");
    r
}

fn jail_extras(jail: &Fail2banJailConfig) -> (r: String)
    ensures
        r@ == ignore_line(*jail) + log_line(*jail) + option_part(*jail),
{
    let mut r = String::new();
    match &jail.ignoreip {
        Some(list) => {
            let joined_list = join(list, " ");
            r.append("ignoreip = ");
            r.append(joined_list.as_str());
            r.append("\n");
        },
        None => {},
    }
    assert(r@ =~= ignore_line(*jail));
    match &jail.logpath {
        Some(path) => {
            r.append("logpath = ");
            r.append(path.as_str());
            r.append("\n");
        },
        None => {},
    }
    assert(r@ =~= ignore_line(*jail) + log_line(*jail));
    match &jail.options {
        Some(options) => {
            push_jail_options(&mut r, options);
        },
        None => {},
    }
    assert(r@ =~= ignore_line(*jail) + log_line(*jail) + option_part(*jail));
    r
}

fn push_jail_section(out: &mut String, name: &str, jail: &Fail2banJailConfig)
    ensures
        final(out)@ == old(out)@ + jail_section(name@, *jail),
{
    let head = jail_head(name, jail);
    let limits = jail_limits(jail);
    let extras = jail_extras(jail);
    out.append(head.as_str());
    out.append(limits.as_str());
    out.append(extras.as_str());
    out.append("\n");
    assert(out@ =~= old(out)@ + jail_section(name@, *jail));
}

/// The jail file for `jails`.
pub fn render_jails(jails: &Vec<JailEntry>) -> (r: String)
    ensures
        r@ == jail_file(jails@),
{
    let mut r = String::new();
    let mut i: usize = 0;
    while i < jails.len()
        invariant
            i <= jails.len(),
            r@ == jail_file(jails@.take(i as int)),
        decreases jails.len() - i,
    {
        push_jail_section(&mut r, jails[i].name.as_str(), &jails[i].config);
        proof {
            let now = jails@.take(i + 1);
            assert(now.drop_last() =~= jails@.take(i as int));
            assert(now.last() == jails@[i as int]);
        }
        i += 1;
    }
    proof {
        assert(jails@.take(jails.len() as int) =~= jails@);
    }
    r
}

/// The file that holds the jails.
pub open spec fn jail_path() -> Seq<char> {
    "/etc/fail2ban/jail.d/biusrv.conf"@
}

/// The steps that write `content` to the jail file, read it back, and make
/// fail2ban take it up, which must succeed.
pub open spec fn configure_steps(content: Seq<char>) -> Seq<StepView> {
    seq![
        run_step(create_file_line(jail_path(), encode_utf8(content), Some("644"@))),
        contains_step(
            "cat "@ + jail_path(),
            content,
            "Fail2ban config verification failed"@,
            false,
        ),
        require_step("fail2ban-client reload"@, "Fail2ban reload failed"@),
    ]
}

/// The content of the jail file that `config` asks for: its `content`
/// verbatim where that is set, else its jails rendered and trimmed; none
/// where it has neither.
pub open spec fn jail_content(config: Fail2banConfig) -> Option<Seq<char>> {
    match (config.content, config.jail) {
        (Some(content), _) => Some(content@),
        (None, Some(jails)) => Some(trim(jail_file(jails@))),
        (None, None) => None,
    }
}

/// The steps that configure fail2ban as `config` says. A configuration with
/// neither content nor jails is an error.
pub fn configure(config: &Fail2banConfig) -> (r: Result<Vec<Step>, String>)
    ensures
        match jail_content(*config) {
            Some(content) => r matches Ok(steps) && step_views(steps@) == configure_steps(content),
            None => r matches Err(m) && m@ == "No content or jail config provided"@,
        },
{
    let content: String = match &config.content {
        Some(content) => content.clone(),
        None => match &config.jail {
            Some(jails) => {
                let file = render_jails(jails);
                trimmed(file.as_str())
            },
            None => {
                return Err(owned("No content or jail config provided"));
            },
        },
    };
    let file = "/etc/fail2ban/jail.d/biusrv.conf";
    let mut steps: Vec<Step> = Vec::new();
    steps.push(Step::run(create_file(file, content.as_str(), Some("644"))));
    steps.push(
        Step {
            command: concat("cat ", file),
            fallback: None,
            expect: Expect::Contains {
                needle: content,
                message: owned("Fail2ban config verification failed"),
                with_output: false,
            },
        },
    );
    steps.push(Step::require(owned("fail2ban-client reload"), owned("Fail2ban reload failed")));
    assert(step_views(steps@) =~= configure_steps(jail_content(*config)->0));
    Ok(steps)
}

/// The command that makes fail2ban read its configuration anew.
pub fn reload() -> (r: &'static str)
    ensures
        r@ == "fail2ban-client reload"@,
{
    "fail2ban-client reload"
}

/// The command that asks for the state of fail2ban.
pub fn status() -> (r: &'static str)
    ensures
        r@ == "fail2ban-client status"@,
{
    "fail2ban-client status"
}

/// The command that asks for the state of one jail.
pub fn jail_status(jail_name: &str) -> (r: String)
    ensures
        r@ == "fail2ban-client status "@ + jail_name@,
{
    concat("fail2ban-client status ", jail_name)
}

/// The command that looks for `ip` in the state of the jail.
pub open spec fn lookup_line(jail_name: Seq<char>, ip: Seq<char>) -> Seq<char> {
    "fail2ban-client status "@ + jail_name + " | grep "@ + ip
}

fn lookup(jail_name: &str, ip: &str) -> (r: String)
    ensures
        r@ == lookup_line(jail_name@, ip@),
{
    let mut r = concat("fail2ban-client status ", jail_name);
    r.append(" | grep ");
    r.append(ip);
    r
}

/// The steps that lift the ban of `ip` in a jail, and make sure that the
/// address is no longer listed.
pub fn unban_ip(jail_name: &str, ip: &str) -> (steps: Vec<Step>)
    ensures
        step_views(steps@) == seq![
            run_step("fail2ban-client set "@ + jail_name@ + " unbanip "@ + ip@),
            StepView {
                command: lookup_line(jail_name@, ip@),
                fallback: None,
                expect: ExpectView::Failure {
                    message: "IP "@ + ip@ + " is still banned in jail "@ + jail_name@,
                },
            },
        ],
{
    let mut set = concat("fail2ban-client set ", jail_name);
    set.append(" unbanip ");
    set.append(ip);
    let mut message = concat("IP ", ip);
    message.append(" is still banned in jail ");
    message.append(jail_name);
    let mut steps: Vec<Step> = Vec::new();
    steps.push(Step::run(set));
    steps.push(
        Step { command: lookup(jail_name, ip), fallback: None, expect: Expect::Failure { message } },
    );
    assert(step_views(steps@) =~= seq![
        run_step("fail2ban-client set "@ + jail_name@ + " unbanip "@ + ip@),
        StepView {
            command: lookup_line(jail_name@, ip@),
            fallback: None,
            expect: ExpectView::Failure {
                message: "IP "@ + ip@ + " is still banned in jail "@ + jail_name@,
            },
        },
    ]);
    steps
}

/// The steps that ban `ip` in a jail, and make sure that the address is
/// listed.
pub fn ban_ip(jail_name: &str, ip: &str) -> (steps: Vec<Step>)
    ensures
        step_views(steps@) == seq![
            run_step("fail2ban-client set "@ + jail_name@ + " banip "@ + ip@),
            require_step(
                lookup_line(jail_name@, ip@),
                "IP "@ + ip@ + " was not banned in jail "@ + jail_name@,
            ),
        ],
{
    let mut set = concat("fail2ban-client set ", jail_name);
    set.append(" banip ");
    set.append(ip);
    let mut message = concat("IP ", ip);
    message.append(" was not banned in jail ");
    message.append(jail_name);
    let mut steps: Vec<Step> = Vec::new();
    steps.push(Step::run(set));
    steps.push(Step::require(lookup(jail_name, ip), message));
    assert(step_views(steps@) =~= seq![
        run_step("fail2ban-client set "@ + jail_name@ + " banip "@ + ip@),
        require_step(
            lookup_line(jail_name@, ip@),
            "IP "@ + ip@ + " was not banned in jail "@ + jail_name@,
        ),
    ]);
    steps
}

} // verus!
