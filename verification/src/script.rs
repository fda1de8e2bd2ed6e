//! Scripts: named actions, each a list of steps that run commands or
//! transfer files on a server.

use vstd::prelude::*;
use vstd::string::*;
use crate::steps::{push_step, report_step, step_views, Step};
use crate::text::{concat, owned, str_eq};
use crate::transfer::TransferConfig;

verus! {

/// The name of a script and what it is for.
#[derive(Debug)]
pub struct ScriptInfo {
    pub name: String,
    pub desc: String,
}

/// Commands to run in order, with or without administrative rights.
#[derive(Debug)]
pub struct CommandAction {
    pub sudo: Option<bool>,
    pub cmds: Vec<String>,
}

/// A file or directory to transfer.
#[derive(Debug)]
pub struct TransferAction {
    pub local: String,
    pub remote: String,
    pub force: Option<bool>,
    pub resume: Option<bool>,
    pub max_retry: Option<u32>,
}

/// One step of an action.
#[derive(Debug)]
pub enum ScriptActionType {
    Command(CommandAction),
    Upload(TransferAction),
    Download(TransferAction),
}

/// An action: what it is for, and its steps.
#[derive(Debug)]
pub struct ScriptAction {
    pub desc: Option<String>,
    pub step: Vec<ScriptActionType>,
}

/// An action under its name.
#[derive(Debug)]
pub struct NamedAction {
    pub name: String,
    pub action: ScriptAction,
}

/// A script: its description and its actions.
#[derive(Debug)]
pub struct ScriptConfig {
    pub info: ScriptInfo,
    pub script: Vec<NamedAction>,
}

/// The format in which a script is written.
#[derive(Debug, Clone, Copy, PartialEq, Eq, Structural)]
pub enum ScriptFormat {
    Toml,
    Yaml,
    /// Not told by the file's name: TOML is tried first, then YAML.
    Either,
}

/// The format that a file with the extension `extension` is read in.
pub fn format_for(extension: Option<&str>) -> (r: ScriptFormat)
    ensures
        r == match extension {
            Some(e) => if e@ == "toml"@ {
                ScriptFormat::Toml
            } else if e@ == "yaml"@ {
                ScriptFormat::Yaml
            } else {
                ScriptFormat::Either
            },
            None => ScriptFormat::Either,
        },
{
    match extension {
        Some(e) => {
            if str_eq(e, "toml") {
                ScriptFormat::Toml
            } else if str_eq(e, "yaml") {
                ScriptFormat::Yaml
            } else {
                ScriptFormat::Either
            }
        },
        None => ScriptFormat::Either,
    }
}

/// `true` or `false`.
pub open spec fn flag_text(b: bool) -> Seq<char> {
    if b {
        "true"@
    } else {
        "false"@
    }
}

/// A step in words.
pub open spec fn step_text(step: ScriptActionType) -> Seq<char> {
    match step {
        ScriptActionType::Command(action) => "command (sudo: "@ + flag_text(
            action.sudo == Some(true),
        ) + ")"@,
        ScriptActionType::Upload(action) => "upload ("@ + action.local@ + " -> "@ + action.remote@
            + ")"@,
        ScriptActionType::Download(action) => "download ("@ + action.remote@ + " -> "@
            + action.local@ + ")"@,
    }
}

impl CommandAction {
    /// Whether the commands run with administrative rights.
    pub fn uses_sudo(&self) -> (r: bool)
        ensures
            r == (self.sudo == Some(true)),
    {
        match self.sudo {
            Some(b) => b,
            None => false,
        }
    }

    /// One step per command: each must succeed, and the error of one that
    /// fails names the command and reports its output.
    pub fn execute(&self) -> (steps: Vec<Step>)
        ensures
            step_views(steps@) == Seq::new(
                self.cmds@.len(),
                |i: int|
                    report_step(self.cmds@[i]@, "Failed to execute command: "@ + self.cmds@[i]@),
            ),
    {
        let mut steps: Vec<Step> = Vec::new();
        let mut i: usize = 0;
        while i < self.cmds.len()
            invariant
                i <= self.cmds.len(),
                step_views(steps@) == Seq::new(
                    i as nat,
                    |k: int|
                        report_step(
                            self.cmds@[k]@,
                            "Failed to execute command: "@ + self.cmds@[k]@,
                        ),
                ),
            decreases self.cmds.len() - i,
        {
            let what = concat("Failed to execute command: ", self.cmds[i].as_str());
            push_step(&mut steps, Step::require_or_report(self.cmds[i].clone(), what));
            proof {
                assert(step_views(steps@) =~= Seq::new(
                    (i + 1) as nat,
                    |k: int|
                        report_step(
                            self.cmds@[k]@,
                            "Failed to execute command: "@ + self.cmds@[k]@,
                        ),
                ));
            }
            i += 1;
        }
        steps
    }
}

impl TransferAction {
    /// The configuration of the transfer: what is not set is off, with no
    /// retries, and chunk size and progress interval are the defaults.
    pub fn transfer_config(&self) -> (c: TransferConfig)
        ensures
            c == (TransferConfig {
                force: self.force == Some(true),
                resume: self.resume == Some(true),
                max_retry: match self.max_retry {
                    Some(n) => n,
                    None => 0,
                },
                chunk_size: 65536,
                progress_interval: 1000,
            }),
    {
        TransferConfig {
            force: match self.force {
                Some(b) => b,
                None => false,
            },
            resume: match self.resume {
                Some(b) => b,
                None => false,
            },
            max_retry: match self.max_retry {
                Some(n) => n,
                None => 0,
            },
            chunk_size: crate::transfer::DEFAULT_CHUNK_SIZE,
            progress_interval: crate::transfer::DEFAULT_PROGRESS_INTERVAL,
        }
    }
}

impl ScriptActionType {
    /// The step in words, as it is shown while it runs.
    pub fn describe(&self) -> (r: String)
        ensures
            r@ == step_text(*self),
    {
        match self {
            ScriptActionType::Command(action) => {
                let mut r = owned("command (sudo: ");
                r.append(
                    if action.uses_sudo() {
                        "true"
                    } else {
                        "false"
                    },
                );
                r.append(")");
                r
            },
            ScriptActionType::Upload(action) => {
                let mut r = concat("upload (", action.local.as_str());
                r.append(" -> ");
                r.append(action.remote.as_str());
                r.append(")");
                r
            },
            ScriptActionType::Download(action) => {
                let mut r = concat("download (", action.remote.as_str());
                r.append(" -> ");
                r.append(action.local.as_str());
                r.append(")");
                r
            },
        }
    }
}

/// The position of the first action named `name`, or the length where there
/// is none.
pub open spec fn action_index(actions: Seq<NamedAction>, name: Seq<char>) -> int
    decreases actions.len(),
{
    if actions.len() == 0 {
        0
    } else if actions[0].name@ == name {
        0
    } else {
        1 + action_index(actions.drop_first(), name)
    }
}

/// A position that bears the name and has none before it that does is
/// `action_index`.
pub proof fn lemma_action_index_is(actions: Seq<NamedAction>, name: Seq<char>, k: int)
    requires
        0 <= k <= actions.len(),
        forall|j: int| 0 <= j < k ==> actions[j].name@ != name,
        k < actions.len() ==> actions[k].name@ == name,
    ensures
        action_index(actions, name) == k,
    decreases k,
{
    if k > 0 {
        let rest = actions.drop_first();
        assert forall|j: int| 0 <= j < k - 1 implies rest[j].name@ != name by {
            assert(rest[j] == actions[j + 1]);
        }
        lemma_action_index_is(rest, name, k - 1);
    }
}

/// Whether the script has an action named `name`.
pub open spec fn has_action(actions: Seq<NamedAction>, name: Seq<char>) -> bool {
    action_index(actions, name) < actions.len()
}

impl ScriptConfig {
    /// The action named `name`, if the script has one.
    pub fn find_action(&self, name: &str) -> (r: Option<&ScriptAction>)
        ensures
            match r {
                Some(action) => has_action(self.script@, name@) && *action == self.script@[action_index(
                    self.script@,
                    name@,
                )].action,
                None => !has_action(self.script@, name@),
            },
    {
        let mut i: usize = 0;
        while i < self.script.len()
            invariant
                i <= self.script.len(),
                forall|j: int| 0 <= j < i ==> self.script@[j].name@ != name@,
            decreases self.script.len() - i,
        {
            if str_eq(self.script[i].name.as_str(), name) {
                proof {
                    lemma_action_index_is(self.script@, name@, i as int);
                }
                return Some(&self.script[i].action);
            }
            i += 1;
        }
        proof {
            lemma_action_index_is(self.script@, name@, i as int);
        }
        None
    }

    /// Makes sure that the script has every action of `names`. The error
    /// names the first that it lacks.
    pub fn check_actions(&self, names: &Vec<String>) -> (r: Result<(), String>)
        ensures
            match r {
                Ok(_) => forall|i: int|
                    0 <= i < names@.len() ==> has_action(self.script@, #[trigger] names@[i]@),
                Err(m) => exists|i: int|
                    {
                        &&& 0 <= i < names@.len()
                        &&& !has_action(self.script@, names@[i]@)
                        &&& m@ == "Action '"@ + names@[i]@ + "' not found"@
                        &&& forall|j: int|
                            0 <= j < i ==> has_action(self.script@, #[trigger] names@[j]@)
                    },
            },
    {
        let mut i: usize = 0;
        while i < names.len()
            invariant
                i <= names.len(),
                forall|j: int| 0 <= j < i ==> has_action(self.script@, #[trigger] names@[j]@),
            decreases names.len() - i,
        {
            if self.find_action(names[i].as_str()).is_none() {
                let mut m = concat("Action '", names[i].as_str());
                m.append("' not found");
                return Err(m);
            }
            i += 1;
        }
        Ok(())
    }
}

} // verus!
