//! The commands of the tool as values, and what each of them decides before
//! any server is contacted: whether its options make sense, which servers it
//! is for, and what is to be done on them.

use vstd::prelude::*;
use vstd::string::*;
use vstd::utf8::{decode_utf8, encode_utf8, is_char_boundary};
use crate::component::{all_known, check_components, ComponentManager};
use crate::config::{ServerConfig, ServerEntry};
use crate::executor::{
    build_tasks, built_from, select_tasks, selected_from, Task, TaskError,
};
use crate::firewall::{RuleOp, Target};
use crate::ssh::CommandResult;
use crate::text::{
    concat, decimal, from_chars, join, joined, last_index, owned, push_decimal, rfind_char,
    to_chars, trim, trim_bounds, views,
};
use crate::transfer::TransferConfig;
use crate::utils::{lines, text_lines};

verus! {

/// The tool's command line.
#[derive(Debug)]
pub struct Cli {
    /// The configuration file.
    pub config: String,
    /// The log level.
    pub log_level: String,
    pub command: Commands,
}

/// What the tool is asked to do.
#[derive(Debug)]
pub enum Commands {
    /// Initialize servers.
    Init(InitCommand),
    /// Manage servers.
    Manage(ManageCommand),
}

/// The options of an initialization.
#[derive(Debug)]
pub struct InitCommand {
    pub list_servers: bool,
    pub all_servers: bool,
    pub server: Vec<String>,
    pub threads: Option<usize>,
    pub max_retry: u32,
}

/// The options of a management command.
#[derive(Debug)]
pub struct ManageCommand {
    pub list_servers: bool,
    pub all_servers: bool,
    pub server: Vec<String>,
    pub threads: Option<usize>,
    pub max_retry: u32,
    pub action: Option<ManageAction>,
}

/// What a management command does on its servers.
#[derive(Debug)]
pub enum ManageAction {
    Script(ScriptAction),
    Exec(ExecAction),
    Firewall(FirewallAction),
    Transfer(TransferAction),
    Component(ComponentAction),
}

/// Installing and removing components.
#[derive(Debug)]
pub struct ComponentAction {
    /// The directory that holds the descriptions.
    pub dir: String,
    pub list: bool,
    pub install: Vec<String>,
    pub uninstall: Vec<String>,
}

/// Running a command, or opening shells.
#[derive(Debug)]
pub struct ExecAction {
    /// The words of the command.
    pub command: Vec<String>,
    pub sudo: bool,
    pub hide_output: bool,
    /// Open interactive shells with the command instead of running it.
    pub shell: bool,
}

/// Changing the packet filter.
#[derive(Debug)]
pub struct FirewallAction {
    pub status: bool,
    pub allow_port: Vec<String>,
    pub deny_port: Vec<String>,
    pub delete_allow_port: Vec<String>,
    pub delete_deny_port: Vec<String>,
    /// Keep the rules across restarts.
    pub save: bool,
}

/// Running or listing the actions of a script.
#[derive(Debug)]
pub struct ScriptAction {
    pub action: ScriptSubAction,
}

/// What is done with a script.
#[derive(Debug)]
pub enum ScriptSubAction {
    Run(RunAction),
    List(ListAction),
}

/// Running actions of a script.
#[derive(Debug)]
pub struct RunAction {
    pub path: String,
    /// The names of the actions to run.
    pub action: Vec<String>,
}

/// Listing the actions of a script.
#[derive(Debug)]
pub struct ListAction {
    pub path: String,
}

/// Transferring a file or a directory.
#[derive(Debug)]
pub struct TransferAction {
    pub upload: bool,
    pub download: bool,
    pub remote: Option<String>,
    pub local: Option<String>,
    pub force: bool,
    pub resume: bool,
    pub hide_progress: bool,
}

/// The direction of a transfer as the progress display names it.
#[derive(Debug, Clone, Copy, PartialEq, Eq, Structural)]
pub enum Operation {
    Upload,
    Download,
}

/// The number of workers to ask for: the number given, else the number of
/// processors, else 4.
pub fn thread_count(threads: Option<usize>, available: Option<usize>) -> (n: usize)
    ensures
        n == match (threads, available) {
            (Some(t), _) => t,
            (None, Some(a)) => a,
            (None, None) => 4,
        },
{
    match threads {
        Some(t) => t,
        None => match available {
            Some(a) => a,
            None => 4,
        },
    }
}

/// Which servers a command is for.
#[derive(Debug)]
pub enum Selection {
    /// None: the configured servers are to be listed.
    List,
    /// These, as tasks.
    Run(Vec<Task>),
}

/// Why no servers were selected.
#[derive(Debug)]
pub enum SelectionError {
    /// The configuration has no servers.
    NoServers,
    /// A name was given that no server is configured under.
    UnknownServer { name: String },
    /// A server asked for selects no credential.
    NoAuthMethod { name: String },
    /// Neither names nor all servers were asked for.
    NoneSpecified,
}

/// Whether `r` is the choice of tasks among `servers` that was asked for:
/// a task for every server, or one for each name. It is an error to ask for
/// neither, to name a server that is not configured, or to ask for a server
/// that selects no credential; the error names the first such server.
pub open spec fn chosen_from(
    r: Result<Vec<Task>, SelectionError>,
    servers: Seq<ServerEntry>,
    all_servers: bool,
    names: Seq<String>,
) -> bool {
    match r {
        Ok(tasks) => if all_servers {
            built_from(Ok(tasks), servers)
        } else {
            names.len() > 0 && selected_from(Ok(tasks), servers, names)
        },
        Err(SelectionError::NoneSpecified) => !all_servers && names.len() == 0,
        Err(SelectionError::UnknownServer { name }) => !all_servers && names.len() > 0
            && selected_from(Err(TaskError::UnknownServer { name }), servers, names),
        Err(SelectionError::NoAuthMethod { name }) => if all_servers {
            built_from(Err(TaskError::NoAuthMethod { name }), servers)
        } else {
            names.len() > 0 && selected_from(Err(TaskError::NoAuthMethod { name }), servers, names)
        },
        Err(SelectionError::NoServers) => false,
    }
}

/// The selection error for an error of building tasks.
pub fn selection_error(e: TaskError) -> (r: SelectionError)
    ensures
        r == match e {
            TaskError::UnknownServer { name } => SelectionError::UnknownServer { name },
            TaskError::NoAuthMethod { name } => SelectionError::NoAuthMethod { name },
        },
{
    match e {
        TaskError::UnknownServer { name } => SelectionError::UnknownServer { name },
        TaskError::NoAuthMethod { name } => SelectionError::NoAuthMethod { name },
    }
}

/// The tasks for the servers asked for: all that are configured, else those
/// named. It is an error to ask for neither, to name a server that is not
/// configured, or to ask for a server without a credential: no task exists
/// for such a server.
pub fn choose_tasks(servers: &Vec<ServerEntry>, all_servers: bool, names: &Vec<String>) -> (r:
    Result<Vec<Task>, SelectionError>)
    ensures
        chosen_from(r, servers@, all_servers, names@),
{
    if all_servers {
        match build_tasks(servers) {
            Ok(tasks) => Ok(tasks),
            Err(e) => Err(selection_error(e)),
        }
    } else if names.len() > 0 {
        match select_tasks(servers, names) {
            Ok(tasks) => Ok(tasks),
            Err(e) => Err(selection_error(e)),
        }
    } else {
        Err(SelectionError::NoneSpecified)
    }
}

/// The error in words, for the section `section` of the configuration and a
/// command that does `verb` to servers.
pub open spec fn selection_error_text(e: SelectionError, section: Seq<char>, verb: Seq<char>) -> Seq<
    char,
> {
    match e {
        SelectionError::NoServers => "No servers configured"@,
        SelectionError::UnknownServer { name } => "Server '"@ + name@ + "' not found in "@
            + section + " config"@,
        SelectionError::NoAuthMethod { name } => "Server '"@ + name@
            + "': No authentication method provided (need password or private key)"@,
        SelectionError::NoneSpecified => "No servers specified. Use --server to specify servers or --all-servers to "@
            + verb + " all servers."@,
    }
}

impl SelectionError {
    /// The error in words.
    pub fn message(&self, section: &str, verb: &str) -> (r: String)
        ensures
            r@ == selection_error_text(*self, section@, verb@),
    {
        match self {
            SelectionError::NoServers => owned("No servers configured"),
            SelectionError::UnknownServer { name } => {
                let mut r = concat("Server '", name.as_str());
                r.append("' not found in ");
                r.append(section);
                r.append(" config");
                r
            },
            SelectionError::NoAuthMethod { name } => {
                let mut r = concat("Server '", name.as_str());
                r.append("': No authentication method provided (need password or private key)");
                r
            },
            SelectionError::NoneSpecified => {
                let mut r = concat(
                    "No servers specified. Use --server to specify servers or --all-servers to ",
                    verb,
                );
                r.append(" all servers.");
                r
            },
        }
    }
}

impl InitCommand {
    /// The servers to initialize. A configuration without servers is an
    /// error; with `list_servers` nothing is selected; else the servers are
    /// chosen as asked.
    pub fn select(&self, servers: Option<&Vec<ServerEntry>>) -> (r: Result<Selection, SelectionError>)
        ensures
            match servers {
                None => r matches Err(SelectionError::NoServers),
                Some(s) => if s.len() == 0 {
                    r matches Err(SelectionError::NoServers)
                } else if self.list_servers {
                    r matches Ok(Selection::List)
                } else {
                    match r {
                        Ok(Selection::Run(tasks)) => chosen_from(
                            Ok(tasks),
                            s@,
                            self.all_servers,
                            self.server@,
                        ),
                        Ok(Selection::List) => false,
                        Err(e) => chosen_from(Err(e), s@, self.all_servers, self.server@),
                    }
                },
            },
    {
        match servers {
            None => Err(SelectionError::NoServers),
            Some(s) => {
                if s.len() == 0 {
                    Err(SelectionError::NoServers)
                } else if self.list_servers {
                    Ok(Selection::List)
                } else {
                    match choose_tasks(s, self.all_servers, &self.server) {
                        Ok(tasks) => Ok(Selection::Run(tasks)),
                        Err(e) => Err(e),
                    }
                }
            },
        }
    }
}

/// What a management command asks for before its action is looked at.
#[derive(Debug, Clone, Copy, PartialEq, Eq, Structural)]
pub enum ManageRequest {
    /// The configured servers are to be listed.
    List,
    /// The action is to be carried out.
    Act,
}

impl ManageCommand {
    /// What the command asks for. A configuration without a server table is
    /// an error, as is a command without an action, unless the servers are
    /// only to be listed.
    pub fn request(&self, has_servers: bool) -> (r: Result<ManageRequest, String>)
        ensures
            !has_servers ==> (r matches Err(m) && m@ == "No servers configured"@),
            has_servers && self.list_servers ==> r == Ok::<ManageRequest, String>(
                ManageRequest::List,
            ),
            has_servers && !self.list_servers && self.action is Some ==> r == Ok::<
                ManageRequest,
                String,
            >(ManageRequest::Act),
            has_servers && !self.list_servers && self.action is None ==> (r matches Err(m) && m@
                == "Please specify an action: use subcommands (script, exec, firewall, transfer)"@),
    {
        if !has_servers {
            Err(owned("No servers configured"))
        } else if self.list_servers {
            Ok(ManageRequest::List)
        } else if self.action.is_some() {
            Ok(ManageRequest::Act)
        } else {
            Err(
                owned(
                    "Please specify an action: use subcommands (script, exec, firewall, transfer)",
                ),
            )
        }
    }
}

impl ExecAction {
    /// Checks the options. A command must be given. Returns `false`: there
    /// is work to do on the servers.
    pub fn local_execute(&self) -> (r: Result<bool, String>)
        ensures
            self.command.len() == 0 ==> (r matches Err(m) && m@ == "Command cannot be empty"@),
            self.command.len() > 0 ==> r == Ok::<bool, String>(false),
    {
        if self.command.len() == 0 {
            Err(owned("Command cannot be empty"))
        } else {
            Ok(false)
        }
    }

    /// The command as one line: its words with a space between them.
    pub fn full_command(&self) -> (r: String)
        ensures
            r@ == joined(views(self.command@), " "@),
    {
        join(&self.command, " ")
    }

    /// Whether the command is run on the servers one after the other as
    /// tasks, or shells are opened: one shell on the terminal itself for a
    /// single server, else one behind the multiplexer for each.
    pub fn mode(&self, task_count: usize) -> (r: ExecMode)
        ensures
            r == if !self.shell {
                ExecMode::Command
            } else if task_count == 1 {
                ExecMode::SingleShell
            } else {
                ExecMode::MultiShell
            },
    {
        if !self.shell {
            ExecMode::Command
        } else if task_count == 1 {
            ExecMode::SingleShell
        } else {
            ExecMode::MultiShell
        }
    }
}

/// How a command is carried out.
#[derive(Debug, Clone, Copy, PartialEq, Eq, Structural)]
pub enum ExecMode {
    Command,
    SingleShell,
    MultiShell,
}

/// Whether the line `line` is blank: empty or white space alone.
pub open spec fn is_blank(line: Seq<char>) -> bool {
    trim(line).len() == 0
}

/// The lines of `output` that are shown: those that are not blank, each
/// behind three spaces.
pub open spec fn shown_lines(all: Seq<Seq<char>>) -> Seq<Seq<char>>
    decreases all.len(),
{
    if all.len() == 0 {
        Seq::empty()
    } else if is_blank(all.last()) {
        shown_lines(all.drop_last())
    } else {
        shown_lines(all.drop_last()).push("   "@ + all.last())
    }
}

/// The lines to show of a command's output: none where the output is hidden
/// or empty, else each line that is not blank, indented.
pub fn output_lines(result: &CommandResult, hide_output: bool) -> (r: Vec<String>)
    ensures
        views(r@) == if hide_output {
            Seq::<Seq<char>>::empty()
        } else {
            shown_lines(text_lines(result.output@))
        },
{
    let mut r: Vec<String> = Vec::new();
    if hide_output {
        assert(views(r@) =~= Seq::<Seq<char>>::empty());
        return r;
    }
    let all = lines(result.output.as_str());
    let ghost texts = views(all@);
    let mut i: usize = 0;
    assert(views(r@) =~= shown_lines(texts.take(0)));
    while i < all.len()
        invariant
            i <= all.len(),
            texts == views(all@),
            views(r@) == shown_lines(texts.take(i as int)),
        decreases all.len() - i,
    {
        let chars = to_chars(all[i].as_str());
        let (from, to) = trim_bounds(&chars);
        let ghost before = views(r@);
        proof {
            let now = texts.take(i + 1);
            assert(now.drop_last() =~= texts.take(i as int));
            assert(now.last() == all@[i as int]@);
        }
        if to > from {
            let line = concat("   ", all[i].as_str());
            r.push(line);
            assert(views(r@) =~= before.push(line@));
        }
        i += 1;
    }
    proof {
        assert(texts.take(all.len() as int) =~= texts);
    }
    r
}

/// The error of a command that ended with a status other than 0.
pub fn command_failed_on(srv_name: &str) -> (r: String)
    ensures
        r@ == "Command failed on "@ + srv_name@,
{
    concat("Command failed on ", srv_name)
}

/// What is done to the packet filter.
#[derive(Debug, Clone, Copy, PartialEq, Eq, Structural)]
pub enum FirewallOperation {
    Status,
    Allow,
    Deny,
    DeleteAllow,
    DeleteDeny,
}

impl FirewallOperation {
    /// What the operation does to a port's rule: allowing and denying append
    /// the rule that accepts or drops, the deletions delete it. The status
    /// changes no rule.
    pub fn change(self) -> (r: Option<(RuleOp, Target)>)
        ensures
            r == match self {
                FirewallOperation::Status => None::<(RuleOp, Target)>,
                FirewallOperation::Allow => Some((RuleOp::Append, Target::Accept)),
                FirewallOperation::Deny => Some((RuleOp::Append, Target::Drop)),
                FirewallOperation::DeleteAllow => Some((RuleOp::Delete, Target::Accept)),
                FirewallOperation::DeleteDeny => Some((RuleOp::Delete, Target::Drop)),
            },
    {
        match self {
            FirewallOperation::Status => None,
            FirewallOperation::Allow => Some((RuleOp::Append, Target::Accept)),
            FirewallOperation::Deny => Some((RuleOp::Append, Target::Drop)),
            FirewallOperation::DeleteAllow => Some((RuleOp::Delete, Target::Accept)),
            FirewallOperation::DeleteDeny => Some((RuleOp::Delete, Target::Drop)),
        }
    }
}

impl FirewallAction {
    /// The one operation that the options ask for: the first of status,
    /// allow, deny, delete allowed and delete denied that is asked for.
    pub open spec fn chosen(&self) -> Option<FirewallOperation> {
        if self.status {
            Some(FirewallOperation::Status)
        } else if self.allow_port.len() > 0 {
            Some(FirewallOperation::Allow)
        } else if self.deny_port.len() > 0 {
            Some(FirewallOperation::Deny)
        } else if self.delete_allow_port.len() > 0 {
            Some(FirewallOperation::DeleteAllow)
        } else if self.delete_deny_port.len() > 0 {
            Some(FirewallOperation::DeleteDeny)
        } else {
            None
        }
    }

    /// The operation to carry out, if the options ask for any.
    pub fn operation(&self) -> (r: Option<FirewallOperation>)
        ensures
            r == self.chosen(),
    {
        if self.status {
            Some(FirewallOperation::Status)
        } else if self.allow_port.len() > 0 {
            Some(FirewallOperation::Allow)
        } else if self.deny_port.len() > 0 {
            Some(FirewallOperation::Deny)
        } else if self.delete_allow_port.len() > 0 {
            Some(FirewallOperation::DeleteAllow)
        } else if self.delete_deny_port.len() > 0 {
            Some(FirewallOperation::DeleteDeny)
        } else {
            None
        }
    }

    /// The ports that the operation is about.
    pub fn ports(&self, operation: FirewallOperation) -> (r: &Vec<String>)
        ensures
            *r == match operation {
                FirewallOperation::Allow => self.allow_port,
                FirewallOperation::Deny => self.deny_port,
                FirewallOperation::DeleteAllow => self.delete_allow_port,
                _ => self.delete_deny_port,
            },
    {
        match operation {
            FirewallOperation::Allow => &self.allow_port,
            FirewallOperation::Deny => &self.deny_port,
            FirewallOperation::DeleteAllow => &self.delete_allow_port,
            _ => &self.delete_deny_port,
        }
    }

    /// Checks the options. One operation must be asked for. Returns
    /// `false`: there is work to do on the servers.
    pub fn local_execute(&self) -> (r: Result<bool, String>)
        ensures
            self.chosen() is Some ==> r == Ok::<bool, String>(false),
            self.chosen() is None ==> (r matches Err(m) && m@
                == "No firewall action specified. Use --status, --allow-port, --deny-port, --delete-allow-port, or --delete-deny-port"@),
    {
        if self.operation().is_none() {
            Err(
                owned(
                    "No firewall action specified. Use --status, --allow-port, --deny-port, --delete-allow-port, or --delete-deny-port",
                ),
            )
        } else {
            Ok(false)
        }
    }
}

impl TransferAction {
    /// What is wrong with the options, if anything: a direction must be
    /// given, upload before download, and with it both paths, the remote one
    /// being looked at first.
    pub open spec fn fault(&self) -> Option<Seq<char>> {
        if self.upload {
            if self.remote is None {
                Some("--remote is required for upload"@)
            } else if self.local is None {
                Some("--local is required for upload"@)
            } else {
                None
            }
        } else if self.download {
            if self.remote is None {
                Some("--remote is required for download"@)
            } else if self.local is None {
                Some("--local is required for download"@)
            } else {
                None
            }
        } else {
            Some("No transfer action specified. Use --upload or --download"@)
        }
    }

    /// Checks the options. Returns `false`: there is work to do on the
    /// servers.
    pub fn local_execute(&self) -> (r: Result<bool, String>)
        ensures
            match self.fault() {
                None => r == Ok::<bool, String>(false),
                Some(text) => r matches Err(m) && m@ == text,
            },
    {
        if self.upload {
            if self.remote.is_none() {
                Err(owned("--remote is required for upload"))
            } else if self.local.is_none() {
                Err(owned("--local is required for upload"))
            } else {
                Ok(false)
            }
        } else if self.download {
            if self.remote.is_none() {
                Err(owned("--remote is required for download"))
            } else if self.local.is_none() {
                Err(owned("--local is required for download"))
            } else {
                Ok(false)
            }
        } else {
            Err(owned("No transfer action specified. Use --upload or --download"))
        }
    }

    /// The direction asked for, upload before download.
    pub fn operation(&self) -> (r: Option<Operation>)
        ensures
            r == if self.upload {
                Some(Operation::Upload)
            } else if self.download {
                Some(Operation::Download)
            } else {
                None
            },
    {
        if self.upload {
            Some(Operation::Upload)
        } else if self.download {
            Some(Operation::Download)
        } else {
            None
        }
    }

    /// The configuration of the transfers: the options of the command line,
    /// the retries of the whole command, and default chunk size and
    /// progress interval.
    pub fn transfer_config(&self, max_retry: u32) -> (c: TransferConfig)
        ensures
            c == (TransferConfig {
                force: self.force,
                resume: self.resume,
                max_retry,
                chunk_size: 65536,
                progress_interval: 1000,
            }),
    {
        TransferConfig {
            force: self.force,
            resume: self.resume,
            max_retry,
            chunk_size: crate::transfer::DEFAULT_CHUNK_SIZE,
            progress_interval: crate::transfer::DEFAULT_PROGRESS_INTERVAL,
        }
    }
}

/// `local_path` with `_` and the server's name put before its extension, or
/// at its end where it has none.
pub open spec fn with_server_name(local_path: Seq<char>, server_name: Seq<char>) -> Seq<char> {
    let dot = last_index(local_path, '.');
    if dot >= 0 {
        local_path.take(dot) + "_"@ + server_name + "."@ + local_path.skip(dot + 1)
    } else {
        local_path + "_"@ + server_name
    }
}

/// The local path for what is downloaded from `server_name`, so that the
/// downloads from several servers do not overwrite each other.
pub fn add_server_name(local_path: &str, server_name: &str) -> (r: String)
    ensures
        r@ == with_server_name(local_path@, server_name@),
{
    let chars = to_chars(local_path);
    match rfind_char(&chars, '.') {
        Some(dot) => {
            proof {
                crate::text::lemma_last_index(chars@, '.');
                assert(chars@.subrange(0, dot as int) =~= chars@.take(dot as int));
                assert(chars@.subrange(dot + 1, chars.len() as int) =~= chars@.skip(dot + 1));
            }
            let mut r = from_chars(&chars, 0, dot);
            let ext = from_chars(&chars, dot + 1, chars.len());
            r.append("_");
            r.append(server_name);
            r.append(".");
            r.append(ext.as_str());
            r
        },
        None => {
            let mut r = concat(local_path, "_");
            r.append(server_name);
            r
        },
    }
}

/// `Path::file_name` of `std::path`: the last component of the path, as text,
/// or the empty text where the path has none. What counts as a component
/// depends on the platform, so nothing is said of the result.
#[verifier::external_body]
fn file_name(path: &str) -> (name: String) {
    std::path::Path::new(path).file_name().unwrap_or_default().to_string_lossy().into_owned()
}

/// Whether a file name is too long to be shown whole and can be cut: it has
/// more than 20 bytes, and its byte 17 begins a character.
pub open spec fn can_cut(name: Seq<char>) -> bool {
    encode_utf8(name).len() > 20 && is_char_boundary(encode_utf8(name), 17)
}

/// A file name as the progress display shows it: cut to its first 17 bytes
/// and `...` where it can be cut, else whole.
pub open spec fn display_text(name: Seq<char>) -> Seq<char> {
    if can_cut(name) {
        decode_utf8(encode_utf8(name).subrange(0, 17)) + "..."@
    } else {
        name
    }
}

/// The file name as the progress display shows it: a name of more than 20
/// bytes is cut to its first 17 and `...`. A long name that cannot be cut
/// there, because the cut would fall inside a character, is left out by the
/// precondition.
pub fn display_name(filename: &str) -> (r: String)
    requires
        encode_utf8(filename@).len() > 20 ==> is_char_boundary(encode_utf8(filename@), 17),
    ensures
        r@ == display_text(filename@),
{
    if filename.as_bytes().len() > 20 {
        let (head, _tail) = filename.split_at(17);
        proof {
            vstd::utf8::encode_utf8_decode_utf8(head@);
        }
        concat(head, "...")
    } else {
        owned(filename)
    }
}

/// The file name of `path` as the progress display shows it: cut to its
/// first 17 bytes and `...` where it has more than 20 and can be cut there,
/// else whole. Which part of the path is its file name is for the platform
/// to say.
pub fn get_display_filename(path: &str) -> (r: String)
    ensures
        exists|name: Seq<char>| r@ == #[trigger] display_text(name),
{
    let name = file_name(path);
    if name.as_str().as_bytes().len() > 20 && !name.as_str().is_char_boundary(17) {
        assert(name@ == display_text(name@));
        name
    } else {
        let r = display_name(name.as_str());
        assert(r@ == display_text(name@));
        r
    }
}

impl ComponentAction {
    /// What is wrong with the options for the components that `manager`
    /// holds, if anything. With `list` nothing can be wrong; else the
    /// components to install, or if there are none those to remove, must all
    /// be held, and there must be some.
    pub open spec fn fault(&self, manager: ComponentManager) -> Option<Seq<char>> {
        if self.list {
            None
        } else if self.install.len() > 0 {
            if all_known(views(self.install@), manager) {
                None
            } else {
                Some(
                    "Supported component '"@ + joined(views(self.install@), ", "@)
                        + "' not found"@,
                )
            }
        } else if self.uninstall.len() > 0 {
            if all_known(views(self.uninstall@), manager) {
                None
            } else {
                Some(
                    "Supported component '"@ + joined(views(self.uninstall@), ", "@)
                        + "' not found"@,
                )
            }
        } else {
            Some("No component action specified. Use --list, --install, or --uninstall"@)
        }
    }

    /// Checks the options against the components held. Returns `true`
    /// where the components are only to be listed, which needs no server,
    /// and `false` where there is work to do on the servers.
    pub fn local_execute(&self, manager: &ComponentManager) -> (r: Result<bool, String>)
        ensures
            match self.fault(*manager) {
                None => r == Ok::<bool, String>(self.list),
                Some(text) => r matches Err(m) && m@ == text,
            },
    {
        if self.list {
            Ok(true)
        } else if self.install.len() > 0 {
            if check_components(&self.install, manager) {
                Ok(false)
            } else {
                let mut m = concat("Supported component '", join(&self.install, ", ").as_str());
                m.append("' not found");
                Err(m)
            }
        } else if self.uninstall.len() > 0 {
            if check_components(&self.uninstall, manager) {
                Ok(false)
            } else {
                let mut m = concat("Supported component '", join(&self.uninstall, ", ").as_str());
                m.append("' not found");
                Err(m)
            }
        } else {
            Err(owned("No component action specified. Use --list, --install, or --uninstall"))
        }
    }

    /// Whether components are installed rather than removed on the servers:
    /// installation comes first where both are asked for.
    pub fn installs(&self) -> (r: bool)
        ensures
            r == (self.install.len() > 0),
    {
        self.install.len() > 0
    }
}

impl ScriptAction {
    /// Checks the options. Listing needs no server and returns `true`.
    /// Running needs at least one action and returns `false`; whether the
    /// script has the actions is for `ScriptConfig::check_actions` to say.
    pub fn local_execute(&self) -> (r: Result<bool, String>)
        ensures
            match self.action {
                ScriptSubAction::List(_) => r == Ok::<bool, String>(true),
                ScriptSubAction::Run(run) => if run.action.len() == 0 {
                    r matches Err(m) && m@ == "No actions specified"@
                } else {
                    r == Ok::<bool, String>(false)
                },
            },
    {
        match &self.action {
            ScriptSubAction::List(_) => Ok(true),
            ScriptSubAction::Run(run) => {
                if run.action.len() == 0 {
                    Err(owned("No actions specified"))
                } else {
                    Ok(false)
                }
            },
        }
    }
}

/// The line that shows a configured server.
pub open spec fn server_line_text(name: Seq<char>, config: ServerConfig) -> Seq<char> {
    "  "@ + name + " - "@ + config.username@ + "@"@ + config.host@ + ":"@ + decimal(
        config.client().port as nat,
    ) + " ("@ + (if config.use_password == Some(true) {
        "\u{1f510} Password"@
    } else {
        "\u{1f511} Key"@
    }) + ")"@
}

/// The line that shows a configured server: its name, its address, and how
/// it is logged in to.
pub fn server_line(name: &str, config: &ServerConfig) -> (r: String)
    ensures
        r@ == server_line_text(name@, *config),
{
    let mut r = concat("  ", name);
    r.append(" - ");
    r.append(config.username.as_str());
    r.append("@");
    r.append(config.host.as_str());
    r.append(":");
    push_decimal(&mut r, config.effective_port() as u64);
    r.append(" (");
    r.append(
        if config.uses_password() {
            "\u{1f510} Password"
        } else {
            "\u{1f511} Key"
        },
    );
    r.append(")");
    r
}

/// The line that tells that a server will ask for a password.
pub fn password_notice(name: &str, config: &ServerConfig) -> (r: String)
    ensures
        r@ == "\u{1f510} "@ + name@ + " ("@ + config.username@ + "@"@ + config.host@ + ":"@
            + decimal(config.client().port as nat) + ") requires password authentication"@,
{
    let mut r = concat("\u{1f510} ", name);
    r.append(" (");
    r.append(config.username.as_str());
    r.append("@");
    r.append(config.host.as_str());
    r.append(":");
    push_decimal(&mut r, config.effective_port() as u64);
    r.append(") requires password authentication");
    r
}

/// `n` in decimal, behind a space where it has one digit.
pub open spec fn padded(n: nat) -> Seq<char> {
    if n < 10 {
        " "@ + decimal(n)
    } else {
        decimal(n)
    }
}

/// The line that shows the task at position `index` of a list, counted from
/// 1.
pub fn task_line(index: usize, task: &Task) -> (r: String)
    requires
        index < usize::MAX,
    ensures
        r@ == padded((index + 1) as nat) + " - "@ + crate::executor::task_label(*task),
{
    let n: usize = index + 1;
    let mut r = String::new();
    if n < 10 {
        r.append(" ");
    }
    push_decimal(&mut r, n as u64);
    assert(r@ =~= padded(n as nat));
    r.append(" - ");
    r.append(task.label().as_str());
    r
}

} // verus!
