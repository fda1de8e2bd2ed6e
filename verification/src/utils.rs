//! The command lines for everyday administration of a remote system, by
//! family, and how their results are read.
//!
//! A function here returns the command to run with administrative rights; the
//! caller runs it. Service commands come with a fallback for systems without
//! systemd: the fallback is run when the first command fails, and its result
//! counts only if it succeeds.

use vstd::prelude::*;
use vstd::string::*;
use crate::ssh::{CommandResult, OsType};
use crate::text::{
    concat, decimal, find_char_from, first_index, from_chars, join, joined, owned, push_decimal,
    to_chars, trim, trimmed, views,
};

verus! {

/// What the standard base64 alphabet, with padding, encodes `bytes` to.
pub uninterp spec fn base64_standard(bytes: Seq<u8>) -> Seq<char>;

/// `base64::engine::general_purpose::STANDARD.encode`: the bytes in base64,
/// standard alphabet, padded.
#[verifier::external_body]
fn encode_base64(bytes: &[u8]) -> (r: String)
    ensures
        r@ == base64_standard(bytes@),
{
    base64::Engine::encode(&base64::engine::general_purpose::STANDARD, bytes)
}

/// The command that writes what `encoded` holds in base64 to `path`, and
/// sets `mode` where one is given.
pub open spec fn write_line(path: Seq<char>, encoded: Seq<char>, mode: Option<Seq<char>>) -> Seq<
    char,
> {
    let write = "echo '"@ + encoded + "' | base64 -d > "@ + path;
    match mode {
        Some(mode) => write + " && chmod "@ + mode + " "@ + path,
        None => write,
    }
}

/// The command that writes `content` to `path`, and sets `mode` where one is
/// given. The content travels in base64, so that no character of it is read
/// by the shell.
pub open spec fn create_file_line(path: Seq<char>, content: Seq<u8>, mode: Option<Seq<char>>) -> Seq<
    char,
> {
    write_line(path, base64_standard(content), mode)
}

/// The view of an optional string slice.
pub open spec fn mode_text(mode: Option<&str>) -> Option<Seq<char>> {
    match mode {
        Some(m) => Some(m@),
        None => None,
    }
}

/// The command that writes `content` to the file `path`.
pub fn create_file(path: &str, content: &str, mode: Option<&str>) -> (r: String)
    ensures
        r@ == create_file_line(path@, content.spec_bytes(), mode_text(mode)),
{
    let encoded = encode_base64(content.as_bytes());
    create_file_with(path, encoded.as_str(), mode)
}

/// The command that writes a file, where `encoded` is its content in
/// base64: the content is decoded into `path`, and `mode` is set where one
/// is given.
pub fn create_file_with(path: &str, encoded: &str, mode: Option<&str>) -> (r: String)
    ensures
        r@ == write_line(path@, encoded@, mode_text(mode)),
{
    let mut r = owned("echo '");
    r.append(encoded);
    r.append("' | base64 -d > ");
    r.append(path);
    match mode {
        Some(mode) => {
            r.append(" && chmod ");
            r.append(mode);
            r.append(" ");
            r.append(path);
        },
        None => {},
    }
    r
}

/// The command that creates the directory `path` with its parents, and sets
/// `mode` where one is given.
pub open spec fn create_dir_line(path: Seq<char>, mode: Option<Seq<char>>) -> Seq<char> {
    match mode {
        Some(mode) => "mkdir -p "@ + path + " && chmod "@ + mode + " "@ + path,
        None => "mkdir -p "@ + path,
    }
}

/// The command that creates the directory `path`.
pub fn create_dir(path: &str, mode: Option<&str>) -> (r: String)
    ensures
        r@ == create_dir_line(
            path@,
            match mode {
                Some(m) => Some(m@),
                None => None,
            },
        ),
{
    let mut r = concat("mkdir -p ", path);
    match mode {
        Some(mode) => {
            r.append(" && chmod ");
            r.append(mode);
            r.append(" ");
            r.append(path);
        },
        None => {},
    }
    r
}

/// The command that installs `packages`, a list separated by spaces.
pub open spec fn install_line(os: OsType, packages: Seq<char>) -> Seq<char> {
    match os {
        OsType::Debian => "DEBIAN_FRONTEND=noninteractive apt install -y -o Dpkg::Options::=\"--force-confdef\" -o Dpkg::Options::=\"--force-confold\" "@
            + packages,
        OsType::RedHat => "yum install -y "@ + packages,
        OsType::Arch => "pacman -S --noconfirm "@ + packages,
    }
}

/// The command that removes `packages`, a list separated by spaces.
pub open spec fn uninstall_line(os: OsType, packages: Seq<char>) -> Seq<char> {
    match os {
        OsType::Debian => "apt remove -y "@ + packages,
        OsType::RedHat => "yum remove -y "@ + packages,
        OsType::Arch => "pacman -R --noconfirm "@ + packages,
    }
}

/// The command that brings every package up to date, its output kept in a
/// log file on the remote system.
pub open spec fn update_line(os: OsType) -> Seq<char> {
    match os {
        OsType::Debian => "DEBIAN_FRONTEND=noninteractive apt update && apt upgrade -y -o Dpkg::Options::=\"--force-confdef\" -o Dpkg::Options::=\"--force-confold\""@
            + " > /tmp/update_system.log"@,
        OsType::RedHat => "yum update -y"@ + " > /tmp/update_system.log"@,
        OsType::Arch => "pacman -Syu --noconfirm"@ + " > /tmp/update_system.log"@,
    }
}

/// The command that installs one package.
pub fn install(os: OsType, package: &str) -> (r: String)
    ensures
        r@ == install_line(os, package@),
{
    match os {
        OsType::Debian => concat(
            "DEBIAN_FRONTEND=noninteractive apt install -y -o Dpkg::Options::=\"--force-confdef\" -o Dpkg::Options::=\"--force-confold\" ",
            package,
        ),
        OsType::RedHat => concat("yum install -y ", package),
        OsType::Arch => concat("pacman -S --noconfirm ", package),
    }
}

/// The command that installs all of `packages` at once.
pub fn install_packages(os: OsType, packages: &Vec<String>) -> (r: String)
    ensures
        r@ == install_line(os, joined(views(packages@), " "@)),
{
    let list = join(packages, " ");
    install(os, list.as_str())
}

/// The command that removes one package.
pub fn uninstall(os: OsType, package: &str) -> (r: String)
    ensures
        r@ == uninstall_line(os, package@),
{
    match os {
        OsType::Debian => concat("apt remove -y ", package),
        OsType::RedHat => concat("yum remove -y ", package),
        OsType::Arch => concat("pacman -R --noconfirm ", package),
    }
}

/// The command that removes all of `packages` at once.
pub fn uninstall_packages(os: OsType, packages: &Vec<String>) -> (r: String)
    ensures
        r@ == uninstall_line(os, joined(views(packages@), " "@)),
{
    let list = join(packages, " ");
    uninstall(os, list.as_str())
}

/// The command that brings every package up to date.
pub fn update_system(os: OsType) -> (r: String)
    ensures
        r@ == update_line(os),
{
    match os {
        OsType::Debian => concat(
            "DEBIAN_FRONTEND=noninteractive apt update && apt upgrade -y -o Dpkg::Options::=\"--force-confdef\" -o Dpkg::Options::=\"--force-confold\"",
            " > /tmp/update_system.log",
        ),
        OsType::RedHat => concat("yum update -y", " > /tmp/update_system.log"),
        OsType::Arch => concat("pacman -Syu --noconfirm", " > /tmp/update_system.log"),
    }
}

/// A command on a service, and the command to try if it fails.
#[derive(Debug)]
pub struct ServiceCommand {
    pub primary: String,
    pub fallback: String,
}

/// What is done to a service.
#[derive(Debug, Clone, Copy, PartialEq, Eq, Structural)]
pub enum ServiceAction {
    Start,
    Stop,
    Restart,
    Reload,
    Status,
}

/// The word for `action` in a service command.
pub open spec fn action_word(action: ServiceAction) -> Seq<char> {
    match action {
        ServiceAction::Start => "start"@,
        ServiceAction::Stop => "stop"@,
        ServiceAction::Restart => "restart"@,
        ServiceAction::Reload => "reload"@,
        ServiceAction::Status => "status"@,
    }
}

/// The command that switches a service on at boot where the first one
/// failed.
pub open spec fn enable_fallback(os: OsType, service: Seq<char>) -> Seq<char> {
    match os {
        OsType::Debian => "update-rc.d "@ + service + " defaults"@,
        OsType::RedHat => "chkconfig "@ + service + " on"@,
        OsType::Arch => "systemctl enable "@ + service,
    }
}

/// The command that switches a service off at boot where the first one
/// failed.
pub open spec fn disable_fallback(os: OsType, service: Seq<char>) -> Seq<char> {
    match os {
        OsType::Debian => "update-rc.d -f "@ + service + " remove"@,
        OsType::RedHat => "chkconfig "@ + service + " off"@,
        OsType::Arch => "systemctl disable "@ + service,
    }
}

/// Switching `service` on at boot: by systemd, else by the family's own
/// tool.
pub fn enable_service(os: OsType, service: &str) -> (r: ServiceCommand)
    ensures
        r.primary@ == "systemctl enable "@ + service@,
        r.fallback@ == enable_fallback(os, service@),
{
    let primary = concat("systemctl enable ", service);
    let fallback = match os {
        OsType::Debian => {
            let mut f = concat("update-rc.d ", service);
            f.append(" defaults");
            f
        },
        OsType::RedHat => {
            let mut f = concat("chkconfig ", service);
            f.append(" on");
            f
        },
        OsType::Arch => concat("systemctl enable ", service),
    };
    ServiceCommand { primary, fallback }
}

/// Switching `service` off at boot: by systemd, else by the family's own
/// tool.
pub fn disable_service(os: OsType, service: &str) -> (r: ServiceCommand)
    ensures
        r.primary@ == "systemctl disable "@ + service@,
        r.fallback@ == disable_fallback(os, service@),
{
    let primary = concat("systemctl disable ", service);
    let fallback = match os {
        OsType::Debian => {
            let mut f = concat("update-rc.d -f ", service);
            f.append(" remove");
            f
        },
        OsType::RedHat => {
            let mut f = concat("chkconfig ", service);
            f.append(" off");
            f
        },
        OsType::Arch => concat("systemctl disable ", service),
    };
    ServiceCommand { primary, fallback }
}

/// The word for `action`.
pub fn action_name(action: ServiceAction) -> (r: &'static str)
    ensures
        r@ == action_word(action),
{
    match action {
        ServiceAction::Start => "start",
        ServiceAction::Stop => "stop",
        ServiceAction::Restart => "restart",
        ServiceAction::Reload => "reload",
        ServiceAction::Status => "status",
    }
}

/// `action` on `service`: by `systemctl`, else by `service`.
pub fn service_command(action: ServiceAction, service: &str) -> (r: ServiceCommand)
    ensures
        r.primary@ == "systemctl "@ + action_word(action) + " "@ + service@,
        r.fallback@ == "service "@ + service@ + " "@ + action_word(action),
{
    let word = action_name(action);
    let mut primary = concat("systemctl ", word);
    primary.append(" ");
    primary.append(service);
    let mut fallback = concat("service ", service);
    fallback.append(" ");
    fallback.append(word);
    ServiceCommand { primary, fallback }
}

/// Starting `service`.
pub fn start_service(service: &str) -> (r: ServiceCommand)
    ensures
        r.primary@ == "systemctl "@ + "start"@ + " "@ + service@,
        r.fallback@ == "service "@ + service@ + " "@ + "start"@,
{
    service_command(ServiceAction::Start, service)
}

/// Stopping `service`.
pub fn stop_service(service: &str) -> (r: ServiceCommand)
    ensures
        r.primary@ == "systemctl "@ + "stop"@ + " "@ + service@,
        r.fallback@ == "service "@ + service@ + " "@ + "stop"@,
{
    service_command(ServiceAction::Stop, service)
}

/// Restarting `service`.
pub fn restart_service(service: &str) -> (r: ServiceCommand)
    ensures
        r.primary@ == "systemctl "@ + "restart"@ + " "@ + service@,
        r.fallback@ == "service "@ + service@ + " "@ + "restart"@,
{
    service_command(ServiceAction::Restart, service)
}

/// Making `service` read its configuration anew.
pub fn reload_service(service: &str) -> (r: ServiceCommand)
    ensures
        r.primary@ == "systemctl "@ + "reload"@ + " "@ + service@,
        r.fallback@ == "service "@ + service@ + " "@ + "reload"@,
{
    service_command(ServiceAction::Reload, service)
}

/// Asking for the state of `service`.
pub fn service_status(service: &str) -> (r: ServiceCommand)
    ensures
        r.primary@ == "systemctl "@ + "status"@ + " "@ + service@,
        r.fallback@ == "service "@ + service@ + " "@ + "status"@,
{
    service_command(ServiceAction::Status, service)
}

/// Whether the fallback is to be tried after `first`: it is when the first
/// command failed.
pub fn needs_fallback(first: &CommandResult) -> (r: bool)
    ensures
        r == (first.exit_status != 0),
{
    first.exit_status != 0
}

/// The result that counts after the fallback was tried: the fallback's where
/// it succeeded, else that of the first command.
pub fn settle(first: CommandResult, fallback: CommandResult) -> (r: CommandResult)
    ensures
        r == if fallback.exit_status == 0 {
            fallback
        } else {
            first
        },
{
    if fallback.exit_status == 0 {
        fallback
    } else {
        first
    }
}

/// `line` without one final carriage return.
pub open spec fn strip_cr(line: Seq<char>) -> Seq<char> {
    if line.len() > 0 && line.last() == '\r' {
        line.drop_last()
    } else {
        line
    }
}

/// The lines of `s`. A line ends with a line feed, or with a carriage return
/// and a line feed; the ending is no part of it. The last line need not have
/// an ending, and an ending at the very end opens no further line.
pub open spec fn text_lines(s: Seq<char>) -> Seq<Seq<char>>
    decreases s.len(),
{
    let at = first_index(s, '\n');
    if s.len() == 0 {
        Seq::empty()
    } else if at < 0 || at >= s.len() {
        seq![s]
    } else {
        seq![strip_cr(s.take(at))] + text_lines(s.skip(at + 1))
    }
}

/// The lines of `s`.
pub fn lines(s: &str) -> (r: Vec<String>)
    ensures
        views(r@) == text_lines(s@),
{
    let chars = to_chars(s);
    let ghost all = chars@;
    let mut r: Vec<String> = Vec::new();
    let mut start: usize = 0;
    proof {
        assert(all.skip(0) =~= all);
        assert(views(r@) + text_lines(all) =~= text_lines(all));
    }
    while start < chars.len()
        invariant
            start <= chars.len(),
            chars@ == all,
            text_lines(all) == views(r@) + text_lines(all.skip(start as int)),
        decreases chars.len() - start,
    {
        let ghost rest = all.skip(start as int);
        let ghost before = views(r@);
        let at = find_char_from(&chars, start, '\n');
        if at >= chars.len() {
            let line = from_chars(&chars, start, chars.len());
            r.push(line);
            proof {
                assert(all.subrange(start as int, chars.len() as int) =~= rest);
                assert(views(r@) =~= before.push(rest));
                assert(all.skip(chars.len() as int) =~= Seq::<char>::empty());
                assert(before + seq![rest] =~= before.push(rest) + text_lines(
                    all.skip(chars.len() as int),
                ));
            }
            start = chars.len();
        } else {
            let end: usize = if at > start && chars[at - 1] == '\r' {
                (at - 1) as usize
            } else {
                at
            };
            let line = from_chars(&chars, start, end);
            r.push(line);
            proof {
                assert(rest.take(at - start) =~= all.subrange(start as int, at as int));
                assert(line@ =~= strip_cr(rest.take(at - start)));
                assert(rest.skip(at - start + 1) =~= all.skip(at + 1));
                assert(views(r@) =~= before.push(line@));
                assert(before + (seq![line@] + text_lines(all.skip(at + 1))) =~= before.push(line@)
                    + text_lines(all.skip(at + 1)));
            }
            start = at + 1;
        }
    }
    proof {
        assert(views(r@) + Seq::<Seq<char>>::empty() =~= views(r@));
    }
    r
}

/// `message` cut to its first `max_lines` lines, with a note of how many
/// lines were left out; `message` itself where it has no more lines than
/// that.
pub open spec fn truncated(message: Seq<char>, max_lines: int) -> Seq<char> {
    let all = text_lines(message);
    if all.len() <= max_lines {
        message
    } else {
        joined(all.take(max_lines), "\n"@) + "\n... (truncated "@ + decimal(
            (all.len() - max_lines) as nat,
        ) + " more lines)"@
    }
}

/// Cuts an error message to at most `max_lines` lines for display.
pub fn truncate_error_message(message: &str, max_lines: usize) -> (r: String)
    ensures
        r@ == truncated(message@, max_lines as int),
{
    let mut all = lines(message);
    if all.len() <= max_lines {
        owned(message)
    } else {
        let more: usize = all.len() - max_lines;
        let ghost whole = views(all@);
        all.truncate(max_lines);
        assert(views(all@) =~= whole.take(max_lines as int));
        let mut r = join(&all, "\n");
        r.append("\n... (truncated ");
        push_decimal(&mut r, more as u64);
        r.append(" more lines)");
        r
    }
}

/// `what`, the exit status, and the first three lines of the trimmed output.
pub open spec fn failure_text(what: Seq<char>, exit_status: u32, output: Seq<char>) -> Seq<char> {
    what + " (exit code: "@ + decimal(exit_status as nat) + ") - "@ + truncated(trim(output), 3)
}

/// The message for a command that failed: what failed, the exit status, and
/// the beginning of what the command printed.
pub fn failure_message(what: &str, result: &CommandResult) -> (r: String)
    ensures
        r@ == failure_text(what@, result.exit_status, result.output@),
{
    let output = trimmed(result.output.as_str());
    let short = truncate_error_message(output.as_str(), 3);
    let mut r = concat(what, " (exit code: ");
    push_decimal(&mut r, result.exit_status as u64);
    r.append(") - ");
    r.append(short.as_str());
    r
}

/// Reads the result of a command that must succeed: an exit status other
/// than 0 is an error, told with `what`.
pub fn expect_success(what: &str, result: &CommandResult) -> (r: Result<(), String>)
    ensures
        result.exit_status == 0 ==> r is Ok,
        result.exit_status != 0 ==> (r matches Err(m) && m@ == failure_text(
            what@,
            result.exit_status,
            result.output@,
        )),
{
    if result.exit_status == 0 {
        Ok(())
    } else {
        Err(failure_message(what, result))
    }
}

} // verus!
