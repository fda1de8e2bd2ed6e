//! How the work on one server is judged and shown once its commands have
//! run: the line that reports it, the error of a command that failed, and
//! the choices that depend on how many servers there are or on which of
//! them were named.

use vstd::prelude::*;
use vstd::string::*;
use crate::cli::{add_server_name, command_failed_on, with_server_name, Operation};
use crate::executor::Task;
use crate::ssh::{client_label, CommandResult};
use crate::text::{concat, decimal, owned, push_decimal, str_eq};
use crate::transfer::TransferProgress;

verus! {

/// `name (user@host:port)`, as the reports name a task.
pub open spec fn task_name(task: Task) -> Seq<char> {
    task.srv_name@ + " ("@ + client_label(task.ssh_client@) + ")"@
}

/// The report of the work on one server: `OK name (user@host:port) -
/// Success`, or `FAILED name (user@host:port) - Failed: ` and the error.
pub open spec fn report_text(task: Task, error: Option<Seq<char>>) -> Seq<char> {
    match error {
        None => "OK "@ + task_name(task) + " - Success"@,
        Some(e) => "FAILED "@ + task_name(task) + " - Failed: "@ + e,
    }
}

/// An optional text as plain values.
pub open spec fn text_of(t: Option<&str>) -> Option<Seq<char>> {
    match t {
        Some(s) => Some(s@),
        None => None,
    }
}

/// Appends `name (user@host:port)` to `out`.
fn push_task_name(out: &mut String, task: &Task)
    ensures
        final(out)@ == old(out)@ + task_name(*task),
{
    let client = task.ssh_client.label();
    out.append(task.srv_name.as_str());
    out.append(" (");
    out.append(client.as_str());
    out.append(")");
    assert(out@ =~= old(out)@ + task_name(*task));
}

/// The line that reports the work on one server, which ended well or with
/// `error`.
pub fn report_line(task: &Task, error: Option<&str>) -> (r: String)
    ensures
        r@ == report_text(*task, text_of(error)),
{
    match error {
        None => {
            let mut r = owned("OK ");
            push_task_name(&mut r, task);
            r.append(" - Success");
            r
        },
        Some(e) => {
            let mut r = owned("FAILED ");
            push_task_name(&mut r, task);
            r.append(" - Failed: ");
            r.append(e);
            r
        },
    }
}

/// The report of one command run on one server: as [`report_text`] where
/// it ended with status 0, else `FAILED name (user@host:port) - Failed
/// (exit code: ` and the status, then `)`.
pub open spec fn command_report_text(task: Task, exit_status: u32) -> Seq<char> {
    if exit_status == 0 {
        report_text(task, None)
    } else {
        "FAILED "@ + task_name(task) + " - Failed (exit code: "@ + decimal(exit_status as nat)
            + ")"@
    }
}

/// The line that reports one command run on one server.
pub fn command_report_line(task: &Task, result: &CommandResult) -> (r: String)
    ensures
        r@ == command_report_text(*task, result.exit_status),
{
    if result.exit_status == 0 {
        report_line(task, None)
    } else {
        let mut r = owned("FAILED ");
        push_task_name(&mut r, task);
        r.append(" - Failed (exit code: ");
        push_decimal(&mut r, result.exit_status as u64);
        r.append(")");
        r
    }
}

/// Whether one command run on a server counts as done: it does with exit
/// status 0, and any other status is the error `Command failed on ` and the
/// server's name.
pub fn command_verdict(srv_name: &str, result: &CommandResult) -> (r: Result<(), String>)
    ensures
        result.exit_status == 0 ==> r is Ok,
        result.exit_status != 0 ==> (r matches Err(m) && m@ == "Command failed on "@ + srv_name@),
{
    if result.exit_status == 0 {
        Ok(())
    } else {
        Err(command_failed_on(srv_name))
    }
}

/// Where a download from `srv_name` is written: to `local` where there is
/// one server, and to `local` with the server's name in it where there are
/// more, so that the downloads do not overwrite each other.
pub fn download_target(local: &str, srv_name: &str, servers: usize) -> (r: String)
    ensures
        r@ == if servers > 1 {
            with_server_name(local@, srv_name@)
        } else {
            local@
        },
{
    if servers > 1 {
        add_server_name(local, srv_name)
    } else {
        owned(local)
    }
}

/// The path that the progress display shows for a transfer: the local path
/// of an upload, the remote path of a download.
pub fn shown_path(operation: Operation, progress: &TransferProgress) -> (r: &String)
    ensures
        *r == match operation {
            Operation::Upload => progress.local_path,
            Operation::Download => progress.remote_path,
        },
{
    match operation {
        Operation::Upload => &progress.local_path,
        Operation::Download => &progress.remote_path,
    }
}

/// `name` is one of `names`.
pub open spec fn named_in(names: Seq<String>, name: Seq<char>) -> bool {
    exists|i: int| 0 <= i < names.len() && (#[trigger] names[i])@ == name
}

/// Whether the server `name` is among those that the command is for: every
/// server is where no names were given, else those that were named.
pub fn is_asked(name: &str, names: Option<&Vec<String>>) -> (r: bool)
    ensures
        r == match names {
            None => true,
            Some(list) => named_in(list@, name@),
        },
{
    match names {
        None => true,
        Some(list) => {
            let mut i: usize = 0;
            while i < list.len()
                invariant
                    i <= list.len(),
                    names == Some(list),
                    forall|j: int| 0 <= j < i ==> (#[trigger] list@[j])@ != name@,
                decreases list.len() - i,
            {
                if str_eq(list[i].as_str(), name) {
                    assert(list@[i as int]@ == name@);
                    return true;
                }
                i += 1;
            }
            false
        },
    }
}

} // verus!
