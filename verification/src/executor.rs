//! The task executor: a fixed list of per-server tasks handed out to a bounded
//! number of workers, each task retried on its own and failing on its own.
//!
//! [`TaskQueue`] is the queue that the workers share: every task is enqueued
//! under its position in the list before the first is handed out, and each is
//! handed out once. [`worker_count`] bounds the workers by the tasks.
//! [`execute_tasks`] runs the whole pool on the calling thread, the workers
//! taking turns, and reports how each task ended.

use vstd::prelude::*;
use vstd::string::*;
use crate::config::{find_server, server_index, Credential, ServerEntry};
use crate::retry::{delay, sleeps_through, slept_as, Retry, RetryDecision, MAX_RETRY};
use crate::ssh::{client_label, Client};
use crate::text::owned;

verus! {

/// One server to work on: its name and how to reach it.
#[derive(Debug)]
pub struct Task {
    pub srv_name: String,
    pub ssh_client: Client,
}

/// `name - user@host:port`.
pub open spec fn task_label(t: Task) -> Seq<char> {
    t.srv_name@ + " - "@ + client_label(t.ssh_client@)
}

/// `Server 'name (user@host:port)'`.
pub open spec fn task_log_prefix(t: Task) -> Seq<char> {
    "Server '"@ + t.srv_name@ + " ("@ + client_label(t.ssh_client@) + ")'"@
}

impl Task {
    /// The text by which the task is listed: `name - user@host:port`.
    pub fn label(&self) -> (r: String)
        ensures
            r@ == task_label(*self),
    {
        let client = self.ssh_client.label();
        let mut r = owned(self.srv_name.as_str());
        r.append(" - ");
        r.append(client.as_str());
        r
    }

    /// The text that marks the task in the log of its attempts.
    pub fn log_prefix(&self) -> (r: String)
        ensures
            r@ == task_log_prefix(*self),
    {
        let client = self.ssh_client.label();
        let mut r = owned("Server '");
        r.append(self.srv_name.as_str());
        r.append(" (");
        r.append(client.as_str());
        r.append(")'");
        r
    }
}

/// The task for one configured server.
pub open spec fn task_of(entry: ServerEntry, t: Task) -> bool {
    t.srv_name@ == entry.name@ && t.ssh_client@ == entry.config.client()
}

/// The server selects a credential, so that a task can be built for it.
pub open spec fn usable(entry: ServerEntry) -> bool {
    entry.config.credential() != Credential::Missing
}

/// Why no tasks were built.
#[derive(Debug)]
pub enum TaskError {
    /// No server is configured under this name.
    UnknownServer { name: String },
    /// The server of this name selects no credential: neither a key path nor
    /// a password, nor is the operator to be asked.
    NoAuthMethod { name: String },
}

/// The name of the server that the error is about.
pub open spec fn error_name(e: TaskError) -> Seq<char> {
    match e {
        TaskError::UnknownServer { name } => name@,
        TaskError::NoAuthMethod { name } => name@,
    }
}

/// The error in words.
pub open spec fn task_error_text(e: TaskError) -> Seq<char> {
    match e {
        TaskError::UnknownServer { name } => "Server '"@ + name@ + "' not found"@,
        TaskError::NoAuthMethod { name } => "Server '"@ + name@
            + "': No authentication method provided (need password or private key)"@,
    }
}

impl TaskError {
    /// The error in words.
    pub fn message(&self) -> (r: String)
        ensures
            r@ == task_error_text(*self),
    {
        match self {
            TaskError::UnknownServer { name } => {
                let mut r = owned("Server '");
                r.append(name.as_str());
                r.append("' not found");
                r
            },
            TaskError::NoAuthMethod { name } => {
                let mut r = owned("Server '");
                r.append(name.as_str());
                r.append("': No authentication method provided (need password or private key)");
                r
            },
        }
    }
}

/// Whether `r` is what building a task for every server of `servers` gives:
/// a task for each, in order, where every server selects a credential; else
/// the error that names the first server that selects none.
pub open spec fn built_from(r: Result<Vec<Task>, TaskError>, servers: Seq<ServerEntry>) -> bool {
    match r {
        Ok(tasks) => {
            &&& tasks.len() == servers.len()
            &&& forall|i: int|
                0 <= i < servers.len() ==> usable(servers[i]) && task_of(
                    servers[i],
                    #[trigger] tasks@[i],
                )
        },
        Err(TaskError::NoAuthMethod { name }) => exists|i: int|
            {
                &&& 0 <= i < servers.len()
                &&& name@ == servers[i].name@
                &&& !usable(servers[i])
                &&& forall|j: int| 0 <= j < i ==> usable(#[trigger] servers[j])
            },
        Err(TaskError::UnknownServer { name }) => false,
    }
}

/// One task per configured server, in the order of the configuration. A
/// server without a credential is a configuration in error: no task is built
/// then, and the error names the first such server.
pub fn build_tasks(servers: &Vec<ServerEntry>) -> (r: Result<Vec<Task>, TaskError>)
    ensures
        built_from(r, servers@),
{
    let mut tasks: Vec<Task> = Vec::new();
    let mut i: usize = 0;
    while i < servers.len()
        invariant
            i <= servers.len(),
            tasks.len() == i,
            forall|j: int| 0 <= j < i ==> usable(#[trigger] servers@[j]),
            forall|j: int| 0 <= j < i ==> task_of(servers@[j], #[trigger] tasks@[j]),
        decreases servers.len() - i,
    {
        let entry = &servers[i];
        match entry.config.build_client() {
            Ok(ssh_client) => {
                tasks.push(Task { srv_name: entry.name.clone(), ssh_client });
            },
            Err(_) => {
                let r = Err(TaskError::NoAuthMethod { name: entry.name.clone() });
                assert(!usable(servers@[i as int]));
                assert(built_from(r, servers@));
                return r;
            },
        }
        i += 1;
    }
    Ok(tasks)
}

/// `task` is the task for the server configured under `name`, which selects
/// a credential.
pub open spec fn selected(servers: Seq<ServerEntry>, name: Seq<char>, task: Task) -> bool {
    let at = server_index(servers, name);
    at < servers.len() && usable(servers[at]) && task_of(servers[at], task)
}

/// A server is configured under `name`.
pub open spec fn configured(servers: Seq<ServerEntry>, name: Seq<char>) -> bool {
    server_index(servers, name) < servers.len()
}

/// A server is configured under `name` and selects a credential.
pub open spec fn ready(servers: Seq<ServerEntry>, name: Seq<char>) -> bool {
    configured(servers, name) && usable(servers[server_index(servers, name)])
}

/// `name` is the first of `names` for which no task can be built.
pub open spec fn first_not_ready(
    servers: Seq<ServerEntry>,
    names: Seq<String>,
    name: Seq<char>,
    i: int,
) -> bool {
    &&& 0 <= i < names.len()
    &&& name == names[i]@
    &&& !ready(servers, names[i]@)
    &&& forall|j: int| 0 <= j < i ==> ready(servers, #[trigger] names[j]@)
}

/// Whether `r` is what building a task for each of `names` gives: a task for
/// each, in order, where every name is that of a server with a credential;
/// else the error of the first name that is not, which tells whether the
/// server is unknown or has no credential.
pub open spec fn selected_from(
    r: Result<Vec<Task>, TaskError>,
    servers: Seq<ServerEntry>,
    names: Seq<String>,
) -> bool {
    match r {
        Ok(tasks) => {
            &&& tasks.len() == names.len()
            &&& forall|i: int|
                0 <= i < names.len() ==> selected(servers, names[i]@, #[trigger] tasks@[i])
        },
        Err(e) => {
            &&& exists|i: int| #[trigger] first_not_ready(servers, names, error_name(e), i)
            &&& e is UnknownServer <==> !configured(servers, error_name(e))
        },
    }
}

/// One task per name, each for the server configured under that name. Where
/// a name is not configured, or its server has no credential, the first such
/// name is the error.
pub fn select_tasks(servers: &Vec<ServerEntry>, names: &Vec<String>) -> (r: Result<
    Vec<Task>,
    TaskError,
>)
    ensures
        selected_from(r, servers@, names@),
{
    let mut tasks: Vec<Task> = Vec::new();
    let mut i: usize = 0;
    while i < names.len()
        invariant
            i <= names.len(),
            tasks.len() == i,
            forall|j: int| 0 <= j < i ==> selected(servers@, names@[j]@, #[trigger] tasks@[j]),
            forall|j: int| 0 <= j < i ==> ready(servers@, #[trigger] names@[j]@),
        decreases names.len() - i,
    {
        match find_server(servers, names[i].as_str()) {
            Some(at) => {
                let entry = &servers[at];
                match entry.config.build_client() {
                    Ok(ssh_client) => {
                        let task = Task { srv_name: entry.name.clone(), ssh_client };
                        assert(selected(servers@, names@[i as int]@, task));
                        assert(ready(servers@, names@[i as int]@));
                        tasks.push(task);
                    },
                    Err(_) => {
                        let name = names[i].clone();
                        assert(first_not_ready(servers@, names@, name@, i as int));
                        assert(configured(servers@, name@));
                        return Err(TaskError::NoAuthMethod { name });
                    },
                }
            },
            None => {
                let name = names[i].clone();
                let ghost text = name@;
                assert(first_not_ready(servers@, names@, text, i as int));
                assert(!configured(servers@, text));
                let e = TaskError::UnknownServer { name };
                assert(error_name(e) == text);
                assert(e is UnknownServer);
                return Err(e);
            },
        }
        i += 1;
    }
    Ok(tasks)
}

/// The number of workers for `task_count` tasks where `thread_num` are asked
/// for: never more workers than tasks.
pub open spec fn workers_for(thread_num: int, task_count: int) -> int {
    if thread_num <= task_count {
        thread_num
    } else {
        task_count
    }
}

/// The number of workers to start.
pub fn worker_count(thread_num: usize, task_count: usize) -> (n: usize)
    ensures
        n == workers_for(thread_num as int, task_count as int),
{
    if thread_num <= task_count {
        thread_num
    } else {
        task_count
    }
}

/// The tasks still to be handed out, each known by its position in the list
/// that the queue was filled with.
#[derive(Debug)]
pub struct TaskQueue {
    total: usize,
    pending: Vec<Task>,
}

/// A `TaskQueue` as plain values.
pub ghost struct TaskQueueView {
    /// The number of tasks the queue was filled with.
    pub total: nat,
    /// The tasks not yet handed out, the next one first.
    pub pending: Seq<Task>,
}

impl TaskQueueView {
    /// The number of tasks handed out so far, which is the position of the
    /// next one.
    pub open spec fn handed(&self) -> int {
        self.total - self.pending.len()
    }

    /// What the queue hands out next: the first pending task with its
    /// position, or nothing.
    pub open spec fn front(&self) -> Option<(int, Task)> {
        if self.pending.len() > 0 {
            Some((self.handed(), self.pending[0]))
        } else {
            None
        }
    }

    /// The queue after it has handed out once.
    pub open spec fn popped(&self) -> TaskQueueView {
        if self.pending.len() > 0 {
            TaskQueueView { total: self.total, pending: self.pending.skip(1) }
        } else {
            *self
        }
    }

    /// What `n` requests in a row are answered with, whoever makes them:
    /// the tasks handed out, in order, each with its position.
    pub open spec fn handed_out(&self, n: nat) -> Seq<(int, Task)>
        decreases n,
    {
        if n == 0 || self.pending.len() == 0 {
            Seq::empty()
        } else {
            seq![(self.handed(), self.pending[0])] + self.popped().handed_out((n - 1) as nat)
        }
    }
}

/// A queue filled with `tasks` hands out each task once, at its position in
/// the list and in the order of the list, however many workers ask and in
/// whatever order they do: `n` requests are answered with the first `n`
/// tasks, and with all of them once `n` reaches their number.
pub proof fn law_queue_hands_each_index_once(tasks: Seq<Task>, n: nat)
    ensures
        (TaskQueueView { total: tasks.len(), pending: tasks }).handed_out(n) == Seq::new(
            if n <= tasks.len() {
                n
            } else {
                tasks.len()
            },
            |i: int| (i, tasks[i]),
        ),
{
    let q = TaskQueueView { total: tasks.len(), pending: tasks };
    lemma_handed_out(q, n);
    assert(q.handed_out(n) =~= Seq::new(
        if n <= tasks.len() {
            n
        } else {
            tasks.len()
        },
        |i: int| (i, tasks[i]),
    ));
}

proof fn lemma_handed_out(q: TaskQueueView, n: nat)
    requires
        q.pending.len() <= q.total,
    ensures
        q.handed_out(n).len() == if n <= q.pending.len() {
            n
        } else {
            q.pending.len()
        },
        forall|i: int|
            0 <= i < q.handed_out(n).len() ==> q.handed_out(n)[i] == (q.handed() + i, q.pending[i]),
    decreases n,
{
    if n > 0 && q.pending.len() > 0 {
        let rest = q.popped();
        lemma_handed_out(rest, (n - 1) as nat);
        let tail = rest.handed_out((n - 1) as nat);
        assert forall|i: int| 0 <= i < q.handed_out(n).len() implies q.handed_out(n)[i] == (
            q.handed() + i,
            q.pending[i],
        ) by {
            if i > 0 {
                assert(q.handed_out(n)[i] == tail[i - 1]);
                assert(rest.pending[i - 1] == q.pending[i]);
            }
        }
    }
}

impl View for TaskQueue {
    type V = TaskQueueView;

    closed spec fn view(&self) -> TaskQueueView {
        TaskQueueView { total: self.total as nat, pending: self.pending@ }
    }
}

impl TaskQueue {
    /// No more tasks are pending than were enqueued.
    pub open spec fn wf(&self) -> bool {
        self@.pending.len() <= self@.total
    }

    /// A queue holding all of `tasks`, none handed out yet.
    pub fn new(tasks: Vec<Task>) -> (q: TaskQueue)
        ensures
            q.wf(),
            q@.total == tasks.len(),
            q@.pending == tasks@,
    {
        TaskQueue { total: tasks.len(), pending: tasks }
    }

    /// The number of tasks not yet handed out.
    pub fn remaining(&self) -> (n: usize)
        ensures
            n == self@.pending.len(),
    {
        self.pending.len()
    }

    /// Hands out the next task with its position in the list, or `None` once
    /// every task has been handed out.
    pub fn next(&mut self) -> (r: Option<(usize, Task)>)
        requires
            old(self).wf(),
        ensures
            final(self).wf(),
            final(self)@.total == old(self)@.total,
            match r {
                Some((index, task)) => {
                    &&& old(self)@.pending.len() > 0
                    &&& index == old(self)@.handed()
                    &&& task == old(self)@.pending[0]
                    &&& final(self)@.pending == old(self)@.pending.skip(1)
                },
                None => old(self)@.pending.len() == 0 && final(self)@ == old(self)@,
            },
            final(self)@ == old(self)@.popped(),
            r is Some == old(self)@.front() is Some,
    {
        if self.pending.len() == 0 {
            None
        } else {
            let index: usize = self.total - self.pending.len();
            let task = self.pending.remove(0);
            assert(self.pending@ =~= old(self).pending@.skip(1));
            Some((index, task))
        }
    }
}

/// How one task ended.
#[derive(Debug)]
pub struct TaskOutcome<E, W> {
    /// The task's position in the list.
    pub index: usize,
    /// The worker whose turn it was. The run on the calling thread hands
    /// the tasks to its workers in rotation; a pool of real workers gives a
    /// task to whichever worker asks first.
    pub worker: usize,
    /// The number of attempts made.
    pub attempts: u32,
    /// The result of the last attempt.
    pub result: Result<(), E>,
    /// What the sleep gave back each time it was called for the task: once
    /// after each attempt but the last.
    pub slept: Vec<W>,
}

/// How a run of the pool ended.
#[derive(Debug)]
pub struct ExecutionReport<E, W> {
    /// The number of workers that took part.
    pub workers: usize,
    /// One outcome per task attempted, in the order of the task list.
    pub outcomes: Vec<TaskOutcome<E, W>>,
}

/// The number of outcomes that are failures.
pub open spec fn failed_count<E, W>(outcomes: Seq<TaskOutcome<E, W>>) -> nat
    decreases outcomes.len(),
{
    if outcomes.len() == 0 {
        0
    } else if outcomes.last().result is Err {
        failed_count(outcomes.drop_last()) + 1
    } else {
        failed_count(outcomes.drop_last())
    }
}

impl<E, W> ExecutionReport<E, W> {
    /// The number of tasks that failed after all their attempts. The pool
    /// itself does not fail on their account; what a failed task means for
    /// the whole run is for the caller to decide from this.
    pub fn failures(&self) -> (n: usize)
        ensures
            n == failed_count(self.outcomes@),
    {
        let mut n: usize = 0;
        let mut i: usize = 0;
        assert(self.outcomes@.take(0) =~= Seq::<TaskOutcome<E, W>>::empty());
        while i < self.outcomes.len()
            invariant
                i <= self.outcomes.len(),
                n <= i,
                n == failed_count(self.outcomes@.take(i as int)),
            decreases self.outcomes.len() - i,
        {
            proof {
                let now = self.outcomes@.take(i + 1);
                assert(now.drop_last() =~= self.outcomes@.take(i as int));
                assert(now.last() == self.outcomes@[i as int]);
            }
            if self.outcomes[i].result.is_err() {
                n += 1;
            }
            i += 1;
        }
        proof {
            assert(self.outcomes@.take(self.outcomes.len() as int) =~= self.outcomes@);
        }
        n
    }
}

/// The operation may fail on the task at `index`.
pub open spec fn may_fail_on<E, F: Fn(usize, &Task) -> Result<(), E>>(
    executor: F,
    index: usize,
    task: Task,
) -> bool {
    exists|e: E| call_ensures(executor, (index, &task), Err::<(), E>(e))
}

/// The operation cannot fail on the task at `index`.
pub open spec fn always_succeeds_on<E, F: Fn(usize, &Task) -> Result<(), E>>(
    executor: F,
    index: usize,
    task: Task,
) -> bool {
    forall|out: Result<(), E>| #[trigger] call_ensures(executor, (index, &task), out) ==> out is Ok
}

/// The task at `index` can end after `attempts` attempts with `result`: the
/// result is one that the operation can give for it, an error only after
/// every allowed attempt was made, and a further attempt only after one that
/// could fail.
pub open spec fn ended_as<E, F: Fn(usize, &Task) -> Result<(), E>>(
    executor: F,
    max_retry: u32,
    index: usize,
    task: Task,
    attempts: u32,
    result: Result<(), E>,
) -> bool {
    &&& 1 <= attempts <= max_retry + 1
    &&& call_ensures(executor, (index, &task), result)
    &&& result is Err ==> attempts == max_retry + 1
    &&& attempts > 1 ==> may_fail_on(executor, index, task)
}

/// `outcome` is a way for the task at `index` to end under `max_retry`: its
/// attempts and its result are as `ended_as` says, and between its attempts
/// the sleeps of the schedule were made, one after each attempt but the
/// last.
pub open spec fn outcome_of<E, W, F: Fn(usize, &Task) -> Result<(), E>, S: Fn(u64) -> W>(
    executor: F,
    sleep: S,
    max_retry: u32,
    index: usize,
    task: Task,
    outcome: TaskOutcome<E, W>,
) -> bool {
    &&& outcome.index == index
    &&& ended_as(executor, max_retry, index, task, outcome.attempts, outcome.result)
    &&& outcome.slept@.len() == outcome.attempts - 1
    &&& slept_as(sleep, outcome.slept@)
}

/// Where the task at `index` has ended, it has ended in a way it can end,
/// with a sleep after each attempt but the last.
pub open spec fn settled<E, W, F: Fn(usize, &Task) -> Result<(), E>>(
    executor: F,
    max_retry: u32,
    index: usize,
    task: Task,
    ended: Option<(u32, Result<(), E>)>,
    slept: Seq<W>,
) -> bool {
    match ended {
        Some((attempts, result)) => ended_as(executor, max_retry, index, task, attempts, result)
            && slept.len() == attempts - 1,
        None => true,
    }
}

/// A bound on the attempts that a task not yet ended can still take.
pub open spec fn steps_left<E>(retry: Retry, ended: Option<(u32, Result<(), E>)>) -> int {
    retry.max_retry - retry.attempt + if ended is None {
        1int
    } else {
        0int
    }
}

/// `report` is a complete run over `tasks`: the workers are bounded by the
/// tasks, and where there is a worker at all, every task has its one outcome,
/// at its own position.
pub open spec fn complete_run<E, W, F: Fn(usize, &Task) -> Result<(), E>, S: Fn(u64) -> W>(
    executor: F,
    sleep: S,
    thread_num: usize,
    max_retry: u32,
    tasks: Seq<Task>,
    report: ExecutionReport<E, W>,
) -> bool {
    &&& report.workers == workers_for(thread_num as int, tasks.len() as int)
    &&& report.outcomes.len() == if report.workers == 0 {
        0
    } else {
        tasks.len()
    }
    &&& forall|i: int|
        0 <= i < report.outcomes.len() ==> {
            &&& outcome_of(
                executor,
                sleep,
                max_retry,
                i as usize,
                tasks[i],
                #[trigger] report.outcomes[i],
            )
            &&& report.outcomes[i].worker == i % (report.workers as int)
        }
}

/// What a run needs of `max_retry` and `sleep`: nothing where there is no
/// task or no worker, since no delay is computed then; else `max_retry` is
/// small enough for every delay to be counted, and `sleep` takes each delay.
pub open spec fn can_retry<W, S: Fn(u64) -> W>(
    sleep: S,
    thread_num: usize,
    task_count: nat,
    max_retry: u32,
) -> bool {
    thread_num == 0 || task_count == 0 || (max_retry <= MAX_RETRY && sleeps_through(
        sleep,
        max_retry,
    ))
}

/// Runs `executor` on every task, each wrapped in the retry policy, and
/// reports how each ended. At most `thread_num` workers take part, never more
/// than there are tasks; they take the tasks from one queue in turn. After a
/// failed attempt that is not the last, `sleep` is called with the delay
/// before the task is attempted again. A task that fails, even after its
/// retries, does not keep the others from being attempted. With no task or
/// no worker, nothing is attempted and the report is empty.
pub fn execute_tasks<E, W, F, S>(
    thread_num: usize,
    max_retry: u32,
    tasks: Vec<Task>,
    executor: F,
    sleep: S,
) -> (report: ExecutionReport<E, W>)
    where F: Fn(usize, &Task) -> Result<(), E>, S: Fn(u64) -> W
    requires
        can_retry(sleep, thread_num, tasks@.len(), max_retry),
        forall|i: int| 0 <= i < tasks.len() ==> call_requires(executor, (i as usize, &tasks@[i])),
    ensures
        complete_run(executor, sleep, thread_num, max_retry, tasks@, report),
{
    let workers = worker_count(thread_num, tasks.len());
    let ghost all = tasks@;
    let mut outcomes: Vec<TaskOutcome<E, W>> = Vec::new();
    if workers == 0 {
        return ExecutionReport { workers, outcomes };
    }
    let mut queue = TaskQueue::new(tasks);
    loop
        invariant
            queue.wf(),
            queue@.total == all.len(),
            queue@.pending == all.skip(queue@.handed()),
            outcomes.len() == queue@.handed(),
            workers > 0,
            workers == workers_for(thread_num as int, all.len() as int),
            max_retry <= MAX_RETRY,
            forall|i: int| 0 <= i < all.len() ==> call_requires(executor, (i as usize, &all[i])),
            sleeps_through(sleep, max_retry),
            forall|i: int|
                0 <= i < outcomes.len() ==> {
                    &&& outcome_of(
                        executor,
                        sleep,
                        max_retry,
                        i as usize,
                        all[i],
                        #[trigger] outcomes[i],
                    )
                    &&& outcomes[i].worker == i % (workers as int)
                },
        ensures
            queue@.pending.len() == 0,
        decreases queue@.pending.len(),
    {
        match queue.next() {
            None => {
                break ;
            },
            Some((index, task)) => {
                assert(task == all[index as int]);
                assert(queue@.pending =~= all.skip(queue@.handed()));
                let worker: usize = index % workers;
                let mut retry = Retry::new(max_retry);
                let mut slept: Vec<W> = Vec::new();
                let mut ended: Option<(u32, Result<(), E>)> = None;
                while ended.is_none()
                    invariant
                        retry.wf(),
                        retry.max_retry == max_retry,
                        call_requires(executor, (index, &task)),
                        sleeps_through(sleep, max_retry),
                        retry.attempt > 0 ==> may_fail_on(executor, index, task),
                        slept_as(sleep, slept@),
                        ended is None ==> slept@.len() == retry.attempt,
                        settled(executor, max_retry, index, task, ended, slept@),
                    decreases steps_left(retry, ended),
                {
                    let attempt: u32 = retry.attempt;
                    let attempts = retry.attempts();
                    let out = executor(index, &task);
                    if out.is_ok() {
                        ended = Some((attempts, out));
                    } else {
                        assert(out == Err::<(), E>(out->Err_0));
                        assert(may_fail_on(executor, index, task));
                        match retry.on_failure() {
                            RetryDecision::Backoff { secs } => {
                                assert(secs == delay(attempt));
                                let answer = sleep(secs);
                                slept.push(answer);
                            },
                            RetryDecision::GiveUp => {
                                ended = Some((attempts, out));
                            },
                        }
                    }
                }
                match ended {
                    Some((attempts, result)) => {
                        outcomes.push(TaskOutcome { index, worker, attempts, result, slept });
                    },
                    None => {},
                }
            },
        }
    }
    ExecutionReport { workers, outcomes }
}

/// Every task is attempted, once, at its own position: with at least one
/// worker asked for, a complete run holds exactly one outcome per task, and
/// the outcome at position `i` is that of task `i`.
pub proof fn law_every_task_once<E, W, F: Fn(usize, &Task) -> Result<(), E>, S: Fn(u64) -> W>(
    executor: F,
    sleep: S,
    thread_num: usize,
    max_retry: u32,
    tasks: Seq<Task>,
    report: ExecutionReport<E, W>,
)
    requires
        thread_num >= 1,
        complete_run(executor, sleep, thread_num, max_retry, tasks, report),
    ensures
        report.workers == workers_for(thread_num as int, tasks.len() as int),
        report.workers <= thread_num && report.workers <= tasks.len(),
        report.outcomes.len() == tasks.len(),
        forall|i: int| 0 <= i < tasks.len() ==> (#[trigger] report.outcomes[i]).index == i,
        forall|i: int, j: int|
            0 <= i < j < tasks.len() ==> (#[trigger] report.outcomes[i]).index != (
            #[trigger] report.outcomes[j]).index,
        forall|i: int|
            0 <= i < tasks.len() && always_succeeds_on(executor, i as usize, tasks[i]) ==> (
            #[trigger] report.outcomes[i]).attempts == 1 && report.outcomes[i].result is Ok
                && report.outcomes[i].slept@.len() == 0,
{
    assert forall|i: int|
        0 <= i < tasks.len() && always_succeeds_on(executor, i as usize, tasks[i]) implies (
    #[trigger] report.outcomes[i]).attempts == 1 && report.outcomes[i].result is Ok
        && report.outcomes[i].slept@.len() == 0 by {
        let o = report.outcomes[i];
        assert(outcome_of(executor, sleep, max_retry, i as usize, tasks[i], o));
        if o.attempts > 1 {
            let e = choose|e: E| call_ensures(executor, (i as usize, &tasks[i]), Err::<(), E>(e));
            assert(Err::<(), E>(e) is Ok);
        }
    }
}

/// A task that cannot fail succeeds whatever becomes of the others: its
/// outcome in a complete run is a success on the first attempt, also where
/// every other task fails on every attempt.
pub proof fn law_failures_are_isolated<
    E,
    W,
    F: Fn(usize, &Task) -> Result<(), E>,
    S: Fn(u64) -> W,
>(
    executor: F,
    sleep: S,
    thread_num: usize,
    max_retry: u32,
    tasks: Seq<Task>,
    report: ExecutionReport<E, W>,
    i: int,
)
    requires
        thread_num >= 1,
        complete_run(executor, sleep, thread_num, max_retry, tasks, report),
        0 <= i < tasks.len(),
        always_succeeds_on(executor, i as usize, tasks[i]),
    ensures
        report.outcomes.len() == tasks.len(),
        report.outcomes[i].index == i,
        report.outcomes[i].result is Ok,
        report.outcomes[i].attempts == 1,
{
    law_every_task_once(executor, sleep, thread_num, max_retry, tasks, report);
}

/// With no task, a run returns at once, whatever `thread_num` and
/// `max_retry` are: it has no worker and no outcome.
pub proof fn law_empty_list_returns_at_once<
    E,
    W,
    F: Fn(usize, &Task) -> Result<(), E>,
    S: Fn(u64) -> W,
>(executor: F, sleep: S, thread_num: usize, max_retry: u32, report: ExecutionReport<E, W>)
    requires
        complete_run(executor, sleep, thread_num, max_retry, Seq::<Task>::empty(), report),
    ensures
        can_retry(sleep, thread_num, 0, max_retry),
        report.workers == 0,
        report.outcomes@.len() == 0,
{
}

} // verus!
