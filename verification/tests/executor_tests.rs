use biusrv::config::{ServerConfig, ServerEntry};
use biusrv::executor::{
    build_tasks, execute_tasks, select_tasks, worker_count, Task, TaskError, TaskQueue,
};
use biusrv::ssh::Client;
use std::cell::RefCell;

fn server(name: &str, host: &str) -> ServerEntry {
    ServerEntry {
        name: name.to_string(),
        config: ServerConfig {
            host: host.to_string(),
            port: None,
            username: "root".to_string(),
            keypath: Some("~/.ssh/id_rsa".to_string()),
            password: None,
            use_password: None,
        },
    }
}

fn three_servers() -> Vec<ServerEntry> {
    vec![server("alpha", "10.0.0.1"), server("beta", "10.0.0.2"), server("gamma", "10.0.0.3")]
}

#[test]
fn worker_count_is_the_smaller_of_threads_and_tasks() {
    assert_eq!(worker_count(2, 3), 2);
    assert_eq!(worker_count(8, 3), 3);
    assert_eq!(worker_count(3, 3), 3);
    assert_eq!(worker_count(0, 3), 0);
    assert_eq!(worker_count(4, 0), 0);
}

#[test]
fn build_tasks_keeps_names_and_order() {
    let tasks = build_tasks(&three_servers()).unwrap();
    assert_eq!(tasks.len(), 3);
    assert_eq!(tasks[0].srv_name, "alpha");
    assert_eq!(tasks[1].srv_name, "beta");
    assert_eq!(tasks[2].srv_name, "gamma");
    assert_eq!(tasks[1].ssh_client.host(), "10.0.0.2");
    assert_eq!(tasks[1].ssh_client.port(), 22);
    assert_eq!(tasks[1].ssh_client.user(), "root");
    assert_eq!(tasks[2].label(), "gamma - root@10.0.0.3:22");
    assert_eq!(tasks[0].log_prefix(), "Server 'alpha (root@10.0.0.1:22)'");
}

#[test]
fn select_tasks_follows_the_names_given() {
    let servers = three_servers();
    let tasks = select_tasks(&servers, &vec!["gamma".to_string(), "alpha".to_string()]).unwrap();
    assert_eq!(tasks.len(), 2);
    assert_eq!(tasks[0].srv_name, "gamma");
    assert_eq!(tasks[0].ssh_client.host(), "10.0.0.3");
    assert_eq!(tasks[1].srv_name, "alpha");
}

#[test]
fn select_tasks_names_the_first_unknown_server() {
    let servers = three_servers();
    let names = vec!["alpha".to_string(), "delta".to_string(), "omega".to_string()];
    match select_tasks(&servers, &names) {
        Err(TaskError::UnknownServer { name }) => assert_eq!(name, "delta"),
        other => panic!("unexpected {:?}", other),
    }
    assert_eq!(
        TaskError::UnknownServer { name: "delta".to_string() }.message(),
        "Server 'delta' not found"
    );
}

#[test]
fn queue_hands_out_each_index_once_in_order() {
    let mut queue = TaskQueue::new(build_tasks(&three_servers()).unwrap());
    assert_eq!(queue.remaining(), 3);
    let mut seen = Vec::new();
    while let Some((index, task)) = queue.next() {
        seen.push((index, task.srv_name));
    }
    assert_eq!(
        seen,
        vec![(0, "alpha".to_string()), (1, "beta".to_string()), (2, "gamma".to_string())]
    );
    assert_eq!(queue.remaining(), 0);
    assert!(queue.next().is_none());
}

#[test]
fn empty_task_list_returns_at_once() {
    let report = execute_tasks(4, 0, Vec::new(), |_, _: &Task| -> Result<(), String> { Ok(()) }, |_| {});
    assert_eq!(report.workers, 0);
    assert!(report.outcomes.is_empty());
}

#[test]
fn three_servers_two_threads_all_indices_attempted() {
    let tasks = build_tasks(&three_servers()).unwrap();
    let seen: RefCell<Vec<usize>> = RefCell::new(Vec::new());
    let report = execute_tasks(
        2,
        0,
        tasks,
        |index, _task: &Task| -> Result<(), String> {
            seen.borrow_mut().push(index);
            Ok(())
        },
        |_| {},
    );
    assert_eq!(report.workers, 2);
    assert_eq!(report.outcomes.len(), 3);
    assert_eq!(report.failures(), 0);
    let mut indices = seen.borrow().clone();
    indices.sort();
    assert_eq!(indices, vec![0, 1, 2]);
    for (i, outcome) in report.outcomes.iter().enumerate() {
        assert_eq!(outcome.index, i);
        assert_eq!(outcome.attempts, 1);
        assert_eq!(outcome.result, Ok(()));
        assert!(outcome.worker < 2);
    }
}

#[test]
fn failing_task_does_not_stop_the_next() {
    let mut a = Client::new("10.0.0.1".to_string(), "root".to_string());
    a.with_password("secret".to_string());
    let b = Client::new("10.0.0.2".to_string(), "root".to_string());
    let tasks = vec![
        Task { srv_name: "A".to_string(), ssh_client: a },
        Task { srv_name: "B".to_string(), ssh_client: b },
    ];
    let effects: RefCell<Vec<String>> = RefCell::new(Vec::new());
    let slept: RefCell<Vec<u64>> = RefCell::new(Vec::new());
    let report = execute_tasks(
        1,
        2,
        tasks,
        |_, task: &Task| {
            if task.srv_name == "A" {
                Err("unreachable host".to_string())
            } else {
                effects.borrow_mut().push(task.srv_name.clone());
                Ok(())
            }
        },
        |secs| slept.borrow_mut().push(secs),
    );
    assert_eq!(report.outcomes.len(), 2);
    assert_eq!(report.outcomes[0].result, Err("unreachable host".to_string()));
    assert_eq!(report.outcomes[0].attempts, 3);
    assert_eq!(report.outcomes[1].result, Ok(()));
    assert_eq!(report.outcomes[1].attempts, 1);
    assert_eq!(*effects.borrow(), vec!["B".to_string()]);
    assert_eq!(*slept.borrow(), vec![1, 2]);
    assert_eq!(report.failures(), 1);
}

#[test]
fn no_worker_attempts_nothing() {
    let tasks = build_tasks(&three_servers()).unwrap();
    let seen: RefCell<Vec<usize>> = RefCell::new(Vec::new());
    let report = execute_tasks(
        0,
        0,
        tasks,
        |index, _task: &Task| -> Result<(), String> {
            seen.borrow_mut().push(index);
            Ok(())
        },
        |_| {},
    );
    assert_eq!(report.workers, 0);
    assert!(report.outcomes.is_empty());
    assert!(seen.borrow().is_empty());
}

fn without_credential(name: &str) -> ServerEntry {
    let mut entry = server(name, "10.0.0.9");
    entry.config.keypath = None;
    entry
}

#[test]
fn no_task_is_built_for_a_server_without_credential() {
    let mut servers = three_servers();
    servers.insert(1, without_credential("bare"));
    servers.push(without_credential("later"));
    match build_tasks(&servers) {
        Err(TaskError::NoAuthMethod { name }) => assert_eq!(name, "bare"),
        other => panic!("unexpected {:?}", other),
    }
    assert_eq!(
        TaskError::NoAuthMethod { name: "bare".to_string() }.message(),
        "Server 'bare': No authentication method provided (need password or private key)"
    );
    let asked = vec!["alpha".to_string(), "later".to_string(), "nowhere".to_string()];
    match select_tasks(&servers, &asked) {
        Err(TaskError::NoAuthMethod { name }) => assert_eq!(name, "later"),
        other => panic!("unexpected {:?}", other),
    }
    let asked = vec!["nowhere".to_string(), "later".to_string()];
    assert!(matches!(select_tasks(&servers, &asked), Err(TaskError::UnknownServer { .. })));
    let asked = vec!["gamma".to_string(), "alpha".to_string()];
    assert_eq!(select_tasks(&servers, &asked).unwrap().len(), 2);
    let mut prompted = without_credential("asked");
    prompted.config.use_password = Some(true);
    assert_eq!(build_tasks(&vec![prompted]).unwrap().len(), 1);
}

#[test]
fn empty_list_returns_at_once_for_any_retry_count() {
    let calls: RefCell<u32> = RefCell::new(0);
    for (threads, max_retry) in [(0usize, 0u32), (4, 100), (0, u32::MAX), (1, 65)] {
        let report = execute_tasks(
            threads,
            max_retry,
            Vec::new(),
            |_, _: &Task| -> Result<(), String> {
                *calls.borrow_mut() += 1;
                Ok(())
            },
            |_| {},
        );
        assert_eq!(report.workers, 0);
        assert!(report.outcomes.is_empty());
    }
    let report = execute_tasks(
        0,
        1000,
        build_tasks(&three_servers()).unwrap(),
        |_, _: &Task| -> Result<(), String> {
            *calls.borrow_mut() += 1;
            Ok(())
        },
        |_| {},
    );
    assert!(report.outcomes.is_empty());
    assert_eq!(*calls.borrow(), 0);
}

#[test]
fn outcomes_carry_what_the_sleeps_gave_back() {
    let tasks = build_tasks(&three_servers()).unwrap();
    let report = execute_tasks(
        3,
        3,
        tasks,
        |index, _: &Task| if index == 1 { Err("down") } else { Ok(()) },
        |secs| secs * 1000,
    );
    assert_eq!(report.outcomes[0].slept, Vec::<u64>::new());
    assert_eq!(report.outcomes[1].slept, vec![1000, 2000, 4000]);
    assert_eq!(report.outcomes[1].attempts, 4);
    assert_eq!(report.outcomes[1].result, Err("down"));
    assert_eq!(report.outcomes[2].attempts, 1);
    assert_eq!(report.failures(), 1);
}
