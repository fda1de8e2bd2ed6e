use biusrv::cli::{
    add_server_name, choose_tasks, command_failed_on, display_name, get_display_filename,
    output_lines,
    password_notice, server_line, task_line, thread_count, ComponentAction, ExecAction, ExecMode,
    FirewallAction, FirewallOperation, InitCommand, ListAction, ManageAction, ManageCommand,
    ManageRequest, Operation, RunAction, ScriptAction, ScriptSubAction, Selection, SelectionError,
    TransferAction,
};
use biusrv::component::{ComponentConfig, ComponentInfo, ComponentManager, InstallConfig, ServiceConfig, UninstallConfig};
use biusrv::config::{ServerConfig, ServerEntry};
use biusrv::executor::Task;
use biusrv::firewall::{RuleOp, Target};
use biusrv::ssh::{Client, CommandResult};

fn strings(v: &[&str]) -> Vec<String> {
    v.iter().map(|s| s.to_string()).collect()
}

fn server(name: &str, use_password: Option<bool>, port: Option<u16>) -> ServerEntry {
    ServerEntry {
        name: name.to_string(),
        config: ServerConfig {
            host: format!("{}.example.org", name),
            port,
            username: "ops".to_string(),
            keypath: None,
            password: Some("pw".to_string()),
            use_password,
        },
    }
}

fn servers() -> Vec<ServerEntry> {
    vec![server("web", None, None), server("db", Some(true), Some(2222))]
}

fn exec(command: &[&str], shell: bool) -> ExecAction {
    ExecAction { command: strings(command), sudo: false, hide_output: false, shell }
}

fn firewall() -> FirewallAction {
    FirewallAction {
        status: false,
        allow_port: Vec::new(),
        deny_port: Vec::new(),
        delete_allow_port: Vec::new(),
        delete_deny_port: Vec::new(),
        save: false,
    }
}

fn transfer(upload: bool, download: bool, remote: Option<&str>, local: Option<&str>) -> TransferAction {
    TransferAction {
        upload,
        download,
        remote: remote.map(|s| s.to_string()),
        local: local.map(|s| s.to_string()),
        force: true,
        resume: false,
        hide_progress: false,
    }
}

#[test]
fn thread_count_prefers_the_option() {
    assert_eq!(thread_count(Some(3), Some(16)), 3);
    assert_eq!(thread_count(Some(0), None), 0);
    assert_eq!(thread_count(None, Some(16)), 16);
    assert_eq!(thread_count(None, None), 4);
}

#[test]
fn tasks_are_chosen_for_all_or_by_name() {
    let s = servers();
    let tasks = choose_tasks(&s, true, &strings(&["ignored"])).unwrap();
    assert_eq!(tasks.iter().map(|t| t.srv_name.as_str()).collect::<Vec<_>>(), vec!["web", "db"]);
    let tasks = choose_tasks(&s, false, &strings(&["db"])).unwrap();
    assert_eq!(tasks.len(), 1);
    assert_eq!(tasks[0].ssh_client.label(), "ops@db.example.org:2222");
    assert!(matches!(choose_tasks(&s, false, &Vec::new()), Err(SelectionError::NoneSpecified)));
    match choose_tasks(&s, false, &strings(&["web", "cache"])) {
        Err(SelectionError::UnknownServer { name }) => assert_eq!(name, "cache"),
        other => panic!("unexpected {:?}", other),
    }
    let mut bare = servers();
    bare[1].config.password = None;
    bare[1].config.use_password = None;
    match choose_tasks(&bare, true, &Vec::new()) {
        Err(SelectionError::NoAuthMethod { name }) => assert_eq!(name, "db"),
        other => panic!("unexpected {:?}", other),
    }
    match choose_tasks(&bare, false, &strings(&["db"])) {
        Err(SelectionError::NoAuthMethod { name }) => assert_eq!(name, "db"),
        other => panic!("unexpected {:?}", other),
    }
    assert_eq!(choose_tasks(&bare, false, &strings(&["web"])).unwrap().len(), 1);
    assert_eq!(
        SelectionError::NoAuthMethod { name: "db".to_string() }.message("manage", "manage"),
        "Server 'db': No authentication method provided (need password or private key)"
    );
}

#[test]
fn selection_errors_read_by_section() {
    assert_eq!(SelectionError::NoServers.message("init", "initialize"), "No servers configured");
    assert_eq!(
        SelectionError::UnknownServer { name: "x".to_string() }.message("init", "initialize"),
        "Server 'x' not found in init config"
    );
    assert_eq!(
        SelectionError::UnknownServer { name: "x".to_string() }.message("manage", "manage"),
        "Server 'x' not found in manage config"
    );
    assert_eq!(
        SelectionError::NoneSpecified.message("init", "initialize"),
        "No servers specified. Use --server to specify servers or --all-servers to initialize all servers."
    );
    assert_eq!(
        SelectionError::NoneSpecified.message("manage", "manage"),
        "No servers specified. Use --server to specify servers or --all-servers to manage all servers."
    );
}

#[test]
fn init_needs_servers_before_anything_else() {
    let cmd = InitCommand { list_servers: true, all_servers: true, server: Vec::new(), threads: None, max_retry: 0 };
    assert!(matches!(cmd.select(None), Err(SelectionError::NoServers)));
    assert!(matches!(cmd.select(Some(&Vec::new())), Err(SelectionError::NoServers)));
    let s = servers();
    assert!(matches!(cmd.select(Some(&s)), Ok(Selection::List)));
    let cmd = InitCommand { list_servers: false, all_servers: true, server: Vec::new(), threads: None, max_retry: 0 };
    assert!(matches!(cmd.select(Some(&s)), Ok(Selection::Run(tasks)) if tasks.len() == 2));
    let cmd = InitCommand { list_servers: false, all_servers: false, server: strings(&["db"]), threads: None, max_retry: 0 };
    assert!(matches!(cmd.select(Some(&s)), Ok(Selection::Run(tasks)) if tasks[0].srv_name == "db"));
    let cmd = InitCommand { list_servers: false, all_servers: false, server: Vec::new(), threads: None, max_retry: 0 };
    assert!(matches!(cmd.select(Some(&s)), Err(SelectionError::NoneSpecified)));
}

#[test]
fn manage_needs_servers_then_an_action() {
    let mut cmd = ManageCommand { list_servers: false, all_servers: false, server: Vec::new(), threads: None, max_retry: 0, action: None };
    assert_eq!(cmd.request(false), Err("No servers configured".to_string()));
    assert_eq!(
        cmd.request(true),
        Err("Please specify an action: use subcommands (script, exec, firewall, transfer)".to_string())
    );
    cmd.list_servers = true;
    assert_eq!(cmd.request(true), Ok(ManageRequest::List));
    cmd.list_servers = false;
    cmd.action = Some(ManageAction::Exec(exec(&["uptime"], false)));
    assert_eq!(cmd.request(true), Ok(ManageRequest::Act));
}

#[test]
fn exec_needs_a_command() {
    assert_eq!(exec(&[], false).local_execute(), Err("Command cannot be empty".to_string()));
    assert_eq!(exec(&["ls"], false).local_execute(), Ok(false));
    assert_eq!(exec(&["ls", "-la", "/root"], false).full_command(), "ls -la /root");
    assert_eq!(exec(&["bash"], false).mode(1), ExecMode::Command);
    assert_eq!(exec(&["bash"], true).mode(1), ExecMode::SingleShell);
    assert_eq!(exec(&["bash"], true).mode(0), ExecMode::MultiShell);
    assert_eq!(exec(&["bash"], true).mode(5), ExecMode::MultiShell);
    assert_eq!(command_failed_on("web"), "Command failed on web");
}

#[test]
fn output_is_shown_without_blank_lines() {
    let r = CommandResult { output: "one\n\n  \r\n two \nthree".to_string(), exit_status: 0 };
    assert_eq!(output_lines(&r, false), vec!["   one", "    two ", "   three"]);
    assert_eq!(output_lines(&r, true), Vec::<String>::new());
    let empty = CommandResult { output: String::new(), exit_status: 0 };
    assert_eq!(output_lines(&empty, false), Vec::<String>::new());
}

#[test]
fn firewall_needs_one_operation() {
    let f = firewall();
    assert_eq!(
        f.local_execute(),
        Err("No firewall action specified. Use --status, --allow-port, --deny-port, --delete-allow-port, or --delete-deny-port".to_string())
    );
    assert_eq!(f.operation(), None);
    let mut f = firewall();
    f.save = true;
    assert!(f.local_execute().is_err());
    f.delete_deny_port = strings(&["23"]);
    assert_eq!(f.local_execute(), Ok(false));
    assert_eq!(f.operation(), Some(FirewallOperation::DeleteDeny));
    f.delete_allow_port = strings(&["80"]);
    assert_eq!(f.operation(), Some(FirewallOperation::DeleteAllow));
    f.deny_port = strings(&["25"]);
    assert_eq!(f.operation(), Some(FirewallOperation::Deny));
    f.allow_port = strings(&["443", "8443"]);
    assert_eq!(f.operation(), Some(FirewallOperation::Allow));
    assert_eq!(f.ports(FirewallOperation::Allow), &strings(&["443", "8443"]));
    assert_eq!(f.ports(FirewallOperation::Deny), &strings(&["25"]));
    assert_eq!(f.ports(FirewallOperation::DeleteAllow), &strings(&["80"]));
    assert_eq!(f.ports(FirewallOperation::DeleteDeny), &strings(&["23"]));
    f.status = true;
    assert_eq!(f.operation(), Some(FirewallOperation::Status));
    assert_eq!(FirewallOperation::Status.change(), None);
    assert_eq!(FirewallOperation::Allow.change(), Some((RuleOp::Append, Target::Accept)));
    assert_eq!(FirewallOperation::Deny.change(), Some((RuleOp::Append, Target::Drop)));
    assert_eq!(FirewallOperation::DeleteAllow.change(), Some((RuleOp::Delete, Target::Accept)));
    assert_eq!(FirewallOperation::DeleteDeny.change(), Some((RuleOp::Delete, Target::Drop)));
    assert_eq!(f.local_execute(), Ok(false));
}

#[test]
fn transfer_needs_a_direction_and_both_paths() {
    assert_eq!(
        transfer(false, false, Some("r"), Some("l")).local_execute(),
        Err("No transfer action specified. Use --upload or --download".to_string())
    );
    assert_eq!(transfer(true, false, None, None).local_execute(), Err("--remote is required for upload".to_string()));
    assert_eq!(transfer(true, false, Some("r"), None).local_execute(), Err("--local is required for upload".to_string()));
    assert_eq!(transfer(false, true, None, Some("l")).local_execute(), Err("--remote is required for download".to_string()));
    assert_eq!(transfer(false, true, Some("r"), None).local_execute(), Err("--local is required for download".to_string()));
    assert_eq!(transfer(true, true, None, Some("l")).local_execute(), Err("--remote is required for upload".to_string()));
    assert_eq!(transfer(true, false, Some("r"), Some("l")).local_execute(), Ok(false));
    assert_eq!(transfer(false, true, Some("r"), Some("l")).local_execute(), Ok(false));
    assert_eq!(transfer(true, true, Some("r"), Some("l")).operation(), Some(Operation::Upload));
    assert_eq!(transfer(false, true, Some("r"), Some("l")).operation(), Some(Operation::Download));
    assert_eq!(transfer(false, false, None, None).operation(), None);
    let c = transfer(true, false, Some("r"), Some("l")).transfer_config(7);
    assert!(c.force && !c.resume);
    assert_eq!((c.max_retry, c.chunk_size, c.progress_interval), (7, 65536, 1000));
}

#[test]
fn downloads_get_the_servers_name() {
    assert_eq!(add_server_name("backup.tar.gz", "web1"), "backup.tar_web1.gz");
    assert_eq!(add_server_name("notes", "web1"), "notes_web1");
    assert_eq!(add_server_name("/var/log.d/app", "db"), "/var/log_db.d/app");
    assert_eq!(add_server_name(".bashrc", "db"), "_db.bashrc");
    assert_eq!(add_server_name("trailing.", "db"), "trailing_db.");
    assert_eq!(add_server_name("", "db"), "_db");
}

#[test]
fn long_file_names_are_cut_for_display() {
    assert_eq!(display_name("short.txt"), "short.txt");
    assert_eq!(display_name("exactly-twenty-chars"), "exactly-twenty-chars");
    assert_eq!(display_name("twenty-one-characters"), "twenty-one-charac...");
    assert_eq!(display_name("a-very-long-archive-name.tar.gz"), "a-very-long-archi...");
    assert_eq!(display_name(""), "");
    assert_eq!(
        display_name("a\u{e9}\u{e9}\u{e9}\u{e9}\u{e9}\u{e9}\u{e9}\u{e9}\u{e9}\u{e9}"),
        "a\u{e9}\u{e9}\u{e9}\u{e9}\u{e9}\u{e9}\u{e9}\u{e9}..."
    );
    assert_eq!(
        display_name("\u{e9}\u{e9}\u{e9}\u{e9}\u{e9}\u{e9}\u{e9}\u{e9}\u{e9}\u{e9}"),
        "\u{e9}\u{e9}\u{e9}\u{e9}\u{e9}\u{e9}\u{e9}\u{e9}\u{e9}\u{e9}"
    );
}

#[test]
fn display_takes_the_file_name_of_the_path() {
    assert_eq!(get_display_filename("/var/backups/short.txt"), "short.txt");
    assert_eq!(
        get_display_filename("/var/backups/a-very-long-archive-name.tar.gz"),
        "a-very-long-archi..."
    );
    assert_eq!(get_display_filename("a-very-long-directory-name/x"), "x");
    assert_eq!(get_display_filename("dir/sub/"), "sub");
    assert_eq!(get_display_filename("/"), "");
    assert_eq!(get_display_filename(""), "");
    assert_eq!(get_display_filename("dir/.."), "");
    let uncuttable = "\u{e9}\u{e9}\u{e9}\u{e9}\u{e9}\u{e9}\u{e9}\u{e9}\u{e9}\u{e9}\u{e9}";
    assert_eq!(get_display_filename(&format!("/tmp/{}", uncuttable)), uncuttable);
}

fn manager() -> ComponentManager {
    let mut m = ComponentManager::new();
    for name in ["docker", "nginx"] {
        m.insert(ComponentConfig {
            info: ComponentInfo { name: name.to_string(), description: String::new() },
            service: ServiceConfig { start: None, enable: None },
            install: InstallConfig::Command { commands: Vec::new() },
            uninstall: UninstallConfig::Command { commands: Vec::new() },
            check: None,
        });
    }
    m
}

fn component_action(list: bool, install: &[&str], uninstall: &[&str]) -> ComponentAction {
    ComponentAction { dir: "components".to_string(), list, install: strings(install), uninstall: strings(uninstall) }
}

#[test]
fn component_action_is_checked_against_the_manager() {
    let m = manager();
    assert_eq!(component_action(true, &["unknown"], &[]).local_execute(&m), Ok(true));
    assert_eq!(component_action(false, &["docker", "nginx"], &[]).local_execute(&m), Ok(false));
    assert_eq!(
        component_action(false, &["docker", "redis"], &["nginx"]).local_execute(&m),
        Err("Supported component 'docker, redis' not found".to_string())
    );
    assert_eq!(component_action(false, &[], &["nginx"]).local_execute(&m), Ok(false));
    assert_eq!(
        component_action(false, &[], &["redis"]).local_execute(&m),
        Err("Supported component 'redis' not found".to_string())
    );
    assert_eq!(
        component_action(false, &[], &[]).local_execute(&m),
        Err("No component action specified. Use --list, --install, or --uninstall".to_string())
    );
    assert!(component_action(false, &["a"], &["b"]).installs());
    assert!(!component_action(false, &[], &["b"]).installs());
}

#[test]
fn script_action_lists_or_needs_actions_to_run() {
    let list = ScriptAction { action: ScriptSubAction::List(ListAction { path: "s.toml".to_string() }) };
    assert_eq!(list.local_execute(), Ok(true));
    let run = ScriptAction { action: ScriptSubAction::Run(RunAction { path: "s.toml".to_string(), action: Vec::new() }) };
    assert_eq!(run.local_execute(), Err("No actions specified".to_string()));
    let run = ScriptAction { action: ScriptSubAction::Run(RunAction { path: "s.toml".to_string(), action: strings(&["build"]) }) };
    assert_eq!(run.local_execute(), Ok(false));
}

#[test]
fn servers_and_tasks_are_shown_one_per_line() {
    let s = servers();
    assert_eq!(server_line("web", &s[0].config), "  web - ops@web.example.org:22 (\u{1f511} Key)");
    assert_eq!(server_line("db", &s[1].config), "  db - ops@db.example.org:2222 (\u{1f510} Password)");
    assert_eq!(
        password_notice("db", &s[1].config),
        "\u{1f510} db (ops@db.example.org:2222) requires password authentication"
    );
    let task = Task { srv_name: "web".to_string(), ssh_client: Client::new("h".to_string(), "u".to_string()) };
    assert_eq!(task_line(0, &task), " 1 - web - u@h:22");
    assert_eq!(task_line(8, &task), " 9 - web - u@h:22");
    assert_eq!(task_line(9, &task), "10 - web - u@h:22");
    assert_eq!(task_line(122, &task), "123 - web - u@h:22");
}
