//! The initialization of a server: a fixed order of stages, each a short
//! recipe of remote steps that act and then read back what they did.

use vstd::prelude::*;
use vstd::string::*;
use vstd::utf8::encode_utf8;
use crate::firewall::listed;
use crate::config::{Fail2banConfig, FirewallConfig, InitConfig, KeyValue, SshdConfig};
use crate::ssh::OsType;
use crate::steps::{
    contains_step, push_step, report_step, run_step, step_views, Expect, ExpectView, Step,
    StepView,
};
use crate::text::{concat, decimal, joined, owned, push_decimal, str_eq, trim, trimmed, views};
use crate::utils::{
    create_dir, create_dir_line, create_file, create_file_line, install, install_line,
    install_packages, update_line, update_system,
};

verus! {

/// What an initialization sets up on each server.
#[derive(Debug)]
pub struct InitServer {
    pub new_username: String,
    pub new_password: String,
    pub sshd_config: Option<SshdConfig>,
    pub firewall_config: Option<FirewallConfig>,
    pub fail2ban_config: Option<Fail2banConfig>,
    pub packages: Option<Vec<String>>,
    pub commands: Option<Vec<String>>,
}

/// One stage of an initialization.
#[derive(Debug, Clone, Copy, PartialEq, Eq, Structural)]
pub enum InitStage {
    UpdateSystem,
    InstallRequired,
    CreateUser,
    SetupSudo,
    ConfigureSshd,
    SetupFail2ban,
    CustomCommands,
    SetupFirewall,
    ReloadSshd,
}

/// The stages that an initialization runs through, in order: the system is
/// updated, the packages are installed, the user is created and given sudo;
/// then, each only if it is configured, the SSH daemon, the intrusion
/// prevention, the custom commands and the packet filter; at the end the SSH
/// daemon reads its configuration anew.
pub open spec fn stages_of(sshd: bool, fail2ban: bool, commands: bool, firewall: bool) -> Seq<
    InitStage,
> {
    seq![
        InitStage::UpdateSystem,
        InitStage::InstallRequired,
        InitStage::CreateUser,
        InitStage::SetupSudo,
    ] + (if sshd {
        seq![InitStage::ConfigureSshd]
    } else {
        Seq::empty()
    }) + (if fail2ban {
        seq![InitStage::SetupFail2ban]
    } else {
        Seq::empty()
    }) + (if commands {
        seq![InitStage::CustomCommands]
    } else {
        Seq::empty()
    }) + (if firewall {
        seq![InitStage::SetupFirewall]
    } else {
        Seq::empty()
    }) + seq![InitStage::ReloadSshd]
}

/// The packages to install, each once, in the order first asked for.
pub open spec fn unique(names: Seq<Seq<char>>) -> Seq<Seq<char>>
    decreases names.len(),
{
    if names.len() == 0 {
        Seq::empty()
    } else {
        let before = unique(names.drop_last());
        if before.contains(names.last()) {
            before
        } else {
            before.push(names.last())
        }
    }
}

/// Each name without the white space around it.
pub open spec fn trimmed_all(names: Seq<Seq<char>>) -> Seq<Seq<char>> {
    Seq::new(names.len(), |i: int| trim(names[i]))
}

/// The names of the packages that an initialization asks for, before
/// doubles are removed: `sudo`, `fail2ban` where it is configured, the
/// family's package that keeps the filter rules where a filter is
/// configured, then the packages of the configuration.
pub open spec fn wanted_packages(
    fail2ban: bool,
    firewall: bool,
    os: OsType,
    packages: Seq<Seq<char>>,
) -> Seq<Seq<char>> {
    seq!["sudo"@] + (if fail2ban {
        seq!["fail2ban"@]
    } else {
        Seq::empty()
    }) + (if firewall && os == OsType::Debian {
        seq!["iptables-persistent"@]
    } else if firewall && os == OsType::RedHat {
        seq!["iptables-services"@]
    } else {
        Seq::empty()
    }) + trimmed_all(packages)
}

/// The text of the daemon's configuration file: the port, if a new one is
/// set, then each option, a line each.
pub open spec fn option_lines(options: Seq<KeyValue>) -> Seq<char>
    decreases options.len(),
{
    if options.len() == 0 {
        Seq::empty()
    } else {
        option_lines(options.drop_last()) + options.last().key@ + " "@ + options.last().value@
            + "\n"@
    }
}

/// The lines that `config` asks for in the daemon's configuration file.
pub open spec fn sshd_content(config: SshdConfig) -> Seq<char> {
    (match config.new_port {
        Some(port) => "Port "@ + decimal(port as nat) + "\n"@,
        None => Seq::empty(),
    }) + (match config.options {
        Some(options) => option_lines(options@),
        None => Seq::empty(),
    })
}

proof fn lemma_unique_push(before: Seq<Seq<char>>, name: Seq<char>)
    ensures
        unique(before.push(name)) == if unique(before).contains(name) {
            unique(before)
        } else {
            unique(before).push(name)
        },
{
    let names = before.push(name);
    assert(names.drop_last() =~= before);
    assert(names.last() == name);
}

fn push_unique(list: &mut Vec<String>, name: String)
    ensures
        views(final(list)@) == if views(old(list)@).contains(name@) {
            views(old(list)@)
        } else {
            views(old(list)@).push(name@)
        },
{
    let ghost before = views(list@);
    let mut i: usize = 0;
    while i < list.len()
        invariant
            i <= list.len(),
            before == views(list@),
            list@ == old(list)@,
            forall|j: int| 0 <= j < i ==> before[j] != name@,
        decreases list.len() - i,
    {
        if str_eq(list[i].as_str(), name.as_str()) {
            assert(before[i as int] == name@);
            return ;
        }
        i += 1;
    }
    list.push(name);
    assert(views(list@) =~= before.push(name@));
}

impl InitServer {
    /// The name of the user to create.
    pub open spec fn username(&self) -> Seq<char> {
        self.new_username@
    }

    /// The password of the user to create.
    pub open spec fn password(&self) -> Seq<char> {
        self.new_password@
    }

    /// What the configuration asks for, without its list of servers.
    pub fn new(init_config: InitConfig) -> (s: InitServer)
        ensures
            s.username() == init_config.new_username@,
            s.password() == init_config.new_password@,
            s.sshd_config == init_config.sshd,
            s.firewall_config == init_config.firewall,
            s.fail2ban_config == init_config.fail2ban,
            s.packages == init_config.packages,
            s.commands == init_config.commands,
    {
        InitServer {
            new_username: init_config.new_username,
            new_password: init_config.new_password,
            sshd_config: init_config.sshd,
            firewall_config: init_config.firewall,
            fail2ban_config: init_config.fail2ban,
            packages: init_config.packages,
            commands: init_config.commands,
        }
    }

    /// The name of the user to create.
    pub fn new_username(&self) -> (r: &str)
        ensures
            r@ == self.username(),
    {
        self.new_username.as_str()
    }

    /// The stages to run through, in order.
    pub fn stages(&self) -> (r: Vec<InitStage>)
        ensures
            r@ == stages_of(
                self.sshd_config is Some,
                self.fail2ban_config is Some,
                self.commands is Some,
                self.firewall_config is Some,
            ),
    {
        let mut r: Vec<InitStage> = Vec::new();
        r.push(InitStage::UpdateSystem);
        r.push(InitStage::InstallRequired);
        r.push(InitStage::CreateUser);
        r.push(InitStage::SetupSudo);
        if self.sshd_config.is_some() {
            r.push(InitStage::ConfigureSshd);
        }
        if self.fail2ban_config.is_some() {
            r.push(InitStage::SetupFail2ban);
        }
        if self.commands.is_some() {
            r.push(InitStage::CustomCommands);
        }
        if self.firewall_config.is_some() {
            r.push(InitStage::SetupFirewall);
        }
        r.push(InitStage::ReloadSshd);
        assert(r@ =~= stages_of(
            self.sshd_config is Some,
            self.fail2ban_config is Some,
            self.commands is Some,
            self.firewall_config is Some,
        ));
        r
    }

    /// The port that the SSH daemon listens on once it is configured: the
    /// new port where one is set, else 22.
    pub fn ssh_port(&self) -> (port: u16)
        ensures
            port == match self.sshd_config {
                Some(SshdConfig { new_port: Some(p), .. }) => p,
                _ => 22,
            },
    {
        match &self.sshd_config {
            Some(sshd) => match sshd.new_port {
                Some(p) => p,
                None => 22,
            },
            None => 22,
        }
    }

    /// The step that updates the system: it must succeed.
    pub fn update_system(&self, os: OsType) -> (s: Step)
        ensures
            s@ == report_step(update_line(os), "Failed to update system"@),
    {
        Step::require_or_report(update_system(os), owned("Failed to update system"))
    }

    /// The packages to install, each once.
    pub fn required_packages(&self, os: OsType) -> (r: Vec<String>)
        ensures
            views(r@) == unique(
                wanted_packages(
                    self.fail2ban_config is Some,
                    self.firewall_config is Some,
                    os,
                    listed(self.packages),
                ),
            ),
    {
        let ghost extra = listed(self.packages);
        let ghost fail2ban = self.fail2ban_config is Some;
        let ghost firewall = self.firewall_config is Some;
        let mut r: Vec<String> = Vec::new();
        let ghost mut asked: Seq<Seq<char>> = Seq::empty();
        assert(views(r@) =~= unique(asked));
        push_unique(&mut r, owned("sudo"));
        proof {
            let before = asked;
            asked = asked.push("sudo"@);
            lemma_unique_push(before, "sudo"@);
        }
        if self.fail2ban_config.is_some() {
            push_unique(&mut r, owned("fail2ban"));
            proof {
                let before = asked;
                asked = asked.push("fail2ban"@);
                lemma_unique_push(before, "fail2ban"@);
            }
        }
        if self.firewall_config.is_some() {
            match os {
                OsType::Debian => {
                    push_unique(&mut r, owned("iptables-persistent"));
                    proof {
                        let before = asked;
                        asked = asked.push("iptables-persistent"@);
                        lemma_unique_push(before, "iptables-persistent"@);
                    }
                },
                OsType::RedHat => {
                    push_unique(&mut r, owned("iptables-services"));
                    proof {
                        let before = asked;
                        asked = asked.push("iptables-services"@);
                        lemma_unique_push(before, "iptables-services"@);
                    }
                },
                OsType::Arch => {},
            }
        }
        let ghost head = asked;
        assert(head =~= wanted_packages(fail2ban, firewall, os, Seq::empty()));
        match &self.packages {
            Some(packages) => {
                let mut i: usize = 0;
                assert(head + trimmed_all(extra.take(0)) =~= head);
                while i < packages.len()
                    invariant
                        i <= packages.len(),
                        extra == views(packages@),
                        asked == head + trimmed_all(extra.take(i as int)),
                        views(r@) == unique(asked),
                    decreases packages.len() - i,
                {
                    let name = trimmed(packages[i].as_str());
                    push_unique(&mut r, name);
                    proof {
                        let before = asked;
                        asked = asked.push(name@);
                        lemma_unique_push(before, name@);
                        assert(asked =~= head + trimmed_all(extra.take(i + 1)));
                    }
                    i += 1;
                }
                proof {
                    assert(extra.take(packages.len() as int) =~= extra);
                    assert(head + trimmed_all(extra) =~= wanted_packages(
                        fail2ban,
                        firewall,
                        os,
                        extra,
                    ));
                }
            },
            None => {
                proof {
                    assert(trimmed_all(extra) =~= Seq::<Seq<char>>::empty());
                }
            },
        }
        r
    }

    /// The step that installs the required packages: it must succeed.
    pub fn install_required(&self, os: OsType) -> (s: Step)
        ensures
            s@ == report_step(
                install_line(
                    os,
                    joined(
                        unique(
                            wanted_packages(
                                self.fail2ban_config is Some,
                                self.firewall_config is Some,
                                os,
                                listed(self.packages),
                            ),
                        ),
                        " "@,
                    ),
                ),
                "Failed to install packages"@,
            ),
    {
        let packages = self.required_packages(os);
        Step::require_or_report(
            install_packages(os, &packages),
            owned("Failed to install packages"),
        )
    }

    /// The steps that create the user: the account is added and looked up,
    /// the password is set, and the account's state is read back.
    pub fn create_user(&self) -> (steps: Vec<Step>)
        ensures
            step_views(steps@) == seq![
                run_step("useradd -m "@ + self.username()),
                report_step("id "@ + self.username(), "User verification failed"@),
                run_step("echo '"@ + self.username() + ":"@ + self.password() + "' | chpasswd"@),
                contains_step(
                    "passwd -S "@ + self.username(),
                    self.username() + " P"@,
                    "Password verification failed: "@,
                    true,
                ),
            ],
    {
        let user = self.new_username.as_str();
        let mut steps: Vec<Step> = Vec::new();
        steps.push(Step::run(concat("useradd -m ", user)));
        steps.push(Step::require_or_report(concat("id ", user), owned("User verification failed")));
        let mut set = concat("echo '", user);
        set.append(":");
        set.append(self.new_password.as_str());
        set.append("' | chpasswd");
        steps.push(Step::run(set));
        steps.push(
            Step {
                command: concat("passwd -S ", user),
                fallback: None,
                expect: Expect::Contains {
                    needle: concat(user, " P"),
                    message: owned("Password verification failed: "),
                    with_output: true,
                },
            },
        );
        assert(step_views(steps@) =~= seq![
            run_step("useradd -m "@ + self.username()),
            report_step("id "@ + self.username(), "User verification failed"@),
            run_step("echo '"@ + self.username() + ":"@ + self.password() + "' | chpasswd"@),
            contains_step(
                "passwd -S "@ + self.username(),
                self.username() + " P"@,
                "Password verification failed: "@,
                true,
            ),
        ]);
        steps
    }

    /// The steps that let the user run anything with sudo: sudo is installed
    /// if it is missing, the rule is written, and read back.
    pub fn setup_sudo(&self, os: OsType) -> (steps: Vec<Step>)
        ensures
            step_views(steps@) == seq![
                StepView {
                    command: "which sudo"@,
                    fallback: Some(install_line(os, "sudo"@)),
                    expect: ExpectView::Nothing,
                },
                run_step(
                    "echo '"@ + self.username() + " ALL=(ALL) NOPASSWD:ALL' > /etc/sudoers.d/"@
                        + self.username(),
                ),
                report_step(
                    "grep '"@ + self.username() + " ALL=(ALL) NOPASSWD:ALL' /etc/sudoers.d/"@
                        + self.username(),
                    "Sudo configuration verification failed"@,
                ),
            ],
    {
        let user = self.new_username.as_str();
        let mut steps: Vec<Step> = Vec::new();
        steps.push(
            Step {
                command: owned("which sudo"),
                fallback: Some(install(os, "sudo")),
                expect: Expect::Nothing,
            },
        );
        let mut write = concat("echo '", user);
        write.append(" ALL=(ALL) NOPASSWD:ALL' > /etc/sudoers.d/");
        write.append(user);
        steps.push(Step::run(write));
        let mut read = concat("grep '", user);
        read.append(" ALL=(ALL) NOPASSWD:ALL' /etc/sudoers.d/");
        read.append(user);
        steps.push(
            Step::require_or_report(read, owned("Sudo configuration verification failed")),
        );
        assert(step_views(steps@) =~= seq![
            StepView {
                command: "which sudo"@,
                fallback: Some(install_line(os, "sudo"@)),
                expect: ExpectView::Nothing,
            },
            run_step(
                "echo '"@ + self.username() + " ALL=(ALL) NOPASSWD:ALL' > /etc/sudoers.d/"@
                    + self.username(),
            ),
            report_step(
                "grep '"@ + self.username() + " ALL=(ALL) NOPASSWD:ALL' /etc/sudoers.d/"@
                    + self.username(),
                "Sudo configuration verification failed"@,
            ),
        ]);
        steps
    }

    /// The step that makes the SSH daemon read its configuration anew, by
    /// systemd or else by `service`; the one that ran last must succeed.
    pub fn reload_sshd(&self) -> (s: Step)
        ensures
            s@ == (StepView {
                command: "systemctl reload sshd"@,
                fallback: Some("service ssh reload"@),
                expect: ExpectView::SuccessOrReport {
                    what: "Failed to reload sshd"@,
                },
            }),
    {
        Step {
            command: owned("systemctl reload sshd"),
            fallback: Some(owned("service ssh reload")),
            expect: Expect::SuccessOrReport { what: owned("Failed to reload sshd") },
        }
    }

    /// The text of the daemon's configuration file for `config`.
    pub fn sshd_config_content(&self, config: &SshdConfig) -> (r: String)
        ensures
            r@ == sshd_content(*config),
    {
        let mut r = String::new();
        match config.new_port {
            Some(port) => {
                r.append("Port ");
                push_decimal(&mut r, port as u64);
                r.append("\n");
                assert(r@ =~= "Port "@ + decimal(port as nat) + "\n"@);
            },
            None => {},
        }
        let ghost head = r@;
        match &config.options {
            Some(options) => {
                let mut i: usize = 0;
                assert(head + option_lines(options@.take(0)) =~= head);
                while i < options.len()
                    invariant
                        i <= options.len(),
                        r@ == head + option_lines(options@.take(i as int)),
                    decreases options.len() - i,
                {
                    r.append(options[i].key.as_str());
                    r.append(" ");
                    r.append(options[i].value.as_str());
                    r.append("\n");
                    proof {
                        let now = options@.take(i + 1);
                        assert(now.drop_last() =~= options@.take(i as int));
                        assert(now.last() == options@[i as int]);
                        assert(r@ =~= head + option_lines(now));
                    }
                    i += 1;
                }
                proof {
                    assert(options@.take(options.len() as int) =~= options@);
                }
            },
            None => {
                assert(head + Seq::<char>::empty() =~= head);
            },
        }
        r
    }

    /// The steps for the custom commands: each must succeed.
    pub fn execute_custom_commands(&self, commands: &Vec<String>) -> (steps: Vec<Step>)
        ensures
            step_views(steps@) == Seq::new(
                commands@.len(),
                |i: int|
                    report_step(
                        commands@[i]@,
                        "Failed to execute command '"@ + commands@[i]@ + "'"@,
                    ),
            ),
    {
        let mut steps: Vec<Step> = Vec::new();
        let mut i: usize = 0;
        while i < commands.len()
            invariant
                i <= commands.len(),
                step_views(steps@) == Seq::new(
                    i as nat,
                    |k: int|
                        report_step(
                            commands@[k]@,
                            "Failed to execute command '"@ + commands@[k]@ + "'"@,
                        ),
                ),
            decreases commands.len() - i,
        {
            let ghost before = step_views(steps@);
            let mut what = concat("Failed to execute command '", commands[i].as_str());
            what.append("'");
            let step = Step::require_or_report(commands[i].clone(), what);
            push_step(&mut steps, step);
            proof {
                assert(step_views(steps@) =~= Seq::new(
                    (i + 1) as nat,
                    |k: int|
                        report_step(
                            commands@[k]@,
                            "Failed to execute command '"@ + commands@[k]@ + "'"@,
                        ),
                ));
            }
            i += 1;
        }
        steps
    }
}

/// The file in which the SSH daemon's new settings are written.
pub open spec fn sshd_config_file() -> Seq<char> {
    "/etc/ssh/sshd_config.d/biusrv.conf"@
}

/// The steps that install a public key for `user`: the directory and the
/// key file are written with their modes, both are given to the user, and
/// the key is read back.
pub open spec fn public_key_steps(user: Seq<char>, key: Seq<char>) -> Seq<StepView> {
    let ssh_dir = "/home/"@ + user + "/.ssh"@;
    let auth_file = ssh_dir + "/authorized_keys"@;
    seq![
        run_step(create_dir_line(ssh_dir, Some("700"@))),
        run_step(create_file_line(auth_file, encode_utf8(key), Some("600"@))),
        run_step(
            "chown "@ + user + ":"@ + user + " "@ + ssh_dir + " && chown "@ + user + ":"@ + user
                + " "@ + auth_file,
        ),
        contains_step("cat "@ + auth_file, key, "Public key verification failed: "@, true),
    ]
}

/// The steps that write the daemon's settings `content` and read them back.
pub open spec fn sshd_file_steps(content: Seq<char>) -> Seq<StepView> {
    seq![
        run_step(create_file_line(sshd_config_file(), encode_utf8(content), Some("644"@))),
        contains_step(
            "cat "@ + sshd_config_file(),
            content,
            "SSH config verification failed: "@,
            true,
        ),
    ]
}

/// The steps that install `key` for `user`.
pub fn install_public_key(user: &str, key: &str) -> (steps: Vec<Step>)
    ensures
        step_views(steps@) == public_key_steps(user@, key@),
{
    let mut ssh_dir = concat("/home/", user);
    ssh_dir.append("/.ssh");
    let auth_file = concat(ssh_dir.as_str(), "/authorized_keys");
    let mut steps: Vec<Step> = Vec::new();
    steps.push(Step::run(create_dir(ssh_dir.as_str(), Some("700"))));
    steps.push(Step::run(create_file(auth_file.as_str(), key, Some("600"))));
    let mut chown = concat("chown ", user);
    chown.append(":");
    chown.append(user);
    chown.append(" ");
    chown.append(ssh_dir.as_str());
    chown.append(" && chown ");
    chown.append(user);
    chown.append(":");
    chown.append(user);
    chown.append(" ");
    chown.append(auth_file.as_str());
    steps.push(Step::run(chown));
    steps.push(
        Step {
            command: concat("cat ", auth_file.as_str()),
            fallback: None,
            expect: Expect::Contains {
                needle: owned(key),
                message: owned("Public key verification failed: "),
                with_output: true,
            },
        },
    );
    assert(step_views(steps@) =~= public_key_steps(user@, key@));
    steps
}

/// The steps that write the daemon's settings and read them back.
pub fn write_sshd_config(content: &str) -> (steps: Vec<Step>)
    ensures
        step_views(steps@) == sshd_file_steps(content@),
{
    let file = "/etc/ssh/sshd_config.d/biusrv.conf";
    let mut steps: Vec<Step> = Vec::new();
    steps.push(Step::run(create_file(file, content, Some("644"))));
    steps.push(
        Step {
            command: concat("cat ", file),
            fallback: None,
            expect: Expect::Contains {
                needle: owned(content),
                message: owned("SSH config verification failed: "),
                with_output: true,
            },
        },
    );
    assert(step_views(steps@) =~= sshd_file_steps(content@));
    steps
}

impl InitServer {
    /// The steps that configure the SSH daemon: first the public key, where
    /// one is given, then the settings, where there are any.
    pub fn configure_sshd(&self, config: &SshdConfig) -> (steps: Vec<Step>)
        ensures
            step_views(steps@) == (match config.public_key {
                Some(key) => public_key_steps(self.username(), key@),
                None => Seq::empty(),
            }) + (if sshd_content(*config).len() > 0 {
                sshd_file_steps(trim(sshd_content(*config)))
            } else {
                Seq::empty()
            }),
    {
        let mut steps: Vec<Step> = match &config.public_key {
            Some(key) => install_public_key(self.new_username.as_str(), key.as_str()),
            None => Vec::new(),
        };
        let ghost key_part = step_views(steps@);
        let text = self.sshd_config_content(config);
        let content = trimmed(text.as_str());
        if text.as_str().unicode_len() > 0 {
            let mut more = write_sshd_config(content.as_str());
            let ghost file_part = step_views(more@);
            steps.append(&mut more);
            assert(step_views(steps@) =~= key_part + file_part);
        } else {
            assert(step_views(steps@) =~= key_part + Seq::<StepView>::empty());
        }
        steps
    }
}

} // verus!
