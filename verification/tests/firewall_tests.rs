use biusrv::config::{FirewallConfig, FirewallPolicy};
use biusrv::firewall::{
    allow_port, change_failure, change_needed, delete_port, deny_port, parse_port_spec,
    port_spec_with,
    port_string, probe, reset_commands, rule_command, save_rules, setup, setup_blacklist,
    setup_whitelist, status, PortSpecError, RuleOp, Target,
};
use biusrv::ssh::OsType;
use biusrv::steps::Expect;

fn ok(spec: &str) -> (String, String) {
    parse_port_spec(spec).unwrap()
}

fn pair(port: &str, protocol: &str) -> (String, String) {
    (port.to_string(), protocol.to_string())
}

fn strings(v: &[&str]) -> Option<Vec<String>> {
    Some(v.iter().map(|s| s.to_string()).collect())
}

fn firewall(policy: FirewallPolicy) -> FirewallConfig {
    FirewallConfig { policy, enable_icmp: false, allow_ping: None, allow_ports: None, deny_ports: None }
}

#[test]
fn port_specs_default_to_tcp() {
    assert_eq!(ok("22"), pair("22", "tcp"));
    assert_eq!(ok("80/tcp"), pair("80", "tcp"));
    assert_eq!(ok("53/udp"), pair("53", "udp"));
    assert_eq!(ok("1234:4567/tcp"), pair("1234:4567", "tcp"));
    assert_eq!(ok("0"), pair("0", "tcp"));
    assert_eq!(ok("65535/udp"), pair("65535", "udp"));
    assert_eq!(ok("7:7"), pair("7:7", "tcp"));
}

#[test]
fn port_specs_are_normalised() {
    assert_eq!(ok("80/TCP"), pair("80", "tcp"));
    assert_eq!(ok("80/ Udp \t"), pair("80", "udp"));
    assert_eq!(ok("0080"), pair("80", "tcp"));
    assert_eq!(ok("+443/tcp"), pair("443", "tcp"));
    assert_eq!(ok("001:+0002"), pair("1:2", "tcp"));
}

#[test]
fn bad_protocols_are_refused_first() {
    for (spec, shown) in [("80/icmp", "icmp"), ("80/", ""), ("x/SCTP", "sctp"), ("80/tcp/udp", "tcp/udp")] {
        match parse_port_spec(spec) {
            Err(PortSpecError::InvalidProtocol { protocol }) => assert_eq!(protocol, shown),
            other => panic!("unexpected {:?} for {}", other, spec),
        }
    }
    assert_eq!(
        parse_port_spec("80/icmp").unwrap_err().message(),
        "Invalid protocol: icmp. Must be 'tcp' or 'udp'"
    );
}

#[test]
fn bad_ports_are_refused_with_the_port_part() {
    for spec in ["", "abc", "65536", "-1", " 80", "80 ", "8 0", "+", "1:", ":2", "1:2:3", "1:b", "99999999999", "٣"] {
        match parse_port_spec(spec) {
            Err(PortSpecError::InvalidPort { port }) => assert_eq!(port, spec),
            other => panic!("unexpected {:?} for {:?}", other, spec),
        }
    }
    match parse_port_spec("http/tcp") {
        Err(PortSpecError::InvalidPort { port }) => assert_eq!(port, "http"),
        other => panic!("unexpected {:?}", other),
    }
    assert_eq!(parse_port_spec("1:b/udp").unwrap_err().message(), "Invalid port number: 1:b");
}

#[test]
fn ranges_must_not_run_backwards() {
    match parse_port_spec("4567:1234/tcp") {
        Err(PortSpecError::InvalidRange { start, end }) => {
            assert_eq!((start, end), (4567, 1234));
        }
        other => panic!("unexpected {:?}", other),
    }
    assert_eq!(
        parse_port_spec("4567:1234").unwrap_err().message(),
        "Invalid port range: 4567 - 1234"
    );
}

#[test]
fn rule_commands_name_protocol_port_and_target() {
    assert_eq!(
        rule_command(RuleOp::Check, "tcp", "80", Target::Accept),
        "iptables -C INPUT -p tcp --dport 80 -j ACCEPT"
    );
    assert_eq!(
        rule_command(RuleOp::Append, "udp", "53", Target::Drop),
        "iptables -A INPUT -p udp --dport 53 -j DROP"
    );
    assert_eq!(
        rule_command(RuleOp::Delete, "tcp", "1:2", Target::Drop),
        "iptables -D INPUT -p tcp --dport 1:2 -j DROP"
    );
    assert_eq!(port_string(0), "0");
    assert_eq!(port_string(2222), "2222");
}

#[test]
fn allowing_denying_and_deleting_check_before_they_change() {
    let r = allow_port("8080/TCP").unwrap();
    assert_eq!(r.check, "iptables -C INPUT -p tcp --dport 8080 -j ACCEPT");
    assert_eq!(r.apply, "iptables -A INPUT -p tcp --dport 8080 -j ACCEPT");
    let r = deny_port("53/udp").unwrap();
    assert_eq!(r.check, "iptables -C INPUT -p udp --dport 53 -j DROP");
    assert_eq!(r.apply, "iptables -A INPUT -p udp --dport 53 -j DROP");
    let r = delete_port(true, "80").unwrap();
    assert_eq!(r.check, "iptables -C INPUT -p tcp --dport 80 -j ACCEPT");
    assert_eq!(r.apply, "iptables -D INPUT -p tcp --dport 80 -j ACCEPT");
    let r = delete_port(false, "80").unwrap();
    assert_eq!(r.apply, "iptables -D INPUT -p tcp --dport 80 -j DROP");
    assert!(matches!(allow_port("x"), Err(PortSpecError::InvalidPort { .. })));
    assert!(matches!(deny_port("1/x"), Err(PortSpecError::InvalidProtocol { .. })));
    assert!(matches!(delete_port(true, "2:1"), Err(PortSpecError::InvalidRange { .. })));
}

#[test]
fn a_rule_is_appended_when_missing_and_deleted_when_present() {
    assert!(change_needed(RuleOp::Append, 1));
    assert!(!change_needed(RuleOp::Append, 0));
    assert!(change_needed(RuleOp::Delete, 0));
    assert!(!change_needed(RuleOp::Delete, 1));
    assert_eq!(change_failure(RuleOp::Append, Target::Accept, "80/tcp"), "Port 80/tcp was not allowed successfully");
    assert_eq!(change_failure(RuleOp::Append, Target::Drop, "80/tcp"), "Port 80/tcp was not denied successfully");
    assert_eq!(change_failure(RuleOp::Delete, Target::Drop, "80/tcp"), "Port 80/tcp was not deleted successfully");
}

#[test]
fn reset_opens_and_empties_the_filter() {
    assert_eq!(
        reset_commands(),
        vec![
            "iptables -P INPUT ACCEPT",
            "iptables -P FORWARD ACCEPT",
            "iptables -P OUTPUT ACCEPT",
            "iptables -F",
            "iptables -X",
        ]
    );
}

#[test]
fn whitelist_accepts_what_is_listed_and_drops_the_rest() {
    let mut c = firewall(FirewallPolicy::Whitelist);
    c.allow_ports = strings(&["80/tcp", "2222", "443", "80", "53/udp", "0080/TCP"]);
    let plan = setup_whitelist(2222, &c);
    assert!(plan.error.is_none());
    assert_eq!(
        plan.commands,
        vec![
            "iptables -A INPUT -i lo -j ACCEPT",
            "iptables -A INPUT -m state --state ESTABLISHED,RELATED -j ACCEPT",
            "iptables -A INPUT -p tcp --dport 2222 -j ACCEPT",
            "iptables -A INPUT -p tcp --dport 80 -j ACCEPT",
            "iptables -A INPUT -p tcp --dport 443 -j ACCEPT",
            "iptables -A INPUT -p udp --dport 53 -j ACCEPT",
            "iptables -P INPUT DROP",
            "iptables -P FORWARD DROP",
        ]
    );
}

#[test]
fn whitelist_icmp_rules_follow_the_configuration() {
    let mut c = firewall(FirewallPolicy::Whitelist);
    c.enable_icmp = true;
    c.allow_ping = Some(false);
    assert_eq!(setup_whitelist(22, &c).commands[3], "iptables -A INPUT -p icmp -j ACCEPT");
    c.enable_icmp = false;
    c.allow_ping = Some(true);
    assert_eq!(
        setup_whitelist(22, &c).commands[3],
        "iptables -A INPUT -p icmp --icmp-type echo-request -j ACCEPT"
    );
    c.allow_ping = Some(false);
    assert_eq!(setup_whitelist(22, &c).commands[3], "iptables -P INPUT DROP");
    assert_eq!(setup_whitelist(22, &c).commands.len(), 5);
}

#[test]
fn whitelist_stops_at_a_bad_specification_before_dropping() {
    let mut c = firewall(FirewallPolicy::Whitelist);
    c.allow_ports = strings(&["80", "bogus", "443"]);
    let plan = setup_whitelist(22, &c);
    assert!(matches!(plan.error, Some(PortSpecError::InvalidPort { ref port }) if port == "bogus"));
    assert_eq!(
        plan.commands,
        vec![
            "iptables -A INPUT -i lo -j ACCEPT",
            "iptables -A INPUT -m state --state ESTABLISHED,RELATED -j ACCEPT",
            "iptables -A INPUT -p tcp --dport 22 -j ACCEPT",
            "iptables -A INPUT -p tcp --dport 80 -j ACCEPT",
        ]
    );
}

#[test]
fn blacklist_drops_what_is_listed_but_never_ssh() {
    let mut c = firewall(FirewallPolicy::Blacklist);
    c.deny_ports = strings(&["22/tcp", "23", "22/udp", "23/tcp"]);
    let plan = setup_blacklist(22, &c);
    assert!(plan.error.is_none());
    assert_eq!(
        plan.commands,
        vec![
            "iptables -A INPUT -p icmp -j DROP",
            "iptables -A INPUT -p tcp --dport 23 -j DROP",
            "iptables -A INPUT -p udp --dport 22 -j DROP",
        ]
    );
    c.enable_icmp = true;
    c.deny_ports = None;
    assert!(setup_blacklist(22, &c).commands.is_empty());
    c.allow_ping = Some(false);
    assert_eq!(
        setup_blacklist(22, &c).commands,
        vec!["iptables -A INPUT -p icmp --icmp-type echo-request -j DROP"]
    );
    c.allow_ping = Some(true);
    assert!(setup_blacklist(22, &c).commands.is_empty());
}

#[test]
fn setup_follows_the_policy() {
    let c = firewall(FirewallPolicy::Blacklist);
    assert_eq!(setup(22, &c).commands, vec!["iptables -A INPUT -p icmp -j DROP"]);
    let c = firewall(FirewallPolicy::Whitelist);
    assert_eq!(setup(22, &c).commands.len(), 5);
}

#[test]
fn probe_and_status_must_succeed() {
    let p = probe();
    assert_eq!(p.command, "which iptables");
    assert!(matches!(p.expect, Expect::Success { ref message } if message == "iptables is not available on this system"));
    let s = status();
    assert_eq!(s.command, "iptables -L -n -v");
    assert!(matches!(s.expect, Expect::SuccessOrReport { ref what } if what == "Failed to get iptables status"));
}

#[test]
fn rules_are_saved_the_familys_way() {
    let d = save_rules(OsType::Debian);
    assert!(d.stop_if_active.is_none());
    assert_eq!(d.steps.len(), 2);
    assert_eq!(d.steps[0].command, "which netfilter-persistent");
    assert!(d.steps[0].fallback.as_ref().unwrap().ends_with(" iptables-persistent"));
    assert_eq!(d.steps[1].command, "netfilter-persistent save");
    let r = save_rules(OsType::RedHat);
    let (probe, stop) = r.stop_if_active.unwrap();
    assert_eq!(probe, "systemctl is-active firewalld");
    assert_eq!(stop.primary, "systemctl stop firewalld");
    assert_eq!(stop.fallback, "service firewalld stop");
    assert_eq!(r.steps[0].command, "systemctl enable iptables");
    assert_eq!(r.steps[0].fallback.as_deref(), Some("chkconfig iptables on"));
    assert_eq!(r.steps[1].command, "serivce iptables save");
    assert_eq!(
        r.steps[1].fallback.as_deref(),
        Some("iptables-save > /etc/sysconfig/iptables || iptables-save > /etc/iptables/iptables.rules || iptables-save > /etc/iptables/rules.v4")
    );
    let a = save_rules(OsType::Arch);
    assert!(a.stop_if_active.is_none());
    assert_eq!(a.steps[0].command, "iptables-save > /etc/iptables/iptables.rules");
    assert_eq!(a.steps[1].command, "systemctl enable iptables");
}

#[test]
fn port_and_protocol_are_read_once_the_protocol_is_in_lowercase() {
    assert_eq!(port_spec_with("53", Some("udp")).unwrap(), pair("53", "udp"));
    assert_eq!(port_spec_with("0080", Some("tcp")).unwrap(), pair("80", "tcp"));
    assert_eq!(port_spec_with("22", None).unwrap(), pair("22", "tcp"));
    assert_eq!(port_spec_with("1:2", None).unwrap(), pair("1:2", "tcp"));
    assert!(matches!(
        port_spec_with("53", Some("UDP")),
        Err(PortSpecError::InvalidProtocol { ref protocol }) if protocol == "UDP"
    ));
    assert!(matches!(
        port_spec_with("x", Some(" udp")),
        Err(PortSpecError::InvalidProtocol { ref protocol }) if protocol == " udp"
    ));
    assert!(matches!(port_spec_with("x", Some("udp")), Err(PortSpecError::InvalidPort { .. })));
    assert!(matches!(port_spec_with("9:1", None), Err(PortSpecError::InvalidRange { start: 9, end: 1 })));
    assert_eq!(parse_port_spec("53/ UDP ").unwrap(), pair("53", "udp"));
}
