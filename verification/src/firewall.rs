//! The packet filter: reading port specifications and writing the `iptables`
//! commands that allow, deny or forget a port, and the rule sets of a
//! whitelist and of a blacklist.

use vstd::prelude::*;
use vstd::string::*;
use crate::config::{FirewallConfig, FirewallPolicy};
use crate::ssh::{CommandResult, OsType};
use crate::steps::{
    report_step, require_step, run_step, service_step, step_views, Expect, ExpectView, Step,
    StepView,
};
use crate::utils::{
    enable_fallback, enable_service, install, install_line, stop_service, ServiceCommand,
};
use crate::text::{
    concat, decimal, find_char, first_index, from_chars, owned, parse_u16, parsed_u16,
    push_decimal, str_eq, to_chars, trim, trimmed, views,
};

verus! {

/// What `str::to_lowercase` makes of the text `s`.
pub uninterp spec fn lowercase(s: Seq<char>) -> Seq<char>;

/// `str::to_lowercase`: the text with each character replaced by its
/// lowercase form as Unicode defines it.
#[verifier::external_body]
fn to_lowercase(s: &str) -> (r: String)
    ensures
        r@ == lowercase(s@),
{
    s.to_lowercase()
}

/// Why a port specification was refused.
#[derive(Debug)]
pub enum PortSpecError {
    /// The protocol is neither `tcp` nor `udp`.
    InvalidProtocol { protocol: String },
    /// A port is not a number below 65536.
    InvalidPort { port: String },
    /// A range ends before it starts.
    InvalidRange { start: u16, end: u16 },
}

/// A `PortSpecError` as plain values.
pub ghost enum PortSpecErrorView {
    InvalidProtocol { protocol: Seq<char> },
    InvalidPort { port: Seq<char> },
    InvalidRange { start: u16, end: u16 },
}

impl View for PortSpecError {
    type V = PortSpecErrorView;

    open spec fn view(&self) -> PortSpecErrorView {
        match *self {
            PortSpecError::InvalidProtocol { protocol } => PortSpecErrorView::InvalidProtocol {
                protocol: protocol@,
            },
            PortSpecError::InvalidPort { port } => PortSpecErrorView::InvalidPort { port: port@ },
            PortSpecError::InvalidRange { start, end } => PortSpecErrorView::InvalidRange {
                start,
                end,
            },
        }
    }
}

/// The error in words.
pub open spec fn port_error_text(e: PortSpecErrorView) -> Seq<char> {
    match e {
        PortSpecErrorView::InvalidProtocol { protocol } => "Invalid protocol: "@ + protocol
            + ". Must be 'tcp' or 'udp'"@,
        PortSpecErrorView::InvalidPort { port } => "Invalid port number: "@ + port,
        PortSpecErrorView::InvalidRange { start, end } => "Invalid port range: "@ + decimal(
            start as nat,
        ) + " - "@ + decimal(end as nat),
    }
}

impl PortSpecError {
    /// The error in words.
    pub fn message(&self) -> (r: String)
        ensures
            r@ == port_error_text(self@),
    {
        match self {
            PortSpecError::InvalidProtocol { protocol } => {
                let mut r = concat("Invalid protocol: ", protocol.as_str());
                r.append(". Must be 'tcp' or 'udp'");
                r
            },
            PortSpecError::InvalidPort { port } => concat("Invalid port number: ", port.as_str()),
            PortSpecError::InvalidRange { start, end } => {
                let mut r = owned("Invalid port range: ");
                push_decimal(&mut r, *start as u64);
                r.append(" - ");
                push_decimal(&mut r, *end as u64);
                r
            },
        }
    }
}

/// A port or a range of ports, and the protocol.
pub ghost struct PortSpecView {
    pub port: Seq<char>,
    pub protocol: Seq<char>,
}

/// The part of `spec` that names the port or the range: what stands before
/// the first `/`, or all of it.
pub open spec fn port_part(spec: Seq<char>) -> Seq<char> {
    spec.take(first_index(spec, '/'))
}

/// The port or range `part` in its plain form, `port` or `start:end` with
/// the numbers in decimal, or why it is none.
pub open spec fn port_form(part: Seq<char>) -> Result<Seq<char>, PortSpecErrorView> {
    let colon = first_index(part, ':');
    if colon < part.len() {
        match (parsed_u16(part.take(colon)), parsed_u16(part.skip(colon + 1))) {
            (Some(start), Some(end)) => if start > end {
                Err(PortSpecErrorView::InvalidRange { start, end })
            } else {
                Ok(decimal(start as nat) + ":"@ + decimal(end as nat))
            },
            _ => Err(PortSpecErrorView::InvalidPort { port: part }),
        }
    } else {
        match parsed_u16(part) {
            Some(port) => Ok(decimal(port as nat)),
            None => Err(PortSpecErrorView::InvalidPort { port: part }),
        }
    }
}

/// The protocol that `spec` names, if it names one: what follows the first
/// `/`, trimmed and in lowercase.
pub open spec fn named_protocol(spec: Seq<char>) -> Option<Seq<char>> {
    let slash = first_index(spec, '/');
    if slash < spec.len() {
        Some(lowercase(trim(spec.skip(slash + 1))))
    } else {
        None
    }
}

/// What a port part and a protocol stand for, the protocol being given as it
/// is to be compared: `tcp` where there is none. The protocol is judged
/// first, then the port.
pub open spec fn port_spec_from(part: Seq<char>, protocol: Option<Seq<char>>) -> Result<
    PortSpecView,
    PortSpecErrorView,
> {
    let protocol = match protocol {
        Some(p) => p,
        None => "tcp"@,
    };
    if protocol != "tcp"@ && protocol != "udp"@ {
        Err(PortSpecErrorView::InvalidProtocol { protocol })
    } else {
        match port_form(part) {
            Ok(port) => Ok(PortSpecView { port, protocol }),
            Err(e) => Err(e),
        }
    }
}

/// What the specification `spec` stands for.
pub open spec fn port_spec_of(spec: Seq<char>) -> Result<PortSpecView, PortSpecErrorView> {
    port_spec_from(port_part(spec), named_protocol(spec))
}

/// Whether `r` is the reading `want` of a specification.
pub open spec fn reads_as(
    r: Result<(String, String), PortSpecError>,
    want: Result<PortSpecView, PortSpecErrorView>,
) -> bool {
    match r {
        Ok((port, protocol)) => want == Ok::<PortSpecView, PortSpecErrorView>(
            PortSpecView { port: port@, protocol: protocol@ },
        ),
        Err(e) => want == Err::<PortSpecView, PortSpecErrorView>(e@),
    }
}

/// The view of an optional string slice.
pub open spec fn opt_text(s: Option<&str>) -> Option<Seq<char>> {
    match s {
        Some(s) => Some(s@),
        None => None,
    }
}

/// Reads a port or a range `start:end` together with a protocol that is
/// already trimmed and in lowercase. The protocol must be `tcp` or `udp`;
/// where none is given it is `tcp`. The numbers must be below 65536, and a
/// range must not end before it starts. Returns the port or range in plain
/// decimal form and the protocol.
pub fn port_spec_with(port_part: &str, protocol: Option<&str>) -> (r: Result<
    (String, String),
    PortSpecError,
>)
    ensures
        reads_as(r, port_spec_from(port_part@, opt_text(protocol))),
{
    let protocol = match protocol {
        Some(p) => {
            if !str_eq(p, "tcp") && !str_eq(p, "udp") {
                return Err(PortSpecError::InvalidProtocol { protocol: owned(p) });
            }
            owned(p)
        },
        None => owned("tcp"),
    };
    let part = owned(port_part);
    let p = to_chars(port_part);
    let port = match find_char(&p, ':') {
        Some(colon) => {
            proof {
                assert(p@.subrange(0, colon as int) =~= p@.take(colon as int));
                assert(p@.subrange(colon + 1, p.len() as int) =~= p@.skip(colon + 1));
            }
            let start = match parse_u16(&p, 0, colon) {
                Some(n) => n,
                None => {
                    return Err(PortSpecError::InvalidPort { port: part });
                },
            };
            let end = match parse_u16(&p, colon + 1, p.len()) {
                Some(n) => n,
                None => {
                    return Err(PortSpecError::InvalidPort { port: part });
                },
            };
            if start > end {
                return Err(PortSpecError::InvalidRange { start, end });
            }
            let mut text = String::new();
            push_decimal(&mut text, start as u64);
            text.append(":");
            push_decimal(&mut text, end as u64);
            proof {
                assert(Seq::<char>::empty() + decimal(start as nat) + ":"@ + decimal(end as nat)
                    =~= decimal(start as nat) + ":"@ + decimal(end as nat));
            }
            text
        },
        None => {
            proof {
                assert(p@.subrange(0, p.len() as int) =~= p@);
            }
            match parse_u16(&p, 0, p.len()) {
                Some(n) => {
                    let mut text = String::new();
                    push_decimal(&mut text, n as u64);
                    proof {
                        assert(Seq::<char>::empty() + decimal(n as nat) =~= decimal(n as nat));
                    }
                    text
                },
                None => {
                    return Err(PortSpecError::InvalidPort { port: part });
                },
            }
        },
    };
    Ok((port, protocol))
}

/// Reads a port specification such as `80/tcp`, `53/udp`, `22` or
/// `1234:4567/tcp`: a port or a range `start:end`, then optionally `/` and
/// the protocol, `tcp` or `udp` in any case; without one the protocol is
/// `tcp`. Returns the port or range in plain decimal form and the protocol
/// in lowercase.
pub fn parse_port_spec(port_spec: &str) -> (r: Result<(String, String), PortSpecError>)
    ensures
        reads_as(r, port_spec_of(port_spec@)),
{
    let chars = to_chars(port_spec);
    match find_char(&chars, '/') {
        Some(slash) => {
            let after = from_chars(&chars, slash + 1, chars.len());
            let part = from_chars(&chars, 0, slash);
            proof {
                assert(chars@.subrange(slash + 1, chars.len() as int) =~= chars@.skip(slash + 1));
                assert(chars@.subrange(0, slash as int) =~= port_part(port_spec@));
            }
            let after = trimmed(after.as_str());
            let protocol = to_lowercase(after.as_str());
            port_spec_with(part.as_str(), Some(protocol.as_str()))
        },
        None => {
            proof {
                assert(port_spec@.take(chars.len() as int) =~= port_spec@);
            }
            port_spec_with(port_spec, None)
        },
    }
}

/// What a rule does with the packets it matches.
#[derive(Debug, Clone, Copy, PartialEq, Eq, Structural)]
pub enum Target {
    Accept,
    Drop,
}

/// What is done with a rule.
#[derive(Debug, Clone, Copy, PartialEq, Eq, Structural)]
pub enum RuleOp {
    /// Ask whether the rule is in place.
    Check,
    /// Append the rule.
    Append,
    /// Delete the rule.
    Delete,
}

/// The `iptables` flag for `op`.
pub open spec fn op_flag(op: RuleOp) -> Seq<char> {
    match op {
        RuleOp::Check => "-C"@,
        RuleOp::Append => "-A"@,
        RuleOp::Delete => "-D"@,
    }
}

/// The `iptables` name of `target`.
pub open spec fn target_name(target: Target) -> Seq<char> {
    match target {
        Target::Accept => "ACCEPT"@,
        Target::Drop => "DROP"@,
    }
}

/// The command that does `op` with the rule for incoming packets of
/// `protocol` to `port`.
pub open spec fn rule_line(op: RuleOp, protocol: Seq<char>, port: Seq<char>, target: Target) -> Seq<
    char,
> {
    "iptables "@ + op_flag(op) + " INPUT -p "@ + protocol + " --dport "@ + port + " -j "@
        + target_name(target)
}

/// The command that does `op` with one port rule.
pub fn rule_command(op: RuleOp, protocol: &str, port: &str, target: Target) -> (r: String)
    ensures
        r@ == rule_line(op, protocol@, port@, target),
{
    let mut r = owned("iptables ");
    r.append(
        match op {
            RuleOp::Check => "-C",
            RuleOp::Append => "-A",
            RuleOp::Delete => "-D",
        },
    );
    r.append(" INPUT -p ");
    r.append(protocol);
    r.append(" --dport ");
    r.append(port);
    r.append(" -j ");
    r.append(
        match target {
            Target::Accept => "ACCEPT",
            Target::Drop => "DROP",
        },
    );
    r
}

/// A change to one port rule: the command that asks whether the rule is in
/// place, and the command that makes the change.
#[derive(Debug)]
pub struct PortRule {
    pub check: String,
    pub apply: String,
}

/// Whether `r` is the change `op` to the rule with `target` for the
/// specification `spec`, or the error of that specification.
pub open spec fn port_rule_for(
    r: Result<PortRule, PortSpecError>,
    spec: Seq<char>,
    op: RuleOp,
    target: Target,
) -> bool {
    match (r, port_spec_of(spec)) {
        (Ok(rule), Ok(p)) => rule.check@ == rule_line(RuleOp::Check, p.protocol, p.port, target)
            && rule.apply@ == rule_line(op, p.protocol, p.port, target),
        (Err(e), Err(want)) => e@ == want,
        _ => false,
    }
}

/// The change `op` to the rule with `target` for one port specification.
pub fn port_rule(port_spec: &str, op: RuleOp, target: Target) -> (r: Result<
    PortRule,
    PortSpecError,
>)
    ensures
        port_rule_for(r, port_spec@, op, target),
{
    match parse_port_spec(port_spec) {
        Ok((port, protocol)) => Ok(
            PortRule {
                check: rule_command(RuleOp::Check, protocol.as_str(), port.as_str(), target),
                apply: rule_command(op, protocol.as_str(), port.as_str(), target),
            },
        ),
        Err(e) => Err(e),
    }
}

/// Allowing a port: the rule that accepts it is appended unless it is in
/// place.
pub fn allow_port(port_spec: &str) -> (r: Result<PortRule, PortSpecError>)
    ensures
        port_rule_for(r, port_spec@, RuleOp::Append, Target::Accept),
{
    port_rule(port_spec, RuleOp::Append, Target::Accept)
}

/// Denying a port: the rule that drops it is appended unless it is in place.
pub fn deny_port(port_spec: &str) -> (r: Result<PortRule, PortSpecError>)
    ensures
        port_rule_for(r, port_spec@, RuleOp::Append, Target::Drop),
{
    port_rule(port_spec, RuleOp::Append, Target::Drop)
}

/// Forgetting a port: the rule that accepts it, where `allow` is set, or
/// that drops it is deleted if it is in place.
pub fn delete_port(allow: bool, port_spec: &str) -> (r: Result<PortRule, PortSpecError>)
    ensures
        port_rule_for(
            r,
            port_spec@,
            RuleOp::Delete,
            if allow {
                Target::Accept
            } else {
                Target::Drop
            },
        ),
{
    port_rule(
        port_spec,
        RuleOp::Delete,
        if allow {
            Target::Accept
        } else {
            Target::Drop
        },
    )
}

/// Whether the change is still to be made after the check ended with
/// `check_status`: a rule is appended when the check did not find it, and
/// deleted when the check found it.
pub fn change_needed(op: RuleOp, check_status: u32) -> (r: bool)
    ensures
        r == match op {
            RuleOp::Delete => check_status == 0,
            _ => check_status != 0,
        },
{
    match op {
        RuleOp::Delete => check_status == 0,
        _ => check_status != 0,
    }
}

/// What failed, for the message of a change that `iptables` refused.
pub fn change_failure(op: RuleOp, target: Target, port_spec: &str) -> (r: String)
    ensures
        r@ == "Port "@ + port_spec@ + match (op, target) {
            (RuleOp::Delete, _) => " was not deleted successfully"@,
            (_, Target::Accept) => " was not allowed successfully"@,
            (_, Target::Drop) => " was not denied successfully"@,
        },
{
    let mut r = concat("Port ", port_spec);
    match op {
        RuleOp::Delete => {
            r.append(" was not deleted successfully");
        },
        _ => {
            match target {
                Target::Accept => {
                    r.append(" was not allowed successfully");
                },
                Target::Drop => {
                    r.append(" was not denied successfully");
                },
            }
        },
    }
    r
}

/// The commands that open the filter and empty it before a rule set is
/// written: every policy on accept, every rule flushed, every chain of the
/// user's deleted.
pub fn reset_commands() -> (r: Vec<String>)
    ensures
        views(r@) == seq![
            "iptables -P INPUT ACCEPT"@,
            "iptables -P FORWARD ACCEPT"@,
            "iptables -P OUTPUT ACCEPT"@,
            "iptables -F"@,
            "iptables -X"@,
        ],
{
    let mut r: Vec<String> = Vec::new();
    r.push(owned("iptables -P INPUT ACCEPT"));
    r.push(owned("iptables -P FORWARD ACCEPT"));
    r.push(owned("iptables -P OUTPUT ACCEPT"));
    r.push(owned("iptables -F"));
    r.push(owned("iptables -X"));
    assert(views(r@) =~= seq![
        "iptables -P INPUT ACCEPT"@,
        "iptables -P FORWARD ACCEPT"@,
        "iptables -P OUTPUT ACCEPT"@,
        "iptables -F"@,
        "iptables -X"@,
    ]);
    r
}

/// The commands of a rule set, and the specification at which writing it
/// stopped, if it did. The commands are to be run in order; where there is
/// an error, it is the result after they have run.
#[derive(Debug)]
pub struct RulePlan {
    pub commands: Vec<String>,
    pub error: Option<PortSpecError>,
}

/// A `RulePlan` as plain values.
pub ghost struct RulePlanView {
    pub commands: Seq<Seq<char>>,
    pub error: Option<PortSpecErrorView>,
}

impl View for RulePlan {
    type V = RulePlanView;

    open spec fn view(&self) -> RulePlanView {
        RulePlanView {
            commands: views(self.commands@),
            error: match self.error {
                Some(e) => Some(e@),
                None => None,
            },
        }
    }
}

/// Whether the port `p` is among `seen`.
pub open spec fn seen_before(seen: Seq<PortSpecView>, p: PortSpecView) -> bool {
    exists|i: int| 0 <= i < seen.len() && seen[i] == p
}

/// The rules with `target` for the specifications `specs`, one for each port
/// not in `seen` and not named before, up to the first specification that
/// cannot be read.
pub open spec fn port_rules(specs: Seq<Seq<char>>, seen: Seq<PortSpecView>, target: Target) -> RulePlanView
    decreases specs.len(),
{
    if specs.len() == 0 {
        RulePlanView { commands: Seq::empty(), error: None }
    } else {
        match port_spec_of(specs[0]) {
            Err(e) => RulePlanView { commands: Seq::empty(), error: Some(e) },
            Ok(p) => if seen_before(seen, p) {
                port_rules(specs.drop_first(), seen, target)
            } else {
                let rest = port_rules(specs.drop_first(), seen.push(p), target);
                RulePlanView {
                    commands: seq![rule_line(RuleOp::Append, p.protocol, p.port, target)]
                        + rest.commands,
                    error: rest.error,
                }
            },
        }
    }
}

/// The rule for ICMP in a whitelist: all of it accepted where it is
/// enabled, else echo requests accepted where ping is allowed.
pub open spec fn whitelist_icmp(enable_icmp: bool, allow_ping: Option<bool>) -> Seq<Seq<char>> {
    if enable_icmp {
        seq!["iptables -A INPUT -p icmp -j ACCEPT"@]
    } else if allow_ping == Some(true) {
        seq!["iptables -A INPUT -p icmp --icmp-type echo-request -j ACCEPT"@]
    } else {
        Seq::empty()
    }
}

/// The rule for ICMP in a blacklist: all of it dropped where it is not
/// enabled, else echo requests dropped where ping is forbidden.
pub open spec fn blacklist_icmp(enable_icmp: bool, allow_ping: Option<bool>) -> Seq<Seq<char>> {
    if !enable_icmp {
        seq!["iptables -A INPUT -p icmp -j DROP"@]
    } else if allow_ping == Some(false) {
        seq!["iptables -A INPUT -p icmp --icmp-type echo-request -j DROP"@]
    } else {
        Seq::empty()
    }
}

/// A port number in decimal.
pub open spec fn port_text(port: u16) -> Seq<char> {
    decimal(port as nat)
}

/// A port number in decimal.
pub fn port_string(port: u16) -> (r: String)
    ensures
        r@ == port_text(port),
{
    let mut r = String::new();
    push_decimal(&mut r, port as u64);
    assert(Seq::<char>::empty() + decimal(port as nat) =~= decimal(port as nat));
    r
}

/// The port of the SSH daemon, which a rule set always leaves open.
pub open spec fn ssh_spec(ssh_port: u16) -> PortSpecView {
    PortSpecView { port: port_text(ssh_port), protocol: "tcp"@ }
}

/// The specifications listed, or none.
pub open spec fn listed(ports: Option<Vec<String>>) -> Seq<Seq<char>> {
    match ports {
        Some(v) => views(v@),
        None => Seq::empty(),
    }
}

/// The rule set of a whitelist. Loopback, established connections and the
/// SSH port are accepted, then ICMP as configured, then each allowed port
/// once; if every specification could be read, everything else is dropped.
pub open spec fn whitelist_plan(ssh_port: u16, config: FirewallConfig) -> RulePlanView {
    let head = seq![
        "iptables -A INPUT -i lo -j ACCEPT"@,
        "iptables -A INPUT -m state --state ESTABLISHED,RELATED -j ACCEPT"@,
        rule_line(RuleOp::Append, "tcp"@, port_text(ssh_port), Target::Accept),
    ] + whitelist_icmp(config.enable_icmp, config.allow_ping);
    let ports = port_rules(listed(config.allow_ports), seq![ssh_spec(ssh_port)], Target::Accept);
    if ports.error is Some {
        RulePlanView { commands: head + ports.commands, error: ports.error }
    } else {
        RulePlanView {
            commands: head + ports.commands + seq![
                "iptables -P INPUT DROP"@,
                "iptables -P FORWARD DROP"@,
            ],
            error: None,
        }
    }
}

/// The rule set of a blacklist: ICMP as configured, then each denied port
/// once, the SSH port never.
pub open spec fn blacklist_plan(ssh_port: u16, config: FirewallConfig) -> RulePlanView {
    let ports = port_rules(listed(config.deny_ports), seq![ssh_spec(ssh_port)], Target::Drop);
    RulePlanView {
        commands: blacklist_icmp(config.enable_icmp, config.allow_ping) + ports.commands,
        error: ports.error,
    }
}

/// A port already handled.
struct SeenPort {
    port: String,
    protocol: String,
}

spec fn seen_views(seen: Seq<SeenPort>) -> Seq<PortSpecView> {
    Seq::new(seen.len(), |i: int| PortSpecView { port: seen[i].port@, protocol: seen[i].protocol@ })
}

fn is_seen(seen: &Vec<SeenPort>, port: &str, protocol: &str) -> (r: bool)
    ensures
        r == seen_before(seen_views(seen@), PortSpecView { port: port@, protocol: protocol@ }),
{
    let ghost p = PortSpecView { port: port@, protocol: protocol@ };
    let mut i: usize = 0;
    while i < seen.len()
        invariant
            i <= seen.len(),
            p == (PortSpecView { port: port@, protocol: protocol@ }),
            forall|j: int| 0 <= j < i ==> seen_views(seen@)[j] != p,
        decreases seen.len() - i,
    {
        if str_eq(seen[i].port.as_str(), port) && str_eq(seen[i].protocol.as_str(), protocol) {
            assert(seen_views(seen@)[i as int] == p);
            return true;
        }
        i += 1;
    }
    false
}

/// Appends to `commands` the rules for `specs`, and returns the error of the
/// first specification that cannot be read.
fn push_port_rules(
    commands: &mut Vec<String>,
    specs: &Vec<String>,
    ssh_port: u16,
    target: Target,
) -> (error: Option<PortSpecError>)
    ensures
        views(final(commands)@) == views(old(commands)@) + port_rules(
            views(specs@),
            seq![ssh_spec(ssh_port)],
            target,
        ).commands,
        match error {
            Some(e) => port_rules(views(specs@), seq![ssh_spec(ssh_port)], target).error == Some(
                e@,
            ),
            None => port_rules(views(specs@), seq![ssh_spec(ssh_port)], target).error is None,
        },
{
    let ghost start = views(commands@);
    let ghost all = views(specs@);
    let ghost first_seen = seq![ssh_spec(ssh_port)];
    let mut seen: Vec<SeenPort> = Vec::new();
    let ssh = port_string(ssh_port);
    seen.push(SeenPort { port: ssh, protocol: owned("tcp") });
    assert(seen_views(seen@) =~= first_seen);
    let mut i: usize = 0;
    proof {
        assert(all.skip(0) =~= all);
        assert(start + Seq::<Seq<char>>::empty() =~= start);
    }
    let ghost mut done: Seq<Seq<char>> = Seq::empty();
    while i < specs.len()
        invariant
            i <= specs.len(),
            all == views(specs@),
            start == views(old(commands)@),
            first_seen == seq![ssh_spec(ssh_port)],
            views(commands@) == start + done,
            port_rules(all, first_seen, target).commands == done + port_rules(
                all.skip(i as int),
                seen_views(seen@),
                target,
            ).commands,
            port_rules(all, first_seen, target).error == port_rules(
                all.skip(i as int),
                seen_views(seen@),
                target,
            ).error,
        decreases specs.len() - i,
    {
        let ghost rest = all.skip(i as int);
        proof {
            assert(rest[0] == specs@[i as int]@);
            assert(rest.drop_first() =~= all.skip(i + 1));
        }
        match parse_port_spec(specs[i].as_str()) {
            Err(e) => {
                proof {
                    assert(port_spec_of(rest[0]) == Err::<PortSpecView, PortSpecErrorView>(e@));
                    assert(port_rules(rest, seen_views(seen@), target) == (RulePlanView {
                        commands: Seq::empty(),
                        error: Some(e@),
                    }));
                    assert(done + Seq::<Seq<char>>::empty() =~= done);
                }
                return Some(e);
            },
            Ok((port, protocol)) => {
                if !is_seen(&seen, port.as_str(), protocol.as_str()) {
                    let ghost before = views(commands@);
                    let ghost seen_before_push = seen_views(seen@);
                    let line = rule_command(
                        RuleOp::Append,
                        protocol.as_str(),
                        port.as_str(),
                        target,
                    );
                    commands.push(line);
                    let ghost p = PortSpecView { port: port@, protocol: protocol@ };
                    seen.push(SeenPort { port, protocol });
                    proof {
                        assert(seen_views(seen@) =~= seen_before_push.push(p));
                        assert(views(commands@) =~= before.push(line@));
                        let tail = port_rules(all.skip(i + 1), seen_views(seen@), target).commands;
                        assert(done + (seq![line@] + tail) =~= done.push(line@) + tail);
                        assert(start + done.push(line@) =~= before.push(line@));
                        done = done.push(line@);
                    }
                }
            },
        }
        i += 1;
    }
    proof {
        assert(all.skip(specs.len() as int) =~= Seq::<Seq<char>>::empty());
        assert(done + Seq::<Seq<char>>::empty() =~= done);
    }
    None
}

/// Writes the rule set of a whitelist for `config`, with the SSH daemon on
/// `ssh_port`.
pub fn setup_whitelist(ssh_port: u16, config: &FirewallConfig) -> (plan: RulePlan)
    ensures
        plan@ == whitelist_plan(ssh_port, *config),
{
    let mut commands: Vec<String> = Vec::new();
    commands.push(owned("iptables -A INPUT -i lo -j ACCEPT"));
    commands.push(owned("iptables -A INPUT -m state --state ESTABLISHED,RELATED -j ACCEPT"));
    let port = port_string(ssh_port);
    commands.push(rule_command(RuleOp::Append, "tcp", port.as_str(), Target::Accept));
    if config.enable_icmp {
        commands.push(owned("iptables -A INPUT -p icmp -j ACCEPT"));
    } else {
        match config.allow_ping {
            Some(true) => {
                commands.push(
                    owned("iptables -A INPUT -p icmp --icmp-type echo-request -j ACCEPT"),
                );
            },
            _ => {},
        }
    }
    let ghost head = seq![
        "iptables -A INPUT -i lo -j ACCEPT"@,
        "iptables -A INPUT -m state --state ESTABLISHED,RELATED -j ACCEPT"@,
        rule_line(RuleOp::Append, "tcp"@, port_text(ssh_port), Target::Accept),
    ] + whitelist_icmp(config.enable_icmp, config.allow_ping);
    assert(views(commands@) =~= head);
    let error = match &config.allow_ports {
        Some(specs) => push_port_rules(&mut commands, specs, ssh_port, Target::Accept),
        None => {
            assert(views(commands@) + Seq::<Seq<char>>::empty() =~= views(commands@));
            None
        },
    };
    if error.is_none() {
        let ghost before = views(commands@);
        commands.push(owned("iptables -P INPUT DROP"));
        commands.push(owned("iptables -P FORWARD DROP"));
        assert(views(commands@) =~= before + seq![
            "iptables -P INPUT DROP"@,
            "iptables -P FORWARD DROP"@,
        ]);
    }
    RulePlan { commands, error }
}

/// Writes the rule set of a blacklist for `config`, with the SSH daemon on
/// `ssh_port`.
pub fn setup_blacklist(ssh_port: u16, config: &FirewallConfig) -> (plan: RulePlan)
    ensures
        plan@ == blacklist_plan(ssh_port, *config),
{
    let mut commands: Vec<String> = Vec::new();
    if !config.enable_icmp {
        commands.push(owned("iptables -A INPUT -p icmp -j DROP"));
    } else {
        match config.allow_ping {
            Some(false) => {
                commands.push(owned("iptables -A INPUT -p icmp --icmp-type echo-request -j DROP"));
            },
            _ => {},
        }
    }
    assert(views(commands@) =~= blacklist_icmp(config.enable_icmp, config.allow_ping));
    let error = match &config.deny_ports {
        Some(specs) => push_port_rules(&mut commands, specs, ssh_port, Target::Drop),
        None => {
            assert(views(commands@) + Seq::<Seq<char>>::empty() =~= views(commands@));
            None
        },
    };
    RulePlan { commands, error }
}

/// Writes the rule set that `config` asks for.
pub fn setup(ssh_port: u16, config: &FirewallConfig) -> (plan: RulePlan)
    ensures
        plan@ == match config.policy {
            FirewallPolicy::Whitelist => whitelist_plan(ssh_port, *config),
            FirewallPolicy::Blacklist => blacklist_plan(ssh_port, *config),
        },
{
    match config.policy {
        FirewallPolicy::Whitelist => setup_whitelist(ssh_port, config),
        FirewallPolicy::Blacklist => setup_blacklist(ssh_port, config),
    }
}

/// The step that makes sure that `iptables` is there before a rule set is
/// written.
pub fn probe() -> (s: Step)
    ensures
        s@ == require_step("which iptables"@, "iptables is not available on this system"@),
{
    Step::require(owned("which iptables"), owned("iptables is not available on this system"))
}

/// The step that lists the rules in place; its output is the status.
pub fn status() -> (s: Step)
    ensures
        s@ == report_step("iptables -L -n -v"@, "Failed to get iptables status"@),
{
    Step::require_or_report(owned("iptables -L -n -v"), owned("Failed to get iptables status"))
}

/// How the rules in place are kept across restarts.
#[derive(Debug)]
pub struct SaveRules {
    /// A service that is in the way: where the probe succeeds, the service
    /// is stopped first.
    pub stop_if_active: Option<(String, ServiceCommand)>,
    /// The steps that save the rules.
    pub steps: Vec<Step>,
}

/// Whether the service that is in the way is to be stopped, the probe for
/// it having ended as `probe`: it is where the probe succeeded.
pub fn stop_due(probe: &CommandResult) -> (r: bool)
    ensures
        r == (probe.exit_status == 0),
{
    probe.exit_status == 0
}

/// The steps that save the rules on a system of family `os`. On Debian the
/// tool that keeps them is installed if it is missing, and saves them. On
/// Red Hat the `iptables` service is enabled and asked to save them, and
/// they are written to the usual files if it does not. On Arch they are
/// written to the rules file and the service is enabled.
pub open spec fn save_steps(os: OsType) -> Seq<StepView> {
    match os {
        OsType::Debian => seq![
            StepView {
                command: "which netfilter-persistent"@,
                fallback: Some(install_line(os, "iptables-persistent"@)),
                expect: ExpectView::SuccessOrReport {
                    what: "Failed to install iptables-persistent"@,
                },
            },
            report_step("netfilter-persistent save"@, "Failed to save iptables rules"@),
        ],
        OsType::RedHat => seq![
            service_step("systemctl enable "@ + "iptables"@, enable_fallback(os, "iptables"@)),
            StepView {
                command: "serivce iptables save"@,
                fallback: Some(
                    "iptables-save > /etc/sysconfig/iptables || iptables-save > /etc/iptables/iptables.rules || iptables-save > /etc/iptables/rules.v4"@,
                ),
                expect: ExpectView::SuccessOrReport { what: "Failed to save iptables rules"@ },
            },
        ],
        OsType::Arch => seq![
            run_step("iptables-save > /etc/iptables/iptables.rules"@),
            service_step("systemctl enable "@ + "iptables"@, enable_fallback(os, "iptables"@)),
        ],
    }
}

/// How the rules are kept on a system of family `os`. Only on Red Hat is
/// there a service to stop first: `firewalld`, where it is active.
pub fn save_rules(os: OsType) -> (r: SaveRules)
    ensures
        step_views(r.steps@) == save_steps(os),
        os != OsType::RedHat ==> r.stop_if_active is None,
        os == OsType::RedHat ==> (r.stop_if_active matches Some((probe, stop)) && probe@
            == "systemctl is-active firewalld"@ && stop.primary@ == "systemctl "@ + "stop"@ + " "@
            + "firewalld"@ && stop.fallback@ == "service "@ + "firewalld"@ + " "@ + "stop"@),
{
    let mut steps: Vec<Step> = Vec::new();
    match os {
        OsType::Debian => {
            steps.push(
                Step {
                    command: owned("which netfilter-persistent"),
                    fallback: Some(install(os, "iptables-persistent")),
                    expect: Expect::SuccessOrReport {
                        what: owned("Failed to install iptables-persistent"),
                    },
                },
            );
            steps.push(
                Step::require_or_report(
                    owned("netfilter-persistent save"),
                    owned("Failed to save iptables rules"),
                ),
            );
            assert(step_views(steps@) =~= save_steps(os));
            SaveRules { stop_if_active: None, steps }
        },
        OsType::RedHat => {
            steps.push(Step::service(enable_service(os, "iptables")));
            steps.push(
                Step {
                    command: owned("serivce iptables save"),
                    fallback: Some(
                        owned(
                            "iptables-save > /etc/sysconfig/iptables || iptables-save > /etc/iptables/iptables.rules || iptables-save > /etc/iptables/rules.v4",
                        ),
                    ),
                    expect: Expect::SuccessOrReport {
                        what: owned("Failed to save iptables rules"),
                    },
                },
            );
            assert(step_views(steps@) =~= save_steps(os));
            SaveRules {
                stop_if_active: Some(
                    (owned("systemctl is-active firewalld"), stop_service("firewalld")),
                ),
                steps,
            }
        },
        OsType::Arch => {
            steps.push(Step::run(owned("iptables-save > /etc/iptables/iptables.rules")));
            steps.push(Step::service(enable_service(os, "iptables")));
            assert(step_views(steps@) =~= save_steps(os));
            SaveRules { stop_if_active: None, steps }
        },
    }
}

} // verus!
