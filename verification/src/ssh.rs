//! What an SSH session needs decided for it: how to authenticate, how to run a
//! command with privilege, what a channel's messages add up to, which family
//! the remote system belongs to, and how an interactive channel is steered.
//!
//! Nothing here opens a connection. The caller owns the transport and hands
//! over what it read; the functions say what to send next and what the result
//! is.

use vstd::prelude::*;
use vstd::string::*;
use crate::text::{
    contains_text, decimal, ends_with_char, find_char, find_char_from, first_index, from_chars, owned,
    push_decimal, str_contains, str_eq, to_chars, trim, trim_bounds,
};

verus! {

/// What `shell_words::quote` returns for the text `s`.
pub uninterp spec fn shell_quoted(s: Seq<char>) -> Seq<char>;

/// What `String::from_utf8_lossy` decodes the bytes `bytes` to.
pub uninterp spec fn utf8_lossy(bytes: Seq<u8>) -> Seq<char>;

/// `shell_words::quote`: the argument escaped so that a Unix shell reads it
/// as one word with its literal meaning. The crate leaves the quoting style
/// open, so the result is known only by name.
#[verifier::external_body]
fn quote(s: &str) -> (r: String)
    ensures
        r@ == shell_quoted(s@),
{
    shell_words::quote(s).into_owned()
}

/// `String::from_utf8_lossy`: the bytes decoded as UTF-8, each invalid
/// sequence replaced by U+FFFD.
#[verifier::external_body]
pub(crate) fn decode_lossy(bytes: &Vec<u8>) -> (r: String)
    ensures
        r@ == utf8_lossy(bytes@),
{
    String::from_utf8_lossy(bytes).into_owned()
}

/// The address and credentials of one host.
#[derive(Debug)]
pub struct Client {
    host: String,
    port: u16,
    username: String,
    password: Option<String>,
    keypath: Option<String>,
}

/// A `Client` as plain values.
pub ghost struct ClientView {
    pub host: Seq<char>,
    pub port: u16,
    pub username: Seq<char>,
    pub password: Option<Seq<char>>,
    pub keypath: Option<Seq<char>>,
}

/// The view of an optional string.
pub open spec fn opt_view(s: Option<String>) -> Option<Seq<char>> {
    match s {
        Some(s) => Some(s@),
        None => None,
    }
}

/// How a client proves who it is.
#[derive(Debug)]
pub enum AuthMethod {
    /// The private key stored at this path.
    PrivateKey(String),
    /// This password.
    Password(String),
}

/// Why a session could not be set up or read.
#[derive(Debug)]
pub enum SshError {
    /// The client holds neither a key path nor a password.
    NoAuthMethod,
    /// The detection script ended with a status other than 0, or printed
    /// something that is not `id_like:id`.
    OsDetectionFailed,
    /// The remote system is of no supported family.
    UnsupportedOs { id: String, id_like: String },
}

impl View for Client {
    type V = ClientView;

    closed spec fn view(&self) -> ClientView {
        ClientView {
            host: self.host@,
            port: self.port,
            username: self.username@,
            password: opt_view(self.password),
            keypath: opt_view(self.keypath),
        }
    }
}

/// The error in words.
pub open spec fn ssh_error_text(e: SshError) -> Seq<char> {
    match e {
        SshError::NoAuthMethod => "No authentication method provided (need password or private key)"@,
        SshError::OsDetectionFailed => "Failed to detect OS type from /etc/os-release"@,
        SshError::UnsupportedOs { id, id_like } => "Unsupported OS type: ID="@ + id@
            + ", ID_LIKE="@ + id_like@,
    }
}

impl SshError {
    /// The error in words.
    pub fn message(&self) -> (r: String)
        ensures
            r@ == ssh_error_text(*self),
    {
        match self {
            SshError::NoAuthMethod => owned(
                "No authentication method provided (need password or private key)",
            ),
            SshError::OsDetectionFailed => owned("Failed to detect OS type from /etc/os-release"),
            SshError::UnsupportedOs { id, id_like } => {
                let mut r = owned("Unsupported OS type: ID=");
                r.append(id.as_str());
                r.append(", ID_LIKE=");
                r.append(id_like.as_str());
                r
            },
        }
    }
}

/// `user@host:port`.
pub open spec fn client_label(c: ClientView) -> Seq<char> {
    c.username + "@"@ + c.host + ":"@ + decimal(c.port as nat)
}

impl Client {
    /// A client for `host` on port 22, with no credentials yet.
    pub fn new(host: String, username: String) -> (c: Client)
        ensures
            c@ == (ClientView {
                host: host@,
                port: 22,
                username: username@,
                password: None,
                keypath: None,
            }),
    {
        Client { host, port: 22, username, password: None, keypath: None }
    }

    /// The host to connect to.
    pub fn host(&self) -> (r: &str)
        ensures
            r@ == self@.host,
    {
        self.host.as_str()
    }

    /// The port to connect to.
    pub fn port(&self) -> (r: u16)
        ensures
            r == self@.port,
    {
        self.port
    }

    /// The user to log in as.
    pub fn user(&self) -> (r: &str)
        ensures
            r@ == self@.username,
    {
        self.username.as_str()
    }

    /// Sets the password, and nothing else.
    pub fn with_password(&mut self, password: String)
        ensures
            final(self)@ == (ClientView { password: Some(password@), ..old(self)@ }),
    {
        self.password = Some(password);
    }

    /// Sets the path of the private key, and nothing else.
    pub fn with_private_key(&mut self, keypath: String)
        ensures
            final(self)@ == (ClientView { keypath: Some(keypath@), ..old(self)@ }),
    {
        self.keypath = Some(keypath);
    }

    /// Sets the port, and nothing else.
    pub fn with_port(&mut self, port: u16)
        ensures
            final(self)@ == (ClientView { port: port, ..old(self)@ }),
    {
        self.port = port;
    }

    /// The text `user@host:port` by which the client is shown.
    pub fn label(&self) -> (r: String)
        ensures
            r@ == client_label(self@),
    {
        let mut r = owned(self.username.as_str());
        r.append("@");
        r.append(self.host.as_str());
        r.append(":");
        push_decimal(&mut r, self.port as u64);
        r
    }

    /// The way to authenticate: by key where a key path is set, else by
    /// password; a client with neither cannot connect.
    pub fn auth_method(&self) -> (r: Result<AuthMethod, SshError>)
        ensures
            match (self@.keypath, self@.password) {
                (Some(k), _) => r matches Ok(AuthMethod::PrivateKey(p)) && p@ == k,
                (None, Some(w)) => r matches Ok(AuthMethod::Password(p)) && p@ == w,
                (None, None) => r matches Err(SshError::NoAuthMethod),
            },
    {
        match &self.keypath {
            Some(k) => Ok(AuthMethod::PrivateKey(k.clone())),
            None => match &self.password {
                Some(w) => Ok(AuthMethod::Password(w.clone())),
                None => Err(SshError::NoAuthMethod),
            },
        }
    }
}

/// What a remote command printed and how it ended.
#[derive(Debug)]
pub struct CommandResult {
    pub output: String,
    pub exit_status: u32,
}

/// The family of the remote system, which decides the package and service
/// commands.
#[derive(Debug, Clone, Copy, PartialEq, Eq, Structural)]
pub enum OsType {
    Debian,
    RedHat,
    Arch,
}

/// An authenticated session as the command builders see it: who is logged in
/// and on what family of system.
#[derive(Debug)]
pub struct Session {
    pub user: String,
    pub os_type: OsType,
}

/// The command line that runs `command` with administrative rights for
/// `user`: the command itself for root, else the command quoted as one
/// argument of `sudo sh -c`.
pub open spec fn sudo_line(user: Seq<char>, command: Seq<char>) -> Seq<char> {
    if user == "root"@ {
        command
    } else {
        "sudo sh -c "@ + shell_quoted(command)
    }
}

impl Session {
    /// A session of `user` on a system of family `os_type`.
    pub fn new(user: String, os_type: OsType) -> (s: Session)
        ensures
            s.user == user,
            s.os_type == os_type,
    {
        Session { user, os_type }
    }

    /// The user logged in.
    pub fn current_user(&self) -> (r: &str)
        ensures
            r@ == self.user@,
    {
        self.user.as_str()
    }

    /// The family of the remote system.
    pub fn os_type(&self) -> (r: OsType)
        ensures
            r == self.os_type,
    {
        self.os_type
    }

    /// The command line to send so that `command` runs with administrative
    /// rights.
    pub fn sudo_command(&self, command: &str) -> (r: String)
        ensures
            r@ == sudo_line(self.user@, command@),
    {
        let quoted = quote(command);
        self.sudo_command_with(command, quoted.as_str())
    }

    /// The command line to send so that `command` runs with administrative
    /// rights, where `quoted` is the command quoted as one word for the
    /// shell: the command itself for root, else `sudo sh -c` and the quoted
    /// command.
    pub fn sudo_command_with(&self, command: &str, quoted: &str) -> (r: String)
        ensures
            r@ == if self.user@ == "root"@ {
                command@
            } else {
                "sudo sh -c "@ + quoted@
            },
    {
        if str_eq(self.user.as_str(), "root") {
            owned(command)
        } else {
            let mut r = owned("sudo sh -c ");
            r.append(quoted);
            r
        }
    }
}

/// A message read from a channel.
#[derive(Debug)]
pub enum ChannelEvent {
    /// Bytes of standard output.
    Data(Vec<u8>),
    /// Bytes of another stream; stream 1 is standard error.
    ExtendedData { data: Vec<u8>, ext: u32 },
    /// The remote command ended with this status.
    ExitStatus(u32),
    /// The channel was closed.
    Close,
    /// Any other message.
    Other,
}

/// The text that `event` adds to a command's output: standard output and
/// standard error, decoded leniently.
pub open spec fn event_text(event: ChannelEvent) -> Seq<char> {
    match event {
        ChannelEvent::Data(data) => utf8_lossy(data@),
        ChannelEvent::ExtendedData { data, ext } => if ext == 1 {
            utf8_lossy(data@)
        } else {
            Seq::empty()
        },
        _ => Seq::empty(),
    }
}

/// Whether `event` carries output of the command: standard output, or
/// standard error, which is stream 1.
pub open spec fn carries_output(event: ChannelEvent) -> bool {
    match event {
        ChannelEvent::Data(_) => true,
        ChannelEvent::ExtendedData { data, ext } => ext == 1,
        _ => false,
    }
}

/// Whether `event` ends the reading of a command's result.
pub open spec fn event_ends(event: ChannelEvent) -> bool {
    event is ExitStatus || event is Close
}

/// The number of events read before the result is settled: up to and
/// including the first exit status or close.
pub open spec fn events_read(events: Seq<ChannelEvent>) -> int
    decreases events.len(),
{
    if events.len() == 0 {
        0
    } else if event_ends(events[0]) {
        1
    } else {
        1 + events_read(events.drop_first())
    }
}

/// The output gathered from `events`, all of which are read.
pub open spec fn gathered(events: Seq<ChannelEvent>) -> Seq<char>
    decreases events.len(),
{
    if events.len() == 0 {
        Seq::empty()
    } else {
        gathered(events.drop_last()) + event_text(events.last())
    }
}

/// `s` without one final line feed.
pub open spec fn chomp(s: Seq<char>) -> Seq<char> {
    if s.len() > 0 && s.last() == '\n' {
        s.drop_last()
    } else {
        s
    }
}

/// The exit status that the events read report: that of the last event where
/// it is an exit status, else 0.
pub open spec fn reported_status(read: Seq<ChannelEvent>) -> u32 {
    if read.len() > 0 {
        match read.last() {
            ChannelEvent::ExitStatus(code) => code,
            _ => 0,
        }
    } else {
        0
    }
}

impl CommandResult {
    /// An empty result with status 0, before any message was read.
    pub fn new() -> (r: CommandResult)
        ensures
            r.output@ == Seq::<char>::empty(),
            r.exit_status == 0,
    {
        CommandResult { output: String::new(), exit_status: 0 }
    }

    /// Takes one message into the result. Returns `true` when the message
    /// ends the command, after which no further message is to be read.
    pub fn absorb(&mut self, event: &ChannelEvent) -> (done: bool)
        ensures
            final(self).output@ == old(self).output@ + event_text(*event),
            final(self).exit_status == match *event {
                ChannelEvent::ExitStatus(code) => code,
                _ => old(self).exit_status,
            },
            done == event_ends(*event),
    {
        let text = match event {
            ChannelEvent::Data(data) => decode_lossy(data),
            ChannelEvent::ExtendedData { data, ext } => decode_lossy(data),
            _ => String::new(),
        };
        self.absorb_text(event, text.as_str())
    }

    /// Takes one message into the result, where `text` is what the bytes of
    /// the message read as. The text joins the output if the message carries
    /// standard output or standard error, and is left aside otherwise; an
    /// exit status is recorded. Returns `true` when the message ends the
    /// command.
    pub fn absorb_text(&mut self, event: &ChannelEvent, text: &str) -> (done: bool)
        ensures
            final(self).output@ == old(self).output@ + (if carries_output(*event) {
                text@
            } else {
                Seq::empty()
            }),
            final(self).exit_status == match *event {
                ChannelEvent::ExitStatus(code) => code,
                _ => old(self).exit_status,
            },
            done == event_ends(*event),
    {
        match event {
            ChannelEvent::Data(_) => {
                self.output.append(text);
                false
            },
            ChannelEvent::ExtendedData { data, ext } => {
                if *ext == 1 {
                    self.output.append(text);
                } else {
                    assert(self.output@ + Seq::<char>::empty() =~= self.output@);
                }
                false
            },
            ChannelEvent::ExitStatus(code) => {
                assert(self.output@ + Seq::<char>::empty() =~= self.output@);
                self.exit_status = *code;
                true
            },
            ChannelEvent::Close => {
                assert(self.output@ + Seq::<char>::empty() =~= self.output@);
                true
            },
            ChannelEvent::Other => {
                assert(self.output@ + Seq::<char>::empty() =~= self.output@);
                false
            },
        }
    }

    /// Removes one final line feed from the output.
    pub fn finish(&mut self)
        ensures
            final(self).output@ == chomp(old(self).output@),
            final(self).exit_status == old(self).exit_status,
    {
        let chars = to_chars(self.output.as_str());
        if ends_with_char(&chars, '\n') {
            self.output = from_chars(&chars, 0, chars.len() - 1);
        }
    }
}

/// The result of a command from the messages of its channel: the output up to
/// the first exit status or close, without one final line feed, and the exit
/// status reported, 0 where the channel closed without one.
pub fn wait_result_from_channel(events: &Vec<ChannelEvent>) -> (r: CommandResult)
    ensures
        r.output@ == chomp(gathered(events@.take(events_read(events@)))),
        r.exit_status == reported_status(events@.take(events_read(events@))),
{
    let mut result = CommandResult::new();
    let mut i: usize = 0;
    let mut done = false;
    while i < events.len() && !done
        invariant
            i <= events.len(),
            result.output@ == gathered(events@.take(i as int)),
            result.exit_status == reported_status(events@.take(i as int)),
            !done ==> forall|j: int| 0 <= j < i ==> !event_ends(events@[j]),
            !done ==> result.exit_status == 0,
            done ==> i > 0 && event_ends(events@[i - 1]) && forall|j: int|
                0 <= j < i - 1 ==> !event_ends(events@[j]),
        decreases events.len() - i,
    {
        done = result.absorb(&events[i]);
        proof {
            let now = events@.take(i + 1);
            assert(now.drop_last() =~= events@.take(i as int));
            assert(now.last() == events@[i as int]);
        }
        i += 1;
    }
    proof {
        lemma_events_read(events@, i as int);
    }
    result.finish();
    result
}

proof fn lemma_events_read(events: Seq<ChannelEvent>, n: int)
    requires
        0 <= n <= events.len(),
        forall|j: int| 0 <= j < n - 1 ==> !event_ends(events[j]),
        n > 0 && event_ends(events[n - 1]) || n == events.len() && (n > 0 ==> !event_ends(
            events[n - 1],
        )),
    ensures
        events_read(events) == n,
    decreases events.len(),
{
    if events.len() > 0 && !event_ends(events[0]) {
        let rest = events.drop_first();
        assert forall|j: int| 0 <= j < n - 2 implies !event_ends(rest[j]) by {
            assert(rest[j] == events[j + 1]);
        }
        if n > 1 {
            assert(rest[n - 2] == events[n - 1]);
        }
        lemma_events_read(rest, n - 1);
    }
}

/// The script whose output `detect_os_type` reads: it prints `id_like:id`
/// from the system's release files, or fails.
pub fn os_detect_command() -> (r: &'static str)
    ensures
        r@ == detect_script(),
{
    "\ncase \"$(uname -s)\" in\n    Linux)\n        if [ -f /etc/os-release ]; then\n            os_id=$(grep '^ID=' /etc/os-release | cut -d'=' -f2 | tr -d '\"')\n            os_id_like=$(grep '^ID_LIKE=' /etc/os-release | cut -d'=' -f2 | tr -d '\"')\n            if [ -n \"$os_id_like\" ]; then\n                echo \"$os_id_like:$os_id\"\n            else\n                echo \":$os_id\"\n            fi\n        elif [ -f /etc/redhat-release ]; then\n            echo \"rhel:rhel\"\n        elif [ -f /etc/debian_version ]; then\n            echo \"debian:debian\"\n        else\n            exit 1\n        fi\n        ;;\n    *)\n        exit 1\n        ;;\nesac"
}

/// The text of the detection script.
pub open spec fn detect_script() -> Seq<char> {
    "\ncase \"$(uname -s)\" in\n    Linux)\n        if [ -f /etc/os-release ]; then\n            os_id=$(grep '^ID=' /etc/os-release | cut -d'=' -f2 | tr -d '\"')\n            os_id_like=$(grep '^ID_LIKE=' /etc/os-release | cut -d'=' -f2 | tr -d '\"')\n            if [ -n \"$os_id_like\" ]; then\n                echo \"$os_id_like:$os_id\"\n            else\n                echo \":$os_id\"\n            fi\n        elif [ -f /etc/redhat-release ]; then\n            echo \"rhel:rhel\"\n        elif [ -f /etc/debian_version ]; then\n            echo \"debian:debian\"\n        else\n            exit 1\n        fi\n        ;;\n    *)\n        exit 1\n        ;;\nesac"@
}

/// The family named by the release fields `id_like` and `id`, if any. The first
/// family that matches wins, Debian before Red Hat before Arch.
pub open spec fn family_of(id_like: Seq<char>, id: Seq<char>) -> Option<OsType> {
    if contains_text(id_like, "debian"@) || id == "debian"@ || id == "ubuntu"@ || id == "kali"@
        || id == "linuxmint"@ || id == "pop"@ || id == "raspbian"@ {
        Some(OsType::Debian)
    } else if contains_text(id_like, "rhel"@) || contains_text(id_like, "fedora"@) || id == "rhel"@
        || id == "centos"@ || id == "fedora"@ || id == "rocky"@ || id == "alma"@ || id == "ol"@
        || id == "amzn"@ {
        Some(OsType::RedHat)
    } else if contains_text(id_like, "arch"@) || id == "arch"@ || id == "manjaro"@ {
        Some(OsType::Arch)
    } else {
        None
    }
}

/// Whether `line` has the form `id_like:id`, with exactly one colon.
pub open spec fn is_release_line(line: Seq<char>) -> bool {
    let colon = first_index(line, ':');
    colon < line.len() && first_index(line.skip(colon + 1), ':') == line.len() - colon - 1
}

/// The family named by the release fields.
pub fn classify_os(id_like: &str, id: &str) -> (r: Option<OsType>)
    ensures
        r == family_of(id_like@, id@),
{
    if str_contains(id_like, "debian") || str_eq(id, "debian") || str_eq(id, "ubuntu") || str_eq(
        id,
        "kali",
    ) || str_eq(id, "linuxmint") || str_eq(id, "pop") || str_eq(id, "raspbian") {
        Some(OsType::Debian)
    } else if str_contains(id_like, "rhel") || str_contains(id_like, "fedora") || str_eq(id, "rhel")
        || str_eq(id, "centos") || str_eq(id, "fedora") || str_eq(id, "rocky") || str_eq(
        id,
        "alma",
    ) || str_eq(id, "ol") || str_eq(id, "amzn") {
        Some(OsType::RedHat)
    } else if str_contains(id_like, "arch") || str_eq(id, "arch") || str_eq(id, "manjaro") {
        Some(OsType::Arch)
    } else {
        None
    }
}

/// The family of the remote system from the result of the detection script.
/// The script must have ended with status 0 and printed, white space aside,
/// one line `id_like:id`; the fields must name a supported family.
pub fn detect_os_type(result: &CommandResult) -> (r: Result<OsType, SshError>)
    ensures
        match r {
            Ok(os) => {
                let line = trim(result.output@);
                let colon = first_index(line, ':');
                &&& result.exit_status == 0
                &&& is_release_line(line)
                &&& family_of(line.take(colon), line.skip(colon + 1)) == Some(os)
            },
            Err(SshError::OsDetectionFailed) => result.exit_status != 0 || !is_release_line(
                trim(result.output@),
            ),
            Err(SshError::UnsupportedOs { id, id_like }) => {
                let line = trim(result.output@);
                let colon = first_index(line, ':');
                &&& result.exit_status == 0
                &&& is_release_line(line)
                &&& id_like@ == line.take(colon)
                &&& id@ == line.skip(colon + 1)
                &&& family_of(id_like@, id@) is None
            },
            Err(SshError::NoAuthMethod) => false,
        },
{
    if result.exit_status != 0 {
        return Err(SshError::OsDetectionFailed);
    }
    let chars = to_chars(result.output.as_str());
    let (from, to) = trim_bounds(&chars);
    let line = from_chars(&chars, from, to);
    let line = to_chars(line.as_str());
    let colon = match find_char(&line, ':') {
        Some(i) => i,
        None => {
            return Err(SshError::OsDetectionFailed);
        },
    };
    let second = find_char_from(&line, colon + 1, ':');
    if second < line.len() {
        return Err(SshError::OsDetectionFailed);
    }
    let id_like = from_chars(&line, 0, colon);
    let id = from_chars(&line, colon + 1, line.len());
    proof {
        assert(line@.subrange(0, colon as int) =~= line@.take(colon as int));
        assert(line@.subrange(colon + 1, line.len() as int) =~= line@.skip(colon + 1));
    }
    match classify_os(id_like.as_str(), id.as_str()) {
        Some(os) => Ok(os),
        None => Err(SshError::UnsupportedOs { id, id_like }),
    }
}

/// What drives an interactive channel: input from the operator and messages
/// from the remote side.
#[derive(Debug)]
pub enum InteractiveEvent {
    /// The operator's input, to be sent on.
    Input(Vec<u8>),
    /// The operator's input has ended.
    InputClosed,
    /// A message from the remote side.
    Remote(ChannelEvent),
}

/// What the owner of an interactive channel does in answer to an event.
#[derive(Debug)]
pub enum InteractiveAction {
    /// Send these bytes to the remote side.
    Send(Vec<u8>),
    /// Signal end of input to the remote side, leaving the channel open.
    SendEof,
    /// Hand these bytes of remote output to the operator.
    Forward(Vec<u8>),
    /// Nothing to do.
    Ignore,
    /// The remote command ended with `code`: signal end of input first where
    /// `send_eof` is set, then stop.
    Finish { code: u32, send_eof: bool },
}

/// The state of an interactive channel: whether the operator's input has
/// ended.
#[derive(Debug)]
pub struct Interactive {
    pub input_closed: bool,
}

/// The answer to `event` on a channel whose input has ended or not.
pub open spec fn interactive_action(input_closed: bool, event: InteractiveEvent) -> InteractiveAction {
    match event {
        InteractiveEvent::Input(data) => if input_closed {
            InteractiveAction::Ignore
        } else {
            InteractiveAction::Send(data)
        },
        InteractiveEvent::InputClosed => if input_closed {
            InteractiveAction::Ignore
        } else {
            InteractiveAction::SendEof
        },
        InteractiveEvent::Remote(ChannelEvent::Data(data)) => InteractiveAction::Forward(data),
        InteractiveEvent::Remote(ChannelEvent::ExtendedData { data, ext }) => if ext == 1 {
            InteractiveAction::Forward(data)
        } else {
            InteractiveAction::Ignore
        },
        InteractiveEvent::Remote(ChannelEvent::ExitStatus(code)) => InteractiveAction::Finish {
            code,
            send_eof: !input_closed,
        },
        InteractiveEvent::Remote(_) => InteractiveAction::Ignore,
    }
}

impl Interactive {
    /// A channel whose input is still open.
    pub fn new() -> (s: Interactive)
        ensures
            !s.input_closed,
    {
        Interactive { input_closed: false }
    }

    /// Whether the operator's input is still to be read.
    pub fn wants_input(&self) -> (r: bool)
        ensures
            r == !self.input_closed,
    {
        !self.input_closed
    }

    /// Takes one event and says what to do. Input is passed on until it ends;
    /// its end is signalled once. Remote output and standard error are
    /// forwarded. An exit status ends the session; end of input is signalled
    /// then if it was not before.
    pub fn on_event(&mut self, event: InteractiveEvent) -> (action: InteractiveAction)
        ensures
            action == interactive_action(old(self).input_closed, event),
            final(self).input_closed == (old(self).input_closed || event is InputClosed),
    {
        match event {
            InteractiveEvent::Input(data) => {
                if self.input_closed {
                    InteractiveAction::Ignore
                } else {
                    InteractiveAction::Send(data)
                }
            },
            InteractiveEvent::InputClosed => {
                if self.input_closed {
                    InteractiveAction::Ignore
                } else {
                    self.input_closed = true;
                    InteractiveAction::SendEof
                }
            },
            InteractiveEvent::Remote(ChannelEvent::Data(data)) => InteractiveAction::Forward(data),
            InteractiveEvent::Remote(ChannelEvent::ExtendedData { data, ext }) => {
                if ext == 1 {
                    InteractiveAction::Forward(data)
                } else {
                    InteractiveAction::Ignore
                }
            },
            InteractiveEvent::Remote(ChannelEvent::ExitStatus(code)) => InteractiveAction::Finish {
                code,
                send_eof: !self.input_closed,
            },
            InteractiveEvent::Remote(_) => InteractiveAction::Ignore,
        }
    }
}

/// Whether `event` tells that the remote command has ended.
pub open spec fn ends_session(event: InteractiveEvent) -> bool {
    event matches InteractiveEvent::Remote(ChannelEvent::ExitStatus(_))
}

/// Whether the input has ended once `events` are taken, on a channel whose
/// input was open before.
pub open spec fn input_closed_after(events: Seq<InteractiveEvent>) -> bool
    decreases events.len(),
{
    if events.len() == 0 {
        false
    } else {
        input_closed_after(events.drop_last()) || events.last() is InputClosed
    }
}

/// Whether `action` signals end of input to the remote side.
pub open spec fn signals_eof(action: InteractiveAction) -> bool {
    action is SendEof || (action matches InteractiveAction::Finish { send_eof, .. } && send_eof)
}

/// The number of times that end of input is signalled in answer to `events`,
/// on a channel whose input was open before.
pub open spec fn eof_signals(events: Seq<InteractiveEvent>) -> nat
    decreases events.len(),
{
    if events.len() == 0 {
        0
    } else if signals_eof(
        interactive_action(input_closed_after(events.drop_last()), events.last()),
    ) {
        eof_signals(events.drop_last()) + 1
    } else {
        eof_signals(events.drop_last())
    }
}

/// A session that runs until the remote command ends signals end of input
/// to the remote side exactly once: when the operator's input ends, or else
/// when the command has ended.
pub proof fn law_end_of_input_is_signalled_once(events: Seq<InteractiveEvent>)
    requires
        events.len() > 0,
        ends_session(events.last()),
        forall|i: int| 0 <= i < events.len() - 1 ==> !ends_session(#[trigger] events[i]),
    ensures
        eof_signals(events) == 1,
{
    lemma_eof_before_the_end(events.drop_last());
}

proof fn lemma_eof_before_the_end(events: Seq<InteractiveEvent>)
    requires
        forall|i: int| 0 <= i < events.len() ==> !ends_session(#[trigger] events[i]),
    ensures
        eof_signals(events) == if input_closed_after(events) {
            1nat
        } else {
            0nat
        },
    decreases events.len(),
{
    if events.len() > 0 {
        let earlier = events.drop_last();
        assert forall|i: int| 0 <= i < earlier.len() implies !ends_session(
            #[trigger] earlier[i],
        ) by {
            assert(earlier[i] == events[i]);
        }
        lemma_eof_before_the_end(earlier);
        assert(!ends_session(events[events.len() - 1]));
    }
}

} // verus!
