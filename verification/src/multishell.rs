//! One terminal in front of many remote shells.
//!
//! The operator's lines are either broadcast to every shell or, where they
//! begin with `/history`, answered from the record of what the shells have
//! printed. Each shell's output arrives in chunks; [`LineBuffer`] cuts it into
//! lines, and [`History`] keeps the lines of each server in the order in which
//! they were completed.

use vstd::prelude::*;
use vstd::string::*;
use crate::ssh::{decode_lossy, utf8_lossy};
use crate::text::{
    find_char_from, first_index, from_chars, lemma_first_index, lemma_first_index_is, owned,
    second_word, skip_spaces, starts_with, str_eq, to_chars, trim, trim_bounds, views, word_end,
};

verus! {

/// What the operator's line asks for.
#[derive(Debug)]
pub enum InputCommand {
    /// Show the history of `server`, or of every server for `--all`. Nothing
    /// is sent to the shells.
    History { server: String },
    /// Send `data` to every shell; leave the input loop afterwards where
    /// `exit` is set.
    Broadcast { data: String, exit: bool },
    /// A blank line: nothing to do.
    Nothing,
}

/// An `InputCommand` as plain values.
pub ghost enum InputCommandView {
    History { server: Seq<char> },
    Broadcast { data: Seq<char>, exit: bool },
    Nothing,
}

impl View for InputCommand {
    type V = InputCommandView;

    open spec fn view(&self) -> InputCommandView {
        match *self {
            InputCommand::History { server } => InputCommandView::History { server: server@ },
            InputCommand::Broadcast { data, exit } => InputCommandView::Broadcast {
                data: data@,
                exit,
            },
            InputCommand::Nothing => InputCommandView::Nothing,
        }
    }
}

/// What the line `line` asks for. White space around it does not count. A
/// line that begins with `/history` names the server in its second word,
/// every server if it has none. Any other line that is not blank is sent on
/// with a line feed behind it, and `exit` also ends the input.
pub open spec fn command_of(line: Seq<char>) -> InputCommandView {
    let input = trim(line);
    if "/history"@.is_prefix_of(input) {
        let word = second_word(input);
        InputCommandView::History {
            server: if word.len() == 0 {
                "--all"@
            } else {
                word
            },
        }
    } else if input.len() > 0 {
        InputCommandView::Broadcast { data: input.push('\n'), exit: input == "exit"@ }
    } else {
        InputCommandView::Nothing
    }
}

/// Reads one line of the operator's input.
pub fn classify_input(line: &str) -> (r: InputCommand)
    ensures
        r@ == command_of(line@),
{
    let chars = to_chars(line);
    let (from, to) = trim_bounds(&chars);
    let input = from_chars(&chars, from, to);
    let input_chars = to_chars(input.as_str());
    let marker = to_chars("/history");
    if starts_with(&input_chars, &marker) {
        let first_end = word_end(&input_chars, 0);
        let second_start = skip_spaces(&input_chars, first_end);
        let second_end = word_end(&input_chars, second_start);
        proof {
            let s = input_chars@;
            assert(s.skip(0) =~= s);
            let rest = s.skip(first_end as int);
            assert(rest.skip(second_start - first_end) =~= s.skip(second_start as int));
            assert(s.subrange(second_start as int, second_end as int) =~= s.skip(
                second_start as int,
            ).take(second_end - second_start));
        }
        if second_end == second_start {
            InputCommand::History { server: owned("--all") }
        } else {
            InputCommand::History { server: from_chars(&input_chars, second_start, second_end) }
        }
    } else if input_chars.len() > 0 {
        let exit = str_eq(input.as_str(), "exit");
        let mut data = input;
        data.push('\n');
        InputCommand::Broadcast { data, exit }
    } else {
        InputCommand::Nothing
    }
}

/// The colours that mark the servers' lines, as ANSI codes.
pub open spec fn palette() -> Seq<Seq<char>> {
    seq!["31"@, "32"@, "33"@, "34"@, "35"@, "36"@]
}

/// The colour of a server: chosen from the palette by the length of its
/// name in bytes, so that a name always has the same colour; two names may
/// share one.
pub fn shell_color(srv_name: &str) -> (r: &'static str)
    ensures
        r@ == palette()[(srv_name.len() % 6) as int],
{
    let k: usize = srv_name.len() % 6;
    proof {
        let p = palette();
        assert(p[0] == "31"@ && p[1] == "32"@ && p[2] == "33"@ && p[3] == "34"@ && p[4] == "35"@
            && p[5] == "36"@);
    }
    if k == 0 {
        "31"
    } else if k == 1 {
        "32"
    } else if k == 2 {
        "33"
    } else if k == 3 {
        "34"
    } else if k == 4 {
        "35"
    } else {
        "36"
    }
}

/// A line of a server's output as it is shown: the server's name in
/// brackets and in its colour, then the line.
pub fn prefixed_line(srv_name: &str, line: &str) -> (r: String)
    ensures
        r@ == "\x1b["@ + palette()[(srv_name.len() % 6) as int] + "m["@ + srv_name@
            + "]\x1b[0m "@ + line@,
{
    let mut r = owned("\x1b[");
    r.append(shell_color(srv_name));
    r.append("m[");
    r.append(srv_name);
    r.append("]\x1b[0m ");
    r.append(line);
    r
}

/// The lines that `text` completes, each ended by a line feed in `text` and
/// given without it; empty lines are left out.
pub open spec fn complete_lines(text: Seq<char>) -> Seq<Seq<char>>
    decreases text.len(),
{
    let at = first_index(text, '\n');
    if at < 0 || at >= text.len() {
        Seq::empty()
    } else if at == 0 {
        complete_lines(text.skip(1))
    } else {
        seq![text.take(at)] + complete_lines(text.skip(at + 1))
    }
}

/// What of `text` follows its last line feed: the beginning of a line not
/// yet complete.
pub open spec fn unfinished(text: Seq<char>) -> Seq<char>
    decreases text.len(),
{
    let at = first_index(text, '\n');
    if at < 0 || at >= text.len() {
        text
    } else {
        unfinished(text.skip(at + 1))
    }
}

/// The output of one shell that has not yet made a whole line.
#[derive(Debug)]
pub struct LineBuffer {
    pub buffer: String,
}

impl LineBuffer {
    /// An empty buffer.
    pub fn new() -> (b: LineBuffer)
        ensures
            b.buffer@ == Seq::<char>::empty(),
    {
        LineBuffer { buffer: String::new() }
    }

    /// Takes a chunk of output, decoded leniently, and returns the lines that
    /// it completes, without their line feeds and without the empty ones.
    /// What follows the last line feed stays in the buffer.
    pub fn push(&mut self, chunk: &Vec<u8>) -> (lines: Vec<String>)
        ensures
            views(lines@) == complete_lines(old(self).buffer@ + utf8_lossy(chunk@)),
            final(self).buffer@ == unfinished(old(self).buffer@ + utf8_lossy(chunk@)),
    {
        let text = decode_lossy(chunk);
        self.push_text(text.as_str())
    }

    /// Takes a piece of output as text and returns the lines that it
    /// completes, without their line feeds and without the empty ones. What
    /// follows the last line feed stays in the buffer.
    pub fn push_text(&mut self, text: &str) -> (lines: Vec<String>)
        ensures
            views(lines@) == complete_lines(old(self).buffer@ + text@),
            final(self).buffer@ == unfinished(old(self).buffer@ + text@),
    {
        self.buffer.append(text);
        let chars = to_chars(self.buffer.as_str());
        let ghost all = chars@;
        let mut lines: Vec<String> = Vec::new();
        let mut start: usize = 0;
        proof {
            assert(all.skip(0) =~= all);
            assert(views(lines@) =~= Seq::<Seq<char>>::empty());
            assert(views(lines@) + complete_lines(all) =~= complete_lines(all));
        }
        loop
            invariant
                start <= chars.len(),
                chars@ == all,
                complete_lines(all) == views(lines@) + complete_lines(all.skip(start as int)),
                unfinished(all) == unfinished(all.skip(start as int)),
            ensures
                start <= chars.len(),
                complete_lines(all) == views(lines@),
                unfinished(all) == all.skip(start as int),
            decreases chars.len() - start,
        {
            let ghost rest = all.skip(start as int);
            let at = find_char_from(&chars, start, '\n');
            if at >= chars.len() {
                proof {
                    assert(views(lines@) + Seq::<Seq<char>>::empty() =~= views(lines@));
                }
                break ;
            }
            proof {
                assert(rest.skip(at - start + 1) =~= all.skip(at + 1));
                assert(rest.take(at - start) =~= all.subrange(start as int, at as int));
            }
            if at > start {
                let ghost before = views(lines@);
                let line = from_chars(&chars, start, at);
                lines.push(line);
                proof {
                    assert(views(lines@) =~= before.push(line@));
                    assert(before + (seq![line@] + complete_lines(all.skip(at + 1)))
                        =~= before.push(line@) + complete_lines(all.skip(at + 1)));
                }
            }
            start = at + 1;
        }
        self.buffer = from_chars(&chars, start, chars.len());
        proof {
            assert(all.subrange(start as int, chars.len() as int) =~= all.skip(start as int));
        }
        lines
    }
}

/// The lines that one server has printed, oldest first.
#[derive(Debug)]
pub struct ServerHistory {
    pub name: String,
    pub lines: Vec<String>,
}

/// The lines of every server that has printed any, the servers in the order
/// of their first line.
#[derive(Debug)]
pub struct History {
    servers: Vec<ServerHistory>,
}

/// The answer to a request for history.
#[derive(Debug)]
pub enum HistoryAnswer<'a> {
    /// Every server was asked for, and none has printed a line.
    Nothing,
    /// Every server's lines, in the order of the history.
    All,
    /// The lines of the one server asked for.
    Server(&'a Vec<String>),
    /// The server asked for has printed no line.
    Unknown,
}

/// One server's history as plain values.
pub ghost struct ServerHistoryView {
    pub name: Seq<char>,
    pub lines: Seq<Seq<char>>,
}

/// The position of the server named `name`, or the length where there is
/// none.
pub open spec fn history_index(servers: Seq<ServerHistoryView>, name: Seq<char>) -> int
    decreases servers.len(),
{
    if servers.len() == 0 {
        0
    } else if servers[0].name == name {
        0
    } else {
        1 + history_index(servers.drop_first(), name)
    }
}

/// The history after `name` has completed the line `line`: the line joins
/// the server's lines, and a server not yet known joins the servers.
pub open spec fn recorded(
    servers: Seq<ServerHistoryView>,
    name: Seq<char>,
    line: Seq<char>,
) -> Seq<ServerHistoryView> {
    let at = history_index(servers, name);
    if at < servers.len() {
        servers.update(at, ServerHistoryView { name, lines: servers[at].lines.push(line) })
    } else {
        servers.push(ServerHistoryView { name, lines: seq![line] })
    }
}

/// No server occurs twice.
pub open spec fn distinct(servers: Seq<ServerHistoryView>) -> bool {
    forall|i: int, j: int| 0 <= i < j < servers.len() ==> servers[i].name != servers[j].name
}

proof fn lemma_history_index(servers: Seq<ServerHistoryView>, name: Seq<char>, k: int)
    requires
        0 <= k <= servers.len(),
        forall|j: int| 0 <= j < k ==> servers[j].name != name,
        k < servers.len() ==> servers[k].name == name,
    ensures
        history_index(servers, name) == k,
    decreases k,
{
    if k > 0 {
        let rest = servers.drop_first();
        assert forall|j: int| 0 <= j < k - 1 implies rest[j].name != name by {
            assert(rest[j] == servers[j + 1]);
        }
        lemma_history_index(rest, name, k - 1);
    }
}

impl View for History {
    type V = Seq<ServerHistoryView>;

    closed spec fn view(&self) -> Seq<ServerHistoryView> {
        Seq::new(
            self.servers@.len(),
            |i: int|
                ServerHistoryView {
                    name: self.servers@[i].name@,
                    lines: views(self.servers@[i].lines@),
                },
        )
    }
}

impl History {
    /// Each server is recorded once.
    pub open spec fn wf(&self) -> bool {
        distinct(self@)
    }

    /// A history with no server in it.
    pub fn new() -> (h: History)
        ensures
            h@ == Seq::<ServerHistoryView>::empty(),
            h.wf(),
    {
        let h = History { servers: Vec::new() };
        assert(h@ =~= Seq::<ServerHistoryView>::empty());
        h
    }

    /// Whether no server has printed a line yet.
    pub fn is_empty(&self) -> (r: bool)
        ensures
            r == (self@.len() == 0),
    {
        self.servers.len() == 0
    }

    /// The number of servers recorded.
    pub fn len(&self) -> (n: usize)
        ensures
            n == self@.len(),
    {
        self.servers.len()
    }

    fn find(&self, srv_name: &str) -> (at: usize)
        ensures
            at == history_index(self@, srv_name@),
            at <= self@.len(),
    {
        let mut i: usize = 0;
        while i < self.servers.len()
            invariant
                i <= self.servers.len(),
                forall|j: int| 0 <= j < i ==> self@[j].name != srv_name@,
            decreases self.servers.len() - i,
        {
            if str_eq(self.servers[i].name.as_str(), srv_name) {
                proof {
                    lemma_history_index(self@, srv_name@, i as int);
                }
                return i;
            }
            i += 1;
        }
        proof {
            lemma_history_index(self@, srv_name@, i as int);
        }
        i
    }

    /// Appends a completed line to the lines of `srv_name`.
    pub fn record(&mut self, srv_name: &str, line: String)
        requires
            old(self).wf(),
        ensures
            final(self)@ == recorded(old(self)@, srv_name@, line@),
            final(self).wf(),
    {
        let at = self.find(srv_name);
        let ghost before = self@;
        if at < self.servers.len() {
            let mut entry = self.servers.remove(at);
            let ghost lines_before = views(entry.lines@);
            entry.lines.push(line);
            assert(views(entry.lines@) =~= lines_before.push(line@));
            self.servers.insert(at, entry);
            proof {
                lemma_index_bounds(before, srv_name@);
                assert(self.servers@ =~= old(self).servers@.update(at as int, entry));
                assert(entry.name@ == srv_name@);
                assert(self@ =~= recorded(before, srv_name@, line@));
                assert forall|i: int, j: int| 0 <= i < j < self@.len() implies self@[i].name
                    != self@[j].name by {
                    assert(self@[i].name == before[i].name);
                    assert(self@[j].name == before[j].name);
                }
            }
        } else {
            let mut lines: Vec<String> = Vec::new();
            lines.push(line);
            assert(views(lines@) =~= seq![line@]);
            self.servers.push(ServerHistory { name: owned(srv_name), lines });
            assert(self@ =~= recorded(before, srv_name@, line@));
            proof {
                lemma_absent(before, srv_name@);
            }
        }
    }

    /// The lines of `srv_name`, oldest first, or `None` for a server that has
    /// printed none.
    pub fn lines_of(&self, srv_name: &str) -> (r: Option<&Vec<String>>)
        ensures
            match r {
                Some(lines) => {
                    let at = history_index(self@, srv_name@);
                    at < self@.len() && views(lines@) == self@[at].lines
                },
                None => history_index(self@, srv_name@) == self@.len(),
            },
    {
        let at = self.find(srv_name);
        if at < self.servers.len() {
            Some(&self.servers[at].lines)
        } else {
            None
        }
    }

    /// What a request for the history of `which` is answered with: for
    /// `--all` every server's lines, unless there are none at all; else the
    /// lines of the server named, if it has printed any.
    pub fn answer(&self, which: &str) -> (r: HistoryAnswer<'_>)
        ensures
            match r {
                HistoryAnswer::Nothing => which@ == "--all"@ && self@.len() == 0,
                HistoryAnswer::All => which@ == "--all"@ && self@.len() > 0,
                HistoryAnswer::Server(lines) => {
                    let at = history_index(self@, which@);
                    which@ != "--all"@ && at < self@.len() && views(lines@) == self@[at].lines
                },
                HistoryAnswer::Unknown => which@ != "--all"@ && history_index(self@, which@)
                    == self@.len(),
            },
    {
        if str_eq(which, "--all") {
            if self.servers.len() == 0 {
                HistoryAnswer::Nothing
            } else {
                HistoryAnswer::All
            }
        } else {
            match self.lines_of(which) {
                Some(lines) => HistoryAnswer::Server(lines),
                None => HistoryAnswer::Unknown,
            }
        }
    }

    /// The server at position `i`, in the order of first appearance.
    pub fn server_at(&self, i: usize) -> (r: &ServerHistory)
        requires
            i < self@.len(),
        ensures
            r.name@ == self@[i as int].name,
            views(r.lines@) == self@[i as int].lines,
    {
        &self.servers[i]
    }
}

/// A name at no position below `history_index` is at no position at all.
pub proof fn lemma_absent(servers: Seq<ServerHistoryView>, name: Seq<char>)
    requires
        history_index(servers, name) >= servers.len(),
    ensures
        forall|j: int| 0 <= j < servers.len() ==> servers[j].name != name,
    decreases servers.len(),
{
    if servers.len() > 0 {
        let rest = servers.drop_first();
        lemma_absent(rest, name);
        assert forall|j: int| 0 <= j < servers.len() implies servers[j].name != name by {
            if j > 0 {
                assert(servers[j] == rest[j - 1]);
            }
        }
    }
}

/// Every completed line is kept, in order: after a chunk is pushed and its
/// lines are recorded one by one, the server's lines are those it had,
/// followed by the lines that the chunk completed.
pub proof fn law_lines_join_history_in_order(
    servers: Seq<ServerHistoryView>,
    name: Seq<char>,
    first: Seq<char>,
    second: Seq<char>,
)
    requires
        distinct(servers),
    ensures
        ({
            let after = recorded(recorded(servers, name, first), name, second);
            let at = history_index(after, name);
            let had = if history_index(servers, name) < servers.len() {
                servers[history_index(servers, name)].lines
            } else {
                Seq::empty()
            };
            at < after.len() && after[at].lines == had.push(first).push(second)
        }),
{
    let k = history_index(servers, name);
    lemma_index_bounds(servers, name);
    let once = recorded(servers, name, first);
    if k < servers.len() {
        lemma_history_index(once, name, k);
        let twice = recorded(once, name, second);
        lemma_history_index(twice, name, k);
    } else {
        lemma_absent(servers, name);
        lemma_history_index(once, name, k);
        let twice = recorded(once, name, second);
        lemma_history_index(twice, name, k);
        assert(Seq::<Seq<char>>::empty().push(first) =~= seq![first]);
    }
}

/// `history_index` is the first position of the name, within bounds.
pub proof fn lemma_index_bounds(servers: Seq<ServerHistoryView>, name: Seq<char>)
    ensures
        0 <= history_index(servers, name) <= servers.len(),
        history_index(servers, name) < servers.len() ==> servers[history_index(
            servers,
            name,
        )].name == name,
        forall|j: int| 0 <= j < history_index(servers, name) ==> servers[j].name != name,
    decreases servers.len(),
{
    if servers.len() > 0 && servers[0].name != name {
        let rest = servers.drop_first();
        lemma_index_bounds(rest, name);
        assert forall|j: int| 0 <= j < history_index(servers, name) implies servers[j].name
            != name by {
            if j > 0 {
                assert(servers[j] == rest[j - 1]);
            }
        }
    }
}

/// How the output is cut into chunks does not change its lines: the lines
/// completed by `first` and then by `second` are the lines that the two
/// complete as one text, and what is left unfinished is the same.
pub proof fn law_lines_do_not_depend_on_chunking(first: Seq<char>, second: Seq<char>)
    ensures
        complete_lines(first) + complete_lines(unfinished(first) + second) == complete_lines(
            first + second,
        ),
        unfinished(unfinished(first) + second) == unfinished(first + second),
    decreases first.len(),
{
    let at = first_index(first, '\n');
    lemma_first_index(first, '\n');
    if at >= first.len() {
        assert(complete_lines(first) + complete_lines(first + second) =~= complete_lines(
            first + second,
        ));
    } else {
        let whole = first + second;
        assert forall|j: int| 0 <= j < at implies whole[j] != '\n' by {
            assert(whole[j] == first[j]);
        }
        assert(whole[at] == first[at]);
        lemma_first_index_is(whole, '\n', at);
        let rest = first.skip(at + 1);
        assert(whole.skip(at + 1) =~= rest + second);
        assert(whole.take(at) =~= first.take(at));
        law_lines_do_not_depend_on_chunking(rest, second);
        if at == 0 {
            assert(first.skip(1) =~= rest);
            assert(whole.skip(1) =~= rest + second);
        } else {
            let head = seq![first.take(at)];
            assert((head + complete_lines(rest)) + complete_lines(unfinished(rest) + second)
                =~= head + (complete_lines(rest) + complete_lines(unfinished(rest) + second)));
        }
    }
}

} // verus!
