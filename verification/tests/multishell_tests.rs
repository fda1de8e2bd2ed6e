use biusrv::multishell::{
    classify_input, prefixed_line, shell_color, History, HistoryAnswer, InputCommand, LineBuffer,
};

#[test]
fn plain_lines_are_broadcast_with_a_line_feed() {
    match classify_input("  uptime -p \n") {
        InputCommand::Broadcast { data, exit } => {
            assert_eq!(data, "uptime -p\n");
            assert!(!exit);
        }
        other => panic!("unexpected {:?}", other),
    }
}

#[test]
fn exit_is_broadcast_and_ends_the_input() {
    match classify_input("exit\n") {
        InputCommand::Broadcast { data, exit } => {
            assert_eq!(data, "exit\n");
            assert!(exit);
        }
        other => panic!("unexpected {:?}", other),
    }
    assert!(matches!(classify_input("exit now\n"), InputCommand::Broadcast { exit: false, .. }));
}

#[test]
fn blank_lines_do_nothing() {
    assert!(matches!(classify_input(""), InputCommand::Nothing));
    assert!(matches!(classify_input("\n"), InputCommand::Nothing));
    assert!(matches!(classify_input("  \t \r\n"), InputCommand::Nothing));
}

#[test]
fn history_command_names_a_server_or_all() {
    for (line, want) in [
        ("/history\n", "--all"),
        ("/history   ", "--all"),
        ("/history web1\n", "web1"),
        ("  /history \t db-2   extra words\n", "db-2"),
        ("/history --all", "--all"),
        ("/historyweb1 web2", "web2"),
    ] {
        match classify_input(line) {
            InputCommand::History { server } => assert_eq!(server, want, "for {:?}", line),
            other => panic!("unexpected {:?}", other),
        }
    }
    assert!(matches!(classify_input("history web1"), InputCommand::Broadcast { .. }));
}

#[test]
fn colour_depends_on_the_length_of_the_name() {
    assert_eq!(shell_color(""), "31");
    assert_eq!(shell_color("a"), "32");
    assert_eq!(shell_color("ab"), "33");
    assert_eq!(shell_color("abc"), "34");
    assert_eq!(shell_color("abcd"), "35");
    assert_eq!(shell_color("abcde"), "36");
    assert_eq!(shell_color("abcdef"), "31");
    assert_eq!(shell_color("web-01"), shell_color("db--02"));
    assert_eq!(shell_color("é"), "33");
}

#[test]
fn shown_lines_carry_the_server_in_colour() {
    assert_eq!(prefixed_line("web1", "up 3 days"), "\x1b[35m[web1]\x1b[0m up 3 days");
}

#[test]
fn line_buffer_cuts_chunks_into_lines() {
    let mut b = LineBuffer::new();
    assert_eq!(b.push(&b"hel".to_vec()), Vec::<String>::new());
    assert_eq!(b.buffer, "hel");
    assert_eq!(b.push(&b"lo\nwor".to_vec()), vec!["hello"]);
    assert_eq!(b.buffer, "wor");
    assert_eq!(b.push(&b"ld\n\n\nlast\npart".to_vec()), vec!["world", "last"]);
    assert_eq!(b.buffer, "part");
    assert_eq!(b.push(&b"\n".to_vec()), vec!["part"]);
    assert_eq!(b.buffer, "");
    assert_eq!(b.push(&b"\n\n".to_vec()), Vec::<String>::new());
    assert_eq!(b.push(&b"a\r\nb\n".to_vec()), vec!["a\r", "b"]);
}

#[test]
fn line_buffer_decodes_leniently() {
    let mut b = LineBuffer::new();
    assert_eq!(b.push(&vec![b'a', 0xfe, b'\n']), vec!["a\u{fffd}"]);
}

#[test]
fn history_keeps_lines_per_server_in_order() {
    let mut h = History::new();
    assert!(h.is_empty());
    assert!(h.lines_of("web1").is_none());
    h.record("web1", "one".to_string());
    h.record("db1", "alpha".to_string());
    h.record("web1", "two".to_string());
    h.record("web1", "one".to_string());
    assert_eq!(h.len(), 2);
    assert_eq!(h.lines_of("web1").unwrap(), &vec!["one", "two", "one"]);
    assert_eq!(h.lines_of("db1").unwrap(), &vec!["alpha"]);
    assert!(h.lines_of("web").is_none());
    assert_eq!(h.server_at(0).name, "web1");
    assert_eq!(h.server_at(1).name, "db1");
    assert_eq!(h.server_at(1).lines, vec!["alpha"]);
}

#[test]
fn history_answers_for_one_server_or_all() {
    let mut h = History::new();
    assert!(matches!(h.answer("--all"), HistoryAnswer::Nothing));
    assert!(matches!(h.answer("web1"), HistoryAnswer::Unknown));
    h.record("web1", "one".to_string());
    assert!(matches!(h.answer("--all"), HistoryAnswer::All));
    assert!(matches!(h.answer("web1"), HistoryAnswer::Server(lines) if lines == &vec!["one"]));
    assert!(matches!(h.answer("web2"), HistoryAnswer::Unknown));
}

#[test]
fn lines_do_not_depend_on_how_the_output_is_cut() {
    let text = b"first line\n\nsecond\r\nthird and unfinished";
    let mut whole = LineBuffer::new();
    let expected = whole.push(&text.to_vec());
    assert_eq!(expected, vec!["first line", "second\r"]);
    for cut in 0..=text.len() {
        let mut b = LineBuffer::new();
        let mut lines = b.push(&text[..cut].to_vec());
        lines.extend(b.push(&text[cut..].to_vec()));
        assert_eq!(lines, expected, "cut at {}", cut);
        assert_eq!(b.buffer, whole.buffer);
    }
    let mut b = LineBuffer::new();
    let mut lines = Vec::new();
    for byte in text.iter() {
        lines.extend(b.push(&vec![*byte]));
    }
    assert_eq!(lines, expected);
    assert_eq!(b.buffer, "third and unfinished");
}

#[test]
fn text_is_cut_into_lines_as_bytes_are() {
    let mut b = LineBuffer::new();
    assert_eq!(b.push_text("one\ntw"), vec!["one"]);
    assert_eq!(b.push_text("o\n\nthree"), vec!["two"]);
    assert_eq!(b.buffer, "three");
    assert_eq!(b.push_text(""), Vec::<String>::new());
    assert_eq!(b.push_text("\n"), vec!["three"]);
    assert_eq!(b.buffer, "");
}
