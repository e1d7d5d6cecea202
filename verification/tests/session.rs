use vigil::session::{keystroke, KeyPress, Session, VigilMessages};

fn shown<const R: usize, const C: usize>(session: &Session<R, C>) -> Vec<String> {
    session.visible().iter().map(|row| row.iter().map(|cell| cell.character).collect()).collect()
}

#[test]
fn output_of_the_child_goes_to_the_grid() {
    let mut session = Session::<24, 80>::new();
    let outgoing = session.update(VigilMessages::StdoutRead(b"one\rtwo".to_vec()));
    assert!(outgoing.is_empty());
    assert_eq!(shown(&session), vec!["one", "two"]);
    assert_eq!(session.interpreter().terminal().cursor_position(), (3, 1));
}

#[test]
fn a_typed_character_is_sent_as_utf8() {
    let mut session = Session::<24, 80>::new();
    assert_eq!(session.update(VigilMessages::StdinInput('a')), vec![0x61]);
    assert_eq!(session.update(VigilMessages::StdinInput('\r')), vec![0x0D]);
    assert_eq!(session.update(VigilMessages::StdinInput('é')), vec![0xC3, 0xA9]);
    assert_eq!(session.update(VigilMessages::StdinInput('世')), vec![0xE4, 0xB8, 0x96]);
    assert_eq!(session.update(VigilMessages::StdinInput('😀')), vec![0xF0, 0x9F, 0x98, 0x80]);
    assert!(shown(&session).is_empty());
}

#[test]
fn the_input_line_is_kept() {
    let mut session = Session::<24, 80>::new();
    assert!(session.terminal_buffer().is_empty());
    let outgoing = session.update(VigilMessages::WriteBuffer("ls -l".to_string()));
    assert!(outgoing.is_empty());
    assert_eq!(session.terminal_buffer(), "ls -l");
}

#[test]
fn scrolling_moves_the_viewport() {
    let mut session = Session::<2, 80>::new();
    session.update(VigilMessages::StdoutRead(b"a\rb\rc\rd".to_vec()));
    assert_eq!(shown(&session), vec!["a", "b"]);
    session.update(VigilMessages::MouseScroll(1));
    assert_eq!(session.top_displaying_row(), 1);
    assert_eq!(shown(&session), vec!["b", "c"]);
    session.update(VigilMessages::MouseScroll(2));
    assert_eq!(shown(&session), vec!["d"]);
    session.update(VigilMessages::MouseScroll(-1));
    assert_eq!(shown(&session), vec!["c", "d"]);
    session.update(VigilMessages::MouseScroll(-128));
    assert_eq!(session.top_displaying_row(), 0);
    session.update(VigilMessages::MouseScroll(0));
    assert_eq!(session.top_displaying_row(), 0);
    session.update(VigilMessages::MouseScroll(127));
    assert_eq!(session.top_displaying_row(), 127);
    assert!(shown(&session).is_empty());
}

#[test]
fn the_wheel_scrolls_only_towards_hidden_lines() {
    let mut session = Session::<2, 80>::new();
    assert!(session.scroll_request(true).is_none());
    assert!(session.scroll_request(false).is_none());
    session.update(VigilMessages::StdoutRead(b"a\rb".to_vec()));
    assert!(session.scroll_request(true).is_none());
    session.update(VigilMessages::StdoutRead(b"\rc".to_vec()));
    assert!(matches!(session.scroll_request(true), Some(VigilMessages::MouseScroll(1))));
    assert!(session.scroll_request(false).is_none());
    let request = session.scroll_request(true).unwrap();
    session.update(request);
    assert!(session.scroll_request(true).is_none());
    assert!(matches!(session.scroll_request(false), Some(VigilMessages::MouseScroll(-1))));
}

#[test]
fn keys_map_to_characters() {
    assert_eq!(keystroke(KeyPress::Enter, None), Some('\r'));
    assert_eq!(keystroke(KeyPress::Enter, Some("\n")), Some('\r'));
    assert_eq!(keystroke(KeyPress::Space, Some(" ")), Some(' '));
    assert_eq!(keystroke(KeyPress::Space, None), Some('\0'));
    assert_eq!(keystroke(KeyPress::Named, Some("x")), None);
    assert_eq!(keystroke(KeyPress::Character, Some("q")), Some('q'));
    assert_eq!(keystroke(KeyPress::Character, Some("éa")), Some('é'));
    assert_eq!(keystroke(KeyPress::Character, Some("")), Some('\0'));
    assert_eq!(keystroke(KeyPress::Character, None), Some('\0'));
}
