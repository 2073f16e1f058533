use nyat::decode::decode_utf8_lossy;
use nyat::layout::AnsiChar;
use nyat::session::{session_step, window_size_for, PtyAction, PtyEvent, SessionError, WindowSize};
use nyat::terminal::{Key, Modifiers, Terminal};

#[test]
fn test_terminal_new_state() {
    let t = Terminal::new(7, 3);
    assert_eq!(t.width, 7);
    assert_eq!(t.height, 3);
    assert_eq!(t.cursor, (0, 0));
    assert!(t.visible_cursor);
    assert_eq!(t.title, Vec::<char>::new());
    assert_eq!(t.modifiers, Modifiers::default());
    assert_eq!(t.visible_grid.size, (7, 3));
}

#[test]
fn test_terminal_resize_clamps_cursor() {
    let mut t = Terminal::new(10, 5);
    t.cursor = (9, 4);
    t.resize(4, 3);
    assert_eq!(t.width, 4);
    assert_eq!(t.height, 3);
    assert_eq!(t.visible_grid.size, (4, 3));
    assert_eq!(t.cursor, (4, 2));
}

#[test]
fn test_terminal_resize_preserves_content() {
    let mut t = Terminal::new(10, 5);
    nyat::display::display_ansi_text(&mut t, "hi".to_string());
    t.resize(3, 2);
    assert_eq!(t.visible_grid.get(0, 0).character, 'h');
    assert_eq!(t.visible_grid.get(0, 1).character, 'i');
    assert_eq!(*t.visible_grid.get(1, 2), AnsiChar::default());
}

#[test]
fn test_key_to_string_letters() {
    let t = Terminal::new(5, 5);
    assert_eq!(t.key_to_string(Key::A), "a");
    assert_eq!(t.key_to_string(Key::Z), "z");
    assert_eq!(t.key_to_string(Key::Q), "q");
}

#[test]
fn test_key_to_string_shift_uppercases() {
    let mut t = Terminal::new(5, 5);
    t.modifiers.shift = true;
    assert_eq!(t.key_to_string(Key::A), "A");
    assert_eq!(t.key_to_string(Key::Z), "Z");
    // shift leaves digits and control keys alone
    assert_eq!(t.key_to_string(Key::Key3), "3");
    assert_eq!(t.key_to_string(Key::Space), " ");
    assert_eq!(t.key_to_string(Key::Return), "\n");
}

#[test]
fn test_key_to_string_digits_and_controls() {
    let t = Terminal::new(5, 5);
    assert_eq!(t.key_to_string(Key::Key1), "1");
    assert_eq!(t.key_to_string(Key::Key0), "0");
    assert_eq!(t.key_to_string(Key::Space), " ");
    assert_eq!(t.key_to_string(Key::Back), "\u{8}");
    assert_eq!(t.key_to_string(Key::Return), "\n");
}

#[test]
fn test_key_to_string_unrecognized_is_silent() {
    let t = Terminal::new(5, 5);
    assert_eq!(t.key_to_string(Key::Other), "");
}

#[test]
fn test_session_step_outbound_writes() {
    match session_step(PtyEvent::Outbound(vec![104, 105])) {
        PtyAction::WriteMaster(bytes) => assert_eq!(bytes, vec![104, 105]),
        _ => panic!("expected a write"),
    }
}

#[test]
fn test_session_step_forwards_decoded_input() {
    match session_step(PtyEvent::Input(vec![104, 105])) {
        PtyAction::Forward(chars) => assert_eq!(chars, vec!['h', 'i']),
        _ => panic!("expected a forward"),
    }
}

#[test]
fn test_session_step_poll_and_shutdown() {
    assert!(matches!(session_step(PtyEvent::PollReadable), PtyAction::ReadMaster));
    assert!(matches!(session_step(PtyEvent::PollIdle), PtyAction::Idle));
    assert!(matches!(session_step(PtyEvent::Eof), PtyAction::Shutdown(None)));
    assert!(matches!(
        session_step(PtyEvent::Failure(SessionError::Fork)),
        PtyAction::Shutdown(Some(SessionError::Fork))
    ));
}

#[test]
fn test_window_size_for_reports_cells_and_pixels() {
    let w = window_size_for(80, 24, 800, 600);
    assert_eq!(w, WindowSize { rows: 24, cols: 80, xpixel: 800, ypixel: 600 });
    let clamped = window_size_for(70000, 2, 3, 4);
    assert_eq!(clamped.cols, 65535);
}

#[test]
fn test_decode_ascii_is_identity() {
    assert_eq!(decode_utf8_lossy(b"shell$ ls\n"), "shell$ ls\n".chars().collect::<Vec<char>>());
}

#[test]
fn test_decode_multibyte() {
    assert_eq!(decode_utf8_lossy("é€😀".as_bytes()), vec!['é', '€', '😀']);
}

#[test]
fn test_decode_replaces_malformed_bytes() {
    // a stray continuation byte, an overlong form, and a surrogate encoding
    assert_eq!(decode_utf8_lossy(&[0x80]), vec!['\u{fffd}']);
    assert_eq!(decode_utf8_lossy(&[0xC0, 0xAF]), vec!['\u{fffd}', '\u{fffd}']);
    assert_eq!(
        decode_utf8_lossy(&[0xED, 0xA0, 0x80]),
        vec!['\u{fffd}', '\u{fffd}', '\u{fffd}']
    );
}

#[test]
fn test_decode_split_character_does_not_fail() {
    // the first half of a multi-byte character at the end of a read
    let out = decode_utf8_lossy(&[b'a', 0xE2, 0x82]);
    assert_eq!(out[0], 'a');
    assert_eq!(out.len(), 3);
    assert_eq!(out[1], '\u{fffd}');
    assert_eq!(out[2], '\u{fffd}');
}
