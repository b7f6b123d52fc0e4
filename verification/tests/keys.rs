use devmgr::keys::{
    character_input, control_char_byte, csi_sequence, encode_char_utf8, key_event_bytes,
    key_modifier_number, special_key_input, KeyCode, KeyEvent, KeyEventKind, KeyModifiers,
    TerminalInput,
};

#[test]
fn text_keys_are_forwarded_as_utf8() {
    assert_eq!(
        key_event_bytes(KeyEvent::new(KeyCode::Char('a'), KeyModifiers::none())),
        Some(vec![b'a'])
    );
    assert_eq!(
        key_event_bytes(KeyEvent::new(KeyCode::Char('é'), KeyModifiers::none())),
        Some("é".as_bytes().to_vec())
    );
}

#[test]
fn control_keys_are_forwarded_as_control_bytes() {
    assert_eq!(
        key_event_bytes(KeyEvent::new(KeyCode::Char('c'), KeyModifiers::control())),
        Some(vec![3])
    );
    assert_eq!(
        key_event_bytes(KeyEvent::new(KeyCode::Char('['), KeyModifiers::control())),
        Some(vec![0x1b])
    );
}

#[test]
fn navigation_keys_are_forwarded_as_terminal_input_sequences() {
    assert_eq!(
        key_event_bytes(KeyEvent::new(KeyCode::Left, KeyModifiers::none())),
        Some(vec![0x1b, b'[', b'D'])
    );
    assert_eq!(
        key_event_bytes(KeyEvent::new(KeyCode::Delete, KeyModifiers::control())),
        Some(b"\x1b[3;5~".to_vec())
    );
}

fn mods(shift: bool, control: bool, alt: bool) -> KeyModifiers {
    KeyModifiers { shift, control, alt }
}

#[test]
fn utf8_encoding_matches_std_for_every_width() {
    for c in ['a', '\u{7f}', 'é', '\u{7ff}', '€', '\u{ffff}', '😀', '\u{10ffff}'] {
        let mut buf = [0u8; 4];
        assert_eq!(encode_char_utf8(c), c.encode_utf8(&mut buf).as_bytes().to_vec());
    }
}

#[test]
fn alt_prefixes_escape() {
    assert_eq!(
        key_event_bytes(KeyEvent::new(KeyCode::Char('x'), KeyModifiers::alt())),
        Some(vec![0x1b, b'x'])
    );
    assert_eq!(
        key_event_bytes(KeyEvent::new(KeyCode::Char('c'), mods(false, true, true))),
        Some(vec![0x1b, 3])
    );
    assert_eq!(
        key_event_bytes(KeyEvent::new(KeyCode::Enter, KeyModifiers::alt())),
        Some(vec![0x1b, b'\r'])
    );
}

#[test]
fn plain_editing_keys() {
    assert_eq!(key_event_bytes(KeyEvent::new(KeyCode::Backspace, KeyModifiers::none())), Some(vec![0x7f]));
    assert_eq!(key_event_bytes(KeyEvent::new(KeyCode::Enter, KeyModifiers::none())), Some(vec![b'\r']));
    assert_eq!(key_event_bytes(KeyEvent::new(KeyCode::Tab, KeyModifiers::none())), Some(vec![b'\t']));
    assert_eq!(key_event_bytes(KeyEvent::new(KeyCode::Esc, KeyModifiers::none())), Some(vec![0x1b]));
    assert_eq!(
        key_event_bytes(KeyEvent::new(KeyCode::BackTab, KeyModifiers::shift())),
        Some(b"\x1b[Z".to_vec())
    );
}

#[test]
fn cursor_keys_carry_modifier_parameters() {
    assert_eq!(
        key_event_bytes(KeyEvent::new(KeyCode::Up, KeyModifiers::shift())),
        Some(b"\x1b[1;2A".to_vec())
    );
    assert_eq!(
        key_event_bytes(KeyEvent::new(KeyCode::End, mods(true, true, true))),
        Some(b"\x1b[1;8F".to_vec())
    );
    assert_eq!(
        key_event_bytes(KeyEvent::new(KeyCode::Home, KeyModifiers::none())),
        Some(b"\x1b[H".to_vec())
    );
}

#[test]
fn function_keys() {
    assert_eq!(key_event_bytes(KeyEvent::new(KeyCode::F(1), KeyModifiers::none())), Some(b"\x1bOP".to_vec()));
    assert_eq!(key_event_bytes(KeyEvent::new(KeyCode::F(4), KeyModifiers::control())), Some(b"\x1bOS".to_vec()));
    assert_eq!(key_event_bytes(KeyEvent::new(KeyCode::F(5), KeyModifiers::none())), Some(b"\x1b[15~".to_vec()));
    assert_eq!(key_event_bytes(KeyEvent::new(KeyCode::F(12), KeyModifiers::alt())), Some(b"\x1b[24;3~".to_vec()));
    assert_eq!(key_event_bytes(KeyEvent::new(KeyCode::F(13), KeyModifiers::none())), None);
    assert_eq!(key_event_bytes(KeyEvent::new(KeyCode::PageDown, KeyModifiers::none())), Some(b"\x1b[6~".to_vec()));
}

#[test]
fn keys_without_input() {
    for code in [
        KeyCode::Null,
        KeyCode::CapsLock,
        KeyCode::ScrollLock,
        KeyCode::NumLock,
        KeyCode::PrintScreen,
        KeyCode::Pause,
        KeyCode::Menu,
        KeyCode::KeypadBegin,
        KeyCode::Media,
        KeyCode::Modifier,
    ] {
        assert_eq!(key_event_bytes(KeyEvent::new(code, KeyModifiers::none())), None);
    }
    assert_eq!(key_event_bytes(KeyEvent::new(KeyCode::Char('é'), KeyModifiers::control())), None);
}

#[test]
fn control_byte_table() {
    assert_eq!(control_char_byte('a'), Some(1));
    assert_eq!(control_char_byte('Z'), Some(26));
    assert_eq!(control_char_byte('z'), control_char_byte('Z'));
    assert_eq!(control_char_byte('\\'), Some(0x1c));
    assert_eq!(control_char_byte('5'), Some(0x1d));
    assert_eq!(control_char_byte('^'), Some(0x1e));
    assert_eq!(control_char_byte('/'), Some(0x1f));
    assert_eq!(control_char_byte('?'), Some(0x7f));
    assert_eq!(control_char_byte('@'), Some(0));
    assert_eq!(control_char_byte(' '), Some(0));
    assert_eq!(control_char_byte('1'), None);
    assert_eq!(control_char_byte('!'), None);
}

#[test]
fn modifier_numbers() {
    assert_eq!(key_modifier_number(KeyModifiers::none()), None);
    assert_eq!(key_modifier_number(KeyModifiers::shift()), Some(2));
    assert_eq!(key_modifier_number(KeyModifiers::alt()), Some(3));
    assert_eq!(key_modifier_number(KeyModifiers::control()), Some(5));
    assert_eq!(key_modifier_number(mods(true, true, true)), Some(8));
}

#[test]
fn csi_and_ss3_bytes() {
    assert_eq!(csi_sequence("", b'A'), b"\x1b[A".to_vec());
    assert_eq!(csi_sequence("1;5", b'C'), b"\x1b[1;5C".to_vec());
    assert_eq!(TerminalInput::Ss3(b'Q').into_bytes(), b"\x1bOQ".to_vec());
    assert_eq!(
        TerminalInput::Csi { parameters: String::from("2"), final_byte: b'~' }.into_bytes(),
        b"\x1b[2~".to_vec()
    );
    assert_eq!(TerminalInput::Bytes(vec![1, 2]).into_bytes(), vec![1, 2]);
}

#[test]
fn special_and_character_inputs_split_the_keys() {
    assert!(special_key_input(KeyCode::Char('a'), KeyModifiers::none()).is_none());
    assert!(character_input(KeyCode::Left, KeyModifiers::none()).is_none());
    assert!(special_key_input(KeyCode::Insert, KeyModifiers::none()).is_some());
    let released = KeyEvent { code: KeyCode::Char('a'), modifiers: KeyModifiers::none(), kind: KeyEventKind::Release };
    // Encoding a key event does not look at its kind.
    assert_eq!(key_event_bytes(released), Some(vec![b'a']));
}
