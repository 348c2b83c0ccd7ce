use vvdoom::error::ErrorKind;
use vvdoom::input::{
    Event, KeyCode, KeyEvent, KeyEventKind, KeyModifiers, ModifierKeyCode, MouseButton, MouseEvent,
    MouseEventKind,
};
use vvdoom::windows_input::{
    parse_csi, parse_mouse, raw_console_mode, read_event, read_step, start, stop, ConsoleInput,
    InputError, Parser, ReadStep, Received,
};

fn parse(text: &str) -> Vec<Event> {
    let mut parser = Parser::default();
    text.encode_utf16().filter_map(|unit| parser.feed(unit)).collect()
}

fn key(code: KeyCode) -> Event {
    Event::Key(KeyEvent::new(code, KeyModifiers::none()))
}

fn mouse(kind: MouseEventKind) -> Option<MouseEvent> {
    Some(MouseEvent { kind, column: 0, row: 0, modifiers: KeyModifiers::none() })
}

#[test]
fn held_arrows_and_wasd_preserve_real_releases() {
    for (sequence, code) in [
        ("1", KeyCode::Left),
        ("119", KeyCode::Char('w')),
        ("97", KeyCode::Char('a')),
        ("115", KeyCode::Char('s')),
        ("100", KeyCode::Char('d')),
    ] {
        let end = if code == KeyCode::Left { 'D' } else { 'u' };
        let events = parse(&format!(
            "\x1b[{sequence};1{end}\x1b[{sequence};1:2{end}\x1b[{sequence};1:3{end}"
        ));
        assert_eq!(
            events,
            [KeyEventKind::Press, KeyEventKind::Repeat, KeyEventKind::Release].map(|kind| {
                Event::Key(KeyEvent::new_with_kind(code, KeyModifiers::none(), kind))
            })
        );
    }
    assert_eq!(parse("\x1b[1;1C\x1b[1;1:3C").len(), 2);
}

#[test]
fn fragmented_input_never_emits_sequence_characters_as_keys() {
    let mut parser = Parser::default();
    for unit in "\x1b[119;1:".encode_utf16() {
        assert!(parser.feed(unit).is_none());
    }
    assert!(parser.feed(u16::from(b'3')).is_none());
    assert_eq!(
        parser.feed(u16::from(b'u')),
        Some(Event::Key(KeyEvent::new_with_kind(
            KeyCode::Char('w'),
            KeyModifiers::none(),
            KeyEventKind::Release
        )))
    );
}

#[test]
fn malformed_and_overlong_reports_are_bounded_and_recover() {
    let mut parser = Parser::default();
    for unit in format!("\x1b[{}u", "9".repeat(4096)).encode_utf16() {
        assert!(parser.feed(unit).is_none());
        assert!(parser.sequence.len() <= 96);
    }
    assert_eq!(
        parse("\x1b[<0;0;1M\x1b[1;0D\x1b[119;1:9u\x1b[27u"),
        [Event::Key(KeyEvent::new(KeyCode::Esc, KeyModifiers::none()))]
    );
}

#[test]
fn decodes_pixel_mouse_and_control_keys() {
    assert_eq!(
        parse("\x1b[<32;640;400M"),
        [Event::Mouse(MouseEvent {
            kind: MouseEventKind::Drag(MouseButton::Left),
            column: 639,
            row: 399,
            modifiers: KeyModifiers::none(),
        })]
    );
    assert_eq!(
        parse("\x1b[99;5u"),
        [Event::Key(KeyEvent::new(
            KeyCode::Char('c'),
            KeyModifiers { shift: false, alt: false, control: true }
        ))]
    );
    assert_eq!(
        parse("\x1b[1;3D"),
        [Event::Key(KeyEvent::new(
            KeyCode::Left,
            KeyModifiers { shift: false, alt: true, control: false }
        ))]
    );
}

#[test]
fn plain_text_gives_keys() {
    assert_eq!(
        parse("a~ \t\r\x7f\x03"),
        [
            key(KeyCode::Char('a')),
            key(KeyCode::Char('~')),
            key(KeyCode::Char(' ')),
            key(KeyCode::Tab),
            key(KeyCode::Enter),
            key(KeyCode::Backspace),
            key(KeyCode::Char('\u{3}')),
        ]
    );
    assert_eq!(parse("\u{1}\n\u{e9}\u{1f600}"), []);
}

#[test]
fn escape_abandons_what_came_before() {
    assert_eq!(parse("\x1b[119;1:\x1b[27u"), [key(KeyCode::Esc)]);
    assert_eq!(parse("\x1b\x1b[A"), [key(KeyCode::Up)]);
    // A letter behind a lone escape is swallowed with it.
    assert_eq!(parse("\x1bxy"), [key(KeyCode::Char('y'))]);
}

#[test]
fn both_introducers_are_understood() {
    assert_eq!(parse("\x1bOA\x1b[A"), [key(KeyCode::Up), key(KeyCode::Up)]);
}

#[test]
fn function_and_cursor_keys_are_decoded() {
    for (sequence, code) in [
        ("A", KeyCode::Up),
        ("B", KeyCode::Down),
        ("C", KeyCode::Right),
        ("D", KeyCode::Left),
        ("H", KeyCode::Home),
        ("F", KeyCode::End),
        ("P", KeyCode::F(1)),
        ("S", KeyCode::F(4)),
        ("2~", KeyCode::Insert),
        ("3~", KeyCode::Delete),
        ("5~", KeyCode::PageUp),
        ("6~", KeyCode::PageDown),
        ("11~", KeyCode::F(1)),
        ("15~", KeyCode::F(5)),
        ("17~", KeyCode::F(6)),
        ("21~", KeyCode::F(10)),
        ("23~", KeyCode::F(11)),
        ("24~", KeyCode::F(12)),
        ("9u", KeyCode::Tab),
        ("13u", KeyCode::Enter),
        ("127u", KeyCode::Backspace),
        ("57417u", KeyCode::Left),
        ("57418u", KeyCode::Right),
        ("57419u", KeyCode::Up),
        ("57420u", KeyCode::Down),
        ("57441u", KeyCode::Modifier(ModifierKeyCode::LeftShift)),
        ("57442u", KeyCode::Modifier(ModifierKeyCode::LeftControl)),
        ("57443u", KeyCode::Modifier(ModifierKeyCode::LeftAlt)),
        ("57447u", KeyCode::Modifier(ModifierKeyCode::RightShift)),
        ("57448u", KeyCode::Modifier(ModifierKeyCode::RightControl)),
        ("57449u", KeyCode::Modifier(ModifierKeyCode::RightAlt)),
        ("32u", KeyCode::Char(' ')),
        ("126u", KeyCode::Char('~')),
    ] {
        assert_eq!(parse(&format!("\x1b[{sequence}")), [key(code)], "{sequence}");
    }
    for sequence in ["16~", "22~", "25~", "31u", "128u", "4294967296u", "1;256D", "1;D", "Z"] {
        assert_eq!(parse(&format!("\x1b[{sequence}")), [], "{sequence}");
    }
}

#[test]
fn numbers_may_carry_a_sign_and_alternates() {
    assert_eq!(parse("\x1b[119:87;+1u"), [key(KeyCode::Char('w'))]);
    assert_eq!(parse("\x1b[+119u"), [key(KeyCode::Char('w'))]);
    assert_eq!(parse_csi(b"+119", b'u'), Some(key(KeyCode::Char('w'))));
    assert_eq!(parse_csi(b"-119", b'u'), None);
    assert_eq!(parse_csi(b"", b'A'), Some(key(KeyCode::Up)));
}

#[test]
fn modifiers_are_decoded() {
    for (bits, modifiers) in [
        (2, KeyModifiers { shift: true, alt: false, control: false }),
        (8, KeyModifiers { shift: true, alt: true, control: true }),
        (9, KeyModifiers::none()),
    ] {
        assert_eq!(
            parse(&format!("\x1b[1;{bits}A")),
            [Event::Key(KeyEvent::new(KeyCode::Up, modifiers))]
        );
    }
}

#[test]
fn mouse_reports_are_decoded() {
    assert_eq!(parse_mouse(b"0;1;1", b'M'), mouse(MouseEventKind::Down(MouseButton::Left)));
    assert_eq!(parse_mouse(b"1;1;1", b'm'), mouse(MouseEventKind::Up(MouseButton::Middle)));
    assert_eq!(parse_mouse(b"34;1;1", b'M'), mouse(MouseEventKind::Drag(MouseButton::Right)));
    assert_eq!(parse_mouse(b"35;1;1", b'M'), mouse(MouseEventKind::Moved));
    assert_eq!(parse_mouse(b"64;1;1", b'M'), mouse(MouseEventKind::ScrollUp));
    assert_eq!(parse_mouse(b"65;1;1", b'M'), mouse(MouseEventKind::ScrollDown));
    assert_eq!(parse_mouse(b"66;1;1", b'm'), mouse(MouseEventKind::ScrollLeft));
    assert_eq!(parse_mouse(b"67;1;1", b'M'), mouse(MouseEventKind::ScrollRight));
    assert_eq!(
        parse_mouse(b"28;65536;1", b'M'),
        None,
    );
    assert_eq!(
        parse_mouse(b"28;65535;2", b'M'),
        Some(MouseEvent {
            kind: MouseEventKind::Down(MouseButton::Left),
            column: 65534,
            row: 1,
            modifiers: KeyModifiers { shift: true, alt: true, control: true },
        })
    );
    for body in ["3;1;1", "0;1", "0;1;1;1", "256;1;1", "0;0;1", "0;1;0", ""] {
        assert_eq!(parse_mouse(body.as_bytes(), b'M'), None, "{body}");
    }
    assert_eq!(parse_mouse(b"3;1;1", b'm'), None);
    assert_eq!(parse_mouse(b"0;1;1", b'A'), None);
}

#[test]
fn longest_sequence_is_still_decoded() {
    let fitting = format!("{}119", "0".repeat(93));
    assert_eq!(parse(&format!("\x1b[{fitting}u")), [key(KeyCode::Char('w'))]);
    assert_eq!(parse(&format!("\x1b[0{fitting}u")), []);
}

#[test]
fn fragments_decode_as_the_whole() {
    let units: Vec<u16> = "x\x1b[119;1:3u\x1b[<0;5;5My".encode_utf16().collect();
    let mut whole = Parser::default();
    let expected = whole.feed_all(&units);
    assert_eq!(expected.len(), 4);
    for cut in 0..=units.len() {
        let mut parser = Parser::default();
        let mut events = parser.feed_all(&units[..cut]);
        events.extend(parser.feed_all(&units[cut..]));
        assert_eq!(events, expected);
    }
}

#[test]
fn raw_mode_changes_only_what_it_must() {
    assert_eq!(raw_console_mode(0), 640);
    assert_eq!(raw_console_mode(u32::MAX), u32::MAX - 71);
    assert_eq!(raw_console_mode(0x1f7), 0x3b0);
    assert_eq!(raw_console_mode(raw_console_mode(0x1f7)), raw_console_mode(0x1f7));
}

#[test]
fn console_mode_is_restored() {
    let mut input = ConsoleInput { saved_mode: None };
    assert_eq!(stop(&mut input), None);
    assert_eq!(start(&mut input, None), Err(InputError::Read));
    assert_eq!(stop(&mut input), None);
    assert_eq!(start(&mut input, Some(0x1f7)), Ok(0x3b0));
    assert_eq!(start(&mut input, Some(7)), Err(InputError::AlreadyActive));
    assert_eq!(start(&mut input, None), Err(InputError::AlreadyActive));
    assert_eq!(stop(&mut input), Some(0x1f7));
    assert_eq!(stop(&mut input), None);
    assert_eq!(start(&mut input, Some(7)), Ok(640));
}

#[test]
fn reader_steps_follow_the_read() {
    assert_eq!(read_step(true, true, 5), ReadStep::Stop);
    assert_eq!(read_step(true, false, 0), ReadStep::Stop);
    assert_eq!(read_step(false, false, 0), ReadStep::Fail(InputError::Read));
    assert_eq!(read_step(false, true, 0), ReadStep::Fail(InputError::Closed));
    assert_eq!(read_step(false, true, 5), ReadStep::Decode(5));
}

#[test]
fn events_come_from_active_input_only() {
    let event = key(KeyCode::Up);
    let idle = ConsoleInput { saved_mode: None };
    assert_eq!(read_event(&idle, Received::Event(event)), Ok(None));
    assert_eq!(read_event(&idle, Received::Disconnected), Ok(None));
    let active = ConsoleInput { saved_mode: Some(7) };
    assert_eq!(read_event(&active, Received::Event(event)), Ok(Some(event)));
    assert_eq!(read_event(&active, Received::Nothing), Ok(None));
    assert_eq!(
        read_event(&active, Received::Failed(InputError::Closed)),
        Err(InputError::Closed)
    );
    assert_eq!(read_event(&active, Received::Disconnected), Err(InputError::WorkerStopped));
    assert_eq!(InputError::AlreadyActive.message(), Some("terminal input already active"));
    assert_eq!(InputError::Closed.message(), Some("terminal input closed"));
    assert_eq!(InputError::WorkerStopped.message(), Some("terminal input worker stopped"));
    assert_eq!(InputError::Read.message(), None);
    assert_eq!(InputError::AlreadyActive.kind(), Some(ErrorKind::Other));
    assert_eq!(InputError::Closed.kind(), Some(ErrorKind::UnexpectedEof));
    assert_eq!(InputError::WorkerStopped.kind(), Some(ErrorKind::UnexpectedEof));
    assert_eq!(InputError::Read.kind(), None);
}
