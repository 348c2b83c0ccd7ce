use vvdoom::geometry::{FrameLayout, TerminalGeometry};
use vvdoom::input::{
    doom_key_for, Event, KeyCode, KeyEvent, KeyEventKind, KeyModifiers, ModifierKeyCode,
    MouseButton, MouseEvent, MouseEventKind,
};
use vvdoom::queue::LatestQueue;
use vvdoom::runtime::{
    argument_count, begin_run, convert_doom_pixels, handler_registered, install_failed,
    install_signal_handlers, is_interrupt_key, mouse_button_bit, next_step, request_exit,
    reset_exit_request, run_result, sound_directory_for_c, ticks_ms, ExitFlag, InputAction,
    InstallStep, MouseMotion, RunStep, RuntimeState, Signal,
};

fn control() -> KeyModifiers {
    KeyModifiers { shift: false, alt: false, control: true }
}

fn key(code: KeyCode, kind: KeyEventKind) -> KeyEvent {
    KeyEvent::new_with_kind(code, KeyModifiers::none(), kind)
}

fn layout() -> FrameLayout {
    TerminalGeometry {
        viewport_width_px: 1000,
        viewport_height_px: 800,
        cols: 100,
        rows: 40,
        cell_width_px: 10,
        cell_height_px: 20,
    }
    .layout(false)
}

fn mouse(kind: MouseEventKind, column: u16, row: u16) -> MouseEvent {
    MouseEvent { kind, column, row, modifiers: KeyModifiers::none() }
}

#[test]
fn converts_packed_doom_pixels_to_rgba() {
    let input = [0x0012_3456, 0x00ab_cdef];
    let mut output = [0; 8];
    assert!(convert_doom_pixels(&input, &mut output));
    assert_eq!(output, [0x12, 0x34, 0x56, 0xff, 0xab, 0xcd, 0xef, 0xff]);
}

#[test]
fn reconverting_the_same_framebuffer_reports_no_change() {
    let input = [0x0012_3456, 0x00ab_cdef];
    let mut output = [0; 8];
    assert!(convert_doom_pixels(&input, &mut output));
    assert!(!convert_doom_pixels(&input, &mut output));
    let moved = [0x0012_3456, 0x00ab_cdee];
    assert!(convert_doom_pixels(&moved, &mut output));
    assert_eq!(output[4..], [0xab, 0xcd, 0xee, 0xff]);
}

#[test]
fn conversion_stops_at_the_shorter_side() {
    let mut short = [1; 7];
    assert!(convert_doom_pixels(&[0xff00_0000, 0x00ff_ffff], &mut short));
    assert_eq!(short, [0, 0, 0, 0xff, 1, 1, 1]);
    let mut long = [1; 8];
    assert!(convert_doom_pixels(&[0x00ff_ffff], &mut long));
    assert_eq!(long, [0xff, 0xff, 0xff, 0xff, 1, 1, 1, 1]);
    assert!(!convert_doom_pixels(&[], &mut long));
}

#[test]
fn detects_control_c_interrupt() {
    assert!(is_interrupt_key(&KeyEvent::new(KeyCode::Char('c'), control())));
    assert!(!is_interrupt_key(&KeyEvent::new(KeyCode::Char('c'), KeyModifiers::none())));
}

#[test]
fn interrupts_come_in_several_forms() {
    assert!(is_interrupt_key(&KeyEvent::new(KeyCode::Char('C'), control())));
    assert!(is_interrupt_key(&key(KeyCode::Char('\u{3}'), KeyEventKind::Repeat)));
    assert!(!is_interrupt_key(&key(KeyCode::Char('\u{3}'), KeyEventKind::Release)));
    assert!(!is_interrupt_key(&KeyEvent::new_with_kind(
        KeyCode::Char('c'),
        control(),
        KeyEventKind::Release
    )));
    assert!(!is_interrupt_key(&KeyEvent::new(KeyCode::Char('d'), control())));
}

#[test]
fn normalizes_verbatim_windows_sound_paths_for_miniaudio() {
    assert_eq!(
        sound_directory_for_c(r"\\?\C:\games\vvdoom\sound", true),
        r"C:\games\vvdoom\sound"
    );
    assert_eq!(
        sound_directory_for_c(r"\\?\UNC\server\share\sound", true),
        r"\\server\share\sound"
    );
}

#[test]
fn other_sound_paths_stay() {
    assert_eq!(sound_directory_for_c("/usr/share/sound", true), "/usr/share/sound");
    assert_eq!(sound_directory_for_c(r"\\?\C:\sound", false), r"\\?\C:\sound");
    assert_eq!(sound_directory_for_c("", true), "");
}

#[test]
fn exit_request_can_be_withdrawn() {
    let mut flag = ExitFlag { requested: false };
    request_exit(&mut flag);
    assert!(flag.requested);
    reset_exit_request(&mut flag);
    assert!(!flag.requested);
}

#[test]
fn first_failure_stays_and_ends_the_game() {
    let mut state = RuntimeState::new();
    state.fail("first".to_owned());
    state.fail("second".to_owned());
    assert_eq!(state.fatal_error, Some("first".to_owned()));
    assert!(state.exit.requested);
}

#[test]
fn keys_reach_the_game_with_their_phase() {
    let mut state = RuntimeState::new();
    for kind in [KeyEventKind::Press, KeyEventKind::Repeat, KeyEventKind::Release] {
        let action = state.handle_key_event(key(KeyCode::Up, kind), Some(0xad));
        assert_eq!(action, InputAction::Nothing);
    }
    state.handle_key_event(key(KeyCode::Home, KeyEventKind::Press), None);
    assert_eq!(state.pop_key(), Some((1, 0xad)));
    assert_eq!(state.pop_key(), Some((1, 0xad)));
    assert_eq!(state.pop_key(), Some((0, 0xad)));
    assert_eq!(state.pop_key(), None);
}

#[test]
fn interrupt_ends_the_game_and_reaches_nothing_else() {
    let mut state = RuntimeState::new();
    let action = state.handle_event(
        Event::Key(KeyEvent::new(KeyCode::Char('c'), control())),
        None,
    );
    assert_eq!(action, InputAction::Nothing);
    assert!(state.exit.requested);
    assert_eq!(state.fatal_error, None);
    assert_eq!(state.pop_key(), None);
}

#[test]
fn settings_change_on_release() {
    let mut state = RuntimeState::new();
    state.last_mouse_position = Some((1, 1));
    state.handle_key_event(key(KeyCode::Char('m'), KeyEventKind::Press), Some(b'm'));
    assert!(state.mouse_enabled);
    assert_eq!(state.last_mouse_position, Some((1, 1)));
    state.handle_key_event(key(KeyCode::Char('M'), KeyEventKind::Release), Some(b'm'));
    assert!(!state.mouse_enabled);
    assert_eq!(state.last_mouse_position, None);
    state.last_mouse_position = Some((1, 1));
    assert_eq!(
        state.handle_key_event(key(KeyCode::Char('u'), KeyEventKind::Press), Some(b'u')),
        InputAction::Nothing
    );
    assert_eq!(
        state.handle_key_event(key(KeyCode::Char('U'), KeyEventKind::Release), Some(b'u')),
        InputAction::ToggleScale
    );
    assert_eq!(state.last_mouse_position, None);
    assert_eq!(state.pop_key(), None);
}

#[test]
fn mouse_motion_is_posted_with_the_buttons() {
    let mut state = RuntimeState::new();
    let down = mouse(MouseEventKind::Down(MouseButton::Left), 100, 100);
    assert_eq!(
        state.handle_mouse_event(down, Some(layout())),
        InputAction::Post(MouseMotion { buttons: 1, dx: 0, dy: 0 })
    );
    let drag = mouse(MouseEventKind::Drag(MouseButton::Right), 110, 120);
    assert_eq!(
        state.handle_mouse_event(drag, Some(layout())),
        InputAction::Post(MouseMotion { buttons: 3, dx: 10, dy: 20 })
    );
    let up = mouse(MouseEventKind::Up(MouseButton::Left), 110, 120);
    assert_eq!(
        state.handle_mouse_event(up, Some(layout())),
        InputAction::Post(MouseMotion { buttons: 2, dx: 0, dy: 0 })
    );
    let moved = mouse(MouseEventKind::Moved, 100, 120);
    assert_eq!(
        state.handle_mouse_event(moved, Some(layout())),
        InputAction::Post(MouseMotion { buttons: 2, dx: -10, dy: 0 })
    );
    assert_eq!(mouse_button_bit(MouseButton::Middle), 4);
}

#[test]
fn scrolling_moves_the_position_only() {
    let mut state = RuntimeState::new();
    let scroll = mouse(MouseEventKind::ScrollUp, 5, 6);
    assert_eq!(state.handle_mouse_event(scroll, Some(layout())), InputAction::Nothing);
    assert_eq!(state.last_mouse_position, Some((5, 6)));
    assert_eq!(state.mouse_buttons, 0);
}

#[test]
fn mouse_is_ignored_when_off_or_without_an_image() {
    let mut state = RuntimeState::new();
    state.last_mouse_position = Some((1, 1));
    let moved = mouse(MouseEventKind::Moved, 5, 6);
    assert_eq!(state.handle_mouse_event(moved, None), InputAction::Nothing);
    assert_eq!(state.last_mouse_position, Some((1, 1)));
    state.mouse_enabled = false;
    assert_eq!(state.handle_mouse_event(moved, Some(layout())), InputAction::Nothing);
    assert_eq!(state.last_mouse_position, None);
}

#[test]
fn resize_forgets_the_mouse_position() {
    let mut state = RuntimeState::new();
    state.last_mouse_position = Some((1, 1));
    assert_eq!(state.handle_event(Event::Other, None), InputAction::Nothing);
    assert_eq!(state.last_mouse_position, Some((1, 1)));
    assert_eq!(state.handle_event(Event::Resize, None), InputAction::Nothing);
    assert_eq!(state.last_mouse_position, None);
}

#[test]
fn frames_are_sent_when_they_change_or_once_a_second() {
    let mut state = RuntimeState::new();
    assert_eq!(state.rgba_frame.len(), 1_024_000);
    // The first frame is always due.
    assert!(state.prepare_frame(None, 0));
    state.mark_frame_sent(0);
    let screen = vec![0x0012_3456; 256_000];
    assert!(state.prepare_frame(Some(&screen), 1));
    assert_eq!(state.rgba_frame[1_023_996..], [0x12, 0x34, 0x56, 0xff]);
    state.mark_frame_sent(1);
    assert!(!state.prepare_frame(Some(&screen), 1_000_000_000));
    assert!(state.prepare_frame(Some(&screen), 1_000_000_001));
}

#[test]
fn clock_stops_at_its_last_tick() {
    assert_eq!(ticks_ms(0), 0);
    assert_eq!(ticks_ms(u128::from(u32::MAX)), u32::MAX);
    assert_eq!(ticks_ms(u128::from(u32::MAX) + 1), u32::MAX);
}

#[test]
fn argument_count_fits_or_is_refused() {
    assert_eq!(argument_count(3), Some(3));
    assert_eq!(argument_count(i32::MAX as usize), Some(i32::MAX));
    assert_eq!(argument_count(i32::MAX as usize + 1), None);
}

#[test]
fn run_goes_through_its_steps() {
    let mut step = RunStep::Clear;
    let mut steps = vec![step];
    for exit in [false, false, false, false, false, true] {
        step = next_step(step, exit);
        steps.push(step);
    }
    assert_eq!(
        steps,
        [
            RunStep::Clear,
            RunStep::StartWorkers,
            RunStep::FirstTick,
            RunStep::Activate,
            RunStep::Tick,
            RunStep::Tick,
            RunStep::Shutdown,
        ]
    );
    assert_eq!(next_step(RunStep::StartWorkers, true), RunStep::Shutdown);
    assert_eq!(next_step(RunStep::FirstTick, true), RunStep::Activate);
    assert_eq!(next_step(RunStep::Shutdown, false), RunStep::Shutdown);
}

#[test]
fn shutdown_errors_come_first() {
    let late = || Err("late".to_owned());
    assert_eq!(run_result(Ok(()), None), Ok(()));
    assert_eq!(run_result(Ok(()), Some("early".to_owned())), Err("early".to_owned()));
    assert_eq!(run_result(late(), Some("early".to_owned())), Err("late".to_owned()));
    assert_eq!(run_result(late(), None), Err("late".to_owned()));
}

#[test]
fn signal_handlers_are_installed_once() {
    let mut installed = false;
    assert_eq!(
        install_signal_handlers(&mut installed),
        InstallStep::Register(Signal::Interrupt)
    );
    assert_eq!(
        handler_registered(&mut installed, Signal::Interrupt, true),
        InstallStep::Register(Signal::Terminate)
    );
    assert_eq!(
        handler_registered(&mut installed, Signal::Terminate, true),
        InstallStep::Installed
    );
    assert!(installed);
    assert_eq!(install_signal_handlers(&mut installed), InstallStep::Installed);
}

#[test]
fn failed_installation_can_be_tried_again() {
    let mut installed = false;
    install_signal_handlers(&mut installed);
    assert_eq!(
        handler_registered(&mut installed, Signal::Interrupt, false),
        InstallStep::Failed { signal: Signal::Interrupt, remove_interrupt: false }
    );
    assert!(!installed);
    install_signal_handlers(&mut installed);
    handler_registered(&mut installed, Signal::Interrupt, true);
    assert_eq!(
        handler_registered(&mut installed, Signal::Terminate, false),
        InstallStep::Failed { signal: Signal::Terminate, remove_interrupt: true }
    );
    assert!(!installed);
    assert_eq!(install_failed(Signal::Interrupt), "failed to install SIGINT handler");
    assert_eq!(install_failed(Signal::Terminate), "failed to install SIGTERM handler");
}

#[test]
fn closed_frame_queue_ends_the_game() {
    let mut state = RuntimeState::new();
    let mut queue = LatestQueue::new();
    state.submit_frame(&mut queue);
    assert_eq!(queue.item.as_ref(), Some(&state.rgba_frame));
    assert!(!state.exit.requested);
    queue.close();
    state.submit_frame(&mut queue);
    assert!(state.exit.requested);
    assert_eq!(state.fatal_error, Some("latest-frame queue is closed".to_owned()));
}

#[test]
fn controls_are_bound() {
    for (codes, key) in [
        (vec![KeyCode::Up, KeyCode::Char('w'), KeyCode::Char('W')], 0xad),
        (vec![KeyCode::Down, KeyCode::Char('k'), KeyCode::Char('K')], 0xaf),
        (vec![KeyCode::Left, KeyCode::Char('j'), KeyCode::Char('J')], 0xac),
        (vec![KeyCode::Right, KeyCode::Char('l'), KeyCode::Char('L')], 0xae),
        (vec![KeyCode::Char('a'), KeyCode::Char('A')], 0xa0),
        (vec![KeyCode::Char('d'), KeyCode::Char('D')], 0xa1),
        (vec![KeyCode::Char(' ')], 0xa2),
        (
            vec![
                KeyCode::Char('f'),
                KeyCode::Char('I'),
                KeyCode::Modifier(ModifierKeyCode::LeftControl),
                KeyCode::Modifier(ModifierKeyCode::RightControl),
            ],
            0xa3,
        ),
        (vec![KeyCode::Modifier(ModifierKeyCode::RightShift)], 0xb6),
        (vec![KeyCode::Modifier(ModifierKeyCode::LeftAlt)], 0xb8),
        (vec![KeyCode::Esc], 27),
        (vec![KeyCode::Enter], 13),
        (vec![KeyCode::Tab], 9),
        (vec![KeyCode::Backspace], 127),
        (vec![KeyCode::F(1)], 0xbb),
        (vec![KeyCode::F(10)], 0xc4),
        (vec![KeyCode::F(11)], 0xd7),
        (vec![KeyCode::F(12)], 0xd8),
        (vec![KeyCode::Char('y'), KeyCode::Char('Y')], b'y'),
        (vec![KeyCode::Char('1')], b'1'),
        (vec![KeyCode::Char('~')], b'~'),
    ] {
        for code in codes {
            assert_eq!(doom_key_for(code), Some(key), "{code:?}");
        }
    }
    for code in [
        KeyCode::Home,
        KeyCode::Other,
        KeyCode::F(0),
        KeyCode::F(13),
        KeyCode::Char('\u{7f}'),
        KeyCode::Char('\u{e9}'),
        KeyCode::Char('\u{3}'),
    ] {
        assert_eq!(doom_key_for(code), None, "{code:?}");
    }
}

#[test]
fn events_are_bound_to_the_controls() {
    let mut state = RuntimeState::new();
    state.handle_event(Event::Key(key(KeyCode::Char('w'), KeyEventKind::Press)), None);
    state.handle_event(Event::Key(key(KeyCode::Char('w'), KeyEventKind::Release)), None);
    state.handle_event(Event::Key(key(KeyCode::Home, KeyEventKind::Press)), None);
    assert_eq!(state.pop_key(), Some((1, 0xad)));
    assert_eq!(state.pop_key(), Some((0, 0xad)));
    assert_eq!(state.pop_key(), None);
}

#[test]
fn engine_runs_once() {
    let mut begun = false;
    assert_eq!(begin_run(&mut begun), Ok(()));
    let error = begin_run(&mut begun).unwrap_err();
    assert_eq!(error.message(), "Doom runtime has already been initialized");
}
