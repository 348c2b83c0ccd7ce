use vvdoom::terminal::{
    clear_for_presentation, disable_pixel_mouse, enable_pixel_mouse, keyboard_flags,
    pop_keyboard_enhancement, push_keyboard_enhancement, restore_terminal, window_title,
    TerminalCommand, TerminalSession,
};
use vvdoom::text::{decimal, join};

#[test]
fn pixel_mouse_is_switched_on_and_off_in_reverse() {
    assert_eq!(
        enable_pixel_mouse(),
        "\x1b[?1000h\x1b[?1002h\x1b[?1003h\x1b[?1015h\x1b[?1006h\x1b[?1016h"
    );
    assert_eq!(
        disable_pixel_mouse(),
        "\x1b[?1016l\x1b[?1006l\x1b[?1015l\x1b[?1003l\x1b[?1002l\x1b[?1000l"
    );
}

#[test]
fn keyboard_reports_are_requested() {
    assert_eq!(keyboard_flags(), 11);
    assert_eq!(push_keyboard_enhancement(keyboard_flags()), "\x1b[>11u");
    assert_eq!(pop_keyboard_enhancement(), "\x1b[<1u");
}

#[test]
fn terminal_commands_are_in_order() {
    assert_eq!(
        TerminalSession::enter(),
        [
            TerminalCommand::EnterAlternateScreen,
            TerminalCommand::PushKeyboardEnhancement,
            TerminalCommand::EnableMouseCapture,
            TerminalCommand::EnableSgrPixelMouse,
            TerminalCommand::HideCursor,
            TerminalCommand::ClearAll,
            TerminalCommand::MoveHome,
        ]
    );
    assert_eq!(
        restore_terminal(),
        [
            TerminalCommand::ShowCursor,
            TerminalCommand::DisableSgrPixelMouse,
            TerminalCommand::DisableMouseCapture,
            TerminalCommand::PopKeyboardEnhancement,
            TerminalCommand::LeaveAlternateScreen,
            TerminalCommand::MoveHome,
        ]
    );
    assert_eq!(
        clear_for_presentation(),
        [TerminalCommand::ClearAll, TerminalCommand::MoveHome]
    );
}

#[test]
fn window_title_is_wrapped() {
    assert_eq!(window_title("Doom"), "\x1b]0;Doom\x07");
}

#[test]
fn numbers_are_written_in_decimal() {
    assert_eq!(decimal(0), "0");
    assert_eq!(decimal(1_234_567_890), "1234567890");
    assert_eq!(decimal(u64::MAX), "18446744073709551615");
    assert_eq!(join("a", "", "\u{e9}"), "a\u{e9}");
}
