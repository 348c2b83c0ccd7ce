//! Terminal input events, reduced to what the game reads of them.
use vstd::prelude::*;

use crate::cli::ascii_lower;

verus! {

/// The modifier keys that are reported as keys of their own.
#[derive(Debug, Clone, Copy, PartialEq, Eq, Structural)]
pub enum ModifierKeyCode {
    LeftShift,
    LeftControl,
    LeftAlt,
    RightShift,
    RightControl,
    RightAlt,
}

/// Which key an event is about. `Other` stands for every key that no binding uses.
#[derive(Debug, Clone, Copy, PartialEq, Eq, Structural)]
pub enum KeyCode {
    Up,
    Down,
    Right,
    Left,
    Home,
    End,
    Insert,
    Delete,
    PageUp,
    PageDown,
    Tab,
    Enter,
    Backspace,
    Esc,
    F(u8),
    Char(char),
    Modifier(ModifierKeyCode),
    Other,
}

/// The phase of a key stroke.
#[derive(Debug, Clone, Copy, PartialEq, Eq, Structural)]
pub enum KeyEventKind {
    Press,
    Repeat,
    Release,
}

/// The modifier keys held during an event.
#[derive(Debug, Clone, Copy, PartialEq, Eq, Structural)]
pub struct KeyModifiers {
    pub shift: bool,
    pub alt: bool,
    pub control: bool,
}

impl KeyModifiers {
    /// No modifier key held.
    pub open spec fn spec_none() -> KeyModifiers {
        KeyModifiers { shift: false, alt: false, control: false }
    }

    /// No modifier key held.
    pub fn none() -> (modifiers: KeyModifiers)
        ensures
            modifiers == KeyModifiers::spec_none(),
    {
        KeyModifiers { shift: false, alt: false, control: false }
    }
}

/// One phase of one key stroke.
#[derive(Debug, Clone, Copy, PartialEq, Eq, Structural)]
pub struct KeyEvent {
    pub code: KeyCode,
    pub modifiers: KeyModifiers,
    pub kind: KeyEventKind,
}

/// A mouse button.
#[derive(Debug, Clone, Copy, PartialEq, Eq, Structural)]
pub enum MouseButton {
    Left,
    Right,
    Middle,
}

/// What the mouse did.
#[derive(Debug, Clone, Copy, PartialEq, Eq, Structural)]
pub enum MouseEventKind {
    Down(MouseButton),
    Up(MouseButton),
    Drag(MouseButton),
    Moved,
    ScrollDown,
    ScrollUp,
    ScrollLeft,
    ScrollRight,
}

/// A mouse report. In pixel mode `column` and `row` count pixels from the top left corner.
#[derive(Debug, Clone, Copy, PartialEq, Eq, Structural)]
pub struct MouseEvent {
    pub kind: MouseEventKind,
    pub column: u16,
    pub row: u16,
    pub modifiers: KeyModifiers,
}

/// What the terminal reported.
#[derive(Debug, Clone, Copy, PartialEq, Eq, Structural)]
pub enum Event {
    Key(KeyEvent),
    Mouse(MouseEvent),
    Resize,
    Other,
}

impl KeyEvent {
    /// A key press with the given modifiers.
    pub fn new(code: KeyCode, modifiers: KeyModifiers) -> (event: KeyEvent)
        ensures
            event == (KeyEvent { code, modifiers, kind: KeyEventKind::Press }),
    {
        KeyEvent { code, modifiers, kind: KeyEventKind::Press }
    }

    /// A key event of the given kind.
    pub fn new_with_kind(code: KeyCode, modifiers: KeyModifiers, kind: KeyEventKind) -> (event:
        KeyEvent)
        ensures
            event == (KeyEvent { code, modifiers, kind }),
    {
        KeyEvent { code, modifiers, kind }
    }
}

/// The game's code for moving forward.
pub const KEY_UP_ARROW: u8 = 0xad;

/// The game's code for moving back.
pub const KEY_DOWN_ARROW: u8 = 0xaf;

/// The game's code for turning left.
pub const KEY_LEFT_ARROW: u8 = 0xac;

/// The game's code for turning right.
pub const KEY_RIGHT_ARROW: u8 = 0xae;

/// The game's code for a step to the left.
pub const KEY_STRAFE_LEFT: u8 = 0xa0;

/// The game's code for a step to the right.
pub const KEY_STRAFE_RIGHT: u8 = 0xa1;

/// The game's code for opening doors and using switches.
pub const KEY_USE: u8 = 0xa2;

/// The game's code for firing.
pub const KEY_FIRE: u8 = 0xa3;

/// The game's code for the shift key.
pub const KEY_SHIFT: u8 = 0xb6;

/// The game's code for the alt key.
pub const KEY_ALT: u8 = 0xb8;

/// The game's code for the first function key. Nine more follow it.
pub const KEY_F1: u8 = 0xbb;

/// The game's code for the eleventh function key. The twelfth follows it.
pub const KEY_F11: u8 = 0xd7;

/// The game's code of a character key: the controls that have letters, and for every other
/// printed character the character itself, letters as small ones.
pub open spec fn character_key(c: char) -> Option<u8> {
    let small = ascii_lower(c);
    if small == 'w' {
        Some(KEY_UP_ARROW)
    } else if small == 'k' {
        Some(KEY_DOWN_ARROW)
    } else if small == 'j' {
        Some(KEY_LEFT_ARROW)
    } else if small == 'l' {
        Some(KEY_RIGHT_ARROW)
    } else if small == 'a' {
        Some(KEY_STRAFE_LEFT)
    } else if small == 'd' {
        Some(KEY_STRAFE_RIGHT)
    } else if small == 'f' || small == 'i' {
        Some(KEY_FIRE)
    } else if c == ' ' {
        Some(KEY_USE)
    } else if '!' <= c && c <= '~' {
        Some(small as u8)
    } else {
        None
    }
}

/// The game's code of a key, if it has one.
pub open spec fn spec_doom_key(code: KeyCode) -> Option<u8> {
    match code {
        KeyCode::Up => Some(KEY_UP_ARROW),
        KeyCode::Down => Some(KEY_DOWN_ARROW),
        KeyCode::Left => Some(KEY_LEFT_ARROW),
        KeyCode::Right => Some(KEY_RIGHT_ARROW),
        KeyCode::Modifier(ModifierKeyCode::LeftControl)
        | KeyCode::Modifier(ModifierKeyCode::RightControl) => Some(KEY_FIRE),
        KeyCode::Modifier(ModifierKeyCode::LeftShift)
        | KeyCode::Modifier(ModifierKeyCode::RightShift) => Some(KEY_SHIFT),
        KeyCode::Modifier(ModifierKeyCode::LeftAlt)
        | KeyCode::Modifier(ModifierKeyCode::RightAlt) => Some(KEY_ALT),
        KeyCode::Esc => Some(27),
        KeyCode::Enter => Some(13),
        KeyCode::Tab => Some(9),
        KeyCode::Backspace => Some(127),
        KeyCode::F(number) => if 1 <= number <= 10 {
            Some((KEY_F1 + number - 1) as u8)
        } else if 11 <= number <= 12 {
            Some((KEY_F11 + number - 11) as u8)
        } else {
            None
        },
        KeyCode::Char(c) => character_key(c),
        _ => None,
    }
}

/// The game's code of a character key.
fn character_code(c: char) -> (key: Option<u8>)
    ensures
        key == character_key(c),
{
    match c {
        'w' | 'W' => Some(KEY_UP_ARROW),
        'k' | 'K' => Some(KEY_DOWN_ARROW),
        'j' | 'J' => Some(KEY_LEFT_ARROW),
        'l' | 'L' => Some(KEY_RIGHT_ARROW),
        'a' | 'A' => Some(KEY_STRAFE_LEFT),
        'd' | 'D' => Some(KEY_STRAFE_RIGHT),
        'f' | 'F' | 'i' | 'I' => Some(KEY_FIRE),
        ' ' => Some(KEY_USE),
        _ => {
            let value: u32 = c as u32;
            if 0x41 <= value && value <= 0x5a {
                Some((value + 0x20) as u8)
            } else if 0x21 <= value && value <= 0x7e {
                Some(value as u8)
            } else {
                None
            }
        },
    }
}

/// The game's code of a key, if it has one.
pub fn doom_key_for(code: KeyCode) -> (key: Option<u8>)
    ensures
        key == spec_doom_key(code),
{
    match code {
        KeyCode::Up => Some(KEY_UP_ARROW),
        KeyCode::Down => Some(KEY_DOWN_ARROW),
        KeyCode::Left => Some(KEY_LEFT_ARROW),
        KeyCode::Right => Some(KEY_RIGHT_ARROW),
        KeyCode::Modifier(modifier) => match modifier {
            ModifierKeyCode::LeftControl | ModifierKeyCode::RightControl => Some(KEY_FIRE),
            ModifierKeyCode::LeftShift | ModifierKeyCode::RightShift => Some(KEY_SHIFT),
            ModifierKeyCode::LeftAlt | ModifierKeyCode::RightAlt => Some(KEY_ALT),
        },
        KeyCode::Esc => Some(27),
        KeyCode::Enter => Some(13),
        KeyCode::Tab => Some(9),
        KeyCode::Backspace => Some(127),
        KeyCode::F(number) => if 1 <= number && number <= 10 {
            Some(KEY_F1 + (number - 1))
        } else if number == 11 || number == 12 {
            Some(KEY_F11 + (number - 11))
        } else {
            None
        },
        KeyCode::Char(c) => character_code(c),
        _ => None,
    }
}

/// The controls: the arrows or W, J, K and L move and turn, A and D strafe, F, I and Control fire,
/// and Space uses; letters count in either case.
pub proof fn law_controls_are_bound()
    ensures
        spec_doom_key(KeyCode::Char('w')) == spec_doom_key(KeyCode::Up),
        spec_doom_key(KeyCode::Char('j')) == spec_doom_key(KeyCode::Left),
        spec_doom_key(KeyCode::Char('k')) == spec_doom_key(KeyCode::Down),
        spec_doom_key(KeyCode::Char('l')) == spec_doom_key(KeyCode::Right),
        spec_doom_key(KeyCode::Char('a')) == Some(KEY_STRAFE_LEFT),
        spec_doom_key(KeyCode::Char('d')) == Some(KEY_STRAFE_RIGHT),
        spec_doom_key(KeyCode::Char('f')) == Some(KEY_FIRE),
        spec_doom_key(KeyCode::Char('i')) == Some(KEY_FIRE),
        spec_doom_key(KeyCode::Modifier(ModifierKeyCode::LeftControl)) == Some(KEY_FIRE),
        spec_doom_key(KeyCode::Modifier(ModifierKeyCode::RightControl)) == Some(KEY_FIRE),
        spec_doom_key(KeyCode::Char(' ')) == Some(KEY_USE),
        forall|c: char| #[trigger]
            spec_doom_key(KeyCode::Char(ascii_lower(c))) == spec_doom_key(KeyCode::Char(c)),
{
}

/// Every key that the game knows reaches it under one code: the arrows, the modifiers and the
/// editing keys under their own, the function keys in a row that breaks after the tenth, and a
/// printed character that controls nothing under its own code, letters as small ones. Every other
/// key has none.
pub proof fn law_keys_have_their_codes(number: u8, c: char)
    ensures
        spec_doom_key(KeyCode::Up) == Some(0xadu8),
        spec_doom_key(KeyCode::Down) == Some(0xafu8),
        spec_doom_key(KeyCode::Left) == Some(0xacu8),
        spec_doom_key(KeyCode::Right) == Some(0xaeu8),
        spec_doom_key(KeyCode::Modifier(ModifierKeyCode::LeftShift)) == Some(0xb6u8),
        spec_doom_key(KeyCode::Modifier(ModifierKeyCode::RightShift)) == Some(0xb6u8),
        spec_doom_key(KeyCode::Modifier(ModifierKeyCode::LeftAlt)) == Some(0xb8u8),
        spec_doom_key(KeyCode::Modifier(ModifierKeyCode::RightAlt)) == Some(0xb8u8),
        spec_doom_key(KeyCode::Modifier(ModifierKeyCode::LeftControl)) == Some(0xa3u8),
        spec_doom_key(KeyCode::Modifier(ModifierKeyCode::RightControl)) == Some(0xa3u8),
        spec_doom_key(KeyCode::Esc) == Some(27u8),
        spec_doom_key(KeyCode::Enter) == Some(13u8),
        spec_doom_key(KeyCode::Tab) == Some(9u8),
        spec_doom_key(KeyCode::Backspace) == Some(127u8),
        1 <= number <= 10 ==> spec_doom_key(KeyCode::F(number)) == Some((0xba + number) as u8),
        11 <= number <= 12 ==> spec_doom_key(KeyCode::F(number)) == Some((0xcc + number) as u8),
        number == 0 || number > 12 ==> spec_doom_key(KeyCode::F(number)) is None,
        ({
            let key = spec_doom_key(KeyCode::Char(c));
            let control = c == 'w' || c == 'W' || c == 'j' || c == 'J' || c == 'k' || c == 'K' || c
                == 'l' || c == 'L' || c == 'a' || c == 'A' || c == 'd' || c == 'D' || c == 'f' || c
                == 'F' || c == 'i' || c == 'I';
            &&& c == 'w' || c == 'W' ==> key == Some(0xadu8)
            &&& c == 'k' || c == 'K' ==> key == Some(0xafu8)
            &&& c == 'j' || c == 'J' ==> key == Some(0xacu8)
            &&& c == 'l' || c == 'L' ==> key == Some(0xaeu8)
            &&& c == 'a' || c == 'A' ==> key == Some(0xa0u8)
            &&& c == 'd' || c == 'D' ==> key == Some(0xa1u8)
            &&& c == 'f' || c == 'F' || c == 'i' || c == 'I' ==> key == Some(0xa3u8)
            &&& c == ' ' ==> key == Some(0xa2u8)
            &&& 'A' <= c <= 'Z' && !control ==> key == Some((c as int + 0x20) as u8)
            &&& '!' <= c <= '~' && !('A' <= c <= 'Z') && !control ==> key == Some(c as u8)
            &&& c < ' ' || c > '~' ==> key is None
        }),
        spec_doom_key(KeyCode::Home) is None,
        spec_doom_key(KeyCode::End) is None,
        spec_doom_key(KeyCode::Insert) is None,
        spec_doom_key(KeyCode::Delete) is None,
        spec_doom_key(KeyCode::PageUp) is None,
        spec_doom_key(KeyCode::PageDown) is None,
        spec_doom_key(KeyCode::Other) is None,
{
}

} // verus!
