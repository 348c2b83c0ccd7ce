//! How the terminal is prepared for the game and restored after it.
use vstd::prelude::*;

use crate::text::{decimal, decimal_text, join};

verus! {

/// What is done to the terminal.
#[derive(Debug, Clone, Copy, PartialEq, Eq, Structural)]
pub enum TerminalCommand {
    EnterAlternateScreen,
    LeaveAlternateScreen,
    PushKeyboardEnhancement,
    PopKeyboardEnhancement,
    EnableMouseCapture,
    DisableMouseCapture,
    EnableSgrPixelMouse,
    DisableSgrPixelMouse,
    HideCursor,
    ShowCursor,
    ClearAll,
    MoveHome,
}

/// What takes a command back, if it changes the terminal beyond what it shows.
pub open spec fn undone_by(command: TerminalCommand) -> Option<TerminalCommand> {
    match command {
        TerminalCommand::EnterAlternateScreen => Some(TerminalCommand::LeaveAlternateScreen),
        TerminalCommand::PushKeyboardEnhancement => Some(TerminalCommand::PopKeyboardEnhancement),
        TerminalCommand::EnableMouseCapture => Some(TerminalCommand::DisableMouseCapture),
        TerminalCommand::EnableSgrPixelMouse => Some(TerminalCommand::DisableSgrPixelMouse),
        TerminalCommand::HideCursor => Some(TerminalCommand::ShowCursor),
        _ => None,
    }
}

/// What takes a sequence of commands back, the last first.
pub open spec fn undoing(commands: Seq<TerminalCommand>) -> Seq<TerminalCommand>
    decreases commands.len(),
{
    if commands.len() == 0 {
        Seq::empty()
    } else {
        match undone_by(commands.last()) {
            Some(command) => seq![command] + undoing(commands.drop_last()),
            None => undoing(commands.drop_last()),
        }
    }
}

/// The commands that prepare the terminal.
pub open spec fn enter_commands() -> Seq<TerminalCommand> {
    seq![
        TerminalCommand::EnterAlternateScreen,
        TerminalCommand::PushKeyboardEnhancement,
        TerminalCommand::EnableMouseCapture,
        TerminalCommand::EnableSgrPixelMouse,
        TerminalCommand::HideCursor,
        TerminalCommand::ClearAll,
        TerminalCommand::MoveHome,
    ]
}

/// The commands that restore the terminal.
pub open spec fn restore_commands() -> Seq<TerminalCommand> {
    seq![
        TerminalCommand::ShowCursor,
        TerminalCommand::DisableSgrPixelMouse,
        TerminalCommand::DisableMouseCapture,
        TerminalCommand::PopKeyboardEnhancement,
        TerminalCommand::LeaveAlternateScreen,
        TerminalCommand::MoveHome,
    ]
}

/// A terminal that was prepared for the game and is restored after it.
#[derive(Debug, Clone, Copy, PartialEq, Eq, Structural)]
pub struct TerminalSession;

impl TerminalSession {
    /// The commands that prepare the terminal, after it was put into raw mode.
    pub fn enter() -> (commands: Vec<TerminalCommand>)
        ensures
            commands@ == enter_commands(),
    {
        vec![
            TerminalCommand::EnterAlternateScreen,
            TerminalCommand::PushKeyboardEnhancement,
            TerminalCommand::EnableMouseCapture,
            TerminalCommand::EnableSgrPixelMouse,
            TerminalCommand::HideCursor,
            TerminalCommand::ClearAll,
            TerminalCommand::MoveHome,
        ]
    }
}

/// The commands that restore the terminal, before it leaves raw mode.
pub fn restore_terminal() -> (commands: Vec<TerminalCommand>)
    ensures
        commands@ == restore_commands(),
{
    vec![
        TerminalCommand::ShowCursor,
        TerminalCommand::DisableSgrPixelMouse,
        TerminalCommand::DisableMouseCapture,
        TerminalCommand::PopKeyboardEnhancement,
        TerminalCommand::LeaveAlternateScreen,
        TerminalCommand::MoveHome,
    ]
}

/// The commands that remove what the game printed before its image is shown.
pub fn clear_for_presentation() -> (commands: Vec<TerminalCommand>)
    ensures
        commands@ == seq![TerminalCommand::ClearAll, TerminalCommand::MoveHome],
{
    vec![TerminalCommand::ClearAll, TerminalCommand::MoveHome]
}

/// A terminal mode, switched on or off.
#[derive(Debug, Clone, Copy, PartialEq, Eq, Structural)]
pub struct ModeSwitch {
    pub mode: u64,
    pub on: bool,
}

/// The control sequence that switches a mode.
pub open spec fn switch_text(switch: ModeSwitch) -> Seq<char> {
    "\x1b[?"@ + decimal_text(switch.mode as nat) + (if switch.on {
        "h"@
    } else {
        "l"@
    })
}

/// The control sequences that switch modes one after the other.
pub open spec fn switches_text(switches: Seq<ModeSwitch>) -> Seq<char>
    decreases switches.len(),
{
    if switches.len() == 0 {
        Seq::empty()
    } else {
        switches_text(switches.drop_last()) + switch_text(switches.last())
    }
}

/// The modes that make a terminal report the mouse in pixels.
pub open spec fn pixel_mouse_modes() -> Seq<u64> {
    seq![1000u64, 1002u64, 1003u64, 1015u64, 1006u64, 1016u64]
}

/// The switches that turn these modes on.
pub open spec fn pixel_mouse_on() -> Seq<ModeSwitch> {
    pixel_mouse_modes().map_values(|mode: u64| ModeSwitch { mode, on: true })
}

/// The switches that turn these modes off, the last first.
pub open spec fn pixel_mouse_off() -> Seq<ModeSwitch> {
    pixel_mouse_modes().reverse().map_values(|mode: u64| ModeSwitch { mode, on: false })
}

/// The control sequences that switch modes one after the other.
fn write_switches(switches: &[ModeSwitch]) -> (text: String)
    ensures
        text@ == switches_text(switches@),
{
    let mut text = String::new();
    let mut index: usize = 0;
    while index < switches.len()
        invariant
            index <= switches@.len(),
            text@ == switches_text(switches@.take(index as int)),
        decreases switches@.len() - index,
    {
        let switch = switches[index];
        let last = if switch.on {
            "h"
        } else {
            "l"
        };
        text.append(join("\x1b[?", decimal(switch.mode).as_str(), last).as_str());
        assert(switches@.take(index + 1).drop_last() =~= switches@.take(index as int));
        index = index + 1;
    }
    assert(switches@.take(index as int) =~= switches@);
    text
}

/// The control sequences that make a terminal report the mouse in pixels.
pub fn enable_pixel_mouse() -> (text: String)
    ensures
        text@ == switches_text(pixel_mouse_on()),
{
    let switches: Vec<ModeSwitch> = vec![
        ModeSwitch { mode: 1000, on: true },
        ModeSwitch { mode: 1002, on: true },
        ModeSwitch { mode: 1003, on: true },
        ModeSwitch { mode: 1015, on: true },
        ModeSwitch { mode: 1006, on: true },
        ModeSwitch { mode: 1016, on: true },
    ];
    assert(switches@ =~= pixel_mouse_on());
    write_switches(switches.as_slice())
}

/// The control sequences that make a terminal stop reporting the mouse in pixels.
pub fn disable_pixel_mouse() -> (text: String)
    ensures
        text@ == switches_text(pixel_mouse_off()),
{
    let switches: Vec<ModeSwitch> = vec![
        ModeSwitch { mode: 1016, on: false },
        ModeSwitch { mode: 1006, on: false },
        ModeSwitch { mode: 1015, on: false },
        ModeSwitch { mode: 1003, on: false },
        ModeSwitch { mode: 1002, on: false },
        ModeSwitch { mode: 1000, on: false },
    ];
    assert(switches@ =~= pixel_mouse_off());
    write_switches(switches.as_slice())
}

/// `crossterm::event::KeyboardEnhancementFlags::DISAMBIGUATE_ESCAPE_CODES`: the flag with the
/// value 1, for unambiguous reports of Escape and of modified keys.
#[verifier::external_body]
fn disambiguate_escape_codes() -> (bits: u8)
    ensures
        bits == 1,
{
    crossterm::event::KeyboardEnhancementFlags::DISAMBIGUATE_ESCAPE_CODES.bits()
}

/// `crossterm::event::KeyboardEnhancementFlags::REPORT_EVENT_TYPES`: the flag with the value 2,
/// for reports of repeats and releases.
#[verifier::external_body]
fn report_event_types() -> (bits: u8)
    ensures
        bits == 2,
{
    crossterm::event::KeyboardEnhancementFlags::REPORT_EVENT_TYPES.bits()
}

/// `crossterm::event::KeyboardEnhancementFlags::REPORT_ALL_KEYS_AS_ESCAPE_CODES`: the flag with
/// the value 8, for reports of keys that would otherwise arrive as text.
#[verifier::external_body]
fn report_all_keys() -> (bits: u8)
    ensures
        bits == 8,
{
    crossterm::event::KeyboardEnhancementFlags::REPORT_ALL_KEYS_AS_ESCAPE_CODES.bits()
}

/// The flags of the keyboard reports that the game needs.
pub fn keyboard_flags() -> (bits: u8)
    ensures
        bits == 11,
{
    assert(1u8 | 2u8 | 8u8 == 11u8) by (bit_vector);
    disambiguate_escape_codes() | report_event_types() | report_all_keys()
}

/// The control sequence that asks for keyboard reports with these flags. It is the same for every
/// terminal: a Windows console, too, delivers releases only where they were asked for.
pub fn push_keyboard_enhancement(flags: u8) -> (text: String)
    ensures
        text@ == "\x1b[>"@ + decimal_text(flags as nat) + "u"@,
{
    join("\x1b[>", decimal(flags as u64).as_str(), "u")
}

/// The control sequence that takes the last such request back.
pub fn pop_keyboard_enhancement() -> (text: String)
    ensures
        text@ == "\x1b[<1u"@,
{
    "\x1b[<1u".to_owned()
}

/// The control sequence that sets the title of the window.
pub fn window_title(title: &str) -> (text: String)
    ensures
        text@ == "\x1b]0;"@ + title@ + "\x07"@,
{
    join("\x1b]0;", title, "\x07")
}

/// Everything that is done to prepare the terminal is taken back in the opposite order when it is
/// restored; after that, only the cursor is moved.
pub proof fn law_terminal_is_restored()
    ensures
        restore_commands() == undoing(enter_commands()).push(TerminalCommand::MoveHome),
{
    reveal_with_fuel(undoing, 8);
    let commands = enter_commands();
    assert(commands.drop_last() =~= commands.take(6));
    assert(commands.take(6).drop_last() =~= commands.take(5));
    assert(commands.take(5).drop_last() =~= commands.take(4));
    assert(commands.take(4).drop_last() =~= commands.take(3));
    assert(commands.take(3).drop_last() =~= commands.take(2));
    assert(commands.take(2).drop_last() =~= commands.take(1));
    assert(commands.take(1).drop_last() =~= commands.take(0));
    assert(undoing(commands.take(0)) =~= Seq::empty());
    assert(undoing(commands.take(1)) =~= seq![TerminalCommand::LeaveAlternateScreen]);
    assert(restore_commands() =~= undoing(commands).push(TerminalCommand::MoveHome));
}

/// The modes that are on after a sequence of switches.
pub open spec fn modes_after(modes: Set<u64>, switches: Seq<ModeSwitch>) -> Set<u64>
    decreases switches.len(),
{
    if switches.len() == 0 {
        modes
    } else {
        let before = modes_after(modes, switches.drop_last());
        if switches.last().on {
            before.insert(switches.last().mode)
        } else {
            before.remove(switches.last().mode)
        }
    }
}

/// Whether a mode is on after switches that each turn a mode on, or that each turn one off.
proof fn lemma_modes_after(modes: Set<u64>, switches: Seq<ModeSwitch>, on: bool, mode: u64)
    requires
        forall|i: int| 0 <= i < switches.len() ==> (#[trigger] switches[i]).on == on,
    ensures
        modes_after(modes, switches).contains(mode) == (if exists|i: int|
            0 <= i < switches.len() && (#[trigger] switches[i]).mode == mode {
            on
        } else {
            modes.contains(mode)
        }),
    decreases switches.len(),
{
    if switches.len() > 0 {
        lemma_modes_after(modes, switches.drop_last(), on, mode);
        let shorter = switches.drop_last();
        assert(forall|i: int| 0 <= i < shorter.len() ==> shorter[i] == switches[i]);
        if switches.last().mode == mode {
            assert(switches[switches.len() - 1].mode == mode);
        } else if exists|i: int| 0 <= i < switches.len() && (#[trigger] switches[i]).mode == mode {
            let i = choose|i: int|
                0 <= i < switches.len() && (#[trigger] switches[i]).mode == mode;
            assert(shorter[i].mode == mode);
        }
    }
}

/// A terminal whose mouse modes were off is as before once they have been turned on and off again,
/// and while they are on it has all of them and otherwise what it had.
pub proof fn law_mouse_modes_are_restored(modes: Set<u64>)
    requires
        forall|i: int|
            0 <= i < pixel_mouse_modes().len() ==> !modes.contains(
                #[trigger] pixel_mouse_modes()[i],
            ),
    ensures
        forall|mode: u64| #[trigger]
            modes_after(modes, pixel_mouse_on()).contains(mode) == (modes.contains(mode)
                || pixel_mouse_modes().contains(mode)),
        modes_after(modes_after(modes, pixel_mouse_on()), pixel_mouse_off()) =~= modes,
{
    let listed = pixel_mouse_modes();
    let on = pixel_mouse_on();
    let off = pixel_mouse_off();
    let during = modes_after(modes, on);
    assert forall|mode: u64|
        (exists|i: int| 0 <= i < on.len() && (#[trigger] on[i]).mode == mode) == listed.contains(
            mode,
        ) by {
        if listed.contains(mode) {
            let i = listed.index_of(mode);
            assert(on[i].mode == mode);
        }
        if exists|i: int| 0 <= i < on.len() && (#[trigger] on[i]).mode == mode {
            let i = choose|i: int| 0 <= i < on.len() && (#[trigger] on[i]).mode == mode;
            assert(listed[i] == mode);
        }
    }
    assert forall|mode: u64|
        (exists|i: int| 0 <= i < off.len() && (#[trigger] off[i]).mode == mode) == listed.contains(
            mode,
        ) by {
        if listed.contains(mode) {
            let i = listed.index_of(mode);
            assert(off[listed.len() - 1 - i].mode == mode);
        }
        if exists|i: int| 0 <= i < off.len() && (#[trigger] off[i]).mode == mode {
            let i = choose|i: int| 0 <= i < off.len() && (#[trigger] off[i]).mode == mode;
            assert(listed[listed.len() - 1 - i] == mode);
        }
    }
    assert forall|mode: u64| #[trigger]
        during.contains(mode) == (modes.contains(mode) || listed.contains(mode)) by {
        lemma_modes_after(modes, on, true, mode);
    }
    assert forall|mode: u64| #[trigger]
        modes_after(during, off).contains(mode) == modes.contains(mode) by {
        lemma_modes_after(during, off, false, mode);
        assert(during.contains(mode) == (modes.contains(mode) || listed.contains(mode)));
        if listed.contains(mode) {
            assert(!modes.contains(listed[listed.index_of(mode)]));
        }
    }
}

} // verus!
