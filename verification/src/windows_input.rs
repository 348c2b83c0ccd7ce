//! The VT input stream that a pseudo console delivers in place of key transitions.
//!
//! The stream carries enhanced key reports, which tell presses from releases, and pixel mouse
//! reports. Only the bounded ASCII control sequences that the game asks for are decoded. Game
//! bindings are ASCII; other text is ignored, never interpreted as control bytes.
use vstd::prelude::*;
use vstd::slice::slice_subrange;

use crate::error::ErrorKind;
use crate::fields::{parse_number, split_fields};
use crate::input::{
    Event, KeyCode, KeyEvent, KeyEventKind, KeyModifiers, ModifierKeyCode, MouseButton, MouseEvent,
    MouseEventKind,
};

verus! {

/// The longest control sequence body that is kept.
pub const SEQUENCE_LIMIT: usize = 96;

/// Separates the fields of a report.
pub const SEMICOLON: u8 = 0x3b;

/// Separates the parts of a field.
pub const COLON: u8 = 0x3a;

/// Marks a mouse report.
pub const LESS_THAN: u8 = 0x3c;

/// Ends the report of a press or a motion.
pub const MOUSE_DOWN: u8 = 0x4d;

/// Ends the report of a release.
pub const MOUSE_UP: u8 = 0x6d;

/// The key that a unit outside any control sequence stands for.
pub open spec fn plain_key(unit: u16) -> Option<KeyCode> {
    if unit == 3 {
        Some(KeyCode::Char('\u{3}'))
    } else if unit == 9 {
        Some(KeyCode::Tab)
    } else if unit == 13 {
        Some(KeyCode::Enter)
    } else if unit == 127 {
        Some(KeyCode::Backspace)
    } else if 32 <= unit <= 126 {
        Some(KeyCode::Char(unit as char))
    } else {
        None
    }
}

/// The key of a report that ends in `~`.
pub open spec fn tilde_key(number: int) -> Option<KeyCode> {
    if number == 2 {
        Some(KeyCode::Insert)
    } else if number == 3 {
        Some(KeyCode::Delete)
    } else if number == 5 {
        Some(KeyCode::PageUp)
    } else if number == 6 {
        Some(KeyCode::PageDown)
    } else if 11 <= number <= 15 {
        Some(KeyCode::F((number - 10) as u8))
    } else if 17 <= number <= 21 {
        Some(KeyCode::F((number - 11) as u8))
    } else if 23 <= number <= 24 {
        Some(KeyCode::F((number - 12) as u8))
    } else {
        None
    }
}

/// The key of a report that ends in `u`.
pub open spec fn unicode_key(number: int) -> Option<KeyCode> {
    if number == 9 {
        Some(KeyCode::Tab)
    } else if number == 13 {
        Some(KeyCode::Enter)
    } else if number == 27 {
        Some(KeyCode::Esc)
    } else if number == 127 {
        Some(KeyCode::Backspace)
    } else if number == 57417 {
        Some(KeyCode::Left)
    } else if number == 57418 {
        Some(KeyCode::Right)
    } else if number == 57419 {
        Some(KeyCode::Up)
    } else if number == 57420 {
        Some(KeyCode::Down)
    } else if number == 57441 {
        Some(KeyCode::Modifier(ModifierKeyCode::LeftShift))
    } else if number == 57442 {
        Some(KeyCode::Modifier(ModifierKeyCode::LeftControl))
    } else if number == 57443 {
        Some(KeyCode::Modifier(ModifierKeyCode::LeftAlt))
    } else if number == 57447 {
        Some(KeyCode::Modifier(ModifierKeyCode::RightShift))
    } else if number == 57448 {
        Some(KeyCode::Modifier(ModifierKeyCode::RightControl))
    } else if number == 57449 {
        Some(KeyCode::Modifier(ModifierKeyCode::RightAlt))
    } else if 32 <= number <= 126 {
        Some(KeyCode::Char(number as char))
    } else {
        None
    }
}

/// The key of a report with the given leading number and final byte.
pub open spec fn report_key(number: int, final_byte: u8) -> Option<KeyCode> {
    if final_byte == 0x41 {  // A
        Some(KeyCode::Up)
    } else if final_byte == 0x42 {  // B
        Some(KeyCode::Down)
    } else if final_byte == 0x43 {  // C
        Some(KeyCode::Right)
    } else if final_byte == 0x44 {  // D
        Some(KeyCode::Left)
    } else if final_byte == 0x48 {  // H
        Some(KeyCode::Home)
    } else if final_byte == 0x46 {  // F
        Some(KeyCode::End)
    } else if 0x50 <= final_byte <= 0x53 {  // P to S
        Some(KeyCode::F((final_byte - 0x50 + 1) as u8))
    } else if final_byte == 0x7e {  // ~
        tilde_key(number)
    } else if final_byte == 0x75 {  // u
        unicode_key(number)
    } else {
        None
    }
}

/// The phase that the second part of a modifier field names.
pub open spec fn report_kind(text: Seq<u8>) -> Option<KeyEventKind> {
    if text == seq![0x31u8] {  // 1
        Some(KeyEventKind::Press)
    } else if text == seq![0x32u8] {  // 2
        Some(KeyEventKind::Repeat)
    } else if text == seq![0x33u8] {  // 3
        Some(KeyEventKind::Release)
    } else {
        None
    }
}

/// The number that a key report leads with: one where it is left out.
pub open spec fn report_number(text: Seq<u8>) -> Option<int> {
    if text.len() == 0 {
        Some(1)
    } else {
        crate::fields::number(text, u32::MAX as int)
    }
}

/// Piece `index` of `pieces`, or the digit one where there are fewer pieces.
pub open spec fn piece_or_one(pieces: Seq<Seq<u8>>, index: int) -> Seq<u8> {
    if index < pieces.len() {
        pieces[index]
    } else {
        seq![0x31u8]  // 1
    }
}

/// The modifiers that a key report's modifier bits stand for.
pub open spec fn report_modifiers(bits: u8) -> KeyModifiers {
    KeyModifiers { shift: bits & 1 != 0, alt: bits & 2 != 0, control: bits & 4 != 0 }
}

/// The event of a key report: `number[:..][;modifiers[:kind]][;..]`, then the final byte. The
/// modifier number is one more than the modifier bits.
pub open spec fn key_report(body: Seq<u8>, final_byte: u8) -> Option<KeyEvent> {
    let parts = crate::fields::split(body, SEMICOLON);
    let modifier_parts = crate::fields::split(piece_or_one(parts, 1), COLON);
    let number = report_number(crate::fields::split(parts[0], COLON)[0]);
    let modifiers = crate::fields::number(modifier_parts[0], u8::MAX as int);
    let kind = report_kind(piece_or_one(modifier_parts, 1));
    match (number, modifiers, kind) {
        (Some(number), Some(modifiers), Some(kind)) => match report_key(number, final_byte) {
            Some(code) if modifiers >= 1 => Some(
                KeyEvent { code, modifiers: report_modifiers((modifiers - 1) as u8), kind },
            ),
            _ => None,
        },
        _ => None,
    }
}

/// The button that a mouse report's lowest two bits stand for.
pub open spec fn report_button(bits: u8) -> Option<MouseButton> {
    if bits & 3 == 0 {
        Some(MouseButton::Left)
    } else if bits & 3 == 1 {
        Some(MouseButton::Middle)
    } else if bits & 3 == 2 {
        Some(MouseButton::Right)
    } else {
        None
    }
}

/// What a mouse report says that the mouse did.
pub open spec fn report_action(bits: u8, final_byte: u8) -> Option<MouseEventKind> {
    if bits & 64 != 0 {
        Some(
            if bits & 3 == 0 {
                MouseEventKind::ScrollUp
            } else if bits & 3 == 1 {
                MouseEventKind::ScrollDown
            } else if bits & 3 == 2 {
                MouseEventKind::ScrollLeft
            } else {
                MouseEventKind::ScrollRight
            },
        )
    } else if final_byte == MOUSE_UP {
        match report_button(bits) {
            Some(button) => Some(MouseEventKind::Up(button)),
            None => None,
        }
    } else if bits & 32 != 0 {
        match report_button(bits) {
            Some(button) => Some(MouseEventKind::Drag(button)),
            None => Some(MouseEventKind::Moved),
        }
    } else {
        match report_button(bits) {
            Some(button) => Some(MouseEventKind::Down(button)),
            None => None,
        }
    }
}

/// The event of a mouse report: `bits;column;row`, then `M` or `m`. Columns and rows count
/// from one on the wire and from zero in the event.
pub open spec fn mouse_report(body: Seq<u8>, final_byte: u8) -> Option<MouseEvent> {
    let parts = crate::fields::split(body, SEMICOLON);
    if (final_byte == MOUSE_DOWN || final_byte == MOUSE_UP) && parts.len() == 3 {
        match (
            crate::fields::number(parts[0], u8::MAX as int),
            crate::fields::number(parts[1], u16::MAX as int),
            crate::fields::number(parts[2], u16::MAX as int),
        ) {
            (Some(bits), Some(column), Some(row)) if column >= 1 && row >= 1 => {
                match report_action(bits as u8, final_byte) {
                    Some(kind) => Some(
                        MouseEvent {
                            kind,
                            column: (column - 1) as u16,
                            row: (row - 1) as u16,
                            modifiers: KeyModifiers {
                                shift: bits as u8 & 4 != 0,
                                alt: bits as u8 & 8 != 0,
                                control: bits as u8 & 16 != 0,
                            },
                        },
                    ),
                    None => None,
                }
            },
            _ => None,
        }
    } else {
        None
    }
}

/// The event of a complete control sequence.
pub open spec fn report(body: Seq<u8>, final_byte: u8) -> Option<Event> {
    if body.len() > 0 && body[0] == LESS_THAN {
        match mouse_report(body.skip(1), final_byte) {
            Some(event) => Some(Event::Mouse(event)),
            None => None,
        }
    } else {
        match key_report(body, final_byte) {
            Some(event) => Some(Event::Key(event)),
            None => None,
        }
    }
}

/// What a parser remembers between units.
pub struct ParserState {
    pub sequence: Seq<u8>,
    pub escaped: bool,
    pub csi: bool,
    pub overflow: bool,
}

/// What follows `state` on `unit`, and the event that it completes, if any.
pub open spec fn step(state: ParserState, unit: u16) -> (ParserState, Option<Event>) {
    if unit == 27 {
        (
            ParserState { sequence: Seq::empty(), escaped: true, csi: false, overflow: false },
            None,
        )
    } else if state.escaped && !state.csi {
        let introduced = unit == 0x5b || unit == 0x4f;
        (ParserState { escaped: introduced, csi: introduced, ..state }, None)
    } else if !state.csi {
        (
            state,
            match plain_key(unit) {
                Some(code) => Some(
                    Event::Key(
                        KeyEvent {
                            code,
                            modifiers: KeyModifiers::spec_none(),
                            kind: KeyEventKind::Press,
                        },
                    ),
                ),
                None => None,
            },
        )
    } else if 0x40 <= unit <= 0x7e {
        (
            ParserState { sequence: Seq::empty(), escaped: false, csi: false, ..state },
            if state.overflow {
                None
            } else {
                report(state.sequence, unit as u8)
            },
        )
    } else {
        let overflow = state.overflow || state.sequence.len() == SEQUENCE_LIMIT || !(0x20 <= unit
            <= 0x3f);
        (
            ParserState {
                overflow,
                sequence: if overflow {
                    state.sequence
                } else {
                    state.sequence.push(unit as u8)
                },
                ..state
            },
            None,
        )
    }
}

/// The state after `units`, and the events that they complete, in order.
pub open spec fn run(state: ParserState, units: Seq<u16>) -> (ParserState, Seq<Event>)
    decreases units.len(),
{
    if units.len() == 0 {
        (state, Seq::empty())
    } else {
        let (before, events) = run(state, units.drop_last());
        let (after, event) = step(before, units.last());
        (
            after,
            match event {
                Some(event) => events.push(event),
                None => events,
            },
        )
    }
}

/// The state outside any control sequence, where the next unit is a key by itself.
pub open spec fn idle(overflow: bool) -> ParserState {
    ParserState { sequence: Seq::empty(), escaped: false, csi: false, overflow }
}

/// A decoder for the input stream.
pub struct Parser {
    pub sequence: Vec<u8>,
    pub escaped: bool,
    pub csi: bool,
    pub overflow: bool,
}

impl View for Parser {
    type V = ParserState;

    open spec fn view(&self) -> ParserState {
        ParserState {
            sequence: self.sequence@,
            escaped: self.escaped,
            csi: self.csi,
            overflow: self.overflow,
        }
    }
}

impl Default for Parser {
    fn default() -> (parser: Parser)
        ensures
            parser@ == idle(false),
    {
        Parser { sequence: Vec::new(), escaped: false, csi: false, overflow: false }
    }
}

impl Parser {
    /// Decodes one unit of the stream.
    pub fn feed(&mut self, unit: u16) -> (event: Option<Event>)
        ensures
            (final(self)@, event) == step(old(self)@, unit),
            old(self)@.sequence.len() <= SEQUENCE_LIMIT ==> final(self)@.sequence.len()
                <= SEQUENCE_LIMIT,
    {
        if unit == 27 {
            self.sequence.clear();
            self.escaped = true;
            self.csi = false;
            self.overflow = false;
            return None;
        }
        if self.escaped && !self.csi {
            self.csi = unit == 0x5b || unit == 0x4f;
            self.escaped = self.csi;
            return None;
        }
        if !self.csi {
            let code = match unit {
                3 => KeyCode::Char('\u{3}'),
                9 => KeyCode::Tab,
                13 => KeyCode::Enter,
                127 => KeyCode::Backspace,
                32..=126 => KeyCode::Char((unit as u8) as char),
                _ => return None,
            };
            return Some(Event::Key(KeyEvent::new(code, KeyModifiers::none())));
        }
        if 0x40 <= unit && unit <= 0x7e {
            self.csi = false;
            self.escaped = false;
            let event = if self.overflow {
                None
            } else {
                parse_csi(self.sequence.as_slice(), unit as u8)
            };
            self.sequence.clear();
            return event;
        }
        if self.sequence.len() == SEQUENCE_LIMIT || unit < 0x20 || unit > 0x3f {
            self.overflow = true;
        }
        if !self.overflow {
            self.sequence.push(unit as u8);
        }
        None
    }

    /// Decodes a run of units.
    pub fn feed_all(&mut self, units: &[u16]) -> (events: Vec<Event>)
        ensures
            (final(self)@, events@) == run(old(self)@, units@),
            old(self)@.sequence.len() <= SEQUENCE_LIMIT ==> final(self)@.sequence.len()
                <= SEQUENCE_LIMIT,
    {
        let mut events: Vec<Event> = Vec::new();
        let mut i: usize = 0;
        assert(units@.take(0) == Seq::<u16>::empty());
        while i < units.len()
            invariant
                i <= units@.len(),
                (self@, events@) == run(old(self)@, units@.take(i as int)),
                old(self)@.sequence.len() <= SEQUENCE_LIMIT ==> self@.sequence.len()
                    <= SEQUENCE_LIMIT,
            decreases units@.len() - i,
        {
            assert(units@.take(i + 1).drop_last() == units@.take(i as int));
            if let Some(event) = self.feed(units[i]) {
                events.push(event);
            }
            i = i + 1;
        }
        assert(units@.take(i as int) == units@);
        events
    }
}

/// Decodes a complete control sequence.
pub fn parse_csi(body: &[u8], final_byte: u8) -> (event: Option<Event>)
    ensures
        event == report(body@, final_byte),
{
    if body.len() > 0 && body[0] == LESS_THAN {
        let mouse = slice_subrange(body, 1, body.len());
        assert(mouse@ == body@.skip(1));
        return match parse_mouse(mouse, final_byte) {
            Some(event) => Some(Event::Mouse(event)),
            None => None,
        };
    }
    let one: Vec<u8> = vec![0x31];  // 1
    assert(one@ == seq![0x31u8]);
    let parts = split_fields(body, SEMICOLON);
    let number_parts = split_fields(parts[0], COLON);
    let modifier_parts = split_fields(
        if parts.len() > 1 {
            parts[1]
        } else {
            one.as_slice()
        },
        COLON,
    );
    let kind_text: &[u8] = if modifier_parts.len() > 1 {
        modifier_parts[1]
    } else {
        one.as_slice()
    };
    let number: u32 = if number_parts[0].len() == 0 {
        1
    } else {
        match parse_number(number_parts[0], u32::MAX) {
            Some(number) => number,
            None => return None,
        }
    };
    let bits: u8 = match parse_number(modifier_parts[0], u8::MAX as u32) {
        Some(modifiers) => if modifiers == 0 {
            return None;
        } else {
            (modifiers - 1) as u8
        },
        None => return None,
    };
    let kind = match parse_kind(kind_text) {
        Some(kind) => kind,
        None => return None,
    };
    let code = match parse_key(number, final_byte) {
        Some(code) => code,
        None => return None,
    };
    let modifiers = KeyModifiers {
        shift: bits & 1 != 0,
        alt: bits & 2 != 0,
        control: bits & 4 != 0,
    };
    Some(Event::Key(KeyEvent::new_with_kind(code, modifiers, kind)))
}

/// The phase that the second part of a modifier field names.
fn parse_kind(text: &[u8]) -> (kind: Option<KeyEventKind>)
    ensures
        kind == report_kind(text@),
{
    if text.len() != 1 {
        return None;
    }
    assert(text@ == seq![text@[0]]);
    assert(seq![0x31u8][0] == 0x31 && seq![0x32u8][0] == 0x32 && seq![0x33u8][0] == 0x33);
    match text[0] {
        0x31 => Some(KeyEventKind::Press),  // 1
        0x32 => Some(KeyEventKind::Repeat),  // 2
        0x33 => Some(KeyEventKind::Release),  // 3
        _ => None,
    }
}

/// The key of a report with the given leading number and final byte.
fn parse_key(number: u32, final_byte: u8) -> (code: Option<KeyCode>)
    ensures
        code == report_key(number as int, final_byte),
{
    match final_byte {
        0x41 => Some(KeyCode::Up),  // A
        0x42 => Some(KeyCode::Down),  // B
        0x43 => Some(KeyCode::Right),  // C
        0x44 => Some(KeyCode::Left),  // D
        0x48 => Some(KeyCode::Home),  // H
        0x46 => Some(KeyCode::End),  // F
        0x50..=0x53 => Some(KeyCode::F(final_byte - 0x50 + 1)),  // P to S
        0x7e => match number {  // ~
            2 => Some(KeyCode::Insert),
            3 => Some(KeyCode::Delete),
            5 => Some(KeyCode::PageUp),
            6 => Some(KeyCode::PageDown),
            11..=15 => Some(KeyCode::F((number - 10) as u8)),
            17..=21 => Some(KeyCode::F((number - 11) as u8)),
            23..=24 => Some(KeyCode::F((number - 12) as u8)),
            _ => None,
        },
        0x75 => match number {  // u
            9 => Some(KeyCode::Tab),
            13 => Some(KeyCode::Enter),
            27 => Some(KeyCode::Esc),
            127 => Some(KeyCode::Backspace),
            57417 => Some(KeyCode::Left),
            57418 => Some(KeyCode::Right),
            57419 => Some(KeyCode::Up),
            57420 => Some(KeyCode::Down),
            57441 => Some(KeyCode::Modifier(ModifierKeyCode::LeftShift)),
            57442 => Some(KeyCode::Modifier(ModifierKeyCode::LeftControl)),
            57443 => Some(KeyCode::Modifier(ModifierKeyCode::LeftAlt)),
            57447 => Some(KeyCode::Modifier(ModifierKeyCode::RightShift)),
            57448 => Some(KeyCode::Modifier(ModifierKeyCode::RightControl)),
            57449 => Some(KeyCode::Modifier(ModifierKeyCode::RightAlt)),
            32..=126 => Some(KeyCode::Char((number as u8) as char)),
            _ => None,
        },
        _ => None,
    }
}

/// Decodes a mouse report.
pub fn parse_mouse(body: &[u8], final_byte: u8) -> (event: Option<MouseEvent>)
    ensures
        event == mouse_report(body@, final_byte),
{
    if final_byte != MOUSE_DOWN && final_byte != MOUSE_UP {
        return None;
    }
    let parts = split_fields(body, SEMICOLON);
    if parts.len() != 3 {
        return None;
    }
    let bits: u8 = match parse_number(parts[0], u8::MAX as u32) {
        Some(bits) => bits as u8,
        None => return None,
    };
    let column: u16 = match parse_number(parts[1], u16::MAX as u32) {
        Some(column) => if column == 0 {
            return None;
        } else {
            (column - 1) as u16
        },
        None => return None,
    };
    let row: u16 = match parse_number(parts[2], u16::MAX as u32) {
        Some(row) => if row == 0 {
            return None;
        } else {
            (row - 1) as u16
        },
        None => return None,
    };
    let button = match bits & 3 {
        0 => Some(MouseButton::Left),
        1 => Some(MouseButton::Middle),
        2 => Some(MouseButton::Right),
        _ => None,
    };
    let kind = if bits & 64 != 0 {
        match bits & 3 {
            0 => MouseEventKind::ScrollUp,
            1 => MouseEventKind::ScrollDown,
            2 => MouseEventKind::ScrollLeft,
            _ => MouseEventKind::ScrollRight,
        }
    } else if final_byte == MOUSE_UP {
        match button {
            Some(button) => MouseEventKind::Up(button),
            None => return None,
        }
    } else if bits & 32 != 0 {
        match button {
            Some(button) => MouseEventKind::Drag(button),
            None => MouseEventKind::Moved,
        }
    } else {
        match button {
            Some(button) => MouseEventKind::Down(button),
            None => return None,
        }
    };
    let modifiers = KeyModifiers {
        shift: bits & 4 != 0,
        alt: bits & 8 != 0,
        control: bits & 16 != 0,
    };
    Some(MouseEvent { kind, column, row, modifiers })
}

/// Whether `unit` neither starts nor ends a control sequence.
pub open spec fn is_body_unit(unit: u16) -> bool {
    unit != 27 && !(0x40 <= unit <= 0x7e)
}

/// Whether a control sequence body is short enough and made of parameter characters only.
pub open spec fn is_clean_body(body: Seq<u16>) -> bool {
    &&& body.len() <= SEQUENCE_LIMIT
    &&& forall|i: int| 0 <= i < body.len() ==> 0x20 <= #[trigger] body[i] <= 0x3f
}

/// The units of one complete control sequence.
pub open spec fn control_sequence(introducer: u16, body: Seq<u16>, final_unit: u16) -> Seq<u16> {
    seq![27u16, introducer] + body + seq![final_unit]
}

proof fn lemma_run_body(body: Seq<u16>)
    requires
        forall|i: int| 0 <= i < body.len() ==> is_body_unit(#[trigger] body[i]),
    ensures
        ({
            let start = ParserState {
                sequence: Seq::empty(),
                escaped: true,
                csi: true,
                overflow: false,
            };
            let (end, events) = run(start, body);
            &&& end.escaped && end.csi
            &&& end.overflow == !is_clean_body(body)
            &&& !end.overflow ==> end.sequence == body.map_values(|unit: u16| unit as u8)
            &&& events == Seq::<Event>::empty()
        }),
    decreases body.len(),
{
    if body.len() > 0 {
        let front = body.drop_last();
        lemma_run_body(front);
        if is_clean_body(body) {
            assert(forall|i: int| 0 <= i < front.len() ==> front[i] == body[i]);
            assert(body.map_values(|unit: u16| unit as u8) == front.map_values(
                |unit: u16| unit as u8,
            ).push(body.last() as u8));
        } else if is_clean_body(front) && body.len() <= SEQUENCE_LIMIT {
            let i = choose|i: int| 0 <= i < body.len() && !(0x20 <= #[trigger] body[i] <= 0x3f);
            assert(i < front.len() ==> front[i] == body[i]);
        }
    } else {
        assert(body.map_values(|unit: u16| unit as u8) == Seq::<u8>::empty());
    }
}

/// Decoding a stream in pieces gives the events of the whole stream, wherever it is cut.
pub proof fn law_fragments_decode_as_the_whole(
    state: ParserState,
    first: Seq<u16>,
    second: Seq<u16>,
)
    ensures
        run(state, first + second).0 == run(run(state, first).0, second).0,
        run(state, first + second).1 == run(state, first).1 + run(
            run(state, first).0,
            second,
        ).1,
    decreases second.len(),
{
    if second.len() == 0 {
        assert(first + second == first);
    } else {
        law_fragments_decode_as_the_whole(state, first, second.drop_last());
        assert((first + second).drop_last() == first + second.drop_last());
    }
}

/// From any state, a complete control sequence emits nothing before its final unit, then the
/// event of the report if its body is clean and nothing otherwise, and leaves the parser idle.
/// So no character of a sequence is ever a key, and a malformed or overlong report does not
/// disturb what follows it.
pub proof fn law_control_sequence_is_atomic(
    state: ParserState,
    introducer: u16,
    body: Seq<u16>,
    final_unit: u16,
)
    requires
        introducer == 0x5b || introducer == 0x4f,
        forall|i: int| 0 <= i < body.len() ==> is_body_unit(#[trigger] body[i]),
        0x40 <= final_unit <= 0x7e,
    ensures
        ({
            let units = control_sequence(introducer, body, final_unit);
            let event = if is_clean_body(body) {
                report(body.map_values(|unit: u16| unit as u8), final_unit as u8)
            } else {
                None
            };
            &&& forall|n: int|
                0 <= n < units.len() ==> (#[trigger] run(state, units.take(n))).1 == Seq::<
                    Event,
                >::empty()
            &&& run(state, units) == (
                idle(!is_clean_body(body)),
                match event {
                    Some(event) => seq![event],
                    None => Seq::empty(),
                },
            )
        }),
{
    let units = control_sequence(introducer, body, final_unit);
    let start = ParserState { sequence: Seq::empty(), escaped: true, csi: true, overflow: false };
    let head = seq![27u16, introducer];
    assert(head.drop_last() == seq![27u16]);
    assert(seq![27u16].drop_last() == Seq::<u16>::empty());
    assert(run(state, Seq::<u16>::empty()) == (state, Seq::<Event>::empty()));
    let escaped = ParserState {
        sequence: Seq::empty(),
        escaped: true,
        csi: false,
        overflow: false,
    };
    assert(seq![27u16].last() == 27);
    assert(run(state, seq![27u16]) == (escaped, Seq::<Event>::empty()));
    assert(head.last() == introducer);
    assert(run(state, head) == (start, Seq::<Event>::empty()));
    assert forall|n: int| 0 <= n < units.len() implies (#[trigger] run(state, units.take(n))).1
        == Seq::<Event>::empty() by {
        if n == 0 {
            assert(units.take(0) == Seq::<u16>::empty());
        } else if n == 1 {
            assert(units.take(1) == seq![27u16]);
        } else {
            assert(units.take(n) == head + body.take(n - 2));
            law_fragments_decode_as_the_whole(state, head, body.take(n - 2));
            lemma_run_body(body.take(n - 2));
        }
    }
    law_fragments_decode_as_the_whole(state, head, body);
    lemma_run_body(body);
    assert(units.drop_last() == head + body);
    assert(units.last() == final_unit);
    let (before, events) = run(state, head + body);
    assert(events == Seq::<Event>::empty());
    assert(run(state, units).0 == idle(!is_clean_body(body)));
}

/// An escape unit brings every parser into one and the same state: what came before it, however
/// broken, is forgotten.
pub proof fn law_escape_forgets_the_past(one: ParserState, other: ParserState)
    ensures
        step(one, 27) == step(other, 27),
{
}

/// Outside a control sequence, text beyond ASCII is ignored.
pub proof fn law_other_text_is_ignored(state: ParserState, unit: u16)
    requires
        !state.escaped,
        !state.csi,
        unit > 127,
    ensures
        step(state, unit) == (state, None::<Event>),
{
}

/// However much input arrives, the kept sequence stays within its limit.
pub proof fn law_sequence_is_bounded(state: ParserState, units: Seq<u16>)
    requires
        state.sequence.len() <= SEQUENCE_LIMIT,
    ensures
        run(state, units).0.sequence.len() <= SEQUENCE_LIMIT,
    decreases units.len(),
{
    if units.len() > 0 {
        law_sequence_is_bounded(state, units.drop_last());
    }
}

/// A key report tells a press, a repeat and a release apart: the report of any key with the
/// phase digit `phase` is the event of that key in that phase.
pub proof fn law_phases_are_preserved(
    number: Seq<u8>,
    modifiers: Seq<u8>,
    phase: u8,
    final_byte: u8,
)
    requires
        crate::fields::is_decimal(number),
        crate::fields::is_decimal(modifiers),
        crate::fields::decimal_value(number) <= u32::MAX,
        1 <= crate::fields::decimal_value(modifiers) <= u8::MAX,
        0x31 <= phase <= 0x33,
    ensures
        key_report(number + seq![SEMICOLON] + (modifiers + seq![COLON] + seq![phase]), final_byte)
            == match report_key(crate::fields::decimal_value(number), final_byte) {
            Some(code) => Some(
                KeyEvent {
                    code,
                    modifiers: report_modifiers(
                        (crate::fields::decimal_value(modifiers) - 1) as u8,
                    ),
                    kind: if phase == 0x31 {
                        KeyEventKind::Press
                    } else if phase == 0x32 {
                        KeyEventKind::Repeat
                    } else {
                        KeyEventKind::Release
                    },
                },
            ),
            None => None,
        },
{
    let field = modifiers + seq![COLON] + seq![phase];
    let body = number + seq![SEMICOLON] + field;
    assert forall|i: int| 0 <= i < field.len() implies field[i] != SEMICOLON by {
        if i < modifiers.len() {
            assert(field[i] == modifiers[i]);
        }
    }
    crate::fields::lemma_split_first(number, SEMICOLON, field);
    crate::fields::lemma_split_whole(field, SEMICOLON);
    let parts = crate::fields::split(body, SEMICOLON);
    assert(parts == seq![number, field]);
    crate::fields::lemma_split_whole(number, COLON);
    crate::fields::lemma_split_first(modifiers, COLON, seq![phase]);
    crate::fields::lemma_split_whole(seq![phase], COLON);
    let modifier_parts = crate::fields::split(field, COLON);
    assert(modifier_parts == seq![modifiers, seq![phase]]);
    assert(seq![phase][0] == phase);
    assert(seq![0x31u8][0] == 0x31 && seq![0x32u8][0] == 0x32 && seq![0x33u8][0] == 0x33);
}

/// The console modes that the game needs: control sequences as input, and extended flags so that
/// the quick-edit mode can be set.
pub const NEEDED_MODES: u32 = 640;

/// The console modes that the game must not have: echo, lines, processed input and quick edits.
pub const UNWANTED_MODES: u32 = 71;

/// `windows_sys::Win32::System::Console::ENABLE_VIRTUAL_TERMINAL_INPUT`: the console mode 512, in
/// which keys arrive as control sequences.
#[verifier::external_body]
fn virtual_terminal_input() -> (mode: u32)
    ensures
        mode == 512,
{
    windows_sys::Win32::System::Console::ENABLE_VIRTUAL_TERMINAL_INPUT
}

/// `windows_sys::Win32::System::Console::ENABLE_EXTENDED_FLAGS`: the console mode 128, without
/// which the quick-edit mode cannot be set.
#[verifier::external_body]
fn extended_flags() -> (mode: u32)
    ensures
        mode == 128,
{
    windows_sys::Win32::System::Console::ENABLE_EXTENDED_FLAGS
}

/// `windows_sys::Win32::System::Console::ENABLE_ECHO_INPUT`: the console mode 4, in which input is
/// printed.
#[verifier::external_body]
fn echo_input() -> (mode: u32)
    ensures
        mode == 4,
{
    windows_sys::Win32::System::Console::ENABLE_ECHO_INPUT
}

/// `windows_sys::Win32::System::Console::ENABLE_LINE_INPUT`: the console mode 2, in which input
/// arrives line by line.
#[verifier::external_body]
fn line_input() -> (mode: u32)
    ensures
        mode == 2,
{
    windows_sys::Win32::System::Console::ENABLE_LINE_INPUT
}

/// `windows_sys::Win32::System::Console::ENABLE_PROCESSED_INPUT`: the console mode 1, in which the
/// system handles Ctrl-C.
#[verifier::external_body]
fn processed_input() -> (mode: u32)
    ensures
        mode == 1,
{
    windows_sys::Win32::System::Console::ENABLE_PROCESSED_INPUT
}

/// `windows_sys::Win32::System::Console::ENABLE_QUICK_EDIT_MODE`: the console mode 64, in which
/// the mouse selects text.
#[verifier::external_body]
fn quick_edit_mode() -> (mode: u32)
    ensures
        mode == 64,
{
    windows_sys::Win32::System::Console::ENABLE_QUICK_EDIT_MODE
}

/// The console mode in which the game reads its input.
pub open spec fn raw_mode(mode: u32) -> u32 {
    (mode | NEEDED_MODES) & !UNWANTED_MODES
}

/// The console mode in which the game reads its input, given the one that was set.
pub fn raw_console_mode(mode: u32) -> (raw: u32)
    ensures
        raw == raw_mode(mode),
{
    let needed: u32 = virtual_terminal_input() | extended_flags();
    let unwanted: u32 = echo_input() | line_input() | processed_input() | quick_edit_mode();
    assert(512u32 | 128u32 == 640u32) by (bit_vector);
    assert(4u32 | 2u32 | 1u32 | 64u32 == 71u32) by (bit_vector);
    (mode | needed) & !unwanted
}

/// The console mode for the game has every needed and no unwanted mode, leaves all other modes as
/// they are, and is the same when it is asked for again.
pub proof fn law_raw_mode_changes_only_what_it_must(mode: u32)
    ensures
        raw_mode(mode) & NEEDED_MODES == NEEDED_MODES,
        raw_mode(mode) & UNWANTED_MODES == 0,
        raw_mode(mode) & !(NEEDED_MODES | UNWANTED_MODES) == mode & !(NEEDED_MODES
            | UNWANTED_MODES),
        raw_mode(raw_mode(mode)) == raw_mode(mode),
{
    assert(((mode | 640u32) & !71u32) & 640u32 == 640u32 && ((mode | 640u32) & !71u32) & 71u32
        == 0 && ((mode | 640u32) & !71u32) & !(640u32 | 71u32) == mode & !(640u32 | 71u32) && ((((
    mode | 640u32) & !71u32) | 640u32) & !71u32) == ((mode | 640u32) & !71u32)) by (bit_vector);
}

/// Why input cannot be read.
#[derive(Debug, Clone, Copy, PartialEq, Eq, Structural)]
pub enum InputError {
    AlreadyActive,
    Closed,
    WorkerStopped,
    Read,
}

impl InputError {
    /// The kind of the error. An error of a read has the kind that the system gives it.
    pub fn kind(&self) -> (kind: Option<ErrorKind>)
        ensures
            kind == match *self {
                InputError::AlreadyActive => Some(ErrorKind::Other),
                InputError::Closed => Some(ErrorKind::UnexpectedEof),
                InputError::WorkerStopped => Some(ErrorKind::UnexpectedEof),
                InputError::Read => None,
            },
    {
        match self {
            InputError::AlreadyActive => Some(ErrorKind::Other),
            InputError::Closed => Some(ErrorKind::UnexpectedEof),
            InputError::WorkerStopped => Some(ErrorKind::UnexpectedEof),
            InputError::Read => None,
        }
    }

    /// The text of the error. An error of a read has the text of the system.
    pub fn message(&self) -> (text: Option<&'static str>)
        ensures
            match *self {
                InputError::AlreadyActive => text is Some && text.unwrap()@
                    == "terminal input already active"@,
                InputError::Closed => text is Some && text.unwrap()@ == "terminal input closed"@,
                InputError::WorkerStopped => text is Some && text.unwrap()@
                    == "terminal input worker stopped"@,
                InputError::Read => text is None,
            },
    {
        match self {
            InputError::AlreadyActive => Some("terminal input already active"),
            InputError::Closed => Some("terminal input closed"),
            InputError::WorkerStopped => Some("terminal input worker stopped"),
            InputError::Read => None,
        }
    }
}

/// The console input: while it is active, the console mode to return to.
#[derive(Debug, Clone, Copy, PartialEq, Eq, Structural)]
pub struct ConsoleInput {
    pub saved_mode: Option<u32>,
}

/// The console input once it was started in a console with the given mode. Where the mode could
/// not be read, nothing has started.
pub open spec fn started(input: ConsoleInput, mode: Option<u32>) -> ConsoleInput {
    match input.saved_mode {
        None => ConsoleInput { saved_mode: mode },
        Some(_) => input,
    }
}

/// The console input once it was stopped.
pub open spec fn stopped(input: ConsoleInput) -> ConsoleInput {
    ConsoleInput { saved_mode: None }
}

/// Activates the console input, given the mode that the console has, if that could be read. The
/// result is the mode to set.
pub fn start(input: &mut ConsoleInput, mode: Option<u32>) -> (raw: Result<u32, InputError>)
    ensures
        *final(input) == started(*old(input), mode),
        raw == (match (old(input).saved_mode, mode) {
            (None, Some(mode)) => Ok::<u32, InputError>(raw_mode(mode)),
            (None, None) => Err(InputError::Read),
            (Some(_), _) => Err(InputError::AlreadyActive),
        }),
        raw is Ok <==> old(input).saved_mode is None && mode is Some,
        raw == Err::<u32, InputError>(InputError::AlreadyActive) <==> old(input).saved_mode is Some,
{
    if input.saved_mode.is_some() {
        return Err(InputError::AlreadyActive);
    }
    match mode {
        Some(mode) => {
            input.saved_mode = Some(mode);
            Ok(raw_console_mode(mode))
        },
        None => Err(InputError::Read),
    }
}

/// Ends the console input. The result is the mode to return to, if the input was active.
pub fn stop(input: &mut ConsoleInput) -> (mode: Option<u32>)
    ensures
        mode == old(input).saved_mode,
        *final(input) == stopped(*old(input)),
{
    let mode: Option<u32> = input.saved_mode;
    input.saved_mode = None;
    mode
}

/// The console gets back the mode that it had before the input was started, even if it was asked
/// to start again meanwhile; after that the input can be started anew.
pub proof fn law_console_mode_is_restored(input: ConsoleInput, mode: u32, later: Option<u32>)
    requires
        input.saved_mode is None,
    ensures
        started(input, Some(mode)).saved_mode == Some(mode),
        started(started(input, Some(mode)), later).saved_mode == Some(mode),
        stopped(started(input, Some(mode))) == input,
{
}

/// What the reader of the console does next.
#[derive(Debug, Clone, Copy, PartialEq, Eq, Structural)]
pub enum ReadStep {
    Stop,
    Fail(InputError),
    Decode(usize),
}

/// What the reader does after a read, which may have failed or brought `count` units. Once it was
/// asked to stop, it makes nothing of the read.
pub fn read_step(stopped: bool, success: bool, count: usize) -> (step: ReadStep)
    ensures
        step == (if stopped {
            ReadStep::Stop
        } else if !success {
            ReadStep::Fail(InputError::Read)
        } else if count == 0 {
            ReadStep::Fail(InputError::Closed)
        } else {
            ReadStep::Decode(count)
        }),
        step is Stop <==> stopped,
        step is Decode <==> !stopped && success && count > 0,
        step is Decode ==> step->Decode_0 == count,
        step == ReadStep::Fail(InputError::Closed) <==> !stopped && success && count == 0,
        step == ReadStep::Fail(InputError::Read) <==> !stopped && !success,
{
    if stopped {
        ReadStep::Stop
    } else if !success {
        ReadStep::Fail(InputError::Read)
    } else if count == 0 {
        ReadStep::Fail(InputError::Closed)
    } else {
        ReadStep::Decode(count)
    }
}

/// What the reader of the console has sent.
#[derive(Debug, Clone, Copy, PartialEq, Eq, Structural)]
pub enum Received {
    Event(Event),
    Failed(InputError),
    Nothing,
    Disconnected,
}

/// The next event, if there is one. Input that is not active has none.
pub fn read_event(input: &ConsoleInput, received: Received) -> (event: Result<
    Option<Event>,
    InputError,
>)
    ensures
        event == (if input.saved_mode is None {
            Ok(None)
        } else {
            match received {
                Received::Event(event) => Ok(Some(event)),
                Received::Failed(error) => Err(error),
                Received::Nothing => Ok(None),
                Received::Disconnected => Err(InputError::WorkerStopped),
            }
        }),
        event is Err <==> input.saved_mode is Some && (received is Failed
            || received is Disconnected),
        event is Ok && event->Ok_0 is Some <==> input.saved_mode is Some && received is Event,
        event is Ok && event->Ok_0 is Some ==> event->Ok_0.unwrap() == received->Event_0,
{
    if input.saved_mode.is_none() {
        return Ok(None);
    }
    match received {
        Received::Event(event) => Ok(Some(event)),
        Received::Failed(error) => Err(error),
        Received::Nothing => Ok(None),
        Received::Disconnected => Err(InputError::WorkerStopped),
    }
}

/// A mouse report names its button in the lowest two bits, 0 for the left one, 1 for the middle
/// one and 2 for the right one, and a release undoes its press: ended by `M`, the report is a press
/// of that button, or a drag of it where the motion bit is set; ended by `m`, it is the release of
/// that very button.
pub proof fn law_buttons_are_told_apart(bits: u8, button: MouseButton)
    requires
        bits & 64 == 0,
        bits & 3 == (match button {
            MouseButton::Left => 0u8,
            MouseButton::Middle => 1u8,
            MouseButton::Right => 2u8,
        }),
    ensures
        bits & 32 == 0 ==> report_action(bits, 0x4d) == Some(MouseEventKind::Down(button)),
        bits & 32 != 0 ==> report_action(bits, 0x4d) == Some(MouseEventKind::Drag(button)),
        report_action(bits, 0x6d) == Some(MouseEventKind::Up(button)),
{
}

/// A mouse report without a button is motion where the motion bit is set and the report ends in
/// `M`, and nothing otherwise. A report with the wheel bit is about the wheel alone, however it
/// ends: the lowest two bits say up, down, left or right.
pub proof fn law_motion_and_wheel_are_told_apart(bits: u8, final_byte: u8)
    requires
        final_byte == 0x4d || final_byte == 0x6d,
    ensures
        bits & 64 == 0 && bits & 3 == 3 && bits & 32 != 0 && final_byte == 0x4d ==> report_action(
            bits,
            final_byte,
        ) == Some(MouseEventKind::Moved),
        bits & 64 == 0 && bits & 3 == 3 && (bits & 32 == 0 || final_byte == 0x6d)
            ==> report_action(bits, final_byte) is None,
        bits & 64 != 0 && bits & 3 == 0 ==> report_action(bits, final_byte) == Some(
            MouseEventKind::ScrollUp,
        ),
        bits & 64 != 0 && bits & 3 == 1 ==> report_action(bits, final_byte) == Some(
            MouseEventKind::ScrollDown,
        ),
        bits & 64 != 0 && bits & 3 == 2 ==> report_action(bits, final_byte) == Some(
            MouseEventKind::ScrollLeft,
        ),
        bits & 64 != 0 && bits & 3 == 3 ==> report_action(bits, final_byte) == Some(
            MouseEventKind::ScrollRight,
        ),
{
}

/// A mouse report is `bits;column;row` and `M` or `m`. It is an event exactly if the three are
/// numbers, the bits of 8 and the others of 16 bits and positive, and the bits say something. The
/// event stands one column and one row before the numbers, and has shift, alt and control as the
/// bits 4, 8 and 16 say.
pub proof fn law_mouse_reports_are_read(
    bits_text: Seq<u8>,
    column_text: Seq<u8>,
    row_text: Seq<u8>,
    final_byte: u8,
)
    requires
        forall|i: int| 0 <= i < bits_text.len() ==> bits_text[i] != 0x3b,
        forall|i: int| 0 <= i < column_text.len() ==> column_text[i] != 0x3b,
        forall|i: int| 0 <= i < row_text.len() ==> row_text[i] != 0x3b,
    ensures
        ({
            let body = bits_text + seq![0x3bu8] + (column_text + seq![0x3bu8] + row_text);
            let bits = crate::fields::number(bits_text, 0xff);
            let column = crate::fields::number(column_text, 0xffff);
            let row = crate::fields::number(row_text, 0xffff);
            let kind = report_action(bits.unwrap() as u8, final_byte);
            let event = mouse_report(body, final_byte);
            &&& event is Some <==> {
                &&& final_byte == 0x4d || final_byte == 0x6d
                &&& bits is Some
                &&& column is Some && column.unwrap() > 0
                &&& row is Some && row.unwrap() > 0
                &&& kind is Some
            }
            &&& event is Some ==> {
                &&& event.unwrap().column + 1 == column.unwrap()
                &&& event.unwrap().row + 1 == row.unwrap()
                &&& event.unwrap().kind == kind.unwrap()
                &&& event.unwrap().modifiers.shift <==> bits.unwrap() / 4 % 2 == 1
                &&& event.unwrap().modifiers.alt <==> bits.unwrap() / 8 % 2 == 1
                &&& event.unwrap().modifiers.control <==> bits.unwrap() / 16 % 2 == 1
            }
        }),
{
    let tail = column_text + seq![0x3bu8] + row_text;
    crate::fields::lemma_split_first(bits_text, 0x3b, tail);
    crate::fields::lemma_split_first(column_text, 0x3b, row_text);
    crate::fields::lemma_split_whole(row_text, 0x3b);
    assert(crate::fields::split(bits_text + seq![0x3bu8] + tail, 0x3b) == seq![
        bits_text,
        column_text,
        row_text,
    ]);
    let bits = crate::fields::number(bits_text, 0xff);
    if bits is Some {
        crate::fields::law_numbers_are_read_in_decimal(bits_text, 0x30, 0xff, 0xff);
        let byte = bits.unwrap() as u8;
        assert((byte & 4 != 0) == (byte / 4 % 2 == 1)) by (bit_vector);
        assert((byte & 8 != 0) == (byte / 8 % 2 == 1)) by (bit_vector);
        assert((byte & 16 != 0) == (byte / 16 % 2 == 1)) by (bit_vector);
    }
}

/// A mouse report with fewer or more than three fields is nothing.
pub proof fn law_mouse_reports_have_three_fields(
    first: Seq<u8>,
    second: Seq<u8>,
    third: Seq<u8>,
    rest: Seq<u8>,
    final_byte: u8,
)
    requires
        forall|i: int| 0 <= i < first.len() ==> first[i] != 0x3b,
        forall|i: int| 0 <= i < second.len() ==> second[i] != 0x3b,
        forall|i: int| 0 <= i < third.len() ==> third[i] != 0x3b,
    ensures
        mouse_report(first, final_byte) is None,
        mouse_report(first + seq![0x3bu8] + second, final_byte) is None,
        mouse_report(
            first + seq![0x3bu8] + (second + seq![0x3bu8] + (third + seq![0x3bu8] + rest)),
            final_byte,
        ) is None,
{
    crate::fields::lemma_split_whole(first, 0x3b);
    crate::fields::lemma_split_whole(second, 0x3b);
    crate::fields::lemma_split_first(first, 0x3b, second);
    let last = third + seq![0x3bu8] + rest;
    crate::fields::lemma_split_first(first, 0x3b, second + seq![0x3bu8] + last);
    crate::fields::lemma_split_first(second, 0x3b, last);
    crate::fields::lemma_split_first(third, 0x3b, rest);
    crate::fields::law_pieces_make_up_the_text(rest, 0x3b);
}

/// Each bit of a key report's modifiers stands for one modifier key: the first for shift, the
/// second for alt and the third for control. The others mean nothing.
pub proof fn law_modifier_bits_are_told_apart(bits: u8)
    ensures
        report_modifiers(bits).shift <==> bits % 2 == 1,
        report_modifiers(bits).alt <==> bits / 2 % 2 == 1,
        report_modifiers(bits).control <==> bits / 4 % 2 == 1,
{
    assert((bits & 1 != 0) == (bits % 2 == 1)) by (bit_vector);
    assert((bits & 2 != 0) == (bits / 2 % 2 == 1)) by (bit_vector);
    assert((bits & 4 != 0) == (bits / 4 % 2 == 1)) by (bit_vector);
}

/// Every key has its reports. The final letter alone names the arrows, Home and End, and the first
/// four function keys. Before `~` the number names the editing keys and the function keys, whose
/// numbers leave out 16 and 22. Before `u` it is the character, or the number of the key.
pub proof fn law_keys_have_their_reports(number: int, final_byte: u8)
    ensures
        report_key(number, 0x41) == Some(KeyCode::Up),
        report_key(number, 0x42) == Some(KeyCode::Down),
        report_key(number, 0x43) == Some(KeyCode::Right),
        report_key(number, 0x44) == Some(KeyCode::Left),
        report_key(number, 0x46) == Some(KeyCode::End),
        report_key(number, 0x48) == Some(KeyCode::Home),
        report_key(number, 0x50) == Some(KeyCode::F(1)),
        report_key(number, 0x51) == Some(KeyCode::F(2)),
        report_key(number, 0x52) == Some(KeyCode::F(3)),
        report_key(number, 0x53) == Some(KeyCode::F(4)),
        report_key(2, 0x7e) == Some(KeyCode::Insert),
        report_key(3, 0x7e) == Some(KeyCode::Delete),
        report_key(5, 0x7e) == Some(KeyCode::PageUp),
        report_key(6, 0x7e) == Some(KeyCode::PageDown),
        11 <= number <= 15 ==> report_key(number, 0x7e) == Some(KeyCode::F((number - 10) as u8)),
        17 <= number <= 21 ==> report_key(number, 0x7e) == Some(KeyCode::F((number - 11) as u8)),
        23 <= number <= 24 ==> report_key(number, 0x7e) == Some(KeyCode::F((number - 12) as u8)),
        number < 2 || number == 4 || 7 <= number <= 10 || number == 16 || number == 22 || number
            > 24 ==> report_key(number, 0x7e) is None,
        32 <= number <= 126 ==> report_key(number, 0x75) == Some(KeyCode::Char(number as char)),
        report_key(9, 0x75) == Some(KeyCode::Tab),
        report_key(13, 0x75) == Some(KeyCode::Enter),
        report_key(27, 0x75) == Some(KeyCode::Esc),
        report_key(127, 0x75) == Some(KeyCode::Backspace),
        report_key(57417, 0x75) == Some(KeyCode::Left),
        report_key(57418, 0x75) == Some(KeyCode::Right),
        report_key(57419, 0x75) == Some(KeyCode::Up),
        report_key(57420, 0x75) == Some(KeyCode::Down),
        report_key(57441, 0x75) == Some(KeyCode::Modifier(ModifierKeyCode::LeftShift)),
        report_key(57442, 0x75) == Some(KeyCode::Modifier(ModifierKeyCode::LeftControl)),
        report_key(57443, 0x75) == Some(KeyCode::Modifier(ModifierKeyCode::LeftAlt)),
        report_key(57447, 0x75) == Some(KeyCode::Modifier(ModifierKeyCode::RightShift)),
        report_key(57448, 0x75) == Some(KeyCode::Modifier(ModifierKeyCode::RightControl)),
        report_key(57449, 0x75) == Some(KeyCode::Modifier(ModifierKeyCode::RightAlt)),
        number < 32 && number != 9 && number != 13 && number != 27 ==> report_key(number, 0x75) is None,
        127 < number < 57417 || 57420 < number < 57441 || 57443 < number < 57447 || number > 57449
            ==> report_key(number, 0x75) is None,
        final_byte < 0x41 || final_byte == 0x45 || final_byte == 0x47 || 0x49 <= final_byte <= 0x4f
            || 0x54 <= final_byte <= 0x74 || 0x76 <= final_byte <= 0x7d || final_byte > 0x7e
            ==> report_key(number, final_byte) is None,
{
}

/// What a key report leaves out has its plain meaning: no modifiers and a press, and the number
/// one. Other parts of the number, parts after the phase and further fields change nothing.
pub proof fn law_left_out_parts_are_plain(
    first: Seq<u8>,
    number: Seq<u8>,
    other: Seq<u8>,
    field: Seq<u8>,
    modifiers: Seq<u8>,
    phase: Seq<u8>,
    rest: Seq<u8>,
    final_byte: u8,
)
    requires
        forall|i: int| 0 <= i < first.len() ==> first[i] != 0x3b,
        forall|i: int| 0 <= i < number.len() ==> number[i] != 0x3b && number[i] != 0x3a,
        forall|i: int| 0 <= i < other.len() ==> other[i] != 0x3b,
        forall|i: int| 0 <= i < field.len() ==> field[i] != 0x3b,
        forall|i: int| 0 <= i < modifiers.len() ==> modifiers[i] != 0x3b && modifiers[i] != 0x3a,
        forall|i: int| 0 <= i < phase.len() ==> phase[i] != 0x3b && phase[i] != 0x3a,
    ensures
        key_report(first, final_byte) == key_report(first + seq![0x3bu8] + seq![0x31u8], final_byte),
        key_report(first + seq![0x3bu8] + modifiers, final_byte) == key_report(
            first + seq![0x3bu8] + (modifiers + seq![0x3au8] + seq![0x31u8]),
            final_byte,
        ),
        key_report(first + seq![0x3bu8] + (field + seq![0x3bu8] + rest), final_byte) == key_report(
            first + seq![0x3bu8] + field,
            final_byte,
        ),
        key_report(
            first + seq![0x3bu8] + (modifiers + seq![0x3au8] + (phase + seq![0x3au8] + other)),
            final_byte,
        ) == key_report(
            first + seq![0x3bu8] + (modifiers + seq![0x3au8] + phase),
            final_byte,
        ),
        key_report((number + seq![0x3au8] + other) + seq![0x3bu8] + field, final_byte)
            == key_report(number + seq![0x3bu8] + field, final_byte),
        key_report(seq![0x3bu8] + field, final_byte) == key_report(
            seq![0x31u8] + seq![0x3bu8] + field,
            final_byte,
        ),
{
    let one = seq![0x31u8];
    let nothing = Seq::<u8>::empty();
    lemma_without_semicolon(modifiers, one);
    lemma_without_semicolon(modifiers, phase);
    lemma_without_semicolon(phase, other);
    lemma_without_semicolon(modifiers, phase + seq![0x3au8] + other);
    lemma_without_semicolon(number, other);
    crate::fields::lemma_split_whole(first, 0x3b);
    crate::fields::lemma_split_whole(one, 0x3b);
    crate::fields::lemma_split_whole(field, 0x3b);
    crate::fields::lemma_split_whole(modifiers, 0x3b);
    crate::fields::lemma_split_whole(modifiers + seq![0x3au8] + one, 0x3b);
    crate::fields::lemma_split_whole(modifiers + seq![0x3au8] + phase, 0x3b);
    crate::fields::lemma_split_whole(
        modifiers + seq![0x3au8] + (phase + seq![0x3au8] + other),
        0x3b,
    );
    crate::fields::lemma_split_first(first, 0x3b, one);
    crate::fields::lemma_split_first(first, 0x3b, modifiers);
    crate::fields::lemma_split_first(first, 0x3b, modifiers + seq![0x3au8] + one);
    crate::fields::lemma_split_first(first, 0x3b, modifiers + seq![0x3au8] + phase);
    crate::fields::lemma_split_first(
        first,
        0x3b,
        modifiers + seq![0x3au8] + (phase + seq![0x3au8] + other),
    );
    crate::fields::lemma_split_first(first, 0x3b, field);
    crate::fields::lemma_split_first(first, 0x3b, field + seq![0x3bu8] + rest);
    crate::fields::lemma_split_first(field, 0x3b, rest);
    crate::fields::lemma_split_first(number + seq![0x3au8] + other, 0x3b, field);
    crate::fields::lemma_split_first(number, 0x3b, field);
    crate::fields::lemma_split_first(one, 0x3b, field);
    crate::fields::lemma_split_first(nothing, 0x3b, field);
    crate::fields::lemma_split_whole(one, 0x3a);
    crate::fields::lemma_split_whole(nothing, 0x3a);
    crate::fields::lemma_split_whole(modifiers, 0x3a);
    crate::fields::lemma_split_whole(phase, 0x3a);
    crate::fields::lemma_split_whole(number, 0x3a);
    crate::fields::lemma_split_first(modifiers, 0x3a, one);
    crate::fields::lemma_split_first(modifiers, 0x3a, phase);
    crate::fields::lemma_split_first(modifiers, 0x3a, phase + seq![0x3au8] + other);
    crate::fields::lemma_split_first(phase, 0x3a, other);
    crate::fields::lemma_split_first(number, 0x3a, other);
    crate::fields::law_numbers_are_read_in_decimal(nothing, 0x31, 1, u32::MAX as int);
    assert(nothing + seq![0x3bu8] + field == seq![0x3bu8] + field);
}

proof fn lemma_without_semicolon(front: Seq<u8>, back: Seq<u8>)
    requires
        forall|i: int| 0 <= i < front.len() ==> front[i] != 0x3b,
        forall|i: int| 0 <= i < back.len() ==> back[i] != 0x3b,
    ensures
        forall|i: int|
            0 <= i < (front + seq![0x3au8] + back).len() ==> (front + seq![0x3au8] + back)[i]
                != 0x3b,
{
    let whole = front + seq![0x3au8] + back;
    assert forall|i: int| 0 <= i < whole.len() implies whole[i] != 0x3b by {
        if i < front.len() {
            assert(whole[i] == front[i]);
        } else if i > front.len() {
            assert(whole[i] == back[i - front.len() - 1]);
        }
    }
}

/// A key report is an event exactly if it leads with a number of 32 bits, or none, that names a
/// key, its modifiers are a positive number of 8 bits and its phase is 1, 2 or 3: a press, a
/// repeat or a release. The modifier bits are one less than the number that tells them.
pub proof fn law_key_reports_are_read(
    number: Seq<u8>,
    modifiers: Seq<u8>,
    phase: Seq<u8>,
    final_byte: u8,
)
    requires
        forall|i: int| 0 <= i < number.len() ==> number[i] != 0x3b && number[i] != 0x3a,
        forall|i: int| 0 <= i < modifiers.len() ==> modifiers[i] != 0x3b && modifiers[i] != 0x3a,
        forall|i: int| 0 <= i < phase.len() ==> phase[i] != 0x3b && phase[i] != 0x3a,
    ensures
        ({
            let body = number + seq![0x3bu8] + (modifiers + seq![0x3au8] + phase);
            let event = key_report(body, final_byte);
            let told = crate::fields::number(number, 0xffff_ffff);
            let held = crate::fields::number(modifiers, 0xff);
            let code = if number.len() == 0 {
                report_key(1, final_byte)
            } else {
                report_key(told.unwrap(), final_byte)
            };
            &&& event is Some <==> {
                &&& number.len() == 0 || told is Some
                &&& code is Some
                &&& held is Some && held.unwrap() > 0
                &&& phase == seq![0x31u8] || phase == seq![0x32u8] || phase == seq![0x33u8]
            }
            &&& event is Some ==> {
                &&& event.unwrap().code == code.unwrap()
                &&& event.unwrap().modifiers == report_modifiers((held.unwrap() - 1) as u8)
                &&& event.unwrap().kind == KeyEventKind::Press <==> phase == seq![0x31u8]
                &&& event.unwrap().kind == KeyEventKind::Repeat <==> phase == seq![0x32u8]
                &&& event.unwrap().kind == KeyEventKind::Release <==> phase == seq![0x33u8]
            }
        }),
{
    let field = modifiers + seq![0x3au8] + phase;
    assert forall|i: int| 0 <= i < field.len() implies field[i] != 0x3b by {
        if i < modifiers.len() {
            assert(field[i] == modifiers[i]);
        } else if i > modifiers.len() {
            assert(field[i] == phase[i - modifiers.len() - 1]);
        }
    }
    crate::fields::lemma_split_first(number, 0x3b, field);
    crate::fields::lemma_split_whole(field, 0x3b);
    crate::fields::lemma_split_whole(number, 0x3a);
    crate::fields::lemma_split_first(modifiers, 0x3a, phase);
    crate::fields::lemma_split_whole(phase, 0x3a);
    assert(seq![0x31u8][0] == 0x31 && seq![0x32u8][0] == 0x32 && seq![0x33u8][0] == 0x33);
}

/// A `<` in front of a report makes it a mouse report; any other report is one of a key.
pub proof fn law_reports_are_told_apart(body: Seq<u8>, final_byte: u8)
    ensures
        report(seq![0x3cu8] + body, final_byte) == (match mouse_report(body, final_byte) {
            Some(event) => Some(Event::Mouse(event)),
            None => None,
        }),
        body.len() == 0 || body[0] != 0x3c ==> report(body, final_byte) == (match key_report(
            body,
            final_byte,
        ) {
            Some(event) => Some(Event::Key(event)),
            None => None,
        }),
{
    assert((seq![0x3cu8] + body).skip(1) == body);
}

/// Outside any control sequence a unit is a key by itself, pressed without modifiers: a printed
/// character, Tab, Enter, Backspace or the character that stands for Control-C. Any other unit but
/// an escape is nothing, and none changes what the parser remembers.
pub proof fn law_plain_text_is_typed(state: ParserState, unit: u16)
    requires
        !state.escaped,
        !state.csi,
        unit != 27,
    ensures
        step(state, unit).0 == state,
        ({
            let event = step(state, unit).1;
            let code = event->0->Key_0.code;
            &&& event is Some <==> unit == 3 || unit == 9 || unit == 13 || 32 <= unit <= 127
            &&& event is Some ==> {
                &&& event->0 is Key
                &&& event->0->Key_0.kind == KeyEventKind::Press
                &&& !event->0->Key_0.modifiers.shift
                &&& !event->0->Key_0.modifiers.alt
                &&& !event->0->Key_0.modifiers.control
                &&& 32 <= unit <= 126 || unit == 3 ==> code == KeyCode::Char(unit as char)
                &&& unit == 9 ==> code == KeyCode::Tab
                &&& unit == 13 ==> code == KeyCode::Enter
                &&& unit == 127 ==> code == KeyCode::Backspace
            }
        }),
{
}

/// An escape and a unit that introduces no control sequence are dropped together, and what comes
/// after them is plain again.
pub proof fn law_lone_escape_is_dropped(state: ParserState, unit: u16)
    requires
        unit != 27,
        unit != 0x5b,
        unit != 0x4f,
    ensures
        ({
            let (after, events) = run(state, seq![27u16, unit]);
            &&& events == Seq::<Event>::empty()
            &&& !after.escaped
            &&& !after.csi
        }),
{
    reveal_with_fuel(run, 3);
    assert(seq![27u16, unit].drop_last() == seq![27u16]);
    assert(seq![27u16].drop_last() == Seq::<u16>::empty());
    assert(seq![27u16].last() == 27);
    assert(seq![27u16, unit].last() == unit);
}

/// A report of at most 96 characters, all of them parameter characters, is decoded as it was sent,
/// after either introducer and whatever came before it. One with any other character before its
/// end, or with more, is dropped whole.
pub proof fn law_reports_are_decoded_as_sent(
    state: ParserState,
    introducer: u16,
    body: Seq<u8>,
    unit: u16,
    rest: Seq<u8>,
    final_byte: u8,
)
    requires
        introducer == 0x5b || introducer == 0x4f,
        forall|i: int| 0 <= i < body.len() ==> 0x20 <= #[trigger] body[i] <= 0x3f,
        forall|i: int| 0 <= i < rest.len() ==> 0x20 <= #[trigger] rest[i] <= 0x3f,
        unit < 0x20 || unit > 0x7e,
        unit != 27,
        0x40 <= final_byte <= 0x7e,
    ensures
        ({
            let sent = body.map_values(|byte: u8| byte as u16);
            let (after, events) = run(
                state,
                seq![27u16, introducer] + sent + seq![final_byte as u16],
            );
            &&& body.len() <= 96 && report(body, final_byte) is Some ==> events == seq![
                report(body, final_byte).unwrap(),
            ]
            &&& body.len() > 96 || report(body, final_byte) is None ==> events == Seq::<Event>::empty()
            &&& !after.escaped && !after.csi
        }),
        ({
            let sent = body.map_values(|byte: u8| byte as u16) + seq![unit] + rest.map_values(
                |byte: u8| byte as u16,
            );
            let (after, events) = run(
                state,
                seq![27u16, introducer] + sent + seq![final_byte as u16],
            );
            &&& events == Seq::<Event>::empty()
            &&& !after.escaped && !after.csi
        }),
{
    let sent = body.map_values(|byte: u8| byte as u16);
    assert forall|i: int| 0 <= i < sent.len() implies is_body_unit(#[trigger] sent[i]) by {
        assert(0x20 <= body[i] <= 0x3f);
    }
    assert(sent.map_values(|unit: u16| unit as u8) =~= body);
    assert(is_clean_body(sent) <==> body.len() <= 96) by {
        assert forall|i: int| 0 <= i < sent.len() implies 0x20 <= #[trigger] sent[i] <= 0x3f by {
            assert(0x20 <= body[i] <= 0x3f);
        }
    }
    law_control_sequence_is_atomic(state, introducer, sent, final_byte as u16);
    let later = rest.map_values(|byte: u8| byte as u16);
    let broken = sent + seq![unit] + later;
    assert forall|i: int| 0 <= i < broken.len() implies is_body_unit(#[trigger] broken[i]) by {
        if i < sent.len() {
            assert(0x20 <= body[i] <= 0x3f);
        } else if i > sent.len() {
            assert(0x20 <= rest[i - sent.len() - 1] <= 0x3f);
        }
    }
    assert(broken[sent.len() as int] == unit);
    assert(!is_clean_body(broken));
    law_control_sequence_is_atomic(state, introducer, broken, final_byte as u16);
}

/// Input whose console mode could not be read has not started, and starting input that is active
/// changes nothing.
pub proof fn law_failed_start_changes_nothing(input: ConsoleInput, mode: Option<u32>)
    ensures
        started(input, None) == input,
        input.saved_mode is Some ==> started(input, mode) == input,
        stopped(input).saved_mode is None,
{
}

} // verus!
