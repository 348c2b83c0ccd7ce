//! The state of a running game: its input, its frame and its end.
use vstd::prelude::*;

use crate::geometry::FrameLayout;
use crate::input::{
    doom_key_for, spec_doom_key, Event, KeyCode, KeyEvent, KeyEventKind, MouseButton, MouseEvent, MouseEventKind,
};
use crate::keys::KeyQueue;
use crate::presentation::Presentation;
use crate::queue::LatestQueue;

verus! {

/// The byte size of a frame.
pub const RGBA_FRAME_BYTES: usize = 1_024_000;

/// How long an unchanged frame may go unsent, in nanoseconds.
///
/// The presenter retains the latest full frame, so a still image needs no repeats to stay on
/// screen. A channel that recovers needs one, so the retained image is sent again at a rate that
/// costs nothing rather than leaving a recovered channel blank.
pub const FRAME_REFRESH_INTERVAL_NS: u64 = 1_000_000_000;

/// Whether the game was asked to end.
#[derive(Debug, Clone, Copy, PartialEq, Eq, Structural)]
pub struct ExitFlag {
    pub requested: bool,
}

/// Withdraws a request to end the game.
pub fn reset_exit_request(flag: &mut ExitFlag)
    ensures
        !final(flag).requested,
{
    flag.requested = false;
}

/// Asks the game to end.
pub fn request_exit(flag: &mut ExitFlag)
    ensures
        final(flag).requested,
{
    flag.requested = true;
}

/// Channel `index` of a packed pixel in RGBA order. The image is opaque.
pub open spec fn pixel_byte(pixel: u32, index: int) -> u8 {
    if index == 0 {
        (pixel / 65_536 % 256) as u8
    } else if index == 1 {
        (pixel / 256 % 256) as u8
    } else if index == 2 {
        (pixel % 256) as u8
    } else {
        255
    }
}

/// How many pixels are converted: as many as both sides hold.
pub open spec fn converted_pixels(input: Seq<u32>, output: Seq<u8>) -> int {
    if input.len() <= output.len() / 4 {
        input.len() as int
    } else {
        output.len() as int / 4
    }
}

/// `output` after `input` was converted into it.
pub open spec fn converted(input: Seq<u32>, output: Seq<u8>) -> Seq<u8> {
    Seq::new(
        output.len(),
        |i: int|
            if i / 4 < converted_pixels(input, output) {
                pixel_byte(input[i / 4], i % 4)
            } else {
                output[i]
            },
    )
}

/// Converts a packed framebuffer into `output`, which holds the frame before it, and tells
/// whether the image changed.
pub fn convert_doom_pixels(input: &[u32], output: &mut [u8]) -> (changed: bool)
    ensures
        final(output)@ == converted(input@, old(output)@),
        changed == (final(output)@ != old(output)@),
{
    let mut changed = false;
    let mut index: usize = 0;
    let pixels: usize = if input.len() <= output.len() / 4 {
        input.len()
    } else {
        output.len() / 4
    };
    while index < pixels
        invariant
            index <= pixels,
            pixels == converted_pixels(input@, old(output)@),
            pixels <= input@.len(),
            pixels * 4 <= output@.len(),
            output@.len() == old(output)@.len(),
            output@.len() <= usize::MAX,
            forall|i: int|
                0 <= i < index * 4 ==> #[trigger] output@[i] == converted(
                    input@,
                    old(output)@,
                )[i],
            forall|i: int| index * 4 <= i < output@.len() ==> #[trigger] output@[i] == old(output)@[i],
            changed ==> exists|i: int|
                0 <= i < index * 4 && #[trigger] output@[i] != old(output)@[i],
            !changed ==> forall|i: int|
                0 <= i < index * 4 ==> #[trigger] output@[i] == old(output)@[i],
        decreases pixels - index,
    {
        let pixel: u32 = input[index];
        let base: usize = index * 4;
        let red: u8 = (pixel / 65_536 % 256) as u8;
        let green: u8 = (pixel / 256 % 256) as u8;
        let blue: u8 = (pixel % 256) as u8;
        let ghost before = output@;
        let ghost changed_before = changed;
        if output[base] != red || output[base + 1] != green || output[base + 2] != blue
            || output[base + 3] != 255 {
            changed = true;
        }
        output[base] = red;
        output[base + 1] = green;
        output[base + 2] = blue;
        output[base + 3] = 255;
        index = index + 1;
        proof {
            assert(forall|i: int| 0 <= i < base ==> #[trigger] output@[i] == before[i]);
            if changed_before {
                let i = choose|i: int| 0 <= i < base && #[trigger] before[i] != old(output)@[i];
                assert(output@[i] != old(output)@[i]);
            } else if changed {
                assert(output@[base as int] != before[base as int] || output@[base + 1]
                    != before[base + 1] || output@[base + 2] != before[base + 2] || output@[base
                    + 3] != before[base + 3]);
                assert(before[base as int] == old(output)@[base as int] && before[base + 1]
                    == old(output)@[base + 1] && before[base + 2] == old(output)@[base + 2]
                    && before[base + 3] == old(output)@[base + 3]);
            }
        }
    }
    proof {
        assert(output@ == converted(input@, old(output)@));
        if !changed {
            assert(output@ == old(output)@);
        }
    }
    changed
}

/// Converting a framebuffer twice changes nothing the second time, so an unchanged image is not
/// reported as a new one.
pub proof fn law_conversion_is_idempotent(input: Seq<u32>, output: Seq<u8>)
    ensures
        converted(input, converted(input, output)) == converted(input, output),
{
    assert(converted(input, converted(input, output)) =~= converted(input, output));
}

/// Whether a frame that has not changed is due again.
pub open spec fn refresh_due(sent_at: Option<u64>, now: u64) -> bool {
    match sent_at {
        Some(sent_at) => now - sent_at >= FRAME_REFRESH_INTERVAL_NS,
        None => true,
    }
}

/// A frame that was never sent is due, and one that was sent is due again a second later and not
/// before, however often it is looked at meanwhile.
pub proof fn law_still_frame_is_resent_each_second(sent_at: u64, now: u64)
    ensures
        refresh_due(None, now),
        refresh_due(Some(sent_at), now) <==> now >= sent_at + 1_000_000_000,
{
}

/// Whether a key event is a press, perhaps a repeated one.
pub open spec fn spec_is_press(kind: KeyEventKind) -> bool {
    kind != KeyEventKind::Release
}

/// Whether a key event asks the game to end: Control-C, or the character that stands for it.
pub open spec fn spec_is_interrupt_key(key: KeyEvent) -> bool {
    &&& spec_is_press(key.kind)
    &&& (key.code == KeyCode::Char('c') || key.code == KeyCode::Char('C')) && key.modifiers.control
        || key.code == KeyCode::Char('\u{3}')
}

/// Whether a key is the one that switches mouse input.
pub open spec fn is_mouse_key(code: KeyCode) -> bool {
    code == KeyCode::Char('m') || code == KeyCode::Char('M')
}

/// Whether a key is the one that switches the size of the image.
pub open spec fn is_scale_key(code: KeyCode) -> bool {
    code == KeyCode::Char('u') || code == KeyCode::Char('U')
}

/// Whether a key event is for the game rather than for the program around it.
pub open spec fn reaches_game(key: KeyEvent) -> bool {
    !spec_is_interrupt_key(key) && !is_mouse_key(key.code) && !is_scale_key(key.code)
}

/// Whether a key event asks the game to end.
pub fn is_interrupt_key(key: &KeyEvent) -> (interrupt: bool)
    ensures
        interrupt == spec_is_interrupt_key(*key),
{
    let pressed = is_press(key.kind);
    match key.code {
        KeyCode::Char(c) => pressed && ((c == 'c' || c == 'C') && key.modifiers.control || c
            == '\u{3}'),
        _ => false,
    }
}

/// Whether a key event is a press, perhaps a repeated one.
fn is_press(kind: KeyEventKind) -> (press: bool)
    ensures
        press == spec_is_press(kind),
{
    match kind {
        KeyEventKind::Press | KeyEventKind::Repeat => true,
        KeyEventKind::Release => false,
    }
}

/// The bit of a mouse button.
pub open spec fn spec_mouse_button_bit(button: MouseButton) -> i32 {
    match button {
        MouseButton::Left => 1,
        MouseButton::Right => 2,
        MouseButton::Middle => 4,
    }
}

/// The bit of a mouse button.
pub fn mouse_button_bit(button: MouseButton) -> (bit: i32)
    ensures
        bit == spec_mouse_button_bit(button),
{
    match button {
        MouseButton::Left => 1,
        MouseButton::Right => 2,
        MouseButton::Middle => 4,
    }
}

/// The held buttons after a mouse event.
pub open spec fn buttons_after(buttons: i32, kind: MouseEventKind) -> i32 {
    match kind {
        MouseEventKind::Down(button) | MouseEventKind::Drag(button) => {
            buttons | spec_mouse_button_bit(button)
        },
        MouseEventKind::Up(button) => buttons & !spec_mouse_button_bit(button),
        _ => buttons,
    }
}

/// Whether a mouse event is about the wheel.
pub open spec fn is_scroll(kind: MouseEventKind) -> bool {
    match kind {
        MouseEventKind::ScrollDown
        | MouseEventKind::ScrollUp
        | MouseEventKind::ScrollLeft
        | MouseEventKind::ScrollRight => true,
        _ => false,
    }
}

/// A mouse motion for the game: the held buttons and the distance in image pixels.
#[derive(Debug, Clone, Copy, PartialEq, Eq, Structural)]
pub struct MouseMotion {
    pub buttons: i32,
    pub dx: i32,
    pub dy: i32,
}

/// What is left to do about an event.
#[derive(Debug, Clone, Copy, PartialEq, Eq, Structural)]
pub enum InputAction {
    Nothing,
    ToggleScale,
    Post(MouseMotion),
}

/// The state of a running game. Times are nanoseconds of one clock.
pub struct RuntimeState {
    pub keys: KeyQueue,
    pub mouse_enabled: bool,
    pub last_mouse_position: Option<(u16, u16)>,
    pub mouse_buttons: i32,
    pub rgba_frame: Vec<u8>,
    pub frame_sent_at: Option<u64>,
    pub fatal_error: Option<String>,
    pub exit: ExitFlag,
}

/// What a key event does: the mouse and the scale key act on release, what the game reads
/// reaches it on press and on release, and an interrupt ends the game.
pub open spec fn key_handled(
    before: RuntimeState,
    after: RuntimeState,
    key: KeyEvent,
    doom_key: Option<u8>,
    action: InputAction,
) -> bool {
    let released = key.kind == KeyEventKind::Release;
    &&& after.same_output(&before)
    &&& after.mouse_buttons == before.mouse_buttons
    &&& after.exit.requested == (before.exit.requested || spec_is_interrupt_key(key))
    &&& after.mouse_enabled == (if is_mouse_key(key.code) && released {
        !before.mouse_enabled
    } else {
        before.mouse_enabled
    })
    &&& after.last_mouse_position == (if (is_mouse_key(key.code) || is_scale_key(key.code))
        && released {
        None
    } else {
        before.last_mouse_position
    })
    &&& after.keys@ == (match doom_key {
        Some(doom_key) if reaches_game(key) => crate::keys::key_push(
            before.keys@,
            (spec_is_press(key.kind), doom_key),
        ),
        _ => before.keys@,
    })
    &&& action == (if is_scale_key(key.code) && released {
        InputAction::ToggleScale
    } else {
        InputAction::Nothing
    })
}

/// The motion in image pixels from the last position to that of `mouse`.
pub open spec fn motion_from(last: Option<(u16, u16)>, mouse: MouseEvent, layout: FrameLayout) -> (
    int,
    int,
) {
    match last {
        Some(previous) => layout.spec_mouse_delta(previous, (mouse.column, mouse.row)),
        None => (0int, 0int),
    }
}

/// What a mouse event does, given the layout of the image where it is presented. The wheel moves
/// the last position, but is not reported to the game.
pub open spec fn mouse_handled(
    before: RuntimeState,
    after: RuntimeState,
    mouse: MouseEvent,
    layout: Option<FrameLayout>,
    action: InputAction,
) -> bool {
    &&& after.same_output(&before)
    &&& after.keys@ == before.keys@
    &&& after.mouse_enabled == before.mouse_enabled
    &&& after.exit == before.exit
    &&& match layout {
        Some(layout) if before.mouse_enabled => {
            let (dx, dy) = motion_from(before.last_mouse_position, mouse, layout);
            &&& after.last_mouse_position == Some((mouse.column, mouse.row))
            &&& after.mouse_buttons == buttons_after(before.mouse_buttons, mouse.kind)
            &&& match action {
                InputAction::Post(motion) => {
                    &&& !is_scroll(mouse.kind)
                    &&& motion.buttons == after.mouse_buttons
                    &&& motion.dx == dx
                    &&& motion.dy == dy
                },
                InputAction::Nothing => is_scroll(mouse.kind),
                InputAction::ToggleScale => false,
            }
        },
        _ => {
            &&& after.last_mouse_position == (if before.mouse_enabled {
                before.last_mouse_position
            } else {
                None
            })
            &&& after.mouse_buttons == before.mouse_buttons
            &&& action == InputAction::Nothing
        },
    }
}

impl RuntimeState {
    /// Whether the key ring is well formed, the frame has its size and only known buttons are
    /// held.
    pub open spec fn wf(&self) -> bool {
        &&& self.keys.wf()
        &&& self.rgba_frame@.len() == RGBA_FRAME_BYTES
        &&& 0 <= self.mouse_buttons <= 7
    }

    /// Whether all but the input is as in `other`.
    pub open spec fn same_output(&self, other: &RuntimeState) -> bool {
        &&& self.rgba_frame@ == other.rgba_frame@
        &&& self.frame_sent_at == other.frame_sent_at
        &&& self.fatal_error == other.fatal_error
    }

    /// The state before the first frame.
    pub fn new() -> (state: RuntimeState)
        ensures
            state.wf(),
            state.keys@ == Seq::<(bool, u8)>::empty(),
            state.mouse_enabled,
            state.last_mouse_position is None,
            state.mouse_buttons == 0,
            state.rgba_frame@ == Seq::new(RGBA_FRAME_BYTES as nat, |i: int| 0u8),
            state.frame_sent_at is None,
            state.fatal_error is None,
            !state.exit.requested,
    {
        let rgba_frame: Vec<u8> = vec![0;RGBA_FRAME_BYTES];
        assert(rgba_frame@ =~= Seq::new(RGBA_FRAME_BYTES as nat, |i: int| 0u8));
        RuntimeState {
            keys: KeyQueue::new(),
            mouse_enabled: true,
            last_mouse_position: None,
            mouse_buttons: 0,
            rgba_frame,
            frame_sent_at: None,
            fatal_error: None,
            exit: ExitFlag { requested: false },
        }
    }

    /// Ends the game with an error. The first error is the one that is kept.
    pub fn fail(&mut self, error: String)
        ensures
            final(self).fatal_error == crate::workers::first_report(old(self).fatal_error, error),
            final(self).exit.requested,
            *final(self) == (RuntimeState {
                fatal_error: final(self).fatal_error,
                exit: final(self).exit,
                ..*old(self)
            }),
    {
        if self.fatal_error.is_none() {
            self.fatal_error = Some(error);
        }
        request_exit(&mut self.exit);
    }

    /// Adds a key event for the game.
    pub fn enqueue_key(&mut self, pressed: bool, doom_key: u8)
        requires
            old(self).wf(),
        ensures
            final(self).wf(),
            final(self).keys@ == crate::keys::key_push(old(self).keys@, (pressed, doom_key)),
            *final(self) == (RuntimeState { keys: final(self).keys, ..*old(self) }),
    {
        self.keys.enqueue_key(pressed, doom_key);
    }

    /// Takes the oldest key event for the game.
    pub fn pop_key(&mut self) -> (event: Option<(i32, u8)>)
        requires
            old(self).wf(),
        ensures
            final(self).wf(),
            *final(self) == (RuntimeState { keys: final(self).keys, ..*old(self) }),
            match event {
                Some((pressed, key)) => {
                    &&& old(self).keys@.len() > 0
                    &&& pressed == (if old(self).keys@[0].0 {
                        1int
                    } else {
                        0int
                    })
                    &&& key == old(self).keys@[0].1
                    &&& final(self).keys@ == old(self).keys@.drop_first()
                },
                None => old(self).keys@.len() == 0 && final(self).keys@ == old(self).keys@,
            },
    {
        self.keys.pop_key()
    }

    /// Handles a key event, given the game key that it is bound to. The mouse and the scale key
    /// act on release; what the game reads reaches it on press and on release.
    pub fn handle_key_event(&mut self, key: KeyEvent, doom_key: Option<u8>) -> (action: InputAction)
        requires
            old(self).wf(),
        ensures
            final(self).wf(),
            key_handled(*old(self), *final(self), key, doom_key, action),
    {
        let pressed = is_press(key.kind);
        if is_interrupt_key(&key) {
            request_exit(&mut self.exit);
            return InputAction::Nothing;
        }
        if let KeyCode::Char(c) = key.code {
            if c == 'm' || c == 'M' {
                if !pressed {
                    self.mouse_enabled = !self.mouse_enabled;
                    self.last_mouse_position = None;
                }
                return InputAction::Nothing;
            }
            if c == 'u' || c == 'U' {
                if !pressed {
                    self.last_mouse_position = None;
                    return InputAction::ToggleScale;
                }
                return InputAction::Nothing;
            }
        }
        if let Some(doom_key) = doom_key {
            self.enqueue_key(pressed, doom_key);
        }
        InputAction::Nothing
    }

    /// Handles a mouse event, given the layout of the image where it is presented. The motion is
    /// measured from the last position, which any event but a disabled one replaces.
    pub fn handle_mouse_event(&mut self, mouse: MouseEvent, layout: Option<FrameLayout>) -> (action:
        InputAction)
        requires
            old(self).wf(),
        ensures
            final(self).wf(),
            mouse_handled(*old(self), *final(self), mouse, layout, action),
    {
        if !self.mouse_enabled {
            self.last_mouse_position = None;
            return InputAction::Nothing;
        }
        let layout = match layout {
            Some(layout) => layout,
            None => return InputAction::Nothing,
        };
        let current: (u16, u16) = (mouse.column, mouse.row);
        let (dx, dy): (i32, i32) = match self.last_mouse_position {
            Some(previous) => layout.mouse_delta(previous, current),
            None => (0, 0),
        };
        self.last_mouse_position = Some(current);
        let buttons: i32 = self.mouse_buttons;
        match mouse.kind {
            MouseEventKind::Down(button) | MouseEventKind::Drag(button) => {
                let bit: i32 = mouse_button_bit(button);
                assert(0 <= buttons | bit <= 7) by (bit_vector)
                    requires
                        0 <= buttons <= 7,
                        0 <= bit <= 7,
                ;
                self.mouse_buttons = buttons | bit;
            },
            MouseEventKind::Up(button) => {
                let bit: i32 = mouse_button_bit(button);
                assert(0 <= buttons & !bit <= 7) by (bit_vector)
                    requires
                        0 <= buttons <= 7,
                ;
                self.mouse_buttons = buttons & !bit;
            },
            MouseEventKind::Moved => {},
            MouseEventKind::ScrollDown
            | MouseEventKind::ScrollUp
            | MouseEventKind::ScrollLeft
            | MouseEventKind::ScrollRight => {
                return InputAction::Nothing;
            },
        }
        InputAction::Post(MouseMotion { buttons: self.mouse_buttons, dx, dy })
    }

    /// Handles a change of the terminal's size: the last mouse position means nothing any more.
    pub fn handle_resize(&mut self)
        ensures
            *final(self) == (RuntimeState { last_mouse_position: None, ..*old(self) }),
    {
        self.last_mouse_position = None;
    }

    /// Handles whatever the terminal reported, given the layout of the image where it is presented.
    pub fn handle_event(&mut self, event: Event, layout: Option<FrameLayout>) -> (action:
        InputAction)
        requires
            old(self).wf(),
        ensures
            final(self).wf(),
            match event {
                Event::Key(key) => key_handled(
                    *old(self),
                    *final(self),
                    key,
                    spec_doom_key(key.code),
                    action,
                ),
                Event::Mouse(mouse) => mouse_handled(
                    *old(self),
                    *final(self),
                    mouse,
                    layout,
                    action,
                ),
                Event::Resize => action == InputAction::Nothing && *final(self) == (RuntimeState {
                    last_mouse_position: None,
                    ..*old(self)
                }),
                Event::Other => action == InputAction::Nothing && *final(self) == *old(self),
            },
    {
        match event {
            Event::Key(key) => self.handle_key_event(key, doom_key_for(key.code)),
            Event::Mouse(mouse) => self.handle_mouse_event(mouse, layout),
            Event::Resize => {
                self.handle_resize();
                InputAction::Nothing
            },
            Event::Other => InputAction::Nothing,
        }
    }

    /// Brings the frame up to date with the screen, if there is one, and tells whether it is to be
    /// sent: when it changed, or when it has gone unsent for long.
    pub fn prepare_frame(&mut self, screen: Option<&[u32]>, now: u64) -> (send: bool)
        requires
            old(self).wf(),
        ensures
            final(self).wf(),
            *final(self) == (RuntimeState { rgba_frame: final(self).rgba_frame, ..*old(self) }),
            final(self).rgba_frame@ == (match screen {
                Some(screen) => converted(screen@, old(self).rgba_frame@),
                None => old(self).rgba_frame@,
            }),
            send == (final(self).rgba_frame@ != old(self).rgba_frame@ || refresh_due(
                old(self).frame_sent_at,
                now,
            )),
            final(self).rgba_frame@ != old(self).rgba_frame@ ==> send,
            old(self).frame_sent_at is None ==> send,
            old(self).frame_sent_at is Some && now >= old(self).frame_sent_at.unwrap()
                + 1_000_000_000 ==> send,
    {
        let changed = match screen {
            Some(screen) => convert_doom_pixels(screen, self.rgba_frame.as_mut_slice()),
            None => false,
        };
        let due = match self.frame_sent_at {
            Some(sent_at) => now >= sent_at && now - sent_at >= FRAME_REFRESH_INTERVAL_NS,
            None => true,
        };
        changed || due
    }

    /// Hands the frame to the raster worker. A queue that is closed ends the game.
    pub fn submit_frame(&mut self, queue: &mut LatestQueue<Vec<u8>>)
        requires
            old(self).wf(),
        ensures
            final(self).wf(),
            final(queue).closed == old(queue).closed,
            if old(queue).closed {
                &&& *final(queue) == *old(queue)
                &&& final(self).exit.requested
                &&& crate::workers::reported(
                    old(self).fatal_error,
                    final(self).fatal_error,
                    "latest-frame queue is closed"@,
                )
                &&& *final(self) == (RuntimeState {
                    fatal_error: final(self).fatal_error,
                    exit: final(self).exit,
                    ..*old(self)
                })
            } else {
                &&& *final(self) == *old(self)
                &&& final(queue).item is Some
                &&& final(queue).item.unwrap()@ == old(self).rgba_frame@
            },
    {
        match Presentation::submit_frame(queue, self.rgba_frame.as_slice()) {
            Ok(()) => {},
            Err(error) => self.fail(error.message().to_owned()),
        }
    }

    /// Remembers when the frame was sent.
    pub fn mark_frame_sent(&mut self, now: u64)
        ensures
            *final(self) == (RuntimeState { frame_sent_at: Some(now), ..*old(self) }),
    {
        self.frame_sent_at = Some(now);
    }
}

/// Releasing a button undoes its press and leaves the other buttons alone.
pub proof fn law_button_release_undoes_press(buttons: i32, pressed: MouseButton, other: MouseButton)
    requires
        pressed != other,
    ensures
        ({
            let held = buttons_after(buttons, MouseEventKind::Down(pressed));
            let released = buttons_after(held, MouseEventKind::Up(pressed));
            &&& held & spec_mouse_button_bit(pressed) != 0
            &&& released & spec_mouse_button_bit(pressed) == 0
            &&& held & spec_mouse_button_bit(other) == buttons & spec_mouse_button_bit(other)
            &&& released & spec_mouse_button_bit(other) == buttons & spec_mouse_button_bit(other)
        }),
{
    let bit = spec_mouse_button_bit(pressed);
    let else_bit = spec_mouse_button_bit(other);
    assert((buttons | bit) & bit != 0 && ((buttons | bit) & !bit) & bit == 0 && (buttons | bit)
        & else_bit == buttons & else_bit && ((buttons | bit) & !bit) & else_bit == buttons
        & else_bit) by (bit_vector)
        requires
            bit == 1 || bit == 2 || bit == 4,
            else_bit == 1 || else_bit == 2 || else_bit == 4,
            bit != else_bit,
    ;
}

/// The keys that the program keeps for itself never reach the game, whatever they are bound to,
/// and those that change its settings are no interrupts.
pub proof fn law_own_keys_do_not_reach_the_game(key: KeyEvent)
    ensures
        spec_is_interrupt_key(key) || is_mouse_key(key.code) || is_scale_key(key.code)
            ==> !reaches_game(key),
        is_mouse_key(key.code) || is_scale_key(key.code) ==> !spec_is_interrupt_key(key),
{
}

/// The milliseconds since the start as the game counts them: the clock stops at its last tick.
pub fn ticks_ms(elapsed_ms: u128) -> (ticks: u32)
    ensures
        ticks == (if elapsed_ms > u32::MAX {
            u32::MAX as int
        } else {
            elapsed_ms as int
        }),
        elapsed_ms <= 0xffff_ffff ==> ticks == elapsed_ms,
        elapsed_ms >= 0xffff_ffff ==> ticks == 0xffff_ffffu32,
{
    if elapsed_ms > u32::MAX as u128 {
        u32::MAX
    } else {
        elapsed_ms as u32
    }
}

/// Whether `text` starts with `prefix`.
pub open spec fn has_prefix(text: Seq<char>, prefix: Seq<char>) -> bool {
    prefix.len() <= text.len() && text.take(prefix.len() as int) == prefix
}

/// What follows `prefix` in `text`, if it starts with it.
fn strip_prefix(text: &str, prefix: &str) -> (rest: Option<String>)
    ensures
        match rest {
            Some(rest) => has_prefix(text@, prefix@) && rest@ == text@.skip(prefix@.len() as int),
            None => !has_prefix(text@, prefix@),
        },
{
    let length: usize = prefix.unicode_len();
    let total: usize = text.unicode_len();
    if length > total {
        return None;
    }
    let mut index: usize = 0;
    while index < length
        invariant
            index <= length,
            length == prefix@.len(),
            length <= text@.len(),
            forall|i: int| 0 <= i < index ==> text@[i] == prefix@[i],
        decreases length - index,
    {
        if text.get_char(index) != prefix.get_char(index) {
            proof {
                if has_prefix(text@, prefix@) {
                    assert(text@.take(prefix@.len() as int)[index as int] == prefix@[index as int]);
                }
            }
            return None;
        }
        index = index + 1;
    }
    assert(text@.take(length as int) == prefix@);
    let rest = text.substring_char(length, total).to_owned();
    assert(rest@ == text@.skip(length as int));
    Some(rest)
}

/// The sound directory as the C library takes it.
pub open spec fn spec_sound_directory(path: Seq<char>, windows: bool) -> Seq<char> {
    if windows && has_prefix(path, "\\\\?\\UNC\\"@) {
        "\\\\"@ + path.skip("\\\\?\\UNC\\"@.len() as int)
    } else if windows && has_prefix(path, "\\\\?\\"@) {
        path.skip("\\\\?\\"@.len() as int)
    } else {
        path
    }
}

/// The sound directory as the C library takes it: on Windows, without the prefix of a verbatim
/// path.
pub fn sound_directory_for_c(path: &str, windows: bool) -> (directory: String)
    ensures
        directory@ == spec_sound_directory(path@, windows),
{
    if windows {
        if let Some(rest) = strip_prefix(path, "\\\\?\\UNC\\") {
            let mut directory = "\\\\".to_owned();
            directory.append(rest.as_str());
            return directory;
        }
        if let Some(rest) = strip_prefix(path, "\\\\?\\") {
            return rest;
        }
    }
    path.to_owned()
}

/// A signal that asks the game to end.
#[derive(Debug, Clone, Copy, PartialEq, Eq, Structural)]
pub enum Signal {
    Interrupt,
    Terminate,
}

/// What is done next to install the signal handlers. A failure names the signal whose handler
/// could not be registered, and whether the handler of the interrupt is to be removed again.
#[derive(Debug, Clone, Copy, PartialEq, Eq, Structural)]
pub enum InstallStep {
    Register(Signal),
    Installed,
    Failed { signal: Signal, remove_interrupt: bool },
}

/// Begins to install the signal handlers, unless that has been done.
pub fn install_signal_handlers(installed: &mut bool) -> (step: InstallStep)
    ensures
        *final(installed),
        step == (if *old(installed) {
            InstallStep::Installed
        } else {
            InstallStep::Register(Signal::Interrupt)
        }),
        *old(installed) ==> step is Installed,
        !*old(installed) ==> step is Register,
{
    if *installed {
        return InstallStep::Installed;
    }
    *installed = true;
    InstallStep::Register(Signal::Interrupt)
}

/// What follows the attempt to register the handler of a signal.
pub open spec fn spec_handler_registered(signal: Signal, success: bool) -> InstallStep {
    if !success {
        InstallStep::Failed { signal, remove_interrupt: signal == Signal::Terminate }
    } else if signal == Signal::Interrupt {
        InstallStep::Register(Signal::Terminate)
    } else {
        InstallStep::Installed
    }
}

/// What follows the attempt to register the handler of a signal. After a failure nothing is
/// installed.
pub fn handler_registered(installed: &mut bool, signal: Signal, success: bool) -> (step: InstallStep)
    ensures
        *final(installed) == (*old(installed) && success),
        step == spec_handler_registered(signal, success),
{
    if !success {
        *installed = false;
        return InstallStep::Failed { signal, remove_interrupt: signal == Signal::Terminate };
    }
    match signal {
        Signal::Interrupt => InstallStep::Register(Signal::Terminate),
        Signal::Terminate => InstallStep::Installed,
    }
}

/// The text of the error where the handler of a signal could not be registered.
pub fn install_failed(signal: Signal) -> (text: &'static str)
    ensures
        text@ == (match signal {
            Signal::Interrupt => "failed to install SIGINT handler"@,
            Signal::Terminate => "failed to install SIGTERM handler"@,
        }),
{
    match signal {
        Signal::Interrupt => "failed to install SIGINT handler",
        Signal::Terminate => "failed to install SIGTERM handler",
    }
}

/// The handlers which are registered once a step of the installation has been taken, given those
/// that were.
pub open spec fn handlers_after(handlers: Set<Signal>, signal: Signal, success: bool) -> Set<Signal> {
    match spec_handler_registered(signal, success) {
        InstallStep::Failed { remove_interrupt, .. } => if remove_interrupt {
            handlers.remove(Signal::Interrupt)
        } else {
            handlers
        },
        _ => handlers.insert(signal),
    }
}

/// The handlers are installed together or not at all: if both registrations succeed, both
/// handlers stay, and if one fails, none does.
pub proof fn law_handlers_are_installed_together(interrupt: bool, terminate: bool)
    ensures
        ({
            let first = handlers_after(Set::empty(), Signal::Interrupt, interrupt);
            let second = handlers_after(first, Signal::Terminate, terminate);
            &&& spec_handler_registered(Signal::Interrupt, interrupt) is Failed <==> !interrupt
            &&& !interrupt ==> first == Set::<Signal>::empty()
            &&& interrupt && !terminate ==> second == Set::<Signal>::empty()
            &&& interrupt && terminate ==> forall|signal: Signal| second.contains(signal)
        }),
{
    let first = handlers_after(Set::empty(), Signal::Interrupt, interrupt);
    let second = handlers_after(first, Signal::Terminate, terminate);
    if interrupt && !terminate {
        assert(second =~= Set::<Signal>::empty());
    }
}

/// The steps of a run.
#[derive(Debug, Clone, Copy, PartialEq, Eq, Structural)]
pub enum RunStep {
    Clear,
    StartWorkers,
    FirstTick,
    Activate,
    Tick,
    Shutdown,
}

/// The step after `step`. The first tick makes the frame that activation needs, so activation
/// follows it even where the game is about to end.
pub open spec fn spec_next_step(step: RunStep, exit_requested: bool) -> RunStep {
    match step {
        RunStep::Clear => RunStep::StartWorkers,
        RunStep::StartWorkers => if exit_requested {
            RunStep::Shutdown
        } else {
            RunStep::FirstTick
        },
        RunStep::FirstTick => RunStep::Activate,
        RunStep::Activate | RunStep::Tick => if exit_requested {
            RunStep::Shutdown
        } else {
            RunStep::Tick
        },
        RunStep::Shutdown => RunStep::Shutdown,
    }
}

/// The step after `step`.
pub fn next_step(step: RunStep, exit_requested: bool) -> (next: RunStep)
    ensures
        next == spec_next_step(step, exit_requested),
{
    match step {
        RunStep::Clear => RunStep::StartWorkers,
        RunStep::StartWorkers => if exit_requested {
            RunStep::Shutdown
        } else {
            RunStep::FirstTick
        },
        RunStep::FirstTick => RunStep::Activate,
        RunStep::Activate | RunStep::Tick => if exit_requested {
            RunStep::Shutdown
        } else {
            RunStep::Tick
        },
        RunStep::Shutdown => RunStep::Shutdown,
    }
}

/// A request to end the game is heard: from any step, the run is at its end two steps after the
/// request at the latest.
pub proof fn law_exit_request_ends_the_run(step: RunStep)
    ensures
        spec_next_step(spec_next_step(step, true), true) == RunStep::Shutdown,
{
}

/// The media slots are activated only after a tick has made the first frame.
pub proof fn law_activation_follows_the_first_tick(step: RunStep, exit_requested: bool)
    ensures
        spec_next_step(step, exit_requested) == RunStep::Activate <==> step == RunStep::FirstTick,
{
}

/// The engine runs once in a process.
#[derive(Debug, Clone, Copy, PartialEq, Eq, Structural)]
pub struct AlreadyRun;

impl AlreadyRun {
    /// The text of the error.
    pub fn message(&self) -> (text: &'static str)
        ensures
            text@ == "Doom runtime has already been initialized"@,
    {
        "Doom runtime has already been initialized"
    }
}

/// Begins the one run of the engine.
pub fn begin_run(begun: &mut bool) -> (result: Result<(), AlreadyRun>)
    ensures
        *final(begun),
        result == (if *old(begun) {
            Err(AlreadyRun)
        } else {
            Ok::<(), AlreadyRun>(())
        }),
        result is Ok <==> !*old(begun),
{
    if *begun {
        return Err(AlreadyRun);
    }
    *begun = true;
    Ok(())
}

/// The result of a run: an error of the shutdown, else the error that ended the game.
pub fn run_result(shutdown: Result<(), String>, fatal_error: Option<String>) -> (result: Result<
    (),
    String,
>)
    ensures
        result == (match shutdown {
            Err(error) => Err(error),
            Ok(()) => match fatal_error {
                Some(error) => Err(error),
                None => Ok::<(), String>(()),
            },
        }),
        result is Ok <==> shutdown is Ok && fatal_error is None,
        shutdown is Err ==> result == shutdown,
        shutdown is Ok && fatal_error is Some ==> result->Err_0 == fatal_error.unwrap(),
{
    match shutdown {
        Err(error) => Err(error),
        Ok(()) => match fatal_error {
            Some(error) => Err(error),
            None => Ok(()),
        },
    }
}

/// The argument count as the C library takes it, if it fits.
pub fn argument_count(count: usize) -> (argc: Option<i32>)
    ensures
        match argc {
            Some(argc) => argc == count,
            None => count > i32::MAX,
        },
{
    if count > i32::MAX as usize {
        None
    } else {
        Some(count as i32)
    }
}

/// Every pixel keeps its place and its color: the first three bytes of a converted pixel, read as
/// one number, are the low 24 bits of the pixel that stands at the same place in the framebuffer,
/// and the fourth byte is opaque. What lies beyond the pixels that both sides hold is left as it
/// was.
pub proof fn law_pixels_keep_place_and_color(input: Seq<u32>, output: Seq<u8>)
    ensures
        converted(input, output).len() == output.len(),
        forall|p: int|
            #![trigger input[p]]
            0 <= p < input.len() && 4 * p + 3 < output.len() ==> {
                let result = converted(input, output);
                &&& result[4 * p] * 0x1_0000 + result[4 * p + 1] * 0x100 + result[4 * p + 2]
                    == input[p] % 0x100_0000
                &&& result[4 * p + 3] == 0xff
            },
        forall|i: int|
            0 <= i < output.len() && (i >= 4 * input.len() || i >= output.len() - output.len() % 4)
                ==> #[trigger] converted(input, output)[i] == output[i],
{
    assert forall|p: int|
        #![trigger input[p]]
        0 <= p < input.len() && 4 * p + 3 < output.len() implies {
        let result = converted(input, output);
        &&& result[4 * p] * 0x1_0000 + result[4 * p + 1] * 0x100 + result[4 * p + 2] == input[p]
            % 0x100_0000
        &&& result[4 * p + 3] == 0xff
    } by {
        let pixel = input[p] as int;
        assert(pixel % 0x100_0000 == pixel / 0x1_0000 % 0x100 * 0x1_0000 + pixel / 0x100 % 0x100
            * 0x100 + pixel % 0x100);
    }
}

/// The mouse key switches mouse input, on or off: one release changes it, whichever it was, and
/// two releases leave it as it was.
pub proof fn law_mouse_key_toggles(
    before: RuntimeState,
    between: RuntimeState,
    after: RuntimeState,
    first: KeyEvent,
    second: KeyEvent,
    first_action: InputAction,
    second_action: InputAction,
    first_bound: Option<u8>,
    second_bound: Option<u8>,
)
    requires
        first.code == KeyCode::Char('m') || first.code == KeyCode::Char('M'),
        second.code == KeyCode::Char('m') || second.code == KeyCode::Char('M'),
        first.kind == KeyEventKind::Release,
        second.kind == KeyEventKind::Release,
        key_handled(before, between, first, first_bound, first_action),
        key_handled(between, after, second, second_bound, second_action),
    ensures
        between.mouse_enabled != before.mouse_enabled,
        after.mouse_enabled == before.mouse_enabled,
        between.last_mouse_position is None,
        after.last_mouse_position is None,
        first_action == InputAction::Nothing,
        second_action == InputAction::Nothing,
{
}

/// A key event changes nothing but what the key is for. Mouse input is switched by a release of
/// `m` alone, the size of the image by a release of `u` alone, and the game ends only on a press
/// of Control-C or of the character that stands for it. No key event touches the held buttons,
/// the frame or the error.
pub proof fn law_keys_act_alone(
    before: RuntimeState,
    after: RuntimeState,
    key: KeyEvent,
    bound: Option<u8>,
    action: InputAction,
)
    requires
        key_handled(before, after, key, bound, action),
    ensures
        ({
            let released = key.kind == KeyEventKind::Release;
            let mouse_key = key.code == KeyCode::Char('m') || key.code == KeyCode::Char('M');
            let scale_key = key.code == KeyCode::Char('u') || key.code == KeyCode::Char('U');
            let break_key = key.code == KeyCode::Char('\u{3}') || key.modifiers.control && (key.code
                == KeyCode::Char('c') || key.code == KeyCode::Char('C'));
            &&& after.mouse_enabled != before.mouse_enabled <==> mouse_key && released
            &&& action == InputAction::ToggleScale <==> scale_key && released
            &&& action != InputAction::ToggleScale ==> action == InputAction::Nothing
            &&& after.exit.requested <==> before.exit.requested || break_key && !released
            &&& (mouse_key || scale_key) && released ==> after.last_mouse_position is None
            &&& !((mouse_key || scale_key) && released) ==> after.last_mouse_position
                == before.last_mouse_position
            &&& after.mouse_buttons == before.mouse_buttons
            &&& after.rgba_frame@ == before.rgba_frame@
            &&& after.frame_sent_at == before.frame_sent_at
            &&& after.fatal_error == before.fatal_error
        }),
{
}

/// The game is told of every stroke of a key that it is bound to, as a press or as a release, but
/// for the keys that the program keeps: the newest event that waits for the game is that stroke,
/// and at most the oldest one has made room for it. Of all other keys it hears nothing.
pub proof fn law_bound_keys_reach_the_game(
    before: RuntimeState,
    after: RuntimeState,
    key: KeyEvent,
    bound: Option<u8>,
    action: InputAction,
)
    requires
        before.wf(),
        key_handled(before, after, key, bound, action),
    ensures
        ({
            let kept = key.code == KeyCode::Char('m') || key.code == KeyCode::Char('M') || key.code
                == KeyCode::Char('u') || key.code == KeyCode::Char('U') || key.kind
                != KeyEventKind::Release && (key.code == KeyCode::Char('\u{3}')
                || key.modifiers.control && (key.code == KeyCode::Char('c') || key.code
                == KeyCode::Char('C')));
            &&& bound is None || kept ==> after.keys@ == before.keys@
            &&& bound is Some && !kept ==> {
                &&& after.keys@.len() > 0
                &&& after.keys@.last() == (key.kind != KeyEventKind::Release, bound.unwrap())
                &&& before.keys@.len() < 31 ==> after.keys@.drop_last() == before.keys@
                &&& before.keys@.len() >= 31 ==> after.keys@.drop_last()
                    == before.keys@.drop_first()
            }
        }),
{
    if after.keys@.len() > 0 {
        assert(before.keys@.len() < 31 ==> before.keys@.push(after.keys@.last()).drop_last()
            == before.keys@);
        assert(before.keys@.len() >= 31 ==> before.keys@.drop_first().push(
            after.keys@.last(),
        ).drop_last() == before.keys@.drop_first());
    }
}

/// The mouse holds what was pressed or dragged and was not released since. The left button is bit
/// 1, the right one 2 and the middle one 4; an event of one button leaves the other bits alone,
/// and so do motion and the wheel.
pub proof fn law_buttons_are_held_until_released(buttons: i32)
    ensures
        ({
            let left = buttons_after(buttons, MouseEventKind::Down(MouseButton::Left));
            let right = buttons_after(buttons, MouseEventKind::Down(MouseButton::Right));
            let middle = buttons_after(buttons, MouseEventKind::Down(MouseButton::Middle));
            &&& left & 1 == 1 && left & !1 == buttons & !1
            &&& right & 2 == 2 && right & !2 == buttons & !2
            &&& middle & 4 == 4 && middle & !4 == buttons & !4
        }),
        ({
            let left = buttons_after(buttons, MouseEventKind::Up(MouseButton::Left));
            let right = buttons_after(buttons, MouseEventKind::Up(MouseButton::Right));
            let middle = buttons_after(buttons, MouseEventKind::Up(MouseButton::Middle));
            &&& left & 1 == 0 && left & !1 == buttons & !1
            &&& right & 2 == 0 && right & !2 == buttons & !2
            &&& middle & 4 == 0 && middle & !4 == buttons & !4
        }),
        forall|button: MouseButton| #[trigger]
            buttons_after(buttons, MouseEventKind::Drag(button)) == buttons_after(
                buttons,
                MouseEventKind::Down(button),
            ),
        buttons_after(buttons, MouseEventKind::Moved) == buttons,
        buttons_after(buttons, MouseEventKind::ScrollUp) == buttons,
        buttons_after(buttons, MouseEventKind::ScrollDown) == buttons,
        buttons_after(buttons, MouseEventKind::ScrollLeft) == buttons,
        buttons_after(buttons, MouseEventKind::ScrollRight) == buttons,
{
    assert((buttons | 1) & 1 == 1 && (buttons | 1) & !1 == buttons & !1 && (buttons & !1) & 1 == 0
        && (buttons & !1) & !1 == buttons & !1) by (bit_vector);
    assert((buttons | 2) & 2 == 2 && (buttons | 2) & !2 == buttons & !2 && (buttons & !2) & 2 == 0
        && (buttons & !2) & !2 == buttons & !2) by (bit_vector);
    assert((buttons | 4) & 4 == 4 && (buttons | 4) & !4 == buttons & !4 && (buttons & !4) & 4 == 0
        && (buttons & !4) & !4 == buttons & !4) by (bit_vector);
}

/// While mouse input is off, or no image is presented, the game hears nothing of the mouse, and
/// the held buttons stay as they are. Switched off, the mouse has no last position.
pub proof fn law_unheard_mouse_changes_nothing(
    before: RuntimeState,
    after: RuntimeState,
    mouse: MouseEvent,
    layout: Option<FrameLayout>,
    action: InputAction,
)
    requires
        !before.mouse_enabled || layout is None,
        mouse_handled(before, after, mouse, layout, action),
    ensures
        action == InputAction::Nothing,
        after.mouse_buttons == before.mouse_buttons,
        after.mouse_enabled == before.mouse_enabled,
        after.keys@ == before.keys@,
        after.exit == before.exit,
        after.rgba_frame@ == before.rgba_frame@,
        after.frame_sent_at == before.frame_sent_at,
        after.fatal_error == before.fatal_error,
        before.mouse_enabled ==> after.last_mouse_position == before.last_mouse_position,
        !before.mouse_enabled ==> after.last_mouse_position is None,
{
}

/// The mouse posts its motion from event to event: the first event posts none, and each later one
/// posts the distance from where the event before it was, with the buttons that are held by then.
/// The wheel moves that place, but posts nothing.
pub proof fn law_motion_runs_from_event_to_event(
    before: RuntimeState,
    between: RuntimeState,
    after: RuntimeState,
    first: MouseEvent,
    second: MouseEvent,
    layout: FrameLayout,
    first_action: InputAction,
    second_action: InputAction,
)
    requires
        before.mouse_enabled,
        mouse_handled(before, between, first, Some(layout), first_action),
        mouse_handled(between, after, second, Some(layout), second_action),
    ensures
        between.mouse_enabled,
        between.last_mouse_position == Some((first.column, first.row)),
        between.keys@ == before.keys@,
        between.exit == before.exit,
        between.rgba_frame@ == before.rgba_frame@,
        between.frame_sent_at == before.frame_sent_at,
        between.fatal_error == before.fatal_error,
        between.mouse_buttons == buttons_after(before.mouse_buttons, first.kind),
        match second.kind {
            MouseEventKind::ScrollUp
            | MouseEventKind::ScrollDown
            | MouseEventKind::ScrollLeft
            | MouseEventKind::ScrollRight => second_action == InputAction::Nothing,
            _ => {
                &&& second_action is Post
                &&& second_action->Post_0.buttons == after.mouse_buttons
                &&& (
                    second_action->Post_0.dx as int,
                    second_action->Post_0.dy as int,
                ) == layout.spec_mouse_delta(
                    (first.column, first.row),
                    (second.column, second.row),
                )
            },
        },
        before.last_mouse_position is None && first_action is Post ==> first_action->Post_0.dx == 0
            && first_action->Post_0.dy == 0,
{
}

/// On Windows the C library gets a verbatim path without its prefix, and a verbatim network path
/// with two backslashes in place of its prefix. Every other path it gets as it is, and so it does
/// elsewhere.
pub proof fn law_sound_directory_is_plain(rest: Seq<char>, path: Seq<char>)
    ensures
        spec_sound_directory("\\\\?\\UNC\\"@ + rest, true) == "\\\\"@ + rest,
        !(rest.len() >= 4 && rest.take(4) == "UNC\\"@) ==> spec_sound_directory(
            "\\\\?\\"@ + rest,
            true,
        ) == rest,
        !(path.len() >= 4 && path.take(4) == "\\\\?\\"@) ==> spec_sound_directory(path, true)
            == path,
        spec_sound_directory(path, false) == path,
{
    reveal_strlit("\\\\?\\UNC\\");
    reveal_strlit("\\\\?\\");
    reveal_strlit("UNC\\");
    reveal_strlit("\\\\");
    let network = "\\\\?\\UNC\\"@;
    let verbatim = "\\\\?\\"@;
    assert((network + rest).take(8) == network);
    assert((network + rest).skip(8) == rest);
    assert((verbatim + rest).take(4) == verbatim);
    assert((verbatim + rest).skip(4) == rest);
    if has_prefix(verbatim + rest, network) {
        assert forall|i: int| 0 <= i < 4 implies rest[i] == "UNC\\"@[i] by {
            assert((verbatim + rest).take(8)[i + 4] == network[i + 4]);
        }
        assert(rest.take(4) == "UNC\\"@);
    }
    if has_prefix(path, network) {
        assert forall|i: int| 0 <= i < 4 implies path[i] == verbatim[i] by {
            assert(path.take(8)[i] == network[i]);
        }
        assert(path.take(4) == verbatim);
    }
}

/// A run clears the screen, starts the workers, ticks once, activates the slots and ticks on until
/// it is asked to end. A request to end is heeded before the first tick, and again once the slots
/// are active, but not in between; after the shutdown comes nothing.
pub proof fn law_run_keeps_its_order(exit_requested: bool)
    ensures
        spec_next_step(RunStep::Clear, exit_requested) == RunStep::StartWorkers,
        spec_next_step(RunStep::StartWorkers, false) == RunStep::FirstTick,
        spec_next_step(RunStep::FirstTick, exit_requested) == RunStep::Activate,
        spec_next_step(RunStep::Activate, false) == RunStep::Tick,
        spec_next_step(RunStep::Tick, false) == RunStep::Tick,
        spec_next_step(RunStep::Shutdown, exit_requested) == RunStep::Shutdown,
        forall|step: RunStep| #[trigger]
            spec_next_step(step, true) == RunStep::Shutdown <==> step == RunStep::StartWorkers
                || step == RunStep::Activate || step == RunStep::Tick || step == RunStep::Shutdown,
{
}

/// The handler of the terminate signal is registered after that of the interrupt, and a failure
/// names the signal whose handler it was.
pub proof fn law_failure_names_its_signal(signal: Signal)
    ensures
        spec_handler_registered(Signal::Interrupt, true) == InstallStep::Register(
            Signal::Terminate,
        ),
        spec_handler_registered(Signal::Terminate, true) == InstallStep::Installed,
        spec_handler_registered(signal, false) is Failed,
        spec_handler_registered(signal, false)->signal == signal,
        spec_handler_registered(signal, false)->remove_interrupt <==> signal == Signal::Terminate,
{
}

} // verus!
