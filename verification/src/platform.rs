//! The input bridge itself: it owns the per-frame pending input and the
//! tracking state (scale factor, pointer position, modifier state),
//! ingests host events one by one, and exposes the two-phase frame
//! boundary.
//!
//! Every observable effect of ingestion is stated by the functional
//! transition [`step`]: the bridge after ingesting an event is exactly
//! `step` of the bridge before it.
use vstd::prelude::*;

use crate::events::Event;
use crate::events::EventModel;
use crate::events::HostEvent;
use crate::events::HostKey;
use crate::events::HostModifiers;
use crate::events::Modifiers;
use crate::events::MouseButton;
use crate::events::PointerButton;
use crate::events::Pos2;
use crate::events::RawInput;
use crate::events::RawInputModel;
use crate::events::Rect;
use crate::events::ScrollDelta;
use crate::events::Vec2;
use crate::events::lemma_events_view_push;
use crate::keymap::filter_printable;
use crate::keymap::key_is_char;
use crate::keymap::spec_filter_printable;
use crate::keymap::spec_key_code;
use crate::keymap::spec_key_is_char;
use crate::keymap::spec_modifiers;
use crate::keymap::winit_to_egui_key_code;
use crate::keymap::winit_to_egui_modifiers;
use crate::output::FrameOutput;
use crate::output::handle_links;

verus! {

/// Upper bound, in physical milli-pixels, on a cursor coordinate the
/// bridge accepts: one trillion pixels, far beyond any real screen, yet
/// small enough that scaling arithmetic cannot overflow.
pub const MAX_CURSOR_MILLI: u64 = 1_000_000_000_000_000;

/// Upper bound, in milli-lines, on the magnitude of a line-unit scroll
/// delta the bridge accepts; it keeps the line-height scaling within
/// machine range.
pub const MAX_LINE_DELTA_MILLI: i64 = 1_000_000_000_000_000;

/// Scroll distance, in logical points, that one scroll line stands for.
pub const POINTS_PER_LINE: i64 = 24;

/// Logical size in milli-points of `px` whole physical pixels under a
/// scale factor of `scale` milli-units, rounded toward zero.
pub open spec fn spec_logical_from_px(px: u32, scale: u32) -> int {
    (px * 1_000_000) / (scale as int)
}

/// Divides a physical pixel count by the scale factor, yielding
/// milli-points.
pub fn logical_from_px(px: u32, scale: u32) -> (r: u64)
    requires
        1 <= scale,
    ensures
        r == spec_logical_from_px(px, scale),
{
    ((px as u64) * 1_000_000) / (scale as u64)
}

/// Logical position in milli-points of a physical position of `pos`
/// milli-pixels under a scale factor of `scale` milli-units, rounded
/// toward zero.
pub open spec fn spec_logical_from_milli_px(pos: u64, scale: u32) -> int {
    (pos * 1000) / (scale as int)
}

/// Divides a physical milli-pixel position by the scale factor,
/// yielding milli-points.
pub fn logical_from_milli_px(pos: u64, scale: u32) -> (r: u64)
    requires
        1 <= scale,
        pos <= MAX_CURSOR_MILLI,
    ensures
        r == spec_logical_from_milli_px(pos, scale),
{
    (pos * 1000) / (scale as u64)
}

/// The logical screen rectangle for a physical size of `width` by
/// `height` whole pixels under a scale factor of `scale` milli-units.
pub open spec fn spec_rect(width: u32, height: u32, scale: u32) -> Rect {
    Rect {
        width: spec_logical_from_px(width, scale) as u64,
        height: spec_logical_from_px(height, scale) as u64,
    }
}

/// Computes the logical screen rectangle from a physical size.
pub fn rect_from_px(width: u32, height: u32, scale: u32) -> (r: Rect)
    requires
        1 <= scale,
    ensures
        r == spec_rect(width, height, scale),
{
    Rect { width: logical_from_px(width, scale), height: logical_from_px(height, scale) }
}

/// The logical pointer position for a physical position in
/// milli-pixels under a scale factor of `scale` milli-units.
pub open spec fn spec_cursor_pos(x: u64, y: u64, scale: u32) -> Pos2 {
    Pos2 {
        x: spec_logical_from_milli_px(x, scale) as u64,
        y: spec_logical_from_milli_px(y, scale) as u64,
    }
}

/// Which host events the bridge accepts: scale factors are positive,
/// and cursor and line-delta magnitudes stay within machine range.
pub open spec fn host_event_wf(ev: HostEvent) -> bool {
    match ev {
        HostEvent::ScaleFactorChanged { scale_factor, .. } => 1 <= scale_factor,
        HostEvent::CursorMoved { x, y } => x <= MAX_CURSOR_MILLI && y <= MAX_CURSOR_MILLI,
        HostEvent::MouseWheel { delta } => match delta {
            ScrollDelta::LineDelta(x, y) => -MAX_LINE_DELTA_MILLI <= x <= MAX_LINE_DELTA_MILLI
                && -MAX_LINE_DELTA_MILLI <= y <= MAX_LINE_DELTA_MILLI,
            ScrollDelta::PixelDelta(_, _) => true,
        },
        _ => true,
    }
}

/// Configures the creation of the [`Platform`].
#[derive(Clone, Copy, Debug, PartialEq, Eq, Structural)]
pub struct PlatformDescriptor {
    /// Width of the window in physical pixels.
    pub physical_width: u32,
    /// Height of the window in physical pixels.
    pub physical_height: u32,
    /// Device-pixel ratio in milli-units; always positive.
    pub scale_factor: u32,
}

/// What the GUI currently wants from the event stream, as reported by
/// the GUI context between frames.
#[derive(Clone, Copy, Debug, PartialEq, Eq, Structural)]
pub struct GuiState {
    /// The GUI wants exclusive keyboard input (a text field has focus).
    pub wants_keyboard_input: bool,
    /// The GUI wants exclusive pointer input (the pointer is over it).
    pub wants_pointer_input: bool,
    /// The GUI is actively using the pointer (a drag is in progress).
    pub is_using_pointer: bool,
}

/// The mathematical value of a [`Platform`].
#[verifier::ext_equal]
pub struct PlatformModel {
    /// The scale factor in milli-units; always positive.
    pub scale_factor: u32,
    /// The pending per-frame input.
    pub raw_input: RawInputModel,
    /// The last observed host modifier state.
    pub modifier_state: HostModifiers,
    /// The last known logical pointer position.
    pub pointer_pos: Pos2,
}

/// The bridge between the host event stream and the GUI's input model.
#[derive(Clone, Debug, PartialEq, Eq)]
pub struct Platform {
    scale_factor: u32,
    raw_input: RawInput,
    modifier_state: HostModifiers,
    pointer_pos: Pos2,
}

impl View for Platform {
    type V = PlatformModel;

    closed spec fn view(&self) -> PlatformModel {
        PlatformModel {
            scale_factor: self.scale_factor,
            raw_input: self.raw_input@,
            modifier_state: self.modifier_state,
            pointer_pos: self.pointer_pos,
        }
    }
}

/// The bridge a fresh construction yields: initial rectangle and
/// pixels-per-point from the descriptor, pointer at the origin, no
/// modifiers, no pending events.
pub open spec fn spec_initial(d: PlatformDescriptor) -> PlatformModel {
    PlatformModel {
        scale_factor: d.scale_factor,
        raw_input: RawInputModel {
            screen_rect: Some(spec_rect(d.physical_width, d.physical_height, d.scale_factor)),
            pixels_per_point: Some(d.scale_factor),
            scroll_delta: Vec2 { x: 0, y: 0 },
            time: None,
            events: Seq::empty(),
        },
        modifier_state: HostModifiers::spec_empty(),
        pointer_pos: Pos2 { x: 0, y: 0 },
    }
}

/// The scale factor after ingesting `ev`.
pub open spec fn next_scale(m: PlatformModel, ev: HostEvent) -> u32 {
    match ev {
        HostEvent::ScaleFactorChanged { scale_factor, .. } => scale_factor,
        _ => m.scale_factor,
    }
}

/// The modifier state after ingesting `ev`.
pub open spec fn next_modifiers(m: PlatformModel, ev: HostEvent) -> HostModifiers {
    match ev {
        HostEvent::ModifiersChanged(state) => state,
        _ => m.modifier_state,
    }
}

/// The last known pointer position after ingesting `ev`.
pub open spec fn next_pointer(m: PlatformModel, ev: HostEvent) -> Pos2 {
    match ev {
        HostEvent::CursorMoved { x, y } => spec_cursor_pos(x, y, m.scale_factor),
        _ => m.pointer_pos,
    }
}

/// The pending screen rectangle after ingesting `ev`: a resize divides
/// the new size by the current scale factor, a scale-factor change by
/// the new one.
pub open spec fn next_screen_rect(m: PlatformModel, ev: HostEvent) -> Option<Rect> {
    match ev {
        HostEvent::Resized { width, height } => Some(spec_rect(width, height, m.scale_factor)),
        HostEvent::ScaleFactorChanged { scale_factor, width, height } => Some(
            spec_rect(width, height, scale_factor),
        ),
        _ => m.raw_input.screen_rect,
    }
}

/// The pending pixels-per-point after ingesting `ev`.
pub open spec fn next_pixels_per_point(m: PlatformModel, ev: HostEvent) -> Option<u32> {
    match ev {
        HostEvent::ScaleFactorChanged { scale_factor, .. } => Some(scale_factor),
        _ => m.raw_input.pixels_per_point,
    }
}

/// The scroll delta a single wheel event contributes: line deltas are
/// scaled by the fixed line height, pixel deltas pass through.
pub open spec fn spec_scroll(delta: ScrollDelta) -> Vec2 {
    match delta {
        ScrollDelta::LineDelta(x, y) => Vec2 {
            x: (x * POINTS_PER_LINE) as i64,
            y: (y * POINTS_PER_LINE) as i64,
        },
        ScrollDelta::PixelDelta(x, y) => Vec2 { x, y },
    }
}

/// The pending scroll delta after ingesting `ev`: a wheel event
/// overwrites it, everything else leaves it.
pub open spec fn next_scroll(m: PlatformModel, ev: HostEvent) -> Vec2 {
    match ev {
        HostEvent::MouseWheel { delta } => spec_scroll(delta),
        _ => m.raw_input.scroll_delta,
    }
}

/// The pointer button the bridge forwards for a host button, if any.
pub open spec fn spec_pointer_button(button: MouseButton) -> Option<PointerButton> {
    match button {
        MouseButton::Left => Some(PointerButton::Primary),
        MouseButton::Right => Some(PointerButton::Secondary),
        MouseButton::Middle => Some(PointerButton::Middle),
        MouseButton::Other => None,
    }
}

/// The events a key press emits, before text handling. The clipboard
/// shortcuts take priority over the key table; `paste` is what the
/// clipboard read yielded, `None` both for an absent or failed
/// clipboard and for any key that asks for no paste.
pub open spec fn spec_key_events(
    m: PlatformModel,
    key: HostKey,
    pressed: bool,
    paste: Option<Seq<char>>,
) -> Seq<EventModel> {
    if !pressed {
        Seq::empty()
    } else if m.modifier_state.ctrl && spec_key_is_char(key, 'c', 'C') {
        seq![EventModel::Copy]
    } else if m.modifier_state.ctrl && spec_key_is_char(key, 'x', 'X') {
        seq![EventModel::Cut]
    } else if m.modifier_state.ctrl && spec_key_is_char(key, 'v', 'V') {
        match paste {
            Some(contents) => seq![EventModel::Text(contents)],
            None => Seq::empty(),
        }
    } else {
        match spec_key_code(key) {
            Some(k) => seq![
                EventModel::Key {
                    key: k,
                    pressed: true,
                    modifiers: spec_modifiers(m.modifier_state),
                },
            ],
            None => Seq::empty(),
        }
    }
}

/// The text event a keyboard event emits, independently of the key
/// handling: decoded text is forwarded, filtered to printable
/// characters, unless control or the super key is held or nothing
/// printable remains.
pub open spec fn spec_text_events(mods: HostModifiers, text: Option<Vec<char>>) -> Seq<
    EventModel,
> {
    match text {
        Some(t) => {
            if !mods.ctrl && !mods.logo {
                let filtered = spec_filter_printable(t@);
                if filtered.len() > 0 {
                    seq![EventModel::Text(filtered)]
                } else {
                    Seq::empty()
                }
            } else {
                Seq::empty()
            }
        },
        None => Seq::empty(),
    }
}

/// The events ingesting `ev` appends to the pending buffer, in order.
pub open spec fn emitted_events(
    m: PlatformModel,
    ev: HostEvent,
    paste: Option<Seq<char>>,
) -> Seq<EventModel> {
    match ev {
        HostEvent::MouseInput { button, pressed } => match spec_pointer_button(button) {
            Some(b) => seq![
                EventModel::PointerButton {
                    pos: m.pointer_pos,
                    button: b,
                    pressed,
                    modifiers: Modifiers::spec_empty(),
                },
            ],
            None => Seq::empty(),
        },
        HostEvent::CursorMoved { x, y } => seq![
            EventModel::PointerMoved(spec_cursor_pos(x, y, m.scale_factor)),
        ],
        HostEvent::CursorLeft => seq![EventModel::PointerGone],
        HostEvent::KeyboardInput { key, pressed, text } => spec_key_events(m, key, pressed, paste)
            + spec_text_events(m.modifier_state, text),
        _ => Seq::empty(),
    }
}

/// The bridge after ingesting one host event: each tracking field and
/// each pending field moves by its own rule, and the emitted events are
/// appended to the pending buffer in order.
pub open spec fn step(m: PlatformModel, ev: HostEvent, paste: Option<Seq<char>>) -> PlatformModel {
    PlatformModel {
        scale_factor: next_scale(m, ev),
        modifier_state: next_modifiers(m, ev),
        pointer_pos: next_pointer(m, ev),
        raw_input: RawInputModel {
            screen_rect: next_screen_rect(m, ev),
            pixels_per_point: next_pixels_per_point(m, ev),
            scroll_delta: next_scroll(m, ev),
            time: m.raw_input.time,
            events: m.raw_input.events + emitted_events(m, ev, paste),
        },
    }
}

/// True when ingesting `ev` would ask for a clipboard read: a key press
/// of the letter V with control held.
pub open spec fn spec_is_paste_shortcut(m: PlatformModel, ev: HostEvent) -> bool {
    match ev {
        HostEvent::KeyboardInput { key, pressed, .. } => pressed && m.modifier_state.ctrl
            && spec_key_is_char(key, 'v', 'V'),
        _ => false,
    }
}

/// True when the GUI captures `ev` exclusively, given what the GUI
/// currently wants: keyboard-ish events defer to keyboard interest,
/// wheel and button events to pointer interest, pointer moves to active
/// pointer use, and everything else is never captured.
pub open spec fn spec_captures_event(ev: HostEvent, gui: GuiState) -> bool {
    match ev {
        HostEvent::KeyboardInput { .. } => gui.wants_keyboard_input,
        HostEvent::ModifiersChanged(_) => gui.wants_keyboard_input,
        HostEvent::MouseWheel { .. } => gui.wants_pointer_input,
        HostEvent::MouseInput { .. } => gui.wants_pointer_input,
        HostEvent::CursorMoved { .. } => gui.is_using_pointer,
        _ => false,
    }
}

/// The view of the optional clipboard contents handed to
/// [`Platform::handle_event`].
pub open spec fn spec_paste(paste: Option<Vec<char>>) -> Option<Seq<char>> {
    match paste {
        Some(v) => Some(v@),
        None => None,
    }
}

impl Platform {
    /// The bridge's invariant: its scale factor is positive.
    pub open spec fn wf(&self) -> bool {
        1 <= self@.scale_factor
    }

    /// Creates a new bridge from the descriptor. Construction cannot
    /// fail.
    pub fn new(descriptor: PlatformDescriptor) -> (r: Platform)
        requires
            1 <= descriptor.scale_factor,
        ensures
            r.wf(),
            r@ == spec_initial(descriptor),
    {
        let rect = rect_from_px(
            descriptor.physical_width,
            descriptor.physical_height,
            descriptor.scale_factor,
        );
        let r = Platform {
            scale_factor: descriptor.scale_factor,
            raw_input: RawInput {
                screen_rect: Some(rect),
                pixels_per_point: Some(descriptor.scale_factor),
                scroll_delta: Vec2 { x: 0, y: 0 },
                time: None,
                events: Vec::new(),
            },
            modifier_state: HostModifiers::empty(),
            pointer_pos: Pos2 { x: 0, y: 0 },
        };
        proof {
            assert(r@ =~= spec_initial(descriptor));
        }
        r
    }

    /// The current scale factor in milli-units.
    pub fn scale_factor(&self) -> (r: u32)
        ensures
            r == self@.scale_factor,
    {
        self.scale_factor
    }

    /// The last known logical pointer position.
    pub fn pointer_pos(&self) -> (r: Pos2)
        ensures
            r == self@.pointer_pos,
    {
        self.pointer_pos
    }

    /// The pending per-frame input accumulated so far.
    pub fn raw_input(&self) -> (r: &RawInput)
        ensures
            r@ == self@.raw_input,
    {
        &self.raw_input
    }

    /// True when ingesting `ev` would ask for a clipboard read, so the
    /// owner of the optional clipboard handle can read it and hand the
    /// contents to [`Platform::handle_event`].
    pub fn is_paste_shortcut(&self, ev: &HostEvent) -> (r: bool)
        ensures
            r == spec_is_paste_shortcut(self@, *ev),
    {
        match ev {
            HostEvent::KeyboardInput { key, pressed, .. } => *pressed && self.modifier_state.ctrl
                && key_is_char(key, 'v', 'V'),
            _ => false,
        }
    }

    /// Reports whether the GUI captures `ev` exclusively, given what
    /// the GUI context currently wants.
    pub fn captures_event(&self, ev: &HostEvent, gui: GuiState) -> (r: bool)
        ensures
            r == spec_captures_event(*ev, gui),
    {
        match ev {
            HostEvent::KeyboardInput { .. } => gui.wants_keyboard_input,
            HostEvent::ModifiersChanged(_) => gui.wants_keyboard_input,
            HostEvent::MouseWheel { .. } => gui.wants_pointer_input,
            HostEvent::MouseInput { .. } => gui.wants_pointer_input,
            HostEvent::CursorMoved { .. } => gui.is_using_pointer,
            _ => false,
        }
    }

    /// Ingests one host event, updating the tracking state and the
    /// pending buffer exactly as [`step`] states. `paste` is the result
    /// of the clipboard read the caller performed if
    /// [`Platform::is_paste_shortcut`] held of `ev`: the contents on a
    /// successful read, `None` on a failed read or an absent clipboard.
    /// For every other event `paste` is ignored.
    pub fn handle_event(&mut self, ev: &HostEvent, paste: Option<Vec<char>>)
        requires
            old(self).wf(),
            host_event_wf(*ev),
        ensures
            final(self).wf(),
            final(self)@ == step(old(self)@, *ev, spec_paste(paste)),
    {
        match ev {
            HostEvent::Resized { width, height } => {
                let rect = rect_from_px(*width, *height, self.scale_factor);
                self.raw_input.screen_rect = Some(rect);
            },
            HostEvent::ScaleFactorChanged { scale_factor, width, height } => {
                self.scale_factor = *scale_factor;
                self.raw_input.pixels_per_point = Some(*scale_factor);
                let rect = rect_from_px(*width, *height, *scale_factor);
                self.raw_input.screen_rect = Some(rect);
            },
            HostEvent::MouseInput { button, pressed } => {
                let forwarded: Option<PointerButton> = match button {
                    MouseButton::Left => Some(PointerButton::Primary),
                    MouseButton::Right => Some(PointerButton::Secondary),
                    MouseButton::Middle => Some(PointerButton::Middle),
                    MouseButton::Other => None,
                };
                match forwarded {
                    Some(b) => {
                        let e = Event::PointerButton {
                            pos: self.pointer_pos,
                            button: b,
                            pressed: *pressed,
                            modifiers: Modifiers::empty(),
                        };
                        proof {
                            lemma_events_view_push(self.raw_input.events@, e);
                        }
                        self.raw_input.events.push(e);
                    },
                    None => {},
                }
            },
            HostEvent::MouseWheel { delta } => {
                match delta {
                    ScrollDelta::LineDelta(x, y) => {
                        self.raw_input.scroll_delta = Vec2 {
                            x: *x * POINTS_PER_LINE,
                            y: *y * POINTS_PER_LINE,
                        };
                    },
                    ScrollDelta::PixelDelta(x, y) => {
                        self.raw_input.scroll_delta = Vec2 { x: *x, y: *y };
                    },
                }
            },
            HostEvent::CursorMoved { x, y } => {
                let pos = Pos2 {
                    x: logical_from_milli_px(*x, self.scale_factor),
                    y: logical_from_milli_px(*y, self.scale_factor),
                };
                self.pointer_pos = pos;
                let e = Event::PointerMoved(pos);
                proof {
                    lemma_events_view_push(self.raw_input.events@, e);
                }
                self.raw_input.events.push(e);
            },
            HostEvent::CursorLeft => {
                let e = Event::PointerGone;
                proof {
                    lemma_events_view_push(self.raw_input.events@, e);
                }
                self.raw_input.events.push(e);
            },
            HostEvent::ModifiersChanged(state) => {
                self.modifier_state = *state;
            },
            HostEvent::KeyboardInput { key, pressed, text } => {
                self.handle_keyboard(key, *pressed, text, paste);
            },
            HostEvent::Unhandled => {},
        }
        proof {
            assert(self@.raw_input =~= step(old(self)@, *ev, spec_paste(paste)).raw_input);
            assert(self@ =~= step(old(self)@, *ev, spec_paste(paste)));
        }
    }

    /// Ingests one keyboard event: the clipboard-shortcut and key-table
    /// handling on a press, then, independently, the filtered decoded
    /// text.
    fn handle_keyboard(
        &mut self,
        key: &HostKey,
        pressed: bool,
        text: &Option<Vec<char>>,
        paste: Option<Vec<char>>,
    )
        requires
            old(self).wf(),
        ensures
            final(self).wf(),
            final(self)@ == (PlatformModel {
                raw_input: RawInputModel {
                    events: old(self)@.raw_input.events + spec_key_events(
                        old(self)@,
                        *key,
                        pressed,
                        spec_paste(paste),
                    ) + spec_text_events(old(self)@.modifier_state, *text),
                    ..old(self)@.raw_input
                },
                ..old(self)@
            }),
    {
        let ghost m0 = self@;
        if pressed {
            let is_ctrl = self.modifier_state.ctrl;
            if is_ctrl && key_is_char(key, 'c', 'C') {
                proof {
                    lemma_events_view_push(self.raw_input.events@, Event::Copy);
                }
                self.raw_input.events.push(Event::Copy);
            } else if is_ctrl && key_is_char(key, 'x', 'X') {
                proof {
                    lemma_events_view_push(self.raw_input.events@, Event::Cut);
                }
                self.raw_input.events.push(Event::Cut);
            } else if is_ctrl && key_is_char(key, 'v', 'V') {
                match paste {
                    Some(contents) => {
                        let e = Event::Text(contents);
                        proof {
                            lemma_events_view_push(self.raw_input.events@, e);
                        }
                        self.raw_input.events.push(e);
                    },
                    None => {},
                }
            } else {
                match winit_to_egui_key_code(key) {
                    Some(k) => {
                        let e = Event::Key {
                            key: k,
                            pressed: true,
                            modifiers: winit_to_egui_modifiers(self.modifier_state),
                        };
                        proof {
                            lemma_events_view_push(self.raw_input.events@, e);
                        }
                        self.raw_input.events.push(e);
                    },
                    None => {},
                }
            }
        }
        proof {
            assert(self@.raw_input.events =~= m0.raw_input.events + spec_key_events(
                m0,
                *key,
                pressed,
                spec_paste(paste),
            ));
        }
        match text {
            Some(t) => {
                if !self.modifier_state.ctrl && !self.modifier_state.logo {
                    let filtered = filter_printable(t);
                    if filtered.len() > 0 {
                        let e = Event::Text(filtered);
                        proof {
                            lemma_events_view_push(self.raw_input.events@, e);
                        }
                        self.raw_input.events.push(e);
                    }
                }
            },
            None => {},
        }
        proof {
            assert(self@.raw_input.events =~= m0.raw_input.events + spec_key_events(
                m0,
                *key,
                pressed,
                spec_paste(paste),
            ) + spec_text_events(m0.modifier_state, *text));
            assert(self@.raw_input =~= RawInputModel {
                events: m0.raw_input.events + spec_key_events(m0, *key, pressed, spec_paste(paste))
                    + spec_text_events(m0.modifier_state, *text),
                ..m0.raw_input
            });
            assert(self@ =~= PlatformModel {
                raw_input: RawInputModel {
                    events: m0.raw_input.events + spec_key_events(
                        m0,
                        *key,
                        pressed,
                        spec_paste(paste),
                    ) + spec_text_events(m0.modifier_state, *text),
                    ..m0.raw_input
                },
                ..m0
            });
        }
    }

    /// Stores the ambient timestamp, in nanoseconds since a host-chosen
    /// epoch, into the pending input.
    pub fn update_time(&mut self, elapsed_nanos: u64)
        requires
            old(self).wf(),
        ensures
            final(self).wf(),
            final(self)@ == (PlatformModel {
                raw_input: RawInputModel { time: Some(elapsed_nanos), ..old(self)@.raw_input },
                ..old(self)@
            }),
    {
        self.raw_input.time = Some(elapsed_nanos);
        proof {
            assert(self@ =~= PlatformModel {
                raw_input: RawInputModel { time: Some(elapsed_nanos), ..old(self)@.raw_input },
                ..old(self)@
            });
        }
    }

    /// Begins a frame: atomically takes the whole pending input,
    /// leaving an empty pending state behind, and returns it for the
    /// GUI to consume. The tracking state persists across the boundary.
    /// Beginning a frame twice without ingesting anything in between is
    /// harmless: the second call yields the empty pending input.
    pub fn begin_frame(&mut self) -> (r: RawInput)
        requires
            old(self).wf(),
        ensures
            final(self).wf(),
            r@ == old(self)@.raw_input,
            final(self)@ == (PlatformModel { raw_input: RawInputModel::spec_empty(), ..old(self)@ }),
    {
        let mut taken = RawInput::empty();
        core::mem::swap(&mut self.raw_input, &mut taken);
        proof {
            assert(self@ =~= PlatformModel {
                raw_input: RawInputModel::spec_empty(),
                ..old(self)@
            });
        }
        taken
    }

    /// Ends a frame: dispatches the URL-open request of the GUI's
    /// output, if any. The clipboard-write request is reported by
    /// [`crate::output::wants_clipboard_write`] to the owner of the
    /// optional clipboard handle. The bridge state is unchanged.
    pub fn end_frame(&mut self, output: &FrameOutput)
        requires
            old(self).wf(),
        ensures
            final(self).wf(),
            final(self)@ == old(self)@,
    {
        handle_links(output);
    }
}

} // verus!
