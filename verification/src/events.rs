//! Data model of the bridge: host-side events as they arrive from the
//! windowing layer, and GUI-side input events as the immediate-mode
//! context consumes them.
//!
//! Every length, position and scale factor is an integer in milli-units
//! (thousandths): a scale factor of `1500` is a ratio of 1.5 device
//! pixels per logical point, a position of `400_000` lies 400 logical
//! points from the origin.
use vstd::prelude::*;

verus! {

/// A logical-space position in milli-points, measured from the top-left
/// origin of the screen rectangle.
#[derive(Clone, Copy, Debug, PartialEq, Eq, Structural)]
pub struct Pos2 {
    /// Horizontal offset in milli-points.
    pub x: u64,
    /// Vertical offset in milli-points.
    pub y: u64,
}

/// A logical-space displacement in milli-points; used for scroll deltas,
/// which may point in any direction.
#[derive(Clone, Copy, Debug, PartialEq, Eq, Structural)]
pub struct Vec2 {
    /// Horizontal component in milli-points.
    pub x: i64,
    /// Vertical component in milli-points.
    pub y: i64,
}

/// The logical screen rectangle. Its minimum corner is always the
/// origin, so only the size is carried.
#[derive(Clone, Copy, Debug, PartialEq, Eq, Structural)]
pub struct Rect {
    /// Width in milli-points.
    pub width: u64,
    /// Height in milli-points.
    pub height: u64,
}

/// Modifier flags as the host windowing layer reports them.
#[derive(Clone, Copy, Debug, PartialEq, Eq, Structural)]
pub struct HostModifiers {
    /// An alt key is held.
    pub alt: bool,
    /// A control key is held.
    pub ctrl: bool,
    /// A shift key is held.
    pub shift: bool,
    /// A super / logo key is held.
    pub logo: bool,
}

impl HostModifiers {
    /// The state with no modifier held.
    pub open spec fn spec_empty() -> HostModifiers {
        HostModifiers { alt: false, ctrl: false, shift: false, logo: false }
    }

    /// Returns the state with no modifier held.
    pub fn empty() -> (r: HostModifiers)
        ensures
            r == HostModifiers::spec_empty(),
    {
        HostModifiers { alt: false, ctrl: false, shift: false, logo: false }
    }
}

/// Modifier flags in the GUI's model. `command` is the platform's
/// primary shortcut modifier; `mac_cmd` is set only where the host
/// platform has a dedicated command key.
#[derive(Clone, Copy, Debug, PartialEq, Eq, Structural)]
pub struct Modifiers {
    /// An alt key is held.
    pub alt: bool,
    /// A control key is held.
    pub ctrl: bool,
    /// A shift key is held.
    pub shift: bool,
    /// The dedicated command key, on hosts that have one.
    pub mac_cmd: bool,
    /// The platform's primary shortcut modifier.
    pub command: bool,
}

impl Modifiers {
    /// The state with no modifier held.
    pub open spec fn spec_empty() -> Modifiers {
        Modifiers { alt: false, ctrl: false, shift: false, mac_cmd: false, command: false }
    }

    /// Returns the state with no modifier held.
    pub fn empty() -> (r: Modifiers)
        ensures
            r == Modifiers::spec_empty(),
    {
        Modifiers { alt: false, ctrl: false, shift: false, mac_cmd: false, command: false }
    }
}

/// The GUI keys the bridge forwards. Every other key is dropped.
#[derive(Clone, Copy, Debug, PartialEq, Eq, Structural)]
pub enum Key {
    /// The escape key.
    Escape,
    /// The insert key.
    Insert,
    /// The home key.
    Home,
    /// The delete key.
    Delete,
    /// The end key.
    End,
    /// The page-down key.
    PageDown,
    /// The page-up key.
    PageUp,
    /// The left arrow key.
    ArrowLeft,
    /// The up arrow key.
    ArrowUp,
    /// The right arrow key.
    ArrowRight,
    /// The down arrow key.
    ArrowDown,
    /// The backspace key.
    Backspace,
    /// The enter key.
    Enter,
    /// The tab key.
    Tab,
    /// The space key.
    Space,
    /// The letter A.
    A,
    /// The letter K.
    K,
    /// The letter U.
    U,
    /// The letter W.
    W,
    /// The letter Z.
    Z,
}

/// A named key as the host windowing layer reports it. Printable keys
/// arrive as [`HostKey::Character`] with the decoded character sequence;
/// keys the bridge never forwards arrive as [`HostKey::Other`].
#[derive(Clone, Debug, PartialEq, Eq)]
pub enum HostKey {
    /// The escape key.
    Escape,
    /// The insert key.
    Insert,
    /// The home key.
    Home,
    /// The delete key.
    Delete,
    /// The end key.
    End,
    /// The page-down key.
    PageDown,
    /// The page-up key.
    PageUp,
    /// The left arrow key.
    ArrowLeft,
    /// The up arrow key.
    ArrowUp,
    /// The right arrow key.
    ArrowRight,
    /// The down arrow key.
    ArrowDown,
    /// The backspace key.
    Backspace,
    /// The enter key.
    Enter,
    /// The tab key.
    Tab,
    /// The space key.
    Space,
    /// A character-producing key, with the characters it decodes to.
    Character(Vec<char>),
    /// Any key the bridge does not translate.
    Other,
}

/// A pointer button in the GUI's model.
#[derive(Clone, Copy, Debug, PartialEq, Eq, Structural)]
pub enum PointerButton {
    /// The primary (usually left) button.
    Primary,
    /// The secondary (usually right) button.
    Secondary,
    /// The middle button.
    Middle,
}

/// A pointer button as the host windowing layer reports it. Buttons
/// beyond the first three are reported as [`MouseButton::Other`] and are
/// dropped by the bridge.
#[derive(Clone, Copy, Debug, PartialEq, Eq, Structural)]
pub enum MouseButton {
    /// The left button.
    Left,
    /// The right button.
    Right,
    /// The middle button.
    Middle,
    /// Any further button.
    Other,
}

/// A wheel or touchpad scroll amount as the host reports it.
#[derive(Clone, Copy, Debug, PartialEq, Eq, Structural)]
pub enum ScrollDelta {
    /// A delta in milli-lines; one line stands for 24 logical points.
    LineDelta(i64, i64),
    /// A delta directly in logical milli-points.
    PixelDelta(i64, i64),
}

/// One discrete notification from the host windowing layer. Only the
/// window-level kinds the bridge reacts to are distinguished; everything
/// else is [`HostEvent::Unhandled`].
#[derive(Clone, Debug, PartialEq, Eq)]
pub enum HostEvent {
    /// The window was resized to the given physical size, in whole pixels.
    Resized {
        /// New physical width in pixels.
        width: u32,
        /// New physical height in pixels.
        height: u32,
    },
    /// The device-pixel ratio changed, and with it the physical size.
    ScaleFactorChanged {
        /// New scale factor in milli-units; always positive.
        scale_factor: u32,
        /// New physical width in pixels.
        width: u32,
        /// New physical height in pixels.
        height: u32,
    },
    /// A pointer button was pressed or released.
    MouseInput {
        /// Which button changed.
        button: MouseButton,
        /// True on press, false on release.
        pressed: bool,
    },
    /// The wheel or touchpad scrolled.
    MouseWheel {
        /// The scroll amount.
        delta: ScrollDelta,
    },
    /// The pointer moved to the given physical position, in milli-pixels.
    CursorMoved {
        /// Horizontal physical position in milli-pixels.
        x: u64,
        /// Vertical physical position in milli-pixels.
        y: u64,
    },
    /// The pointer left the window.
    CursorLeft,
    /// The set of held modifier keys changed.
    ModifiersChanged(HostModifiers),
    /// A key was pressed or released.
    KeyboardInput {
        /// The key that changed.
        key: HostKey,
        /// True on press, false on release.
        pressed: bool,
        /// The text the key press decodes to, if any.
        text: Option<Vec<char>>,
    },
    /// Any other host notification; the bridge ignores it.
    Unhandled,
}

/// One normalized input event as the GUI consumes it.
#[derive(Clone, Debug, PartialEq, Eq)]
pub enum Event {
    /// The GUI should copy its selection to the clipboard.
    Copy,
    /// The GUI should cut its selection to the clipboard.
    Cut,
    /// Text input.
    Text(Vec<char>),
    /// A translated key press or release.
    Key {
        /// The translated key.
        key: Key,
        /// True on press, false on release.
        pressed: bool,
        /// The modifiers held when the key changed.
        modifiers: Modifiers,
    },
    /// The pointer moved to the given logical position.
    PointerMoved(Pos2),
    /// A pointer button changed at the given logical position.
    PointerButton {
        /// The last known logical pointer position.
        pos: Pos2,
        /// Which button changed.
        button: PointerButton,
        /// True on press, false on release.
        pressed: bool,
        /// The modifiers attached to the button event.
        modifiers: Modifiers,
    },
    /// The pointer is gone; hover and drags should end.
    PointerGone,
}

/// The mathematical value of an [`Event`]: the same shape, with text as
/// a sequence of characters.
pub enum EventModel {
    /// The GUI should copy its selection to the clipboard.
    Copy,
    /// The GUI should cut its selection to the clipboard.
    Cut,
    /// Text input.
    Text(Seq<char>),
    /// A translated key press or release.
    Key {
        /// The translated key.
        key: Key,
        /// True on press, false on release.
        pressed: bool,
        /// The modifiers held when the key changed.
        modifiers: Modifiers,
    },
    /// The pointer moved to the given logical position.
    PointerMoved(Pos2),
    /// A pointer button changed at the given logical position.
    PointerButton {
        /// The last known logical pointer position.
        pos: Pos2,
        /// Which button changed.
        button: PointerButton,
        /// True on press, false on release.
        pressed: bool,
        /// The modifiers attached to the button event.
        modifiers: Modifiers,
    },
    /// The pointer is gone; hover and drags should end.
    PointerGone,
}

impl View for Event {
    type V = EventModel;

    open spec fn view(&self) -> EventModel {
        match self {
            Event::Copy => EventModel::Copy,
            Event::Cut => EventModel::Cut,
            Event::Text(t) => EventModel::Text(t@),
            Event::Key { key, pressed, modifiers } => EventModel::Key {
                key: *key,
                pressed: *pressed,
                modifiers: *modifiers,
            },
            Event::PointerMoved(p) => EventModel::PointerMoved(*p),
            Event::PointerButton { pos, button, pressed, modifiers } => EventModel::PointerButton {
                pos: *pos,
                button: *button,
                pressed: *pressed,
                modifiers: *modifiers,
            },
            Event::PointerGone => EventModel::PointerGone,
        }
    }
}

/// The value of a sequence of events.
pub open spec fn events_view(events: Seq<Event>) -> Seq<EventModel> {
    events.map_values(|e: Event| e@)
}

/// Appending an event to a buffer appends its value to the buffer's
/// value.
pub proof fn lemma_events_view_push(events: Seq<Event>, e: Event)
    ensures
        events_view(events.push(e)) == events_view(events).push(e@),
{
    assert(events_view(events.push(e)) =~= events_view(events).push(e@));
}

/// The pending per-frame input: everything ingested since the last
/// frame began, plus the ambient fields the GUI reads each frame.
#[derive(Clone, Debug, PartialEq, Eq)]
pub struct RawInput {
    /// The logical screen rectangle, if it changed since the last frame.
    pub screen_rect: Option<Rect>,
    /// The scale factor in milli-units, if it changed since the last frame.
    pub pixels_per_point: Option<u32>,
    /// The scroll delta for this frame, in logical milli-points.
    pub scroll_delta: Vec2,
    /// Time since the host-chosen epoch, in nanoseconds, if the host set it.
    pub time: Option<u64>,
    /// The normalized input events, in ingestion order.
    pub events: Vec<Event>,
}

/// The mathematical value of a [`RawInput`].
#[verifier::ext_equal]
pub struct RawInputModel {
    /// The logical screen rectangle, if it changed since the last frame.
    pub screen_rect: Option<Rect>,
    /// The scale factor in milli-units, if it changed since the last frame.
    pub pixels_per_point: Option<u32>,
    /// The scroll delta for this frame, in logical milli-points.
    pub scroll_delta: Vec2,
    /// Time since the host-chosen epoch, in nanoseconds, if the host set it.
    pub time: Option<u64>,
    /// The normalized input events, in ingestion order.
    pub events: Seq<EventModel>,
}

impl View for RawInput {
    type V = RawInputModel;

    open spec fn view(&self) -> RawInputModel {
        RawInputModel {
            screen_rect: self.screen_rect,
            pixels_per_point: self.pixels_per_point,
            scroll_delta: self.scroll_delta,
            time: self.time,
            events: events_view(self.events@),
        }
    }
}

impl RawInputModel {
    /// The pending input a fresh bridge starts from, and what taking the
    /// pending input leaves behind: no ambient fields, no events.
    pub open spec fn spec_empty() -> RawInputModel {
        RawInputModel {
            screen_rect: None,
            pixels_per_point: None,
            scroll_delta: Vec2 { x: 0, y: 0 },
            time: None,
            events: Seq::empty(),
        }
    }
}

impl RawInput {
    /// Returns the empty pending input.
    pub fn empty() -> (r: RawInput)
        ensures
            r@ == RawInputModel::spec_empty(),
    {
        let r = RawInput {
            screen_rect: None,
            pixels_per_point: None,
            scroll_delta: Vec2 { x: 0, y: 0 },
            time: None,
            events: Vec::new(),
        };
        proof {
            assert(r@ =~= RawInputModel::spec_empty());
        }
        r
    }
}

} // verus!
