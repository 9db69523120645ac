//! The bridge's laws: properties of the transition [`step`] that hold
//! for every state and every event, each stated and proved here as a
//! public proof function.
use vstd::prelude::*;

use crate::events::EventModel;
use crate::events::HostEvent;
use crate::events::HostKey;
use crate::events::HostModifiers;
use crate::events::PointerButton;
use crate::events::MouseButton;
use crate::events::ScrollDelta;
use crate::keymap::spec_filter_printable;
use crate::keymap::spec_is_printable;
use crate::keymap::spec_key_is_char;
use crate::platform::PlatformModel;
use crate::platform::emitted_events;
use crate::platform::next_scroll;
use crate::platform::spec_pointer_button;
use crate::platform::spec_rect;
use crate::platform::spec_scroll;
use crate::platform::spec_text_events;
use crate::platform::step;

verus! {

/// Law: after ingesting a resize, the pending logical screen rectangle
/// is the new physical size divided by the current scale factor; after
/// a scale-factor change, it is the new size divided by the new factor,
/// so a later factor change always recomputes the rectangle.
pub proof fn lemma_resize_screen_rect(
    m: PlatformModel,
    width: u32,
    height: u32,
    new_scale: u32,
    paste: Option<Seq<char>>,
)
    ensures
        step(m, HostEvent::Resized { width, height }, paste).raw_input.screen_rect == Some(
            spec_rect(width, height, m.scale_factor),
        ),
        step(
            m,
            HostEvent::ScaleFactorChanged { scale_factor: new_scale, width, height },
            paste,
        ).raw_input.screen_rect == Some(spec_rect(width, height, new_scale)),
        step(
            m,
            HostEvent::ScaleFactorChanged { scale_factor: new_scale, width, height },
            paste,
        ).scale_factor == new_scale,
{
}

/// Law: a recognized pointer-button event is appended carrying the
/// bridge's last known pointer position and empty modifiers.
pub proof fn lemma_button_carries_pointer(
    m: PlatformModel,
    button: MouseButton,
    b: PointerButton,
    pressed: bool,
    paste: Option<Seq<char>>,
)
    requires
        spec_pointer_button(button) == Some(b),
    ensures
        emitted_events(m, HostEvent::MouseInput { button, pressed }, paste) == seq![
            EventModel::PointerButton {
                pos: m.pointer_pos,
                button: b,
                pressed,
                modifiers: crate::events::Modifiers::spec_empty(),
            },
        ],
{
}

/// Law: only a pointer-move changes the last known pointer position, so
/// it persists across every other event and across the frame boundary,
/// and a button event after any such events still carries it.
pub proof fn lemma_pointer_position_persists(
    m: PlatformModel,
    ev: HostEvent,
    paste: Option<Seq<char>>,
)
    requires
        (!(ev is CursorMoved)),
    ensures
        step(m, ev, paste).pointer_pos == m.pointer_pos,
{
}

/// Law: the pending scroll delta is an idempotent overwrite. After two
/// wheel events in the same pending window, it equals the second
/// event's contribution alone.
pub proof fn lemma_scroll_overwrite(
    m: PlatformModel,
    first: ScrollDelta,
    second: ScrollDelta,
    paste1: Option<Seq<char>>,
    paste2: Option<Seq<char>>,
)
    ensures
        step(
            step(m, HostEvent::MouseWheel { delta: first }, paste1),
            HostEvent::MouseWheel { delta: second },
            paste2,
        ).raw_input.scroll_delta == spec_scroll(second),
        next_scroll(m, HostEvent::MouseWheel { delta: first }) == spec_scroll(first),
{
}

/// Law: ingestion only appends. The pending buffer after a step is the
/// buffer before it followed by exactly the events the step emits, so a
/// sequence of ingestions hands the GUI all their events in ingestion
/// order when the frame begins.
pub proof fn lemma_step_appends_events(m: PlatformModel, ev: HostEvent, paste: Option<Seq<char>>)
    ensures
        step(m, ev, paste).raw_input.events == m.raw_input.events + emitted_events(m, ev, paste),
        step(m, ev, paste).raw_input.events.len() == m.raw_input.events.len() + emitted_events(
            m,
            ev,
            paste,
        ).len(),
        forall|i: int|
            0 <= i < m.raw_input.events.len() ==> step(m, ev, paste).raw_input.events[i]
                == m.raw_input.events[i],
{
}

/// Law: a clipboard-shortcut key press (control with C, X or V) never
/// emits a translated [`EventModel::Key`] event beside its clipboard
/// action, and emits no text event either, since control is held.
pub proof fn lemma_clipboard_shortcut_no_key_event(
    m: PlatformModel,
    key: HostKey,
    text: Option<Vec<char>>,
    paste: Option<Seq<char>>,
)
    requires
        m.modifier_state.ctrl,
        spec_key_is_char(key, 'c', 'C') || spec_key_is_char(key, 'x', 'X') || spec_key_is_char(
            key,
            'v',
            'V',
        ),
    ensures
        forall|i: int|
            0 <= i < emitted_events(
                m,
                HostEvent::KeyboardInput { key, pressed: true, text },
                paste,
            ).len() ==> !((#[trigger] emitted_events(
                m,
                HostEvent::KeyboardInput { key, pressed: true, text },
                paste,
            )[i]) is Key),
{
    assert(spec_text_events(m.modifier_state, text) =~= Seq::<EventModel>::empty());
}

/// Law: a control-V key press whose clipboard read yielded nothing (an
/// absent clipboard, or a failed read) emits no event at all.
pub proof fn lemma_paste_without_clipboard_is_silent(
    m: PlatformModel,
    key: HostKey,
    text: Option<Vec<char>>,
)
    requires
        m.modifier_state.ctrl,
        spec_key_is_char(key, 'v', 'V'),
    ensures
        emitted_events(m, HostEvent::KeyboardInput { key, pressed: true, text }, None)
            == Seq::<EventModel>::empty(),
{
    let es = emitted_events(m, HostEvent::KeyboardInput { key, pressed: true, text }, None);
    assert(spec_text_events(m.modifier_state, text) =~= Seq::<EventModel>::empty());
    assert(es =~= Seq::<EventModel>::empty());
}

/// Law: decoded text is forwarded as a single text event holding
/// exactly its printable characters, in order; text with nothing
/// printable left emits no event. Every character of the forwarded
/// text satisfies the printability predicate.
pub proof fn lemma_text_events_filtered(mods: HostModifiers, t: Vec<char>)
    requires
        !mods.ctrl,
        !mods.logo,
    ensures
        spec_filter_printable(t@).len() > 0 ==> spec_text_events(mods, Some(t)) == seq![
            EventModel::Text(spec_filter_printable(t@)),
        ],
        spec_filter_printable(t@).len() == 0 ==> spec_text_events(mods, Some(t))
            == Seq::<EventModel>::empty(),
        forall|i: int|
            0 <= i < spec_filter_printable(t@).len() ==> spec_is_printable(
                #[trigger] spec_filter_printable(t@)[i],
            ),
{
    broadcast use vstd::seq_lib::group_filter_ensures;

}

} // verus!
