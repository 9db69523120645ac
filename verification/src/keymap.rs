//! Translation tables: host key codes to GUI key codes, host modifier
//! flags to GUI modifier flags, and the printable-character filter
//! applied to decoded text.
use vstd::prelude::*;

use crate::events::HostKey;
use crate::events::HostModifiers;
use crate::events::Key;
use crate::events::Modifiers;

verus! {

/// True when the key is a single character equal to `lower` or `upper`.
pub open spec fn spec_key_is_char(key: HostKey, lower: char, upper: char) -> bool {
    match key {
        HostKey::Character(c) => c@.len() == 1 && (c@[0] == lower || c@[0] == upper),
        _ => false,
    }
}

/// Reports whether the key is the given letter, compared without regard
/// to case.
pub fn key_is_char(key: &HostKey, lower: char, upper: char) -> (r: bool)
    ensures
        r == spec_key_is_char(*key, lower, upper),
{
    match key {
        HostKey::Character(c) => c.len() == 1 && (c[0] == lower || c[0] == upper),
        _ => false,
    }
}

/// The fixed key translation table. Keys outside it map to `None` and
/// are dropped by the bridge.
pub open spec fn spec_key_code(key: HostKey) -> Option<Key> {
    match key {
        HostKey::Escape => Some(Key::Escape),
        HostKey::Insert => Some(Key::Insert),
        HostKey::Home => Some(Key::Home),
        HostKey::Delete => Some(Key::Delete),
        HostKey::End => Some(Key::End),
        HostKey::PageDown => Some(Key::PageDown),
        HostKey::PageUp => Some(Key::PageUp),
        HostKey::ArrowLeft => Some(Key::ArrowLeft),
        HostKey::ArrowUp => Some(Key::ArrowUp),
        HostKey::ArrowRight => Some(Key::ArrowRight),
        HostKey::ArrowDown => Some(Key::ArrowDown),
        HostKey::Backspace => Some(Key::Backspace),
        HostKey::Enter => Some(Key::Enter),
        HostKey::Tab => Some(Key::Tab),
        HostKey::Space => Some(Key::Space),
        HostKey::Character(_) => {
            if spec_key_is_char(key, 'a', 'A') {
                Some(Key::A)
            } else if spec_key_is_char(key, 'k', 'K') {
                Some(Key::K)
            } else if spec_key_is_char(key, 'u', 'U') {
                Some(Key::U)
            } else if spec_key_is_char(key, 'w', 'W') {
                Some(Key::W)
            } else if spec_key_is_char(key, 'z', 'Z') {
                Some(Key::Z)
            } else {
                None
            }
        },
        HostKey::Other => None,
    }
}

/// Translates a host key code to a GUI key code by the fixed table.
pub fn winit_to_egui_key_code(key: &HostKey) -> (r: Option<Key>)
    ensures
        r == spec_key_code(*key),
{
    match key {
        HostKey::Escape => Some(Key::Escape),
        HostKey::Insert => Some(Key::Insert),
        HostKey::Home => Some(Key::Home),
        HostKey::Delete => Some(Key::Delete),
        HostKey::End => Some(Key::End),
        HostKey::PageDown => Some(Key::PageDown),
        HostKey::PageUp => Some(Key::PageUp),
        HostKey::ArrowLeft => Some(Key::ArrowLeft),
        HostKey::ArrowUp => Some(Key::ArrowUp),
        HostKey::ArrowRight => Some(Key::ArrowRight),
        HostKey::ArrowDown => Some(Key::ArrowDown),
        HostKey::Backspace => Some(Key::Backspace),
        HostKey::Enter => Some(Key::Enter),
        HostKey::Tab => Some(Key::Tab),
        HostKey::Space => Some(Key::Space),
        HostKey::Character(_) => {
            if key_is_char(key, 'a', 'A') {
                Some(Key::A)
            } else if key_is_char(key, 'k', 'K') {
                Some(Key::K)
            } else if key_is_char(key, 'u', 'U') {
                Some(Key::U)
            } else if key_is_char(key, 'w', 'W') {
                Some(Key::W)
            } else if key_is_char(key, 'z', 'Z') {
                Some(Key::Z)
            } else {
                None
            }
        },
        HostKey::Other => None,
    }
}

/// The modifier translation rule for hosts without a dedicated command
/// key: the primary shortcut modifier aliases to control, and the
/// dedicated command flag is never set.
pub open spec fn spec_modifiers(m: HostModifiers) -> Modifiers {
    Modifiers { alt: m.alt, ctrl: m.ctrl, shift: m.shift, mac_cmd: false, command: m.ctrl }
}

/// Translates host modifier flags to GUI modifier flags.
pub fn winit_to_egui_modifiers(m: HostModifiers) -> (r: Modifiers)
    ensures
        r == spec_modifiers(m),
{
    Modifiers { alt: m.alt, ctrl: m.ctrl, shift: m.shift, mac_cmd: false, command: m.ctrl }
}

/// True for characters that are forwarded as text input: everything but
/// ASCII control characters and the three Unicode private use areas.
pub open spec fn spec_is_printable(c: char) -> bool {
    let u = c as u32;
    let in_private_use_area = (0xE000 <= u && u <= 0xF8FF) || (0xF0000 <= u && u <= 0xFFFFD) || (
    0x100000 <= u && u <= 0x10FFFD);
    let is_ascii_control = u < 0x20 || u == 0x7F;
    !in_private_use_area && !is_ascii_control
}

/// Reports whether the character survives the text filter.
pub fn is_printable(c: char) -> (r: bool)
    ensures
        r == spec_is_printable(c),
{
    let u = c as u32;
    let in_private_use_area = (0xE000 <= u && u <= 0xF8FF) || (0xF0000 <= u && u <= 0xFFFFD) || (
    0x100000 <= u && u <= 0x10FFFD);
    let is_ascii_control = u < 0x20 || u == 0x7F;
    !in_private_use_area && !is_ascii_control
}

/// The text filter: exactly the printable characters of `text`, in
/// order.
pub open spec fn spec_filter_printable(text: Seq<char>) -> Seq<char> {
    text.filter(|c: char| spec_is_printable(c))
}

/// Keeps only the printable characters of `text`, in order.
pub fn filter_printable(text: &Vec<char>) -> (r: Vec<char>)
    ensures
        r@ == spec_filter_printable(text@),
{
    let mut r: Vec<char> = Vec::new();
    let mut i: usize = 0;
    proof {
        assert(text@.subrange(0, 0).filter(|c: char| spec_is_printable(c)) =~= Seq::empty());
    }
    while i < text.len()
        invariant
            i <= text@.len(),
            r@ == text@.subrange(0, i as int).filter(|c: char| spec_is_printable(c)),
        decreases text@.len() - i,
    {
        let c = text[i];
        proof {
            let pred = |c: char| spec_is_printable(c);
            let prefix = text@.subrange(0, i as int);
            let next = text@.subrange(0, i + 1);
            assert(next.drop_last() =~= prefix);
            assert(next.last() == c);
            reveal(Seq::filter);
            assert(next.filter(pred) == if pred(c) {
                prefix.filter(pred).push(c)
            } else {
                prefix.filter(pred)
            });
        }
        if is_printable(c) {
            r.push(c);
        }
        i = i + 1;
    }
    proof {
        assert(text@.subrange(0, text@.len() as int) =~= text@);
    }
    r
}

} // verus!
