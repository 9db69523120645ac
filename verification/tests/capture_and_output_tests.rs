use egui_winit_platform::events::HostEvent;
use egui_winit_platform::events::HostKey;
use egui_winit_platform::events::HostModifiers;
use egui_winit_platform::events::Key;
use egui_winit_platform::events::MouseButton;
use egui_winit_platform::events::ScrollDelta;
use egui_winit_platform::keymap::filter_printable;
use egui_winit_platform::keymap::is_printable;
use egui_winit_platform::keymap::winit_to_egui_key_code;
use egui_winit_platform::keymap::winit_to_egui_modifiers;
use egui_winit_platform::output::wants_clipboard_write;
use egui_winit_platform::output::FrameOutput;
use egui_winit_platform::platform::GuiState;
use egui_winit_platform::platform::Platform;
use egui_winit_platform::platform::PlatformDescriptor;

fn platform() -> Platform {
    Platform::new(PlatformDescriptor {
        physical_width: 640,
        physical_height: 480,
        scale_factor: 1000,
    })
}

fn gui(keyboard: bool, pointer: bool, using_pointer: bool) -> GuiState {
    GuiState {
        wants_keyboard_input: keyboard,
        wants_pointer_input: pointer,
        is_using_pointer: using_pointer,
    }
}

#[test]
fn keyboard_events_defer_to_keyboard_interest() {
    let p = platform();
    let key = HostEvent::KeyboardInput {
        key: HostKey::Enter,
        pressed: true,
        text: None,
    };
    let mods = HostEvent::ModifiersChanged(HostModifiers {
        alt: false,
        ctrl: false,
        shift: false,
        logo: false,
    });
    assert!(p.captures_event(&key, gui(true, false, false)));
    assert!(!p.captures_event(&key, gui(false, true, true)));
    assert!(p.captures_event(&mods, gui(true, false, false)));
    assert!(!p.captures_event(&mods, gui(false, true, true)));
}

#[test]
fn pointer_events_defer_to_pointer_interest() {
    let p = platform();
    let wheel = HostEvent::MouseWheel {
        delta: ScrollDelta::LineDelta(0, 1000),
    };
    let button = HostEvent::MouseInput {
        button: MouseButton::Left,
        pressed: true,
    };
    assert!(p.captures_event(&wheel, gui(false, true, false)));
    assert!(!p.captures_event(&wheel, gui(true, false, true)));
    assert!(p.captures_event(&button, gui(false, true, false)));
    assert!(!p.captures_event(&button, gui(true, false, true)));
}

#[test]
fn cursor_move_defers_to_active_pointer_use() {
    let p = platform();
    let moved = HostEvent::CursorMoved { x: 1, y: 2 };
    assert!(p.captures_event(&moved, gui(false, false, true)));
    assert!(!p.captures_event(&moved, gui(true, true, false)));
}

#[test]
fn other_events_never_captured() {
    let p = platform();
    let all_wanted = gui(true, true, true);
    assert!(!p.captures_event(
        &HostEvent::Resized {
            width: 1,
            height: 1
        },
        all_wanted
    ));
    assert!(!p.captures_event(&HostEvent::CursorLeft, all_wanted));
    assert!(!p.captures_event(&HostEvent::Unhandled, all_wanted));
}

#[test]
fn clipboard_write_wanted_only_for_nonempty_text() {
    assert!(!wants_clipboard_write(&FrameOutput {
        copied_text: String::new(),
        open_url: None,
    }));
    assert!(wants_clipboard_write(&FrameOutput {
        copied_text: String::from("selection"),
        open_url: None,
    }));
}

#[test]
fn end_frame_leaves_bridge_state_unchanged() {
    let mut p = platform();
    p.handle_event(&HostEvent::CursorLeft, None);
    let before = p.raw_input().clone();
    p.end_frame(&FrameOutput {
        copied_text: String::from("kept for the caller to write"),
        open_url: None,
    });
    assert_eq!(p.raw_input(), &before);
    assert_eq!(p.scale_factor(), 1000);
}

#[test]
fn key_table_is_exactly_the_supported_set() {
    let named = [
        (HostKey::Escape, Key::Escape),
        (HostKey::Insert, Key::Insert),
        (HostKey::Home, Key::Home),
        (HostKey::Delete, Key::Delete),
        (HostKey::End, Key::End),
        (HostKey::PageDown, Key::PageDown),
        (HostKey::PageUp, Key::PageUp),
        (HostKey::ArrowLeft, Key::ArrowLeft),
        (HostKey::ArrowUp, Key::ArrowUp),
        (HostKey::ArrowRight, Key::ArrowRight),
        (HostKey::ArrowDown, Key::ArrowDown),
        (HostKey::Backspace, Key::Backspace),
        (HostKey::Enter, Key::Enter),
        (HostKey::Tab, Key::Tab),
        (HostKey::Space, Key::Space),
    ];
    for (host, expected) in named {
        assert_eq!(winit_to_egui_key_code(&host), Some(expected));
    }
    let letters = [
        ('a', Key::A),
        ('A', Key::A),
        ('k', Key::K),
        ('K', Key::K),
        ('u', Key::U),
        ('U', Key::U),
        ('w', Key::W),
        ('W', Key::W),
        ('z', Key::Z),
        ('Z', Key::Z),
    ];
    for (c, expected) in letters {
        assert_eq!(
            winit_to_egui_key_code(&HostKey::Character(vec![c])),
            Some(expected)
        );
    }
    assert_eq!(winit_to_egui_key_code(&HostKey::Character(vec!['b'])), None);
    assert_eq!(
        winit_to_egui_key_code(&HostKey::Character(vec!['a', 'a'])),
        None
    );
    assert_eq!(winit_to_egui_key_code(&HostKey::Character(vec![])), None);
    assert_eq!(winit_to_egui_key_code(&HostKey::Other), None);
}

#[test]
fn modifier_mapping_aliases_command_to_ctrl() {
    let m = winit_to_egui_modifiers(HostModifiers {
        alt: true,
        ctrl: true,
        shift: false,
        logo: true,
    });
    assert!(m.alt);
    assert!(m.ctrl);
    assert!(!m.shift);
    // No dedicated command key on this host: command aliases to ctrl.
    assert!(!m.mac_cmd);
    assert!(m.command);
    let none = winit_to_egui_modifiers(HostModifiers {
        alt: false,
        ctrl: false,
        shift: true,
        logo: false,
    });
    assert!(none.shift);
    assert!(!none.command);
}

#[test]
fn printability_boundaries() {
    assert!(is_printable('a'));
    assert!(is_printable(' '));
    // ASCII control characters.
    assert!(!is_printable('\u{0}'));
    assert!(!is_printable('\u{1f}'));
    assert!(!is_printable('\u{7f}'));
    assert!(is_printable('\u{80}'));
    // First private use area.
    assert!(!is_printable('\u{e000}'));
    assert!(!is_printable('\u{f8ff}'));
    assert!(is_printable('\u{f900}'));
    // Supplementary private use areas.
    assert!(is_printable('\u{effff}'));
    assert!(!is_printable('\u{f0000}'));
    assert!(!is_printable('\u{ffffd}'));
    assert!(is_printable('\u{ffffe}'));
    assert!(!is_printable('\u{100000}'));
    assert!(!is_printable('\u{10fffd}'));
    assert!(is_printable('\u{10ffff}'));
}

#[test]
fn filter_keeps_printable_characters_in_order() {
    assert_eq!(
        filter_printable(&vec!['x', '\u{3}', 'y', '\u{e001}', 'z']),
        vec!['x', 'y', 'z']
    );
    assert_eq!(filter_printable(&vec![]), Vec::<char>::new());
    assert_eq!(filter_printable(&vec!['\u{7f}']), Vec::<char>::new());
}
