use h35_desktop::events::{
    close_modifier, is_close_key_event, is_close_shortcut, ElementState, IpcMessage, KeyCode,
    KeyEvent, Modifiers, NavCommand, Platform, PreviewEvent,
};

fn mods(shift: bool, control: bool, alt: bool, super_key: bool) -> Modifiers {
    Modifiers { shift, control, alt, super_key }
}

const EMPTY: Modifiers = Modifiers { shift: false, control: false, alt: false, super_key: false };
const SUPER: Modifiers = Modifiers { shift: false, control: false, alt: false, super_key: true };
const CONTROL: Modifiers = Modifiers { shift: false, control: true, alt: false, super_key: false };
const W: KeyCode = KeyCode::Letter('W');
const N: KeyCode = KeyCode::Letter('N');

#[test]
fn close_shortcut_uses_platform_modifier() {
    let mac = Platform::MacOs;
    assert!(is_close_shortcut(W, SUPER, mac));
    assert!(!is_close_shortcut(W, CONTROL, mac));
    assert!(!is_close_shortcut(W, mods(true, false, false, true), mac));
    assert!(!is_close_shortcut(W, mods(false, true, false, true), mac));

    let other = Platform::Other;
    assert!(is_close_shortcut(W, CONTROL, other));
    assert!(!is_close_shortcut(W, SUPER, other));
    assert!(!is_close_shortcut(W, mods(true, true, false, false), other));
    assert!(!is_close_shortcut(W, mods(false, true, true, false), other));

    for platform in [mac, other] {
        assert!(!is_close_shortcut(N, SUPER, platform));
        assert!(!is_close_shortcut(W, EMPTY, platform));
    }
}

#[test]
fn close_modifier_rejects_every_extra_modifier() {
    assert!(close_modifier(SUPER, Platform::MacOs));
    assert!(close_modifier(CONTROL, Platform::Other));
    assert!(!close_modifier(mods(false, false, true, true), Platform::MacOs));
    assert!(!close_modifier(mods(false, true, true, false), Platform::Other));
    assert!(!close_modifier(EMPTY, Platform::MacOs));
    assert!(!close_modifier(EMPTY, Platform::Other));
}

#[test]
fn no_modifiers_close_on_both_platforms() {
    for bits in 0u8..16 {
        let m = mods(bits & 1 != 0, bits & 2 != 0, bits & 4 != 0, bits & 8 != 0);
        assert!(!(close_modifier(m, Platform::MacOs) && close_modifier(m, Platform::Other)));
    }
}

#[test]
fn only_fresh_presses_close() {
    let press = KeyEvent { physical_key: W, state: ElementState::Pressed, repeat: false };
    let repeat = KeyEvent { physical_key: W, state: ElementState::Pressed, repeat: true };
    let release = KeyEvent { physical_key: W, state: ElementState::Released, repeat: false };
    assert!(is_close_key_event(&press, CONTROL, Platform::Other));
    assert!(!is_close_key_event(&repeat, CONTROL, Platform::Other));
    assert!(!is_close_key_event(&release, CONTROL, Platform::Other));
    assert!(is_close_key_event(&press, SUPER, Platform::MacOs));
    assert!(!is_close_key_event(&press, CONTROL, Platform::MacOs));
    let other_key = KeyEvent { physical_key: KeyCode::Other, state: ElementState::Pressed, repeat: false };
    assert!(!is_close_key_event(&other_key, CONTROL, Platform::Other));
}

#[test]
fn ipc_messages_become_events_of_the_same_name() {
    assert!(matches!(
        PreviewEvent::from(IpcMessage::Nav(NavCommand::Back)),
        PreviewEvent::Command(NavCommand::Back)
    ));
    assert!(matches!(
        PreviewEvent::from(IpcMessage::Reveal("src/a.rs:3".to_string())),
        PreviewEvent::Reveal(p) if p == "src/a.rs:3"
    ));
    assert!(matches!(
        PreviewEvent::from(IpcMessage::CopySource("b.rs".to_string())),
        PreviewEvent::CopySource(p) if p == "b.rs"
    ));
    assert!(matches!(PreviewEvent::from(IpcMessage::LiveReload(false)), PreviewEvent::LiveReload(false)));
    assert!(matches!(PreviewEvent::from(IpcMessage::Devtools(true)), PreviewEvent::Devtools(true)));
    assert!(matches!(
        PreviewEvent::from(IpcMessage::InspectorPrefs("{}".to_string())),
        PreviewEvent::InspectorPrefs(j) if j == "{}"
    ));
    assert!(matches!(
        PreviewEvent::from(IpcMessage::Layout("[1]".to_string())),
        PreviewEvent::Layout(j) if j == "[1]"
    ));
    assert!(matches!(
        PreviewEvent::from(IpcMessage::Location("http://x/".to_string())),
        PreviewEvent::Location(u) if u == "http://x/"
    ));
    assert!(matches!(PreviewEvent::from(IpcMessage::Drag), PreviewEvent::Drag));
    assert!(matches!(PreviewEvent::from(IpcMessage::Zoom), PreviewEvent::Zoom));
    assert!(matches!(PreviewEvent::from(IpcMessage::PickFolder), PreviewEvent::PickFolder));
}
