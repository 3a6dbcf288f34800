use h35_desktop::events::{
    ElementState, IpcMessage, KeyCode, KeyEvent, Modifiers, NavCommand, Platform, PreviewEvent,
};
use h35_desktop::preview::{
    apply_command, build_init_script, route_ipc_message, Effect, IpcRoute, MenuCommand, Overlay, Session,
    SessionInput, WebviewOp,
};

fn session() -> Session {
    Session::new(Platform::Other, "Docs".to_string(), None, true, true, true, true)
}

fn is_exit(effects: &[Effect]) -> bool {
    matches!(effects, [Effect::PersistWindowState, Effect::Exit])
}

#[test]
fn close_requests_persist_then_exit() {
    let mut s = session();
    assert!(is_exit(&s.handle_event(SessionInput::CloseRequested)));
    assert!(is_exit(&s.handle_event(SessionInput::Menu(Some(MenuCommand::Quit)))));
    assert!(is_exit(&s.handle_event(SessionInput::Menu(Some(MenuCommand::CloseWindow)))));
}

#[test]
fn close_key_uses_reported_modifiers() {
    let mut s = session();
    let press = KeyEvent { physical_key: KeyCode::Letter('W'), state: ElementState::Pressed, repeat: false };
    assert!(s.handle_event(SessionInput::KeyboardInput(press)).is_empty());
    let control = Modifiers { shift: false, control: true, alt: false, super_key: false };
    assert!(s.handle_event(SessionInput::ModifiersChanged(control)).is_empty());
    assert_eq!(s.modifiers, control);
    assert!(is_exit(&s.handle_event(SessionInput::KeyboardInput(press))));
    let repeat = KeyEvent { repeat: true, ..press };
    assert!(s.handle_event(SessionInput::KeyboardInput(repeat)).is_empty());
}

#[test]
fn moves_persist_at_most_every_interval() {
    let mut s = session();
    let quick = s.handle_event(SessionInput::MovedOrResized { millis_since_persist: 249 });
    assert!(matches!(quick.as_slice(), [Effect::SyncUnifiedChrome]));
    let late = s.handle_event(SessionInput::MovedOrResized { millis_since_persist: 250 });
    assert!(matches!(
        late.as_slice(),
        [Effect::SyncUnifiedChrome, Effect::PersistWindowState, Effect::RestartPersistTimer]
    ));
}

#[test]
fn title_and_navigation_update_the_session() {
    let mut s = session();
    let effects = s.handle_event(SessionInput::Preview(PreviewEvent::Title("Guide".to_string())));
    assert_eq!(s.title, "Guide");
    assert!(matches!(
        effects.as_slice(),
        [Effect::SetWindowTitle(t), Effect::Overlay(Overlay::UpdateTitle(u))] if t == "Guide" && u == "Guide"
    ));
    let effects = s.handle_event(SessionInput::Preview(PreviewEvent::Navigate {
        url: "http://localhost:9000/".to_string(),
        title: "Other".to_string(),
        inspector_url: Some("http://localhost:9001/".to_string()),
    }));
    assert_eq!(s.title, "Other");
    assert_eq!(s.inspector_url.as_deref(), Some("http://localhost:9001/"));
    assert!(matches!(
        effects.as_slice(),
        [Effect::ResetOrigin(a), Effect::LoadUrl(b), Effect::SetWindowTitle(t), Effect::Overlay(Overlay::SetInspector(i))]
            if a == "http://localhost:9000/" && b == a && t == "Other" && i == "http://localhost:9001/"
    ));
    s.handle_event(SessionInput::Preview(PreviewEvent::Navigate {
        url: "http://localhost:9002/".to_string(),
        title: "Third".to_string(),
        inspector_url: None,
    }));
    assert_eq!(s.inspector_url.as_deref(), Some("http://localhost:9001/"));
}

#[test]
fn loaded_pages_commit_unless_inspector() {
    let mut s = session();
    let effects = s.handle_event(SessionInput::Preview(PreviewEvent::Loaded("http://a/".to_string())));
    assert!(matches!(effects.as_slice(), [Effect::ClassifyLoaded { url, inspector_url: None }] if url == "http://a/"));
    let effects = s.handle_event(SessionInput::PageLoaded { url: "http://a/".to_string(), inspector_document: true });
    assert!(effects.is_empty());
    let effects = s.handle_event(SessionInput::PageLoaded { url: "http://a/".to_string(), inspector_document: false });
    assert!(matches!(
        effects.as_slice(),
        [Effect::CommitHistory(a), Effect::NotifyNavigate(b), Effect::SyncChrome(t), Effect::SyncUnifiedChrome]
            if a == "http://a/" && b == a && t == "Docs"
    ));
    let mut quiet = Session::new(Platform::Other, "Docs".to_string(), None, true, true, true, false);
    let effects = quiet.handle_event(SessionInput::Preview(PreviewEvent::Location("http://b/".to_string())));
    assert!(matches!(effects.as_slice(), [Effect::CommitHistory(a), Effect::SyncChrome(_)] if a == "http://b/"));
}

#[test]
fn configuration_gates_requests() {
    let mut locked = Session::new(Platform::MacOs, "Docs".to_string(), None, false, false, false, false);
    assert!(locked.handle_event(SessionInput::Preview(PreviewEvent::Devtools(true))).is_empty());
    assert!(locked.handle_event(SessionInput::Preview(PreviewEvent::Reveal("a.rs".to_string()))).is_empty());
    assert!(locked.handle_event(SessionInput::Preview(PreviewEvent::CopySource("a.rs".to_string()))).is_empty());
    assert!(locked.handle_event(SessionInput::Menu(Some(MenuCommand::CheckUpdates))).is_empty());
    assert!(matches!(
        locked.handle_event(SessionInput::Menu(Some(MenuCommand::WebInspector))).as_slice(),
        [Effect::ToggleDevtools]
    ));
    let mut open = session();
    assert!(matches!(
        open.handle_event(SessionInput::Preview(PreviewEvent::Devtools(false))).as_slice(),
        [Effect::SetDevtoolsOpen(false)]
    ));
    assert!(matches!(
        open.handle_event(SessionInput::Preview(PreviewEvent::Reveal("a.rs".to_string()))).as_slice(),
        [Effect::RevealSource(p)] if p == "a.rs"
    ));
    assert!(matches!(
        open.handle_event(SessionInput::Menu(Some(MenuCommand::CheckUpdates))).as_slice(),
        [Effect::CheckForUpdates]
    ));
}

#[test]
fn menu_commands_map_to_effects() {
    let mut s = session();
    assert!(matches!(
        s.handle_event(SessionInput::Menu(Some(MenuCommand::Back))).as_slice(),
        [Effect::ApplyCommand(NavCommand::Back)]
    ));
    assert!(matches!(
        s.handle_event(SessionInput::Menu(Some(MenuCommand::GoToFile))).as_slice(),
        [Effect::Overlay(Overlay::GotoOpen)]
    ));
    assert!(matches!(
        s.handle_event(SessionInput::Menu(Some(MenuCommand::UseSelection))).as_slice(),
        [Effect::Overlay(Overlay::FindUseSelection)]
    ));
    assert!(s.handle_event(SessionInput::Menu(None)).is_empty());
    assert!(s.handle_event(SessionInput::Other).is_empty());
    assert!(matches!(
        s.handle_event(SessionInput::Init).as_slice(),
        [Effect::ApplyHostIcon, Effect::RealizeUnifiedChrome]
    ));
}

#[test]
fn navigation_commands() {
    assert!(matches!(
        apply_command(NavCommand::Back, true, "http://home/"),
        Some(WebviewOp::EvaluateScript(s)) if s == "history.back()"
    ));
    assert!(apply_command(NavCommand::Back, false, "http://home/").is_none());
    assert!(matches!(
        apply_command(NavCommand::Forward, true, "http://home/"),
        Some(WebviewOp::EvaluateScript(s)) if s == "history.forward()"
    ));
    assert!(apply_command(NavCommand::Forward, false, "http://home/").is_none());
    assert!(matches!(
        apply_command(NavCommand::Home, false, "http://home/"),
        Some(WebviewOp::LoadUrl(u)) if u == "http://home/"
    ));
    assert!(matches!(apply_command(NavCommand::Reload, false, ""), Some(WebviewOp::Reload)));
}

#[test]
fn init_script_appends_host_script() {
    assert_eq!(build_init_script("base();".to_string(), None), "base();");
    assert_eq!(build_init_script("base();".to_string(), Some("extra();")), "base();\nextra();");
    assert_eq!(build_init_script(String::new(), Some("")), "\n");
}

#[test]
fn ipc_requests_are_routed() {
    assert!(matches!(route_ipc_message(Some(IpcMessage::Drag), Platform::MacOs), IpcRoute::BeginToolbarDrag));
    assert!(matches!(
        route_ipc_message(Some(IpcMessage::Drag), Platform::Other),
        IpcRoute::Send(PreviewEvent::Drag)
    ));
    assert!(matches!(
        route_ipc_message(Some(IpcMessage::Nav(NavCommand::Home)), Platform::MacOs),
        IpcRoute::Send(PreviewEvent::Command(NavCommand::Home))
    ));
    assert!(matches!(
        route_ipc_message(Some(IpcMessage::Location("http://a/".to_string())), Platform::Other),
        IpcRoute::Send(PreviewEvent::Location(u)) if u == "http://a/"
    ));
    assert!(matches!(route_ipc_message(None, Platform::Other), IpcRoute::Host));
}
