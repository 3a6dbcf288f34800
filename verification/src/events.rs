use vstd::prelude::*;
use vstd::std_specs::convert::FromSpecImpl;

verus! {

/// A navigation request from the preview chrome or the menu.
#[derive(Debug, Clone, Copy, PartialEq, Eq, Structural)]
pub enum NavCommand {
    Back,
    Forward,
    Home,
    Reload,
}

/// A message that the preview chrome posts over IPC.
#[derive(Debug)]
pub enum IpcMessage {
    Nav(NavCommand),
    Reveal(String),
    CopySource(String),
    LiveReload(bool),
    Devtools(bool),
    InspectorPrefs(String),
    Layout(String),
    Location(String),
    Drag,
    Zoom,
    PickFolder,
}

/// An event that reaches the preview window's loop.
#[derive(Debug)]
pub enum PreviewEvent {
    Command(NavCommand),
    Reveal(String),
    CopySource(String),
    LiveReload(bool),
    Devtools(bool),
    InspectorPrefs(String),
    Layout(String),
    Location(String),
    Drag,
    Zoom,
    Loaded(String),
    Title(String),
    PickFolder,
    PickFolderResult(Option<String>),
    Navigate { url: String, title: String, inspector_url: Option<String> },
    Evaluate(String),
}

/// Where a host application hands preview events back to the window.
pub trait PreviewSink: Send + Sync {
    fn send(&self, event: PreviewEvent);
}

/// The preview event that an IPC message stands for: each message becomes the
/// event of the same name, with its payload unchanged.
pub open spec fn event_of_message(message: IpcMessage) -> PreviewEvent {
    match message {
        IpcMessage::Nav(command) => PreviewEvent::Command(command),
        IpcMessage::Reveal(path) => PreviewEvent::Reveal(path),
        IpcMessage::CopySource(path) => PreviewEvent::CopySource(path),
        IpcMessage::LiveReload(enabled) => PreviewEvent::LiveReload(enabled),
        IpcMessage::Devtools(open) => PreviewEvent::Devtools(open),
        IpcMessage::InspectorPrefs(json) => PreviewEvent::InspectorPrefs(json),
        IpcMessage::Layout(json) => PreviewEvent::Layout(json),
        IpcMessage::Location(url) => PreviewEvent::Location(url),
        IpcMessage::Drag => PreviewEvent::Drag,
        IpcMessage::Zoom => PreviewEvent::Zoom,
        IpcMessage::PickFolder => PreviewEvent::PickFolder,
    }
}

impl From<IpcMessage> for PreviewEvent {
    fn from(message: IpcMessage) -> (event: Self) {
        match message {
            IpcMessage::Nav(command) => Self::Command(command),
            IpcMessage::Reveal(path) => Self::Reveal(path),
            IpcMessage::CopySource(path) => Self::CopySource(path),
            IpcMessage::LiveReload(enabled) => Self::LiveReload(enabled),
            IpcMessage::Devtools(open) => Self::Devtools(open),
            IpcMessage::InspectorPrefs(json) => Self::InspectorPrefs(json),
            IpcMessage::Layout(json) => Self::Layout(json),
            IpcMessage::Location(url) => Self::Location(url),
            IpcMessage::Drag => Self::Drag,
            IpcMessage::Zoom => Self::Zoom,
            IpcMessage::PickFolder => Self::PickFolder,
        }
    }
}

impl FromSpecImpl<IpcMessage> for PreviewEvent {
    open spec fn obeys_from_spec() -> bool {
        true
    }

    open spec fn from_spec(v: IpcMessage) -> PreviewEvent {
        event_of_message(v)
    }
}

/// The physical key of a key press, as far as the window's shortcuts read it:
/// a letter key by its upper-case letter, or any other key.
#[derive(Debug, Clone, Copy, PartialEq, Eq, Structural)]
pub enum KeyCode {
    Letter(char),
    Other,
}

/// Which modifier keys are held.
#[derive(Debug, Clone, Copy, PartialEq, Eq, Structural)]
pub struct Modifiers {
    pub shift: bool,
    pub control: bool,
    pub alt: bool,
    pub super_key: bool,
}

/// Whether a key went down or up.
#[derive(Debug, Clone, Copy, PartialEq, Eq, Structural)]
pub enum ElementState {
    Pressed,
    Released,
}

/// A keyboard event, as far as the window's shortcuts read it.
#[derive(Debug, Clone, Copy, PartialEq, Eq, Structural)]
pub struct KeyEvent {
    pub physical_key: KeyCode,
    pub state: ElementState,
    pub repeat: bool,
}

/// The platform whose shortcut conventions apply.
#[derive(Debug, Clone, Copy, PartialEq, Eq, Structural)]
pub enum Platform {
    MacOs,
    Other,
}

/// The modifiers that close a window: Command alone on macOS, Control alone elsewhere.
pub open spec fn is_close_modifier(modifiers: Modifiers, platform: Platform) -> bool {
    match platform {
        Platform::MacOs => modifiers.super_key && !modifiers.control && !modifiers.alt && !modifiers.shift,
        Platform::Other => modifiers.control && !modifiers.super_key && !modifiers.alt && !modifiers.shift,
    }
}

/// W together with the platform's close modifier, and no other modifier.
pub open spec fn is_close_combination(key: KeyCode, modifiers: Modifiers, platform: Platform) -> bool {
    key == KeyCode::Letter('W') && is_close_modifier(modifiers, platform)
}

/// A fresh press (not a key repeat) of the close combination.
pub open spec fn is_close_press(event: KeyEvent, modifiers: Modifiers, platform: Platform) -> bool {
    &&& event.state == ElementState::Pressed
    &&& !event.repeat
    &&& is_close_combination(event.physical_key, modifiers, platform)
}

/// Whether the held modifiers are the platform's close modifier and nothing else.
pub fn close_modifier(modifiers: Modifiers, platform: Platform) -> (closes: bool)
    ensures
        closes == is_close_modifier(modifiers, platform),
{
    match platform {
        Platform::MacOs => modifiers.super_key && !modifiers.control && !modifiers.alt && !modifiers.shift,
        Platform::Other => modifiers.control && !modifiers.super_key && !modifiers.alt && !modifiers.shift,
    }
}

/// Whether `key` with `modifiers` is the close-window shortcut (Cmd+W on macOS,
/// Ctrl+W elsewhere).
pub fn is_close_shortcut(key: KeyCode, modifiers: Modifiers, platform: Platform) -> (closes: bool)
    ensures
        closes == is_close_combination(key, modifiers, platform),
{
    key == KeyCode::Letter('W') && close_modifier(modifiers, platform)
}

/// Whether a keyboard event is a fresh press of the close-window shortcut.
pub fn is_close_key_event(event: &KeyEvent, modifiers: Modifiers, platform: Platform) -> (closes: bool)
    ensures
        closes == is_close_press(*event, modifiers, platform),
{
    event.state == ElementState::Pressed && !event.repeat && is_close_shortcut(
        event.physical_key,
        modifiers,
        platform,
    )
}

/// No set of held modifiers closes the window on both platforms: the macOS
/// shortcut needs Command without Control, the other needs Control without Command.
pub proof fn lemma_close_modifier_is_platform_specific(modifiers: Modifiers)
    ensures
        !(is_close_modifier(modifiers, Platform::MacOs) && is_close_modifier(modifiers, Platform::Other)),
{
}

/// Adding Shift or Alt to a close shortcut, or pressing no modifier, never closes.
pub proof fn lemma_extra_modifier_never_closes(key: KeyCode, modifiers: Modifiers, platform: Platform)
    ensures
        (modifiers.shift || modifiers.alt) ==> !is_close_combination(key, modifiers, platform),
        (!modifiers.shift && !modifiers.alt && !modifiers.control && !modifiers.super_key)
            ==> !is_close_combination(key, modifiers, platform),
{
}

/// Key repeats and key releases never close the window.
pub proof fn lemma_only_fresh_presses_close(event: KeyEvent, modifiers: Modifiers, platform: Platform)
    ensures
        event.repeat ==> !is_close_press(event, modifiers, platform),
        event.state == ElementState::Released ==> !is_close_press(event, modifiers, platform),
{
}

/// Only W closes the window: for every other key, whatever modifiers are held
/// and whatever the platform, neither the combination nor a press of it closes.
pub proof fn lemma_only_w_closes(key: KeyCode, modifiers: Modifiers, platform: Platform, event: KeyEvent)
    ensures
        key != KeyCode::Letter('W') ==> !is_close_combination(key, modifiers, platform),
        event.physical_key != KeyCode::Letter('W') ==> !is_close_press(event, modifiers, platform),
{
}

/// The close modifier is exactly one held key: Command alone on macOS and
/// Control alone elsewhere, and W with it closes the window.
pub proof fn lemma_close_modifier_is_exactly_one_key(modifiers: Modifiers)
    ensures
        is_close_modifier(modifiers, Platform::MacOs) <==> modifiers == (Modifiers {
            shift: false,
            control: false,
            alt: false,
            super_key: true,
        }),
        is_close_modifier(modifiers, Platform::Other) <==> modifiers == (Modifiers {
            shift: false,
            control: true,
            alt: false,
            super_key: false,
        }),
        is_close_combination(
            KeyCode::Letter('W'),
            Modifiers { shift: false, control: false, alt: false, super_key: true },
            Platform::MacOs,
        ),
        is_close_combination(
            KeyCode::Letter('W'),
            Modifiers { shift: false, control: true, alt: false, super_key: false },
            Platform::Other,
        ),
{
}

/// A fresh press of W with the platform's close modifier closes the window.
pub proof fn lemma_fresh_close_press_closes(modifiers: Modifiers, platform: Platform)
    requires
        is_close_modifier(modifiers, platform),
    ensures
        is_close_press(
            KeyEvent { physical_key: KeyCode::Letter('W'), state: ElementState::Pressed, repeat: false },
            modifiers,
            platform,
        ),
{
}

/// Each IPC message becomes the preview event of the same name, with its payload unchanged.
pub proof fn lemma_messages_keep_name_and_payload(command: NavCommand, text: String, flag: bool)
    ensures
        event_of_message(IpcMessage::Nav(command)) == PreviewEvent::Command(command),
        event_of_message(IpcMessage::Reveal(text)) == PreviewEvent::Reveal(text),
        event_of_message(IpcMessage::CopySource(text)) == PreviewEvent::CopySource(text),
        event_of_message(IpcMessage::LiveReload(flag)) == PreviewEvent::LiveReload(flag),
        event_of_message(IpcMessage::Devtools(flag)) == PreviewEvent::Devtools(flag),
        event_of_message(IpcMessage::InspectorPrefs(text)) == PreviewEvent::InspectorPrefs(text),
        event_of_message(IpcMessage::Layout(text)) == PreviewEvent::Layout(text),
        event_of_message(IpcMessage::Location(text)) == PreviewEvent::Location(text),
        event_of_message(IpcMessage::Drag) == PreviewEvent::Drag,
        event_of_message(IpcMessage::Zoom) == PreviewEvent::Zoom,
        event_of_message(IpcMessage::PickFolder) == PreviewEvent::PickFolder,
{
}

} // verus!
