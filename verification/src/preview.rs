use vstd::prelude::*;

use crate::events::{
    event_of_message, is_close_key_event, is_close_press, IpcMessage, KeyCode, KeyEvent, Modifiers,
    NavCommand, Platform, PreviewEvent,
};

verus! {

/// A command picked from the preview window's menu.
#[derive(Debug, Clone, Copy, PartialEq, Eq, Structural)]
pub enum MenuCommand {
    CloseWindow,
    Quit,
    Back,
    Forward,
    Home,
    Reload,
    LiveReload,
    WebInspector,
    Find,
    FindNext,
    FindPrevious,
    UseSelection,
    GoToFile,
    OpenPicker,
    SelectAll,
    CheckUpdates,
}

/// A script of the preview chrome to run in the page.
#[derive(Debug)]
pub enum Overlay {
    /// Set the page's live-reload switch to the menu item's check mark.
    LiveReloadFromMenu,
    FindOpen,
    FindNext,
    FindPrevious,
    FindUseSelection,
    GotoOpen,
    PickerOpen,
    SelectAll,
    /// Report the folder that the picker returned, if any.
    PickFolderResult(Option<String>),
    /// Show this title in the chrome.
    UpdateTitle(String),
    /// Point the chrome's inspector at this URL.
    SetInspector(String),
    /// Run this script as given.
    Script(String),
}

/// Work that the window loop performs on the session's behalf, in order.
#[derive(Debug)]
pub enum Effect {
    ApplyHostIcon,
    RealizeUnifiedChrome,
    SyncUnifiedChrome,
    /// Save the window's position, size and layout.
    PersistWindowState,
    /// Start counting the time since the window state was last saved anew.
    RestartPersistTimer,
    /// Leave the window loop.
    Exit,
    /// Carry out a navigation command (see `apply_command`).
    ApplyCommand(NavCommand),
    Overlay(Overlay),
    ToggleDevtools,
    /// Open the devtools when `true`, close them when `false`, if they are not so already.
    SetDevtoolsOpen(bool),
    CheckForUpdates,
    RevealSource(String),
    CopySource(String),
    SetLiveReloadChecked(bool),
    SaveInspectorPrefs(String),
    MergeLayout(String),
    DragWindow,
    ToggleMaximized,
    StartPickFolder,
    /// Find out whether the loaded page is the inspector's own document, and
    /// answer with `SessionInput::PageLoaded`.
    ClassifyLoaded { url: String, inspector_url: Option<String> },
    /// Record a committed navigation in the history.
    CommitHistory(String),
    /// Tell the host application's navigation handler.
    NotifyNavigate(String),
    /// Redraw the chrome with this title and the history's state.
    SyncChrome(String),
    SetWindowTitle(String),
    ResetOrigin(String),
    LoadUrl(String),
}

/// What the window loop hands to the session.
#[derive(Debug)]
pub enum SessionInput {
    /// The loop started.
    Init,
    RedrawEventsCleared,
    CloseRequested,
    /// The window moved or was resized; the window state was last saved this long ago.
    MovedOrResized { millis_since_persist: u64 },
    ModifiersChanged(Modifiers),
    KeyboardInput(KeyEvent),
    /// A menu item was picked; `None` for an item that is none of the known commands.
    Menu(Option<MenuCommand>),
    Preview(PreviewEvent),
    /// The answer to `Effect::ClassifyLoaded`.
    PageLoaded { url: String, inspector_document: bool },
    /// Any other window event.
    Other,
}

/// The state of one preview window that its decisions read.
#[derive(Debug)]
pub struct Session {
    pub platform: Platform,
    /// The modifier keys last reported as held.
    pub modifiers: Modifiers,
    pub title: String,
    pub inspector_url: Option<String>,
    pub devtools_enabled: bool,
    pub has_source_root: bool,
    pub has_updater: bool,
    pub has_navigate_handler: bool,
}

/// The time after which a move or resize saves the window state again.
pub const PERSIST_INTERVAL_MILLIS: u64 = 250;

/// The effects of leaving the window: save its state, then exit.
pub open spec fn exit_effects() -> Seq<Effect> {
    seq![Effect::PersistWindowState, Effect::Exit]
}

/// The effects of committing a navigation to `url` while the window shows `title`.
pub open spec fn commit_effects(s: Session, url: String) -> Seq<Effect> {
    let notify = if s.has_navigate_handler {
        seq![Effect::NotifyNavigate(url)]
    } else {
        seq![]
    };
    seq![Effect::CommitHistory(url)] + notify + seq![Effect::SyncChrome(s.title)]
}

/// The effects of a menu command.
pub open spec fn menu_effects(s: Session, command: Option<MenuCommand>) -> Seq<Effect> {
    match command {
        Some(MenuCommand::CloseWindow) | Some(MenuCommand::Quit) => exit_effects(),
        Some(MenuCommand::Back) => seq![Effect::ApplyCommand(NavCommand::Back)],
        Some(MenuCommand::Forward) => seq![Effect::ApplyCommand(NavCommand::Forward)],
        Some(MenuCommand::Home) => seq![Effect::ApplyCommand(NavCommand::Home)],
        Some(MenuCommand::Reload) => seq![Effect::ApplyCommand(NavCommand::Reload)],
        Some(MenuCommand::LiveReload) => seq![Effect::Overlay(Overlay::LiveReloadFromMenu)],
        Some(MenuCommand::WebInspector) => seq![Effect::ToggleDevtools],
        Some(MenuCommand::Find) => seq![Effect::Overlay(Overlay::FindOpen)],
        Some(MenuCommand::FindNext) => seq![Effect::Overlay(Overlay::FindNext)],
        Some(MenuCommand::FindPrevious) => seq![Effect::Overlay(Overlay::FindPrevious)],
        Some(MenuCommand::UseSelection) => seq![Effect::Overlay(Overlay::FindUseSelection)],
        Some(MenuCommand::GoToFile) => seq![Effect::Overlay(Overlay::GotoOpen)],
        Some(MenuCommand::OpenPicker) => seq![Effect::Overlay(Overlay::PickerOpen)],
        Some(MenuCommand::SelectAll) => seq![Effect::Overlay(Overlay::SelectAll)],
        Some(MenuCommand::CheckUpdates) => if s.has_updater {
            seq![Effect::CheckForUpdates]
        } else {
            seq![]
        },
        None => seq![],
    }
}

/// The next state and the effects of a preview event.
pub open spec fn preview_step(s: Session, event: PreviewEvent) -> (Session, Seq<Effect>) {
    match event {
        PreviewEvent::Command(command) => (s, seq![Effect::ApplyCommand(command)]),
        PreviewEvent::Reveal(spec) => (s, if s.has_source_root {
            seq![Effect::RevealSource(spec)]
        } else {
            seq![]
        }),
        PreviewEvent::CopySource(spec) => (s, if s.has_source_root {
            seq![Effect::CopySource(spec)]
        } else {
            seq![]
        }),
        PreviewEvent::LiveReload(enabled) => (s, seq![Effect::SetLiveReloadChecked(enabled)]),
        PreviewEvent::Devtools(open) => (s, if s.devtools_enabled {
            seq![Effect::SetDevtoolsOpen(open)]
        } else {
            seq![]
        }),
        PreviewEvent::InspectorPrefs(json) => (s, seq![Effect::SaveInspectorPrefs(json)]),
        PreviewEvent::Layout(json) => (s, seq![Effect::MergeLayout(json)]),
        PreviewEvent::Drag => (s, seq![Effect::DragWindow]),
        PreviewEvent::Zoom => (s, seq![Effect::ToggleMaximized]),
        PreviewEvent::PickFolder => (s, seq![Effect::StartPickFolder]),
        PreviewEvent::PickFolderResult(path) => (
            s,
            seq![Effect::Overlay(Overlay::PickFolderResult(path))],
        ),
        PreviewEvent::Loaded(url) => (
            s,
            seq![Effect::ClassifyLoaded { url, inspector_url: s.inspector_url }],
        ),
        PreviewEvent::Title(next) => (
            Session { title: next, ..s },
            seq![Effect::SetWindowTitle(next), Effect::Overlay(Overlay::UpdateTitle(next))],
        ),
        PreviewEvent::Location(url) => (s, commit_effects(s, url)),
        PreviewEvent::Navigate { url, title, inspector_url } => match inspector_url {
            Some(inspector) => (
                Session { title, inspector_url: Some(inspector), ..s },
                seq![
                    Effect::ResetOrigin(url),
                    Effect::LoadUrl(url),
                    Effect::SetWindowTitle(title),
                    Effect::Overlay(Overlay::SetInspector(inspector)),
                ],
            ),
            None => (
                Session { title, ..s },
                seq![Effect::ResetOrigin(url), Effect::LoadUrl(url), Effect::SetWindowTitle(title)],
            ),
        },
        PreviewEvent::Evaluate(script) => (s, seq![Effect::Overlay(Overlay::Script(script))]),
    }
}

/// The next state and the effects of any input.
pub open spec fn session_step(s: Session, input: SessionInput) -> (Session, Seq<Effect>) {
    match input {
        SessionInput::Init => (s, seq![Effect::ApplyHostIcon, Effect::RealizeUnifiedChrome]),
        SessionInput::RedrawEventsCleared => (s, seq![Effect::SyncUnifiedChrome]),
        SessionInput::CloseRequested => (s, exit_effects()),
        SessionInput::MovedOrResized { millis_since_persist } => (
            s,
            if millis_since_persist >= PERSIST_INTERVAL_MILLIS {
                seq![Effect::SyncUnifiedChrome, Effect::PersistWindowState, Effect::RestartPersistTimer]
            } else {
                seq![Effect::SyncUnifiedChrome]
            },
        ),
        SessionInput::ModifiersChanged(next) => (Session { modifiers: next, ..s }, seq![]),
        SessionInput::KeyboardInput(event) => (
            s,
            if is_close_press(event, s.modifiers, s.platform) {
                exit_effects()
            } else {
                seq![]
            },
        ),
        SessionInput::Menu(command) => (s, menu_effects(s, command)),
        SessionInput::Preview(event) => preview_step(s, event),
        SessionInput::PageLoaded { url, inspector_document } => (
            s,
            if inspector_document {
                seq![]
            } else {
                commit_effects(s, url) + seq![Effect::SyncUnifiedChrome]
            },
        ),
        SessionInput::Other => (s, seq![]),
    }
}

impl Session {
    /// A session for a window that starts with `title`, holding no modifier keys.
    pub fn new(
        platform: Platform,
        title: String,
        inspector_url: Option<String>,
        devtools_enabled: bool,
        has_source_root: bool,
        has_updater: bool,
        has_navigate_handler: bool,
    ) -> (s: Session)
        ensures
            s.platform == platform,
            s.modifiers == (Modifiers { shift: false, control: false, alt: false, super_key: false }),
            s.title == title,
            s.inspector_url == inspector_url,
            s.devtools_enabled == devtools_enabled,
            s.has_source_root == has_source_root,
            s.has_updater == has_updater,
            s.has_navigate_handler == has_navigate_handler,
    {
        Session {
            platform,
            modifiers: Modifiers { shift: false, control: false, alt: false, super_key: false },
            title,
            inspector_url,
            devtools_enabled,
            has_source_root,
            has_updater,
            has_navigate_handler,
        }
    }
}

impl Session {
    /// Save the window state and leave the loop.
    pub fn persist_and_exit() -> (effects: Vec<Effect>)
        ensures
            effects@ == exit_effects(),
    {
        let mut effects: Vec<Effect> = Vec::new();
        effects.push(Effect::PersistWindowState);
        effects.push(Effect::Exit);
        effects
    }

    /// Commit a navigation to `url`: record it, tell the host, redraw the chrome.
    pub fn commit_navigation(&self, url: String) -> (effects: Vec<Effect>)
        ensures
            effects@ == commit_effects(*self, url),
    {
        let mut effects: Vec<Effect> = Vec::new();
        effects.push(Effect::CommitHistory(url.clone()));
        if self.has_navigate_handler {
            effects.push(Effect::NotifyNavigate(url));
        }
        effects.push(Effect::SyncChrome(self.title.clone()));
        proof {
            if self.has_navigate_handler {
                assert(effects@ =~= commit_effects(*self, url));
            } else {
                assert(effects@ =~= commit_effects(*self, url));
            }
        }
        effects
    }

    /// The effects of a menu command.
    pub fn handle_menu_event(&self, command: Option<MenuCommand>) -> (effects: Vec<Effect>)
        ensures
            effects@ == menu_effects(*self, command),
    {
        let mut effects: Vec<Effect> = Vec::new();
        match command {
            Some(MenuCommand::CloseWindow) | Some(MenuCommand::Quit) => {
                return Self::persist_and_exit();
            },
            Some(MenuCommand::Back) => effects.push(Effect::ApplyCommand(NavCommand::Back)),
            Some(MenuCommand::Forward) => effects.push(Effect::ApplyCommand(NavCommand::Forward)),
            Some(MenuCommand::Home) => effects.push(Effect::ApplyCommand(NavCommand::Home)),
            Some(MenuCommand::Reload) => effects.push(Effect::ApplyCommand(NavCommand::Reload)),
            Some(MenuCommand::LiveReload) => effects.push(Effect::Overlay(Overlay::LiveReloadFromMenu)),
            Some(MenuCommand::WebInspector) => effects.push(Effect::ToggleDevtools),
            Some(MenuCommand::Find) => effects.push(Effect::Overlay(Overlay::FindOpen)),
            Some(MenuCommand::FindNext) => effects.push(Effect::Overlay(Overlay::FindNext)),
            Some(MenuCommand::FindPrevious) => effects.push(Effect::Overlay(Overlay::FindPrevious)),
            Some(MenuCommand::UseSelection) => effects.push(Effect::Overlay(Overlay::FindUseSelection)),
            Some(MenuCommand::GoToFile) => effects.push(Effect::Overlay(Overlay::GotoOpen)),
            Some(MenuCommand::OpenPicker) => effects.push(Effect::Overlay(Overlay::PickerOpen)),
            Some(MenuCommand::SelectAll) => effects.push(Effect::Overlay(Overlay::SelectAll)),
            Some(MenuCommand::CheckUpdates) => {
                if self.has_updater {
                    effects.push(Effect::CheckForUpdates);
                }
            },
            None => {},
        }
        assert(effects@ =~= menu_effects(*self, command));
        effects
    }
    /// The next state and the effects of a preview event.
    pub fn handle_preview_event(&mut self, event: PreviewEvent) -> (effects: Vec<Effect>)
        ensures
            *final(self) == preview_step(*old(self), event).0,
            effects@ == preview_step(*old(self), event).1,
    {
        let mut effects: Vec<Effect> = Vec::new();
        match event {
            PreviewEvent::Command(command) => effects.push(Effect::ApplyCommand(command)),
            PreviewEvent::Reveal(spec) => {
                if self.has_source_root {
                    effects.push(Effect::RevealSource(spec));
                }
            },
            PreviewEvent::CopySource(spec) => {
                if self.has_source_root {
                    effects.push(Effect::CopySource(spec));
                }
            },
            PreviewEvent::LiveReload(enabled) => effects.push(Effect::SetLiveReloadChecked(enabled)),
            PreviewEvent::Devtools(open) => {
                if self.devtools_enabled {
                    effects.push(Effect::SetDevtoolsOpen(open));
                }
            },
            PreviewEvent::InspectorPrefs(json) => effects.push(Effect::SaveInspectorPrefs(json)),
            PreviewEvent::Layout(json) => effects.push(Effect::MergeLayout(json)),
            PreviewEvent::Drag => effects.push(Effect::DragWindow),
            PreviewEvent::Zoom => effects.push(Effect::ToggleMaximized),
            PreviewEvent::PickFolder => effects.push(Effect::StartPickFolder),
            PreviewEvent::PickFolderResult(path) => {
                effects.push(Effect::Overlay(Overlay::PickFolderResult(path)));
            },
            PreviewEvent::Loaded(url) => {
                effects.push(Effect::ClassifyLoaded { url, inspector_url: self.inspector_url.clone() });
            },
            PreviewEvent::Title(next) => {
                effects.push(Effect::SetWindowTitle(next.clone()));
                self.title = next.clone();
                effects.push(Effect::Overlay(Overlay::UpdateTitle(next)));
            },
            PreviewEvent::Location(url) => {
                effects = self.commit_navigation(url);
            },
            PreviewEvent::Navigate { url, title, inspector_url } => {
                effects.push(Effect::ResetOrigin(url.clone()));
                effects.push(Effect::LoadUrl(url));
                effects.push(Effect::SetWindowTitle(title.clone()));
                self.title = title;
                if let Some(inspector) = inspector_url {
                    self.inspector_url = Some(inspector.clone());
                    effects.push(Effect::Overlay(Overlay::SetInspector(inspector)));
                }
            },
            PreviewEvent::Evaluate(script) => effects.push(Effect::Overlay(Overlay::Script(script))),
        }
        assert(effects@ =~= preview_step(*old(self), event).1);
        effects
    }

    /// The next state and the effects of any input from the window loop.
    pub fn handle_event(&mut self, input: SessionInput) -> (effects: Vec<Effect>)
        ensures
            *final(self) == session_step(*old(self), input).0,
            effects@ == session_step(*old(self), input).1,
    {
        let mut effects: Vec<Effect> = Vec::new();
        match input {
            SessionInput::Init => {
                effects.push(Effect::ApplyHostIcon);
                effects.push(Effect::RealizeUnifiedChrome);
            },
            SessionInput::RedrawEventsCleared => effects.push(Effect::SyncUnifiedChrome),
            SessionInput::CloseRequested => {
                effects = Self::persist_and_exit();
            },
            SessionInput::MovedOrResized { millis_since_persist } => {
                effects.push(Effect::SyncUnifiedChrome);
                if millis_since_persist >= PERSIST_INTERVAL_MILLIS {
                    effects.push(Effect::PersistWindowState);
                    effects.push(Effect::RestartPersistTimer);
                }
            },
            SessionInput::ModifiersChanged(next) => {
                self.modifiers = next;
            },
            SessionInput::KeyboardInput(event) => {
                if is_close_key_event(&event, self.modifiers, self.platform) {
                    effects = Self::persist_and_exit();
                }
            },
            SessionInput::Menu(command) => {
                effects = self.handle_menu_event(command);
            },
            SessionInput::Preview(event) => {
                effects = self.handle_preview_event(event);
            },
            SessionInput::PageLoaded { url, inspector_document } => {
                if !inspector_document {
                    effects = self.commit_navigation(url);
                    effects.push(Effect::SyncUnifiedChrome);
                }
            },
            SessionInput::Other => {},
        }
        assert(effects@ =~= session_step(*old(self), input).1);
        effects
    }
}

/// Where an IPC request from the page goes.
#[derive(Debug)]
pub enum IpcRoute {
    /// Start dragging the window from the unified toolbar.
    BeginToolbarDrag,
    /// Post this event to the window loop.
    Send(PreviewEvent),
    /// Hand the raw request to the host application's handler.
    Host,
}

/// The route of an IPC request, given what the chrome's message parser made of it.
pub open spec fn ipc_route(message: Option<IpcMessage>, platform: Platform) -> IpcRoute {
    match message {
        Some(IpcMessage::Drag) => match platform {
            Platform::MacOs => IpcRoute::BeginToolbarDrag,
            Platform::Other => IpcRoute::Send(PreviewEvent::Drag),
        },
        Some(message) => IpcRoute::Send(event_of_message(message)),
        None => IpcRoute::Host,
    }
}

/// Routes an IPC request: a drag request starts a toolbar drag on macOS and
/// reaches the loop elsewhere; other chrome messages reach the loop as the
/// preview event of the same name; requests the chrome does not know go to the host.
pub fn route_ipc_message(message: Option<IpcMessage>, platform: Platform) -> (route: IpcRoute)
    ensures
        route == ipc_route(message, platform),
{
    match message {
        Some(IpcMessage::Drag) => match platform {
            Platform::MacOs => IpcRoute::BeginToolbarDrag,
            Platform::Other => IpcRoute::Send(PreviewEvent::Drag),
        },
        Some(message) => IpcRoute::Send(PreviewEvent::from(message)),
        None => IpcRoute::Host,
    }
}

/// An operation on the webview that a navigation command asks for.
#[derive(Debug)]
pub enum WebviewOp {
    EvaluateScript(String),
    LoadUrl(String),
    Reload,
}

/// `op` is what `command` asks of the webview, where `granted` is the
/// history's answer to the request to go back or forward, and `home` is the
/// history's home URL once the request to go home was made.
pub open spec fn is_command_op(command: NavCommand, granted: bool, home: Seq<char>, op: Option<WebviewOp>) -> bool {
    match command {
        NavCommand::Back => if granted {
            op matches Some(WebviewOp::EvaluateScript(script)) && script@ == "history.back()"@
        } else {
            op is None
        },
        NavCommand::Forward => if granted {
            op matches Some(WebviewOp::EvaluateScript(script)) && script@ == "history.forward()"@
        } else {
            op is None
        },
        NavCommand::Home => op matches Some(WebviewOp::LoadUrl(url)) && url@ == home,
        NavCommand::Reload => op matches Some(WebviewOp::Reload),
    }
}

/// What a navigation command asks of the webview. Back and forward step the
/// page's own history, and only when the session's history granted the step;
/// home loads the home URL; reload reloads.
pub fn apply_command(command: NavCommand, granted: bool, home: &str) -> (op: Option<WebviewOp>)
    ensures
        is_command_op(command, granted, home@, op),
{
    proof {
        reveal_strlit("history.back()");
        reveal_strlit("history.forward()");
    }
    match command {
        NavCommand::Back => if granted {
            Some(WebviewOp::EvaluateScript(String::from_str("history.back()")))
        } else {
            None
        },
        NavCommand::Forward => if granted {
            Some(WebviewOp::EvaluateScript(String::from_str("history.forward()")))
        } else {
            None
        },
        NavCommand::Home => Some(WebviewOp::LoadUrl(String::from_str(home))),
        NavCommand::Reload => Some(WebviewOp::Reload),
    }
}

/// The page's initialization script: the chrome's script, then, where the host
/// gives one, a line break and the host's own script.
pub open spec fn init_script_text(base: Seq<char>, extra: Option<Seq<char>>) -> Seq<char> {
    match extra {
        Some(extra) => base + seq!['\n'] + extra,
        None => base,
    }
}

/// Appends the host's extra initialization script to the chrome's script.
pub fn build_init_script(base: String, extra: Option<&str>) -> (script: String)
    ensures
        script@ == init_script_text(
            base@,
            match extra {
                Some(e) => Some(e@),
                None => None,
            },
        ),
{
    let mut script = base;
    if let Some(extra) = extra {
        proof {
            reveal_strlit("\n");
        }
        script.append("\n");
        script.append(extra);
    }
    script
}

/// The window only exits right after saving its state: `Exit` is the last
/// effect of a step, and `PersistWindowState` comes just before it.
pub proof fn lemma_exit_follows_persist(s: Session, input: SessionInput)
    ensures
        forall|i: int|
            0 <= i < session_step(s, input).1.len() && (#[trigger] session_step(s, input).1[i]) is Exit ==> {
                &&& i == session_step(s, input).1.len() - 1
                &&& i >= 1
                &&& session_step(s, input).1[i - 1] is PersistWindowState
            },
{
    let effects = session_step(s, input).1;
    match input {
        SessionInput::Preview(event) => {
            match event {
                PreviewEvent::Location(url) => {
                    assert(forall|i: int| 0 <= i < effects.len() ==> !(#[trigger] effects[i] is Exit));
                },
                _ => {},
            }
        },
        SessionInput::PageLoaded { url, inspector_document } => {
            assert(forall|i: int| 0 <= i < effects.len() ==> !(#[trigger] effects[i] is Exit));
        },
        _ => {},
    }
}

/// Only a report of the held modifiers changes them.
pub proof fn lemma_modifiers_change_only_when_reported(s: Session, input: SessionInput)
    requires
        !(input is ModifiersChanged),
    ensures
        session_step(s, input).0.modifiers == s.modifiers,
{
}

/// The configuration of a session (platform, devtools, source root, updater,
/// navigation handler) never changes.
pub proof fn lemma_configuration_is_fixed(s: Session, input: SessionInput)
    ensures
        session_step(s, input).0.platform == s.platform,
        session_step(s, input).0.devtools_enabled == s.devtools_enabled,
        session_step(s, input).0.has_source_root == s.has_source_root,
        session_step(s, input).0.has_updater == s.has_updater,
        session_step(s, input).0.has_navigate_handler == s.has_navigate_handler,
{
}

/// The title changes only on a title change or a navigation to a new origin,
/// and then to the title that came with it.
pub proof fn lemma_title_follows_title_events(s: Session, input: SessionInput)
    ensures
        match input {
            SessionInput::Preview(PreviewEvent::Title(next)) => session_step(s, input).0.title == next,
            SessionInput::Preview(PreviewEvent::Navigate { title, .. }) => session_step(s, input).0.title
                == title,
            _ => session_step(s, input).0.title == s.title,
        },
{
}

/// Once the session knows an inspector URL it never forgets it.
pub proof fn lemma_inspector_url_is_kept(s: Session, input: SessionInput)
    requires
        s.inspector_url is Some,
    ensures
        session_step(s, input).0.inspector_url is Some,
{
}

/// With devtools disabled, the page cannot open or close them.
pub proof fn lemma_disabled_devtools_ignore_page(s: Session, open: bool)
    requires
        !s.devtools_enabled,
    ensures
        session_step(s, SessionInput::Preview(PreviewEvent::Devtools(open))).1 == Seq::<Effect>::empty(),
{
    assert(session_step(s, SessionInput::Preview(PreviewEvent::Devtools(open))).1 =~= Seq::<
        Effect,
    >::empty());
}

/// Without a source root, requests to reveal or copy a source file do nothing.
pub proof fn lemma_no_source_root_no_source_actions(s: Session, spec: String)
    requires
        !s.has_source_root,
    ensures
        session_step(s, SessionInput::Preview(PreviewEvent::Reveal(spec))).1 == Seq::<Effect>::empty(),
        session_step(s, SessionInput::Preview(PreviewEvent::CopySource(spec))).1 == Seq::<
            Effect,
        >::empty(),
{
    assert(session_step(s, SessionInput::Preview(PreviewEvent::Reveal(spec))).1 =~= Seq::<
        Effect,
    >::empty());
    assert(session_step(s, SessionInput::Preview(PreviewEvent::CopySource(spec))).1 =~= Seq::<
        Effect,
    >::empty());
}

/// Reporting the held modifiers and then pressing a key closes the window
/// exactly when the press is the close shortcut with those modifiers.
pub proof fn lemma_reported_modifiers_decide_close(s: Session, held: Modifiers, key: KeyEvent)
    ensures
        ({
            let after = session_step(s, SessionInput::ModifiersChanged(held)).0;
            let effects = session_step(after, SessionInput::KeyboardInput(key)).1;
            &&& is_close_press(key, held, s.platform) ==> effects == exit_effects()
            &&& !is_close_press(key, held, s.platform) ==> effects == Seq::<Effect>::empty()
        }),
{
    let after = session_step(s, SessionInput::ModifiersChanged(held)).0;
    assert(session_step(after, SessionInput::KeyboardInput(key)).1 =~= if is_close_press(
        key,
        held,
        s.platform,
    ) {
        exit_effects()
    } else {
        Seq::<Effect>::empty()
    });
}

/// A loaded page that is the inspector's own document commits nothing.
pub proof fn lemma_inspector_documents_are_not_navigation(s: Session, url: String)
    ensures
        session_step(s, SessionInput::PageLoaded { url, inspector_document: true }).1 == Seq::<
            Effect,
        >::empty(),
{
    assert(session_step(s, SessionInput::PageLoaded { url, inspector_document: true }).1 =~= Seq::<
        Effect,
    >::empty());
}

/// The state after the session has handled `inputs` in order.
pub open spec fn session_run(s: Session, inputs: Seq<SessionInput>) -> Session
    decreases inputs.len(),
{
    if inputs.len() == 0 {
        s
    } else {
        session_run(session_step(s, inputs[0]).0, inputs.drop_first())
    }
}

/// Over any run of inputs, the configuration stays as the session was created,
/// and an inspector URL once known stays known.
pub proof fn lemma_run_keeps_configuration(s: Session, inputs: Seq<SessionInput>)
    ensures
        session_run(s, inputs).platform == s.platform,
        session_run(s, inputs).devtools_enabled == s.devtools_enabled,
        session_run(s, inputs).has_source_root == s.has_source_root,
        session_run(s, inputs).has_updater == s.has_updater,
        session_run(s, inputs).has_navigate_handler == s.has_navigate_handler,
        s.inspector_url is Some ==> session_run(s, inputs).inspector_url is Some,
    decreases inputs.len(),
{
    if inputs.len() > 0 {
        let next = session_step(s, inputs[0]).0;
        lemma_configuration_is_fixed(s, inputs[0]);
        if s.inspector_url is Some {
            lemma_inspector_url_is_kept(s, inputs[0]);
        }
        lemma_run_keeps_configuration(next, inputs.drop_first());
    }
}

/// A move or resize saves the window state exactly when at least the persist
/// interval has passed since the last save, and then restarts the timer right
/// after saving; the chrome is synced first either way. Saving is monotone in
/// the elapsed time: a move that saves after `m` ms also saves after any longer time.
pub proof fn lemma_moves_persist_once_interval_elapsed(s: Session, m: u64, later: u64)
    ensures
        ({
            let effects = session_step(s, SessionInput::MovedOrResized { millis_since_persist: m }).1;
            &&& effects.contains(Effect::PersistWindowState) <==> m >= 250
            &&& m >= 250 ==> effects == seq![
                Effect::SyncUnifiedChrome,
                Effect::PersistWindowState,
                Effect::RestartPersistTimer,
            ]
            &&& m < 250 ==> effects == seq![Effect::SyncUnifiedChrome]
        }),
        ({
            let saves_at_m = session_step(s, SessionInput::MovedOrResized { millis_since_persist: m }).1.contains(
                Effect::PersistWindowState,
            );
            let saves_later = session_step(
                s,
                SessionInput::MovedOrResized { millis_since_persist: later },
            ).1.contains(Effect::PersistWindowState);
            m <= later && saves_at_m ==> saves_later
        }),
        session_step(s, SessionInput::MovedOrResized { millis_since_persist: m }).0 == s,
{
    let persist = Effect::PersistWindowState;
    let long = seq![Effect::SyncUnifiedChrome, Effect::PersistWindowState, Effect::RestartPersistTimer];
    let short = seq![Effect::SyncUnifiedChrome];
    assert(long[1] == persist);
    assert(!short.contains(persist)) by {
        assert(forall|i: int| 0 <= i < short.len() ==> short[i] != persist);
    }
    assert(long.contains(persist));
    let e1 = session_step(s, SessionInput::MovedOrResized { millis_since_persist: m }).1;
    let e2 = session_step(s, SessionInput::MovedOrResized { millis_since_persist: later }).1;
    if m >= 250 {
        assert(e1 =~= long);
    } else {
        assert(e1 =~= short);
    }
    if later >= 250 {
        assert(e2 =~= long);
    } else {
        assert(e2 =~= short);
    }
}

/// Window events with fixed answers: the loop's start applies the icon and
/// realizes the chrome, a redraw syncs the chrome, a close request saves and
/// exits, and other window events do nothing; none of them changes the session.
pub proof fn lemma_window_events(s: Session)
    ensures
        session_step(s, SessionInput::Init).1 == seq![Effect::ApplyHostIcon, Effect::RealizeUnifiedChrome],
        session_step(s, SessionInput::RedrawEventsCleared).1 == seq![Effect::SyncUnifiedChrome],
        session_step(s, SessionInput::CloseRequested).1 == seq![Effect::PersistWindowState, Effect::Exit],
        session_step(s, SessionInput::Other).1 == Seq::<Effect>::empty(),
        session_step(s, SessionInput::Init).0 == s,
        session_step(s, SessionInput::RedrawEventsCleared).0 == s,
        session_step(s, SessionInput::CloseRequested).0 == s,
        session_step(s, SessionInput::Other).0 == s,
{
    assert(session_step(s, SessionInput::Other).1 =~= Seq::<Effect>::empty());
}

/// With a source root, a copy request copies the named source and a reveal
/// request reveals it, each carrying the request's text unchanged; a copy
/// request never reveals and a reveal request never copies.
pub proof fn lemma_source_requests_keep_their_action(s: Session, spec: String)
    requires
        s.has_source_root,
    ensures
        session_step(s, SessionInput::Preview(PreviewEvent::CopySource(spec))).1 == seq![
            Effect::CopySource(spec),
        ],
        session_step(s, SessionInput::Preview(PreviewEvent::Reveal(spec))).1 == seq![
            Effect::RevealSource(spec),
        ],
        forall|i: int|
            0 <= i < session_step(s, SessionInput::Preview(PreviewEvent::CopySource(spec))).1.len()
                ==> !(#[trigger] session_step(
                s,
                SessionInput::Preview(PreviewEvent::CopySource(spec)),
            ).1[i] is RevealSource),
        forall|i: int|
            0 <= i < session_step(s, SessionInput::Preview(PreviewEvent::Reveal(spec))).1.len()
                ==> !(#[trigger] session_step(
                s,
                SessionInput::Preview(PreviewEvent::Reveal(spec)),
            ).1[i] is CopySource),
{
    assert(session_step(s, SessionInput::Preview(PreviewEvent::CopySource(spec))).1 =~= seq![
        Effect::CopySource(spec),
    ]);
    assert(session_step(s, SessionInput::Preview(PreviewEvent::Reveal(spec))).1 =~= seq![
        Effect::RevealSource(spec),
    ]);
}

/// Each menu command does what it is named for: the navigation items apply the
/// navigation command of the same name, the find, go-to, picker and select-all
/// items run the chrome script of the same name, the inspector item toggles the
/// devtools, closing or quitting saves and exits, checking for updates asks the
/// updater when there is one, and an unknown item does nothing.
pub proof fn lemma_menu_commands_act_by_name(s: Session)
    ensures
        session_step(s, SessionInput::Menu(Some(MenuCommand::CloseWindow))).1 == seq![
            Effect::PersistWindowState,
            Effect::Exit,
        ],
        session_step(s, SessionInput::Menu(Some(MenuCommand::Quit))).1 == seq![
            Effect::PersistWindowState,
            Effect::Exit,
        ],
        session_step(s, SessionInput::Menu(Some(MenuCommand::Back))).1 == seq![
            Effect::ApplyCommand(NavCommand::Back),
        ],
        session_step(s, SessionInput::Menu(Some(MenuCommand::Forward))).1 == seq![
            Effect::ApplyCommand(NavCommand::Forward),
        ],
        session_step(s, SessionInput::Menu(Some(MenuCommand::Home))).1 == seq![
            Effect::ApplyCommand(NavCommand::Home),
        ],
        session_step(s, SessionInput::Menu(Some(MenuCommand::Reload))).1 == seq![
            Effect::ApplyCommand(NavCommand::Reload),
        ],
        session_step(s, SessionInput::Menu(Some(MenuCommand::LiveReload))).1 == seq![
            Effect::Overlay(Overlay::LiveReloadFromMenu),
        ],
        session_step(s, SessionInput::Menu(Some(MenuCommand::WebInspector))).1 == seq![
            Effect::ToggleDevtools,
        ],
        session_step(s, SessionInput::Menu(Some(MenuCommand::Find))).1 == seq![
            Effect::Overlay(Overlay::FindOpen),
        ],
        session_step(s, SessionInput::Menu(Some(MenuCommand::FindNext))).1 == seq![
            Effect::Overlay(Overlay::FindNext),
        ],
        session_step(s, SessionInput::Menu(Some(MenuCommand::FindPrevious))).1 == seq![
            Effect::Overlay(Overlay::FindPrevious),
        ],
        session_step(s, SessionInput::Menu(Some(MenuCommand::UseSelection))).1 == seq![
            Effect::Overlay(Overlay::FindUseSelection),
        ],
        session_step(s, SessionInput::Menu(Some(MenuCommand::GoToFile))).1 == seq![
            Effect::Overlay(Overlay::GotoOpen),
        ],
        session_step(s, SessionInput::Menu(Some(MenuCommand::OpenPicker))).1 == seq![
            Effect::Overlay(Overlay::PickerOpen),
        ],
        session_step(s, SessionInput::Menu(Some(MenuCommand::SelectAll))).1 == seq![
            Effect::Overlay(Overlay::SelectAll),
        ],
        s.has_updater ==> session_step(s, SessionInput::Menu(Some(MenuCommand::CheckUpdates))).1
            == seq![Effect::CheckForUpdates],
        !s.has_updater ==> session_step(s, SessionInput::Menu(Some(MenuCommand::CheckUpdates))).1
            == Seq::<Effect>::empty(),
        session_step(s, SessionInput::Menu(None)).1 == Seq::<Effect>::empty(),
        forall|command: Option<MenuCommand>| #[trigger] session_step(s, SessionInput::Menu(command)).0 == s,
{
    assert(session_step(s, SessionInput::Menu(None)).1 =~= Seq::<Effect>::empty());
    assert(session_step(s, SessionInput::Menu(Some(MenuCommand::CheckUpdates))).1 =~= if s.has_updater {
        seq![Effect::CheckForUpdates]
    } else {
        Seq::<Effect>::empty()
    });
}

/// Page requests that pass straight through carry their payload unchanged:
/// a navigation command is applied as given, the live-reload check mark is set
/// to the page's value, the devtools (when enabled) are set to the requested
/// state, inspector preferences and layout are saved as sent, a picked folder
/// and a script reach the chrome as given; none of them changes the session.
pub proof fn lemma_page_requests_keep_payloads(
    s: Session,
    command: NavCommand,
    flag: bool,
    text: String,
    folder: Option<String>,
)
    ensures
        session_step(s, SessionInput::Preview(PreviewEvent::Command(command))).1 == seq![
            Effect::ApplyCommand(command),
        ],
        session_step(s, SessionInput::Preview(PreviewEvent::LiveReload(flag))).1 == seq![
            Effect::SetLiveReloadChecked(flag),
        ],
        s.devtools_enabled ==> session_step(s, SessionInput::Preview(PreviewEvent::Devtools(flag))).1
            == seq![Effect::SetDevtoolsOpen(flag)],
        session_step(s, SessionInput::Preview(PreviewEvent::InspectorPrefs(text))).1 == seq![
            Effect::SaveInspectorPrefs(text),
        ],
        session_step(s, SessionInput::Preview(PreviewEvent::Layout(text))).1 == seq![
            Effect::MergeLayout(text),
        ],
        session_step(s, SessionInput::Preview(PreviewEvent::Drag)).1 == seq![Effect::DragWindow],
        session_step(s, SessionInput::Preview(PreviewEvent::Zoom)).1 == seq![Effect::ToggleMaximized],
        session_step(s, SessionInput::Preview(PreviewEvent::PickFolder)).1 == seq![
            Effect::StartPickFolder,
        ],
        session_step(s, SessionInput::Preview(PreviewEvent::PickFolderResult(folder))).1 == seq![
            Effect::Overlay(Overlay::PickFolderResult(folder)),
        ],
        session_step(s, SessionInput::Preview(PreviewEvent::Evaluate(text))).1 == seq![
            Effect::Overlay(Overlay::Script(text)),
        ],
        session_step(s, SessionInput::Preview(PreviewEvent::Loaded(text))).1 == seq![
            Effect::ClassifyLoaded { url: text, inspector_url: s.inspector_url },
        ],
        session_step(s, SessionInput::Preview(PreviewEvent::Command(command))).0 == s,
        session_step(s, SessionInput::Preview(PreviewEvent::LiveReload(flag))).0 == s,
        session_step(s, SessionInput::Preview(PreviewEvent::Devtools(flag))).0 == s,
        session_step(s, SessionInput::Preview(PreviewEvent::Loaded(text))).0 == s,
        session_step(s, SessionInput::Preview(PreviewEvent::Evaluate(text))).0 == s,
{
}

/// A title change sets the window title and the chrome's title to the new one.
/// A navigation to a new origin resets the history's origin to the URL, loads
/// it, sets the title, and, when it brings an inspector URL, points the chrome's
/// inspector at it; it never loads any other URL.
pub proof fn lemma_titles_and_origins(s: Session, url: String, title: String, inspector: Option<String>)
    ensures
        session_step(s, SessionInput::Preview(PreviewEvent::Title(title))).1 == seq![
            Effect::SetWindowTitle(title),
            Effect::Overlay(Overlay::UpdateTitle(title)),
        ],
        ({
            let effects = session_step(
                s,
                SessionInput::Preview(
                    PreviewEvent::Navigate { url, title, inspector_url: inspector },
                ),
            ).1;
            &&& effects.len() >= 3
            &&& effects[0] == Effect::ResetOrigin(url)
            &&& effects[1] == Effect::LoadUrl(url)
            &&& effects[2] == Effect::SetWindowTitle(title)
            &&& match inspector {
                Some(i) => effects.len() == 4 && effects[3] == Effect::Overlay(Overlay::SetInspector(i)),
                None => effects.len() == 3,
            }
        }),
        session_step(
            s,
            SessionInput::Preview(PreviewEvent::Navigate { url, title, inspector_url: inspector }),
        ).0.inspector_url == (match inspector {
            Some(i) => Some(i),
            None => s.inspector_url,
        }),
{
}

/// A committed navigation (a location report, or a loaded page that is not the
/// inspector's own) records exactly that URL in the history first, tells the
/// host's navigation handler exactly when there is one, and redraws the chrome
/// with the current title; a loaded page also syncs the window chrome last.
pub proof fn lemma_commits_record_the_url(s: Session, url: String)
    ensures
        ({
            let effects = session_step(s, SessionInput::Preview(PreviewEvent::Location(url))).1;
            &&& effects[0] == Effect::CommitHistory(url)
            &&& effects.last() == Effect::SyncChrome(s.title)
            &&& effects.contains(Effect::NotifyNavigate(url)) <==> s.has_navigate_handler
            &&& effects.len() == if s.has_navigate_handler { 3int } else { 2int }
        }),
        ({
            let effects = session_step(s, SessionInput::PageLoaded { url, inspector_document: false }).1;
            &&& effects[0] == Effect::CommitHistory(url)
            &&& effects.last() == Effect::SyncUnifiedChrome
            &&& effects[effects.len() - 2] == Effect::SyncChrome(s.title)
            &&& effects.contains(Effect::NotifyNavigate(url)) <==> s.has_navigate_handler
            &&& effects.len() == if s.has_navigate_handler { 4int } else { 3int }
        }),
{
    let e = session_step(s, SessionInput::Preview(PreviewEvent::Location(url))).1;
    let f = session_step(s, SessionInput::PageLoaded { url, inspector_document: false }).1;
    let n = Effect::NotifyNavigate(url);
    if s.has_navigate_handler {
        assert(e[1] == n);
        assert(f[1] == n);
    } else {
        assert(e =~= seq![Effect::CommitHistory(url), Effect::SyncChrome(s.title)]);
        assert(forall|i: int| 0 <= i < e.len() ==> e[i] != n);
        assert(f =~= seq![Effect::CommitHistory(url), Effect::SyncChrome(s.title), Effect::SyncUnifiedChrome]);
        assert(forall|i: int| 0 <= i < f.len() ==> f[i] != n);
    }
}

/// A key press other than W never closes the window, whatever modifiers are held.
pub proof fn lemma_only_w_closes_the_session(s: Session, event: KeyEvent)
    requires
        event.physical_key != KeyCode::Letter('W'),
    ensures
        session_step(s, SessionInput::KeyboardInput(event)).1 == Seq::<Effect>::empty(),
{
    assert(session_step(s, SessionInput::KeyboardInput(event)).1 =~= Seq::<Effect>::empty());
}

/// Routing of IPC requests: a request the chrome's parser does not know goes to
/// the host and only such a request does; a drag starts a toolbar drag on macOS
/// and reaches the loop as a drag elsewhere; every other message reaches the
/// loop as the event of the same name with its payload.
pub proof fn lemma_ipc_routes(message: Option<IpcMessage>, platform: Platform)
    ensures
        (ipc_route(message, platform) is Host) <==> message is None,
        (ipc_route(message, platform) is BeginToolbarDrag) <==> (message == Some(IpcMessage::Drag)
            && platform == Platform::MacOs),
        message == Some(IpcMessage::Drag) && platform == Platform::Other ==> ipc_route(message, platform)
            == IpcRoute::Send(PreviewEvent::Drag),
        match message {
            Some(IpcMessage::Nav(c)) => ipc_route(message, platform) == IpcRoute::Send(PreviewEvent::Command(c)),
            Some(IpcMessage::Reveal(p)) => ipc_route(message, platform) == IpcRoute::Send(PreviewEvent::Reveal(p)),
            Some(IpcMessage::CopySource(p)) => ipc_route(message, platform) == IpcRoute::Send(
                PreviewEvent::CopySource(p),
            ),
            Some(IpcMessage::Location(u)) => ipc_route(message, platform) == IpcRoute::Send(
                PreviewEvent::Location(u),
            ),
            Some(IpcMessage::LiveReload(b)) => ipc_route(message, platform) == IpcRoute::Send(
                PreviewEvent::LiveReload(b),
            ),
            Some(IpcMessage::Devtools(b)) => ipc_route(message, platform) == IpcRoute::Send(
                PreviewEvent::Devtools(b),
            ),
            _ => true,
        },
        match message {
            Some(m) => !(m is Drag) ==> ipc_route(message, platform) == IpcRoute::Send(event_of_message(m)),
            None => true,
        },
{
}

/// Navigation commands: going back or forward runs the page's own history step
/// of that direction when the history granted it and does nothing otherwise;
/// home loads the home URL whatever the grant; reload reloads.
pub proof fn lemma_command_ops(granted: bool, home: Seq<char>, op: Option<WebviewOp>)
    ensures
        is_command_op(NavCommand::Back, granted, home, op) ==> (granted <==> op is Some),
        is_command_op(NavCommand::Forward, granted, home, op) ==> (granted <==> op is Some),
        is_command_op(NavCommand::Back, true, home, op) ==> (op matches Some(
            WebviewOp::EvaluateScript(script),
        ) && script@ == seq!['h', 'i', 's', 't', 'o', 'r', 'y', '.', 'b', 'a', 'c', 'k', '(', ')']),
        is_command_op(NavCommand::Forward, true, home, op) ==> (op matches Some(
            WebviewOp::EvaluateScript(script),
        ) && script@ == seq!['h', 'i', 's', 't', 'o', 'r', 'y', '.', 'f', 'o', 'r', 'w', 'a', 'r', 'd', '(', ')']),
        is_command_op(NavCommand::Home, granted, home, op) ==> (op matches Some(WebviewOp::LoadUrl(url))
            && url@ == home),
        is_command_op(NavCommand::Reload, granted, home, op) ==> op matches Some(WebviewOp::Reload),
{
    reveal_strlit("history.back()");
    reveal_strlit("history.forward()");
}

/// The initialization script starts with the chrome's script; with no extra
/// script it is exactly that, and with one it continues with a single line
/// break and then the extra script, so its length is the sum plus one.
pub proof fn lemma_init_script_layout(base: Seq<char>, extra: Option<Seq<char>>)
    ensures
        init_script_text(base, extra).subrange(0, base.len() as int) == base,
        extra is None ==> init_script_text(base, extra) == base,
        extra matches Some(e) ==> {
            &&& init_script_text(base, extra).len() == base.len() + 1 + e.len()
            &&& init_script_text(base, extra)[base.len() as int] == '\n'
            &&& init_script_text(base, extra).subrange(base.len() + 1int, base.len() + 1int + e.len()) == e
        },
{
    if let Some(e) = extra {
        let t = init_script_text(base, extra);
        assert(t.subrange(0, base.len() as int) =~= base);
        assert(t.subrange(base.len() + 1int, base.len() + 1int + e.len()) =~= e);
    } else {
        assert(init_script_text(base, extra).subrange(0, base.len() as int) =~= base);
    }
}

/// A report of the held modifiers records exactly those modifiers and does
/// nothing else; every input other than a modifiers report, a title change or
/// a navigation to a new origin leaves the session as it was.
pub proof fn lemma_state_changes_only_on_reports(s: Session, input: SessionInput, held: Modifiers)
    ensures
        session_step(s, SessionInput::ModifiersChanged(held)).0 == (Session { modifiers: held, ..s }),
        session_step(s, SessionInput::ModifiersChanged(held)).1 == Seq::<Effect>::empty(),
        !(input is ModifiersChanged) && !(input matches SessionInput::Preview(PreviewEvent::Title(_)))
            && !(input matches SessionInput::Preview(PreviewEvent::Navigate { .. })) ==> session_step(
            s,
            input,
        ).0 == s,
{
    assert(session_step(s, SessionInput::ModifiersChanged(held)).1 =~= Seq::<Effect>::empty());
}

} // verus!
