//! The data model: a workspace configuration of windows, panes and hooks,
//! the closed layout and hook-event vocabularies with their serialized
//! tokens, the discovered index origins, and the command-line types.
use vstd::prelude::*;
use vstd::string::*;
use crate::text::str_eq;

verus! {

/// A directory override, absent meaning "use the multiplexer's own
/// default".
pub type StartDirectory = Option<String>;

/// The two configurable numeric origins a tmux server numbers windows and
/// panes from, discovered once per compile pass.
#[derive(Debug, PartialEq)]
pub struct TmuxBaseIndices {
    pub base_index: usize,
    pub pane_base_index: usize,
}

/// The closed set of window arrangements tmux offers.
#[derive(Clone, Copy, Debug)]
pub enum Layout {
    EvenHorizontal,
    EvenVertical,
    MainHorizontal,
    MainVertical,
    Tiled,
}

/// The fixed token each layout is written as on the command line.
pub open spec fn layout_token(l: Layout) -> Seq<char> {
    match l {
        Layout::EvenHorizontal => "even-horizontal"@,
        Layout::EvenVertical => "even-vertical"@,
        Layout::MainHorizontal => "main-horizontal"@,
        Layout::MainVertical => "main-vertical"@,
        Layout::Tiled => "tiled"@,
    }
}

impl Layout {
    /// The serialized form of the layout, from a fixed table.
    pub fn to_string(&self) -> (r: String)
        ensures
            r@ == layout_token(*self),
    {
        match self {
            Layout::EvenHorizontal => String::from_str("even-horizontal"),
            Layout::EvenVertical => String::from_str("even-vertical"),
            Layout::MainHorizontal => String::from_str("main-horizontal"),
            Layout::MainVertical => String::from_str("main-vertical"),
            Layout::Tiled => String::from_str("tiled"),
        }
    }
}

/// The closed set of server events a hook may be bound to.
#[derive(Clone, Copy, Debug)]
pub enum HookName {
    AfterBindKey,
    AfterCapturePane,
    AfterCopyMode,
    AfterCursorDown,
    AfterDisplayPanes,
    AfterListClients,
    AfterListKeys,
    AfterListPanes,
    AfterListSessions,
    AfterListWindows,
    AfterNewWindow,
    AfterPipePane,
    AfterRefreshClient,
    AfterRenameSession,
    AfterRenameWindow,
    AfterResizePane,
    AfterResizeWindow,
    AfterSelectLayout,
    AfterSelectPane,
    AfterSelectWindow,
    AfterSendKeys,
    AfterSetOption,
    AfterShowMessages,
    AfterShowOptions,
    AfterSplitWindow,
    AfterUnbindKey,
    AlertActivity,
    AlertBell,
    AlertSilence,
    ClientAttached,
    ClientDetached,
    ClientResized,
    ClientSessionChanged,
    LayoutChange,
    Output,
    PaneDied,
    PaneExited,
    PaneFocusIn,
    PaneFocusOut,
    PaneModeChanged,
    PaneSetClipboard,
    SessionChanged,
    SessionClosed,
    SessionCreated,
    SessionRenamed,
    SessionWindowChanged,
    SessionsChanged,
    UnlinkedWindowAdd,
    WindowAdd,
    WindowClose,
    WindowLinked,
    WindowPaneChanged,
    WindowRenamed,
    WindowUnlinked,
}

/// The fixed token each hook event is written as on the command line.
pub open spec fn hook_name_token(h: HookName) -> Seq<char> {
    match h {
        HookName::AfterBindKey => "after-bind-key"@,
        HookName::AfterCapturePane => "after-capture-pane"@,
        HookName::AfterCopyMode => "after-copy-mode"@,
        HookName::AfterCursorDown => "after-cursor-down"@,
        HookName::AfterDisplayPanes => "after-display-panes"@,
        HookName::AfterListClients => "after-list-clients"@,
        HookName::AfterListKeys => "after-list-keys"@,
        HookName::AfterListPanes => "after-list-panes"@,
        HookName::AfterListSessions => "after-list-sessions"@,
        HookName::AfterListWindows => "after-list-windows"@,
        HookName::AfterNewWindow => "after-new-window"@,
        HookName::AfterPipePane => "after-pipe-pane"@,
        HookName::AfterRefreshClient => "after-refresh-client"@,
        HookName::AfterRenameSession => "after-rename-session"@,
        HookName::AfterRenameWindow => "after-rename-window"@,
        HookName::AfterResizePane => "after-resize-pane"@,
        HookName::AfterResizeWindow => "after-resize-window"@,
        HookName::AfterSelectLayout => "after-select-layout"@,
        HookName::AfterSelectPane => "after-select-pane"@,
        HookName::AfterSelectWindow => "after-select-window"@,
        HookName::AfterSendKeys => "after-send-keys"@,
        HookName::AfterSetOption => "after-set-option"@,
        HookName::AfterShowMessages => "after-show-messages"@,
        HookName::AfterShowOptions => "after-show-options"@,
        HookName::AfterSplitWindow => "after-split-window"@,
        HookName::AfterUnbindKey => "after-unbind-key"@,
        HookName::AlertActivity => "alert-activity"@,
        HookName::AlertBell => "alert-bell"@,
        HookName::AlertSilence => "alert-silence"@,
        HookName::ClientAttached => "client-attached"@,
        HookName::ClientDetached => "client-detached"@,
        HookName::ClientResized => "client-resized"@,
        HookName::ClientSessionChanged => "client-session-changed"@,
        HookName::LayoutChange => "layout-change"@,
        HookName::Output => "output"@,
        HookName::PaneDied => "pane-died"@,
        HookName::PaneExited => "pane-exited"@,
        HookName::PaneFocusIn => "pane-focus-in"@,
        HookName::PaneFocusOut => "pane-focus-out"@,
        HookName::PaneModeChanged => "pane-mode-changed"@,
        HookName::PaneSetClipboard => "pane-set-clipboard"@,
        HookName::SessionChanged => "session-changed"@,
        HookName::SessionClosed => "session-closed"@,
        HookName::SessionCreated => "session-created"@,
        HookName::SessionRenamed => "session-renamed"@,
        HookName::SessionWindowChanged => "session-window-changed"@,
        HookName::SessionsChanged => "sessions-changed"@,
        HookName::UnlinkedWindowAdd => "unlinked-window-add"@,
        HookName::WindowAdd => "window-add"@,
        HookName::WindowClose => "window-close"@,
        HookName::WindowLinked => "window-linked"@,
        HookName::WindowPaneChanged => "window-pane-changed"@,
        HookName::WindowRenamed => "window-renamed"@,
        HookName::WindowUnlinked => "window-unlinked"@,
    }
}

impl HookName {
    /// The serialized form of the hook event, from a fixed table.
    pub fn to_string(&self) -> (r: String)
        ensures
            r@ == hook_name_token(*self),
    {
        match self {
            HookName::AfterBindKey => String::from_str("after-bind-key"),
            HookName::AfterCapturePane => String::from_str("after-capture-pane"),
            HookName::AfterCopyMode => String::from_str("after-copy-mode"),
            HookName::AfterCursorDown => String::from_str("after-cursor-down"),
            HookName::AfterDisplayPanes => String::from_str("after-display-panes"),
            HookName::AfterListClients => String::from_str("after-list-clients"),
            HookName::AfterListKeys => String::from_str("after-list-keys"),
            HookName::AfterListPanes => String::from_str("after-list-panes"),
            HookName::AfterListSessions => String::from_str("after-list-sessions"),
            HookName::AfterListWindows => String::from_str("after-list-windows"),
            HookName::AfterNewWindow => String::from_str("after-new-window"),
            HookName::AfterPipePane => String::from_str("after-pipe-pane"),
            HookName::AfterRefreshClient => String::from_str("after-refresh-client"),
            HookName::AfterRenameSession => String::from_str("after-rename-session"),
            HookName::AfterRenameWindow => String::from_str("after-rename-window"),
            HookName::AfterResizePane => String::from_str("after-resize-pane"),
            HookName::AfterResizeWindow => String::from_str("after-resize-window"),
            HookName::AfterSelectLayout => String::from_str("after-select-layout"),
            HookName::AfterSelectPane => String::from_str("after-select-pane"),
            HookName::AfterSelectWindow => String::from_str("after-select-window"),
            HookName::AfterSendKeys => String::from_str("after-send-keys"),
            HookName::AfterSetOption => String::from_str("after-set-option"),
            HookName::AfterShowMessages => String::from_str("after-show-messages"),
            HookName::AfterShowOptions => String::from_str("after-show-options"),
            HookName::AfterSplitWindow => String::from_str("after-split-window"),
            HookName::AfterUnbindKey => String::from_str("after-unbind-key"),
            HookName::AlertActivity => String::from_str("alert-activity"),
            HookName::AlertBell => String::from_str("alert-bell"),
            HookName::AlertSilence => String::from_str("alert-silence"),
            HookName::ClientAttached => String::from_str("client-attached"),
            HookName::ClientDetached => String::from_str("client-detached"),
            HookName::ClientResized => String::from_str("client-resized"),
            HookName::ClientSessionChanged => String::from_str("client-session-changed"),
            HookName::LayoutChange => String::from_str("layout-change"),
            HookName::Output => String::from_str("output"),
            HookName::PaneDied => String::from_str("pane-died"),
            HookName::PaneExited => String::from_str("pane-exited"),
            HookName::PaneFocusIn => String::from_str("pane-focus-in"),
            HookName::PaneFocusOut => String::from_str("pane-focus-out"),
            HookName::PaneModeChanged => String::from_str("pane-mode-changed"),
            HookName::PaneSetClipboard => String::from_str("pane-set-clipboard"),
            HookName::SessionChanged => String::from_str("session-changed"),
            HookName::SessionClosed => String::from_str("session-closed"),
            HookName::SessionCreated => String::from_str("session-created"),
            HookName::SessionRenamed => String::from_str("session-renamed"),
            HookName::SessionWindowChanged => String::from_str("session-window-changed"),
            HookName::SessionsChanged => String::from_str("sessions-changed"),
            HookName::UnlinkedWindowAdd => String::from_str("unlinked-window-add"),
            HookName::WindowAdd => String::from_str("window-add"),
            HookName::WindowClose => String::from_str("window-close"),
            HookName::WindowLinked => String::from_str("window-linked"),
            HookName::WindowPaneChanged => String::from_str("window-pane-changed"),
            HookName::WindowRenamed => String::from_str("window-renamed"),
            HookName::WindowUnlinked => String::from_str("window-unlinked"),
        }
    }
}

/// A server-side event binding: run the command when the named event
/// fires.
#[derive(Debug)]
pub struct Hook {
    pub command: String,
    pub name: HookName,
}

/// The mathematical shape of a hook.
pub ghost struct HookView {
    pub command: Seq<char>,
    pub name: HookName,
}

impl View for Hook {
    type V = HookView;

    open spec fn view(&self) -> HookView {
        HookView { command: self.command@, name: self.name }
    }
}

impl DeepView for Hook {
    type V = HookView;

    open spec fn deep_view(&self) -> HookView {
        self.view()
    }
}

/// A single terminal viewport: shell commands to send it, an optional
/// display label, and an optional starting directory.
#[derive(Debug)]
pub struct Pane {
    pub commands: Vec<String>,
    pub name: Option<String>,
    pub start_directory: StartDirectory,
}

/// The mathematical shape of a pane.
pub ghost struct PaneView {
    pub commands: Seq<Seq<char>>,
    pub name: Option<Seq<char>>,
    pub start_directory: Option<Seq<char>>,
}

impl View for Pane {
    type V = PaneView;

    open spec fn view(&self) -> PaneView {
        PaneView {
            commands: self.commands.deep_view(),
            name: self.name.deep_view(),
            start_directory: self.start_directory.deep_view(),
        }
    }
}

impl DeepView for Pane {
    type V = PaneView;

    open spec fn deep_view(&self) -> PaneView {
        self.view()
    }
}

impl Default for Pane {
    /// A pane with no commands, no label and no directory override.
    fn default() -> (r: Pane)
        ensures
            r@.commands.len() == 0,
            r@.name is None,
            r@.start_directory is None,
    {
        let r = Pane { commands: Vec::new(), name: None, start_directory: None };
        proof {
            assert(r@.commands =~= Seq::<Seq<char>>::empty());
        }
        r
    }
}

/// A tab-like container of panes, with an optional display name, layout
/// and starting directory.
#[derive(Debug)]
pub struct Window {
    pub layout: Option<Layout>,
    pub name: Option<String>,
    pub panes: Vec<Pane>,
    pub start_directory: StartDirectory,
}

/// The mathematical shape of a window.
pub ghost struct WindowView {
    pub layout: Option<Layout>,
    pub name: Option<Seq<char>>,
    pub panes: Seq<PaneView>,
    pub start_directory: Option<Seq<char>>,
}

impl View for Window {
    type V = WindowView;

    open spec fn view(&self) -> WindowView {
        WindowView {
            layout: self.layout,
            name: self.name.deep_view(),
            panes: self.panes.deep_view(),
            start_directory: self.start_directory.deep_view(),
        }
    }
}

impl DeepView for Window {
    type V = WindowView;

    open spec fn deep_view(&self) -> WindowView {
        self.view()
    }
}

impl Default for Window {
    /// A window with no name, no layout, no panes and no directory
    /// override.
    fn default() -> (r: Window)
        ensures
            r@.layout is None,
            r@.name is None,
            r@.panes.len() == 0,
            r@.start_directory is None,
    {
        Window { layout: None, name: None, panes: Vec::new(), start_directory: None }
    }
}

/// A named workspace: its windows, hooks, defaults, whether to attach
/// interactively, and the optional global flag string.
#[derive(Debug)]
pub struct Config {
    pub attached: bool,
    pub pane_name_user_option: Option<String>,
    pub hooks: Vec<Hook>,
    pub layout: Option<Layout>,
    pub name: String,
    pub start_directory: StartDirectory,
    pub tmux_options: Option<String>,
    pub windows: Vec<Window>,
}

/// The mathematical shape of a configuration.
pub ghost struct ConfigView {
    pub attached: bool,
    pub pane_name_user_option: Option<Seq<char>>,
    pub hooks: Seq<HookView>,
    pub layout: Option<Layout>,
    pub name: Seq<char>,
    pub start_directory: Option<Seq<char>>,
    pub tmux_options: Option<Seq<char>>,
    pub windows: Seq<WindowView>,
}

impl View for Config {
    type V = ConfigView;

    open spec fn view(&self) -> ConfigView {
        ConfigView {
            attached: self.attached,
            pane_name_user_option: self.pane_name_user_option.deep_view(),
            hooks: self.hooks.deep_view(),
            layout: self.layout,
            name: self.name@,
            start_directory: self.start_directory.deep_view(),
            tmux_options: self.tmux_options.deep_view(),
            windows: self.windows.deep_view(),
        }
    }
}

impl DeepView for Config {
    type V = ConfigView;

    open spec fn deep_view(&self) -> ConfigView {
        self.view()
    }
}

impl Default for Config {
    /// An unnamed, detached configuration with nothing set.
    fn default() -> (r: Config)
        ensures
            r@.attached == false,
            r@.pane_name_user_option is None,
            r@.hooks.len() == 0,
            r@.layout is None,
            r@.name.len() == 0,
            r@.start_directory is None,
            r@.tmux_options is None,
            r@.windows.len() == 0,
    {
        Config {
            attached: false,
            pane_name_user_option: None,
            hooks: Vec::new(),
            layout: None,
            name: String::new(),
            start_directory: None,
            tmux_options: None,
            windows: Vec::new(),
        }
    }
}

/// The subcommand the program was asked to run.
#[derive(Debug, PartialEq)]
pub enum CliCommand {
    Debug,
    Start,
}

/// The error for a subcommand name that names no known subcommand.
#[derive(Debug)]
pub struct ParseCliCommandError;

impl CliCommand {
    /// Reads a subcommand name; only the two known names are accepted.
    pub fn from_str(s: &str) -> (r: Result<CliCommand, ParseCliCommandError>)
        ensures
            s@ == "debug"@ ==> r == Ok::<CliCommand, ParseCliCommandError>(CliCommand::Debug),
            s@ == "start"@ ==> r == Ok::<CliCommand, ParseCliCommandError>(CliCommand::Start),
            (s@ != "debug"@ && s@ != "start"@) ==> r is Err,
    {
        proof {
            reveal_strlit("debug");
            reveal_strlit("start");
            assert("debug"@[0] != "start"@[0]);
        }
        if str_eq(s, "debug") {
            Ok(CliCommand::Debug)
        } else if str_eq(s, "start") {
            Ok(CliCommand::Start)
        } else {
            Err(ParseCliCommandError)
        }
    }
}

/// The parsed command line: the subcommand and the project config path.
#[derive(Debug, PartialEq)]
pub struct CliArgs {
    pub command: CliCommand,
    pub project_name: String,
}

} // verus!
