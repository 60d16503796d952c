//! The application's state and the decisions taken on each event.
//!
//! The host delivers shortcut events, clipboard reads and tray clicks; the
//! session updates its state and answers with the one native effect that the
//! host must carry out next.
use vstd::prelude::*;
use crate::history::ClipboardHistory;
use crate::panel::PanelVisibility;
use crate::shortcut::{triggered, Shortcut, ShortcutAction, ShortcutState};
use crate::tray::{action_for_id, TrayAction};

verus! {

/// The native effect that the host performs after an event.
#[derive(Clone, Copy, Debug, PartialEq, Eq, Structural)]
pub enum Command {
    /// Nothing to do.
    Nothing,
    /// Read the clipboard text and hand it to `Session::capture`.
    ReadClipboard,
    /// Order the floating panel on screen.
    ShowPanel,
    /// Order the floating panel out of the window list.
    HidePanel,
    /// Hide the main application window.
    HideApp,
    /// End the process with this exit code.
    Exit(i32),
    /// A tray id that no entry carries: report it and go on.
    Ignore,
}

/// An event delivered to the session by the host.
pub enum Event {
    /// A global shortcut went down or came up.
    Shortcut(Shortcut, ShortcutState),
    /// The clipboard was read after a `Command::ReadClipboard`; `None` when it
    /// held no text.
    ClipboardRead(Option<String>),
    /// The tray entry with this id was clicked.
    MenuClick(String),
}

/// One shortcut press, as far as it changes the session: a capture press with
/// the clipboard text that was read (`None` when there was no text), or a
/// reveal press.
pub enum Press {
    Capture(Option<Seq<char>>),
    Reveal,
}

/// The abstract state of a session.
pub struct SessionView {
    pub history: Seq<Seq<char>>,
    pub panel: PanelVisibility,
    pub main_window_hidden: bool,
    pub exit_code: Option<i32>,
}

/// State shared by every event callback of the application.
pub struct Session {
    history: ClipboardHistory,
    panel: PanelVisibility,
    main_window_hidden: bool,
    exit_code: Option<i32>,
}

impl View for Session {
    type V = SessionView;

    closed spec fn view(&self) -> SessionView {
        SessionView {
            history: self.history@,
            panel: self.panel,
            main_window_hidden: self.main_window_hidden,
            exit_code: self.exit_code,
        }
    }
}

/// The clipboard text as the session sees it.
pub open spec fn clip_view(clipboard: Option<String>) -> Option<Seq<char>> {
    match clipboard {
        Some(t) => Some(t@),
        None => None,
    }
}

/// Whether a clipboard read yields a snapshot worth keeping: some text, and
/// not the empty text.
pub open spec fn is_snapshot(clip: Option<Seq<char>>) -> bool {
    clip is Some && clip->0.len() > 0
}

/// The history after a capture whose clipboard read gave `clip`.
pub open spec fn history_after_capture(h: Seq<Seq<char>>, clip: Option<Seq<char>>) -> Seq<Seq<char>> {
    if is_snapshot(clip) {
        h.push(clip->0)
    } else {
        h
    }
}

/// The state after one press.
pub open spec fn after_press(s: SessionView, p: Press) -> SessionView {
    match p {
        Press::Capture(clip) => SessionView {
            history: history_after_capture(s.history, clip),
            panel: PanelVisibility::Hidden,
            ..s
        },
        Press::Reveal => SessionView { panel: PanelVisibility::Visible, ..s },
    }
}

/// The state after a click on the tray entry with id `id`.
pub open spec fn after_menu(s: SessionView, id: Seq<char>) -> SessionView {
    match action_for_id(id) {
        Some(TrayAction::Quit) => SessionView { exit_code: Some(0), ..s },
        Some(TrayAction::Hide) => SessionView { main_window_hidden: true, ..s },
        None => s,
    }
}

/// The command answered to a click on the tray entry with id `id`.
pub open spec fn menu_command(id: Seq<char>) -> Command {
    match action_for_id(id) {
        Some(TrayAction::Quit) => Command::Exit(0),
        Some(TrayAction::Hide) => Command::HideApp,
        None => Command::Ignore,
    }
}

impl Session {
    /// A session with an empty history, the panel in the given state, the
    /// main window shown and the process running.
    pub fn new(panel: PanelVisibility) -> (r: Session)
        ensures
            r@ == (SessionView {
                history: Seq::empty(),
                panel,
                main_window_hidden: false,
                exit_code: None,
            }),
    {
        Session { history: ClipboardHistory::new(), panel, main_window_hidden: false, exit_code: None }
    }

    /// Completes a capture press: keeps the clipboard text, when there is a
    /// non-empty one, at the end of the history, and hides the panel in any
    /// case.
    pub fn capture(&mut self, clipboard: Option<String>) -> (r: Command)
        ensures
            final(self)@ == after_press(old(self)@, Press::Capture(clip_view(clipboard))),
            r == Command::HidePanel,
    {
        match clipboard {
            Some(text) => {
                if text.unicode_len() > 0 {
                    self.history.append(text);
                }
            },
            None => {},
        }
        self.panel = PanelVisibility::Hidden;
        Command::HidePanel
    }

    /// Handles a reveal press: the panel is shown.
    pub fn show_panel(&mut self) -> (r: Command)
        ensures
            final(self)@ == after_press(old(self)@, Press::Reveal),
            r == Command::ShowPanel,
    {
        self.panel = PanelVisibility::Visible;
        Command::ShowPanel
    }

    /// Handles a shortcut event. A capture press asks for the clipboard,
    /// whose text then goes to `capture`; a reveal press shows the panel;
    /// releases and unbound shortcuts change nothing.
    pub fn on_shortcut(&mut self, sc: &Shortcut, state: ShortcutState) -> (r: Command)
        ensures
            match triggered(*sc, state) {
                Some(ShortcutAction::Capture) => r == Command::ReadClipboard && final(self)@
                    == old(self)@,
                Some(ShortcutAction::Reveal) => r == Command::ShowPanel && final(self)@
                    == after_press(old(self)@, Press::Reveal),
                None => r == Command::Nothing && final(self)@ == old(self)@,
            },
    {
        match crate::shortcut::route(sc, state) {
            Some(ShortcutAction::Capture) => Command::ReadClipboard,
            Some(ShortcutAction::Reveal) => self.show_panel(),
            None => Command::Nothing,
        }
    }

    /// Handles a click on the tray entry with id `id`.
    pub fn on_menu(&mut self, id: &str) -> (r: Command)
        ensures
            final(self)@ == after_menu(old(self)@, id@),
            r == menu_command(id@),
    {
        match TrayAction::from_id(id) {
            Some(TrayAction::Quit) => {
                self.exit_code = Some(0);
                Command::Exit(0)
            },
            Some(TrayAction::Hide) => {
                self.main_window_hidden = true;
                Command::HideApp
            },
            None => Command::Ignore,
        }
    }

    /// Handles any event by the handler of its kind.
    pub fn handle(&mut self, e: Event) -> (r: Command)
        ensures
            match e {
                Event::Shortcut(sc, state) => match triggered(sc, state) {
                    Some(ShortcutAction::Capture) => r == Command::ReadClipboard && final(self)@
                        == old(self)@,
                    Some(ShortcutAction::Reveal) => r == Command::ShowPanel && final(self)@
                        == after_press(old(self)@, Press::Reveal),
                    None => r == Command::Nothing && final(self)@ == old(self)@,
                },
                Event::ClipboardRead(clipboard) => r == Command::HidePanel && final(self)@
                    == after_press(old(self)@, Press::Capture(clip_view(clipboard))),
                Event::MenuClick(id) => r == menu_command(id@) && final(self)@ == after_menu(
                    old(self)@,
                    id@,
                ),
            },
    {
        match e {
            Event::Shortcut(sc, state) => self.on_shortcut(&sc, state),
            Event::ClipboardRead(clipboard) => self.capture(clipboard),
            Event::MenuClick(id) => self.on_menu(id.as_str()),
        }
    }

    /// Whether the panel is on screen.
    pub fn panel(&self) -> (r: PanelVisibility)
        ensures
            r == self@.panel,
    {
        self.panel
    }

    /// The captured history.
    pub fn history(&self) -> (r: &ClipboardHistory)
        ensures
            r@ == self@.history,
    {
        &self.history
    }

    /// Whether the main application window has been hidden from the tray.
    pub fn main_window_hidden(&self) -> (r: bool)
        ensures
            r == self@.main_window_hidden,
    {
        self.main_window_hidden
    }

    /// The exit code the process is ending with, once Quit was chosen.
    pub fn exit_code(&self) -> (r: Option<i32>)
        ensures
            r == self@.exit_code,
    {
        self.exit_code
    }
}

} // verus!
