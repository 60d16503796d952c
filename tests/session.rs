use clip_panel::history::ClipboardHistory;
use clip_panel::panel::PanelVisibility;
use clip_panel::session::{Command, Event, Session};
use clip_panel::shortcut::{KeyCode, Modifiers, Shortcut, ShortcutState};

fn texts(s: &Session) -> Vec<String> {
    s.history().snapshots()
}

fn press_capture(s: &mut Session, clip: Option<&str>) -> Command {
    let first = s.on_shortcut(&Shortcut::capture_binding(), ShortcutState::Pressed);
    assert_eq!(first, Command::ReadClipboard);
    s.capture(clip.map(|t| t.to_string()))
}

fn press_reveal(s: &mut Session) -> Command {
    s.on_shortcut(&Shortcut::reveal_binding(), ShortcutState::Pressed)
}

#[test]
fn reveal_capture_capture_reveal_scenario() {
    let mut s = Session::new(PanelVisibility::Hidden);
    assert_eq!(press_reveal(&mut s), Command::ShowPanel);
    assert_eq!(s.panel(), PanelVisibility::Visible);

    assert_eq!(press_capture(&mut s, Some("hello")), Command::HidePanel);
    assert_eq!(texts(&s), vec!["hello".to_string()]);
    assert_eq!(s.panel(), PanelVisibility::Hidden);

    assert_eq!(press_capture(&mut s, Some("world")), Command::HidePanel);
    assert_eq!(texts(&s), vec!["hello".to_string(), "world".to_string()]);
    assert_eq!(s.panel(), PanelVisibility::Hidden);

    assert_eq!(press_reveal(&mut s), Command::ShowPanel);
    assert_eq!(s.panel(), PanelVisibility::Visible);
    assert_eq!(texts(&s), vec!["hello".to_string(), "world".to_string()]);
}

#[test]
fn captures_kept_in_order_across_reveals() {
    let mut s = Session::new(PanelVisibility::Visible);
    press_capture(&mut s, Some("a"));
    press_reveal(&mut s);
    press_reveal(&mut s);
    press_capture(&mut s, Some("b"));
    press_capture(&mut s, Some("c"));
    press_reveal(&mut s);
    press_capture(&mut s, Some("a"));
    assert_eq!(texts(&s), vec!["a", "b", "c", "a"]);
    assert_eq!(s.history().len(), 4);
}

#[test]
fn capture_without_text_keeps_history() {
    let mut s = Session::new(PanelVisibility::Visible);
    press_capture(&mut s, Some("x"));
    s.on_shortcut(&Shortcut::reveal_binding(), ShortcutState::Pressed);
    assert_eq!(press_capture(&mut s, None), Command::HidePanel);
    assert_eq!(texts(&s), vec!["x"]);
    assert_eq!(s.panel(), PanelVisibility::Hidden);
    s.on_shortcut(&Shortcut::reveal_binding(), ShortcutState::Pressed);
    assert_eq!(press_capture(&mut s, Some("")), Command::HidePanel);
    assert_eq!(texts(&s), vec!["x"]);
    assert_eq!(s.panel(), PanelVisibility::Hidden);
}

#[test]
fn capture_grows_history_by_at_most_one() {
    let mut s = Session::new(PanelVisibility::Hidden);
    let clips = [Some("p"), None, Some(""), Some("q"), Some("q")];
    let mut before = s.history().len();
    for c in clips {
        press_capture(&mut s, c);
        let after = s.history().len();
        let expect = if c.map_or(false, |t| !t.is_empty()) { before + 1 } else { before };
        assert_eq!(after, expect);
        before = after;
    }
    assert_eq!(texts(&s), vec!["p", "q", "q"]);
}

#[test]
fn reveal_shows_panel_from_either_state() {
    for start in [PanelVisibility::Visible, PanelVisibility::Hidden] {
        let mut s = Session::new(start);
        assert_eq!(press_reveal(&mut s), Command::ShowPanel);
        assert_eq!(s.panel(), PanelVisibility::Visible);
        assert_eq!(press_reveal(&mut s), Command::ShowPanel);
        assert_eq!(s.panel(), PanelVisibility::Visible);
        assert!(s.history().is_empty());
    }
}

#[test]
fn capture_hides_panel_from_either_state() {
    for start in [PanelVisibility::Visible, PanelVisibility::Hidden] {
        let mut s = Session::new(start);
        press_capture(&mut s, Some("t"));
        assert_eq!(s.panel(), PanelVisibility::Hidden);
        press_capture(&mut s, None);
        assert_eq!(s.panel(), PanelVisibility::Hidden);
    }
}

#[test]
fn releases_and_unbound_shortcuts_do_nothing() {
    let mut s = Session::new(PanelVisibility::Hidden);
    assert_eq!(
        s.on_shortcut(&Shortcut::capture_binding(), ShortcutState::Released),
        Command::Nothing
    );
    assert_eq!(
        s.on_shortcut(&Shortcut::reveal_binding(), ShortcutState::Released),
        Command::Nothing
    );
    let plain_c = Shortcut::new(
        Modifiers { meta: false, shift: false, control: true, alt: false },
        KeyCode::Letter('C'),
    );
    assert_eq!(s.on_shortcut(&plain_c, ShortcutState::Pressed), Command::Nothing);
    assert_eq!(s.panel(), PanelVisibility::Hidden);
    assert!(s.history().is_empty());
}

#[test]
fn tray_quit_exits_with_zero() {
    let mut s = Session::new(PanelVisibility::Visible);
    assert_eq!(s.exit_code(), None);
    assert_eq!(s.on_menu("quit"), Command::Exit(0));
    assert_eq!(s.exit_code(), Some(0));
}

#[test]
fn tray_hide_keeps_running() {
    let mut s = Session::new(PanelVisibility::Visible);
    press_capture(&mut s, Some("kept"));
    assert!(!s.main_window_hidden());
    assert_eq!(s.on_menu("hide"), Command::HideApp);
    assert!(s.main_window_hidden());
    assert_eq!(s.exit_code(), None);
    assert_eq!(texts(&s), vec!["kept"]);
}

#[test]
fn tray_unknown_id_is_ignored() {
    let mut s = Session::new(PanelVisibility::Visible);
    assert_eq!(s.on_menu("Quit"), Command::Ignore);
    assert_eq!(s.on_menu(""), Command::Ignore);
    assert_eq!(s.on_menu("hidden"), Command::Ignore);
    assert_eq!(s.exit_code(), None);
    assert!(!s.main_window_hidden());
    assert_eq!(s.panel(), PanelVisibility::Visible);
}

#[test]
fn handle_dispatches_each_event_kind() {
    let mut s = Session::new(PanelVisibility::Hidden);
    let ev = Event::Shortcut(Shortcut::reveal_binding(), ShortcutState::Pressed);
    assert_eq!(s.handle(ev), Command::ShowPanel);
    let ev = Event::Shortcut(Shortcut::capture_binding(), ShortcutState::Pressed);
    assert_eq!(s.handle(ev), Command::ReadClipboard);
    assert_eq!(s.handle(Event::ClipboardRead(Some("clip".to_string()))), Command::HidePanel);
    assert_eq!(texts(&s), vec!["clip"]);
    assert_eq!(s.handle(Event::MenuClick("hide".to_string())), Command::HideApp);
    assert_eq!(s.handle(Event::MenuClick("quit".to_string())), Command::Exit(0));
    assert_eq!(s.handle(Event::MenuClick("other".to_string())), Command::Ignore);
}

#[test]
fn history_appends_at_the_end() {
    let mut h = ClipboardHistory::new();
    assert!(h.is_empty());
    h.append("one".to_string());
    h.append("two".to_string());
    h.append("".to_string());
    assert_eq!(h.len(), 3);
    assert!(!h.is_empty());
    assert_eq!(h.snapshots(), vec!["one", "two", ""]);
}

#[test]
fn non_ascii_clipboard_text_is_kept() {
    let mut s = Session::new(PanelVisibility::Visible);
    press_capture(&mut s, Some("ショートカット"));
    assert_eq!(texts(&s), vec!["ショートカット"]);
}
