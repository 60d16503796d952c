//! Properties of whole runs of the session, proved over its abstract state.
use vstd::prelude::*;
use crate::panel::PanelVisibility;
use crate::session::{
    after_menu, after_press, history_after_capture, is_snapshot, menu_command, Command, Press,
    SessionView,
};

verus! {

/// The state after a run of presses, applied first to last.
pub open spec fn after_presses(s: SessionView, ps: Seq<Press>) -> SessionView
    decreases ps.len(),
{
    if ps.len() == 0 {
        s
    } else {
        after_press(after_presses(s, ps.drop_last()), ps.last())
    }
}

/// The snapshots that a run of presses keeps, in the order of the presses.
pub open spec fn captured(ps: Seq<Press>) -> Seq<Seq<char>>
    decreases ps.len(),
{
    if ps.len() == 0 {
        Seq::empty()
    } else {
        let rest = captured(ps.drop_last());
        match ps.last() {
            Press::Capture(clip) => history_after_capture(rest, clip),
            Press::Reveal => rest,
        }
    }
}

/// The clipboard texts of the capture presses of a run, in order.
pub open spec fn capture_texts(ps: Seq<Press>) -> Seq<Seq<char>>
    decreases ps.len(),
{
    if ps.len() == 0 {
        Seq::empty()
    } else {
        let rest = capture_texts(ps.drop_last());
        match ps.last() {
            Press::Capture(Some(t)) => rest.push(t),
            _ => rest,
        }
    }
}

/// A reveal press, or a capture press whose clipboard held non-empty text.
pub open spec fn has_text_if_capture(p: Press) -> bool {
    match p {
        Press::Capture(clip) => is_snapshot(clip),
        Press::Reveal => true,
    }
}

/// Every capture press of a run read a non-empty text.
pub open spec fn captures_have_text(ps: Seq<Press>) -> bool {
    forall|i: int| 0 <= i < ps.len() ==> has_text_if_capture(#[trigger] ps[i])
}

/// Whatever the presses, the history afterwards is the history before with
/// the kept snapshots added at the end in the order of the presses: nothing
/// is removed or changed, and the tray state is left alone.
pub proof fn lemma_history_grows_by_captures(s: SessionView, ps: Seq<Press>)
    ensures
        after_presses(s, ps).history == s.history + captured(ps),
        after_presses(s, ps).main_window_hidden == s.main_window_hidden,
        after_presses(s, ps).exit_code == s.exit_code,
    decreases ps.len(),
{
    if ps.len() == 0 {
        assert(s.history + Seq::<Seq<char>>::empty() =~= s.history);
    } else {
        lemma_history_grows_by_captures(s, ps.drop_last());
        let rest = captured(ps.drop_last());
        match ps.last() {
            Press::Capture(clip) => {
                if is_snapshot(clip) {
                    assert((s.history + rest).push(clip->0) =~= s.history + rest.push(clip->0));
                }
            },
            Press::Reveal => {},
        }
    }
}

/// When every capture press read non-empty text `t1, ..., tn`, the history
/// afterwards ends with exactly `t1, ..., tn` in order, however reveal presses
/// were interleaved with them.
pub proof fn lemma_history_lists_every_capture(s: SessionView, ps: Seq<Press>)
    requires
        captures_have_text(ps),
    ensures
        after_presses(s, ps).history == s.history + capture_texts(ps),
    decreases ps.len(),
{
    if ps.len() > 0 {
        let init = ps.drop_last();
        assert forall|i: int| 0 <= i < init.len() implies has_text_if_capture(#[trigger] init[i]) by {
            assert(init[i] == ps[i]);
        }
        lemma_history_lists_every_capture(s, init);
        assert(has_text_if_capture(ps[ps.len() - 1]));
        match ps.last() {
            Press::Capture(clip) => {
                let prev = after_presses(s, init).history;
                assert(prev.push(clip->0) =~= s.history + capture_texts(init).push(clip->0));
            },
            Press::Reveal => {},
        }
    }
}

/// A capture press that read no text, or the empty text, leaves the history
/// as it was.
pub proof fn lemma_capture_without_text_keeps_history(s: SessionView, clip: Option<Seq<char>>)
    requires
        !is_snapshot(clip),
    ensures
        after_press(s, Press::Capture(clip)).history == s.history,
{
}

/// Each capture press lengthens the history by exactly one when it read
/// non-empty text, and by nothing otherwise.
pub proof fn lemma_capture_adds_at_most_one(s: SessionView, clip: Option<Seq<char>>)
    ensures
        after_press(s, Press::Capture(clip)).history.len() == s.history.len() + if is_snapshot(
            clip,
        ) {
            1int
        } else {
            0int
        },
{
}

/// After a reveal press the panel is visible, whatever it was before; a
/// second reveal press changes nothing, and the history is untouched.
pub proof fn lemma_reveal_shows_panel(s: SessionView)
    ensures
        after_press(s, Press::Reveal).panel == PanelVisibility::Visible,
        after_press(s, Press::Reveal).history == s.history,
        after_press(after_press(s, Press::Reveal), Press::Reveal) == after_press(s, Press::Reveal),
{
}

/// After a capture press the panel is hidden, whatever it was before, and it
/// stays hidden through further capture presses.
pub proof fn lemma_capture_hides_panel(
    s: SessionView,
    clip: Option<Seq<char>>,
    next: Option<Seq<char>>,
)
    ensures
        after_press(s, Press::Capture(clip)).panel == PanelVisibility::Hidden,
        after_press(after_press(s, Press::Capture(clip)), Press::Capture(next)).panel
            == PanelVisibility::Hidden,
{
}

/// The Quit entry ends the process with exit code 0; the Hide entry hides the
/// main window and leaves the process running.
pub proof fn lemma_tray_entries(s: SessionView)
    ensures
        menu_command("quit"@) == Command::Exit(0),
        after_menu(s, "quit"@).exit_code == Some(0i32),
        menu_command("hide"@) == Command::HideApp,
        after_menu(s, "hide"@).main_window_hidden,
        after_menu(s, "hide"@).exit_code == s.exit_code,
        after_menu(s, "hide"@).panel == s.panel,
        after_menu(s, "hide"@).history == s.history,
{
    reveal_strlit("hide");
    reveal_strlit("quit");
    assert("hide"@[0] != "quit"@[0]);
}

} // verus!
