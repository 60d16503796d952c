//! The tray menu: two fixed entries and the mapping of their ids to actions.
use vstd::prelude::*;

verus! {

/// An entry of the tray menu.
#[derive(Clone, Copy, Debug, PartialEq, Eq, Structural)]
pub enum TrayAction {
    /// Hide the main application window; the process keeps running.
    Hide,
    /// End the process with exit code 0.
    Quit,
}

pub open spec fn id_of(a: TrayAction) -> Seq<char> {
    match a {
        TrayAction::Hide => "hide"@,
        TrayAction::Quit => "quit"@,
    }
}

pub open spec fn label_of(a: TrayAction) -> Seq<char> {
    match a {
        TrayAction::Hide => "Hide"@,
        TrayAction::Quit => "Quit"@,
    }
}

/// The action whose menu entry carries the id `id`, if any.
pub open spec fn action_for_id(id: Seq<char>) -> Option<TrayAction> {
    if id == "hide"@ {
        Some(TrayAction::Hide)
    } else if id == "quit"@ {
        Some(TrayAction::Quit)
    } else {
        None
    }
}

/// Whether two strings hold the same characters.
pub fn same_text(a: &str, b: &str) -> (r: bool)
    ensures
        r == (a@ == b@),
{
    let n = a.unicode_len();
    if n != b.unicode_len() {
        return false;
    }
    let mut i: usize = 0;
    while i < n
        invariant
            n == a@.len(),
            n == b@.len(),
            i <= n,
            forall|j: int| 0 <= j < i ==> a@[j] == b@[j],
        decreases n - i,
    {
        if a.get_char(i) != b.get_char(i) {
            return false;
        }
        i = i + 1;
    }
    assert(a@ =~= b@);
    true
}

impl TrayAction {
    /// The id of this action's menu entry.
    pub fn id(&self) -> (r: &'static str)
        ensures
            r@ == id_of(*self),
    {
        match self {
            TrayAction::Hide => "hide",
            TrayAction::Quit => "quit",
        }
    }

    /// The text shown for this action's menu entry.
    pub fn label(&self) -> (r: &'static str)
        ensures
            r@ == label_of(*self),
    {
        match self {
            TrayAction::Hide => "Hide",
            TrayAction::Quit => "Quit",
        }
    }

    /// The action of the menu entry with id `id`; `None` for an id that no
    /// entry carries.
    pub fn from_id(id: &str) -> (r: Option<TrayAction>)
        ensures
            r == action_for_id(id@),
    {
        if same_text(id, "hide") {
            Some(TrayAction::Hide)
        } else if same_text(id, "quit") {
            Some(TrayAction::Quit)
        } else {
            None
        }
    }
}

/// The menu entries in the order they are shown: Hide, then Quit.
pub fn menu_entries() -> (r: Vec<TrayAction>)
    ensures
        r@ == seq![TrayAction::Hide, TrayAction::Quit],
{
    let mut v: Vec<TrayAction> = Vec::new();
    v.push(TrayAction::Hide);
    v.push(TrayAction::Quit);
    v
}

} // verus!
