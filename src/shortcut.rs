//! Global shortcut descriptors and the routing of shortcut events to actions.
use vstd::prelude::*;

verus! {

/// The modifier keys held down as part of a shortcut.
#[derive(Clone, Copy, Debug, PartialEq, Eq, Structural)]
pub struct Modifiers {
    /// The Command key on macOS, the Super / Windows key elsewhere.
    pub meta: bool,
    pub shift: bool,
    pub control: bool,
    pub alt: bool,
}

/// The non-modifier key of a shortcut.
#[derive(Clone, Copy, Debug, PartialEq, Eq, Structural)]
pub enum KeyCode {
    /// A letter key, written as its upper-case character.
    Letter(char),
    /// Any key that this application never binds.
    Other,
}

/// A key combination: a set of modifiers together with one key.
#[derive(Clone, Copy, Debug, PartialEq, Eq, Structural)]
pub struct Shortcut {
    pub modifiers: Modifiers,
    pub key: KeyCode,
}

/// Whether a shortcut event reports the key going down or coming up.
#[derive(Clone, Copy, Debug, PartialEq, Eq, Structural)]
pub enum ShortcutState {
    Pressed,
    Released,
}

/// What a bound shortcut stands for.
#[derive(Clone, Copy, Debug, PartialEq, Eq, Structural)]
pub enum ShortcutAction {
    /// Read the clipboard into the history, then hide the panel.
    Capture,
    /// Show the floating panel.
    Reveal,
}

pub open spec fn only_meta() -> Modifiers {
    Modifiers { meta: true, shift: false, control: false, alt: false }
}

pub open spec fn meta_shift() -> Modifiers {
    Modifiers { meta: true, shift: true, control: false, alt: false }
}

/// Cmd/Super+C.
pub open spec fn capture_shortcut_spec() -> Shortcut {
    Shortcut { modifiers: only_meta(), key: KeyCode::Letter('C') }
}

/// Cmd/Super+Shift+V.
pub open spec fn reveal_shortcut_spec() -> Shortcut {
    Shortcut { modifiers: meta_shift(), key: KeyCode::Letter('V') }
}

/// The action bound to a shortcut, if any.
pub open spec fn action_of(sc: Shortcut) -> Option<ShortcutAction> {
    if sc == capture_shortcut_spec() {
        Some(ShortcutAction::Capture)
    } else if sc == reveal_shortcut_spec() {
        Some(ShortcutAction::Reveal)
    } else {
        None
    }
}

/// The action that a shortcut event triggers: only a press of a bound
/// shortcut triggers anything; a release never does.
pub open spec fn triggered(sc: Shortcut, state: ShortcutState) -> Option<ShortcutAction> {
    match state {
        ShortcutState::Pressed => action_of(sc),
        ShortcutState::Released => None,
    }
}

impl Shortcut {
    pub fn new(modifiers: Modifiers, key: KeyCode) -> (r: Shortcut)
        ensures
            r.modifiers == modifiers,
            r.key == key,
    {
        Shortcut { modifiers, key }
    }

    /// The shortcut that captures the clipboard and hides the panel.
    pub fn capture_binding() -> (r: Shortcut)
        ensures
            r == capture_shortcut_spec(),
    {
        Shortcut {
            modifiers: Modifiers { meta: true, shift: false, control: false, alt: false },
            key: KeyCode::Letter('C'),
        }
    }

    /// The shortcut that reveals the panel.
    pub fn reveal_binding() -> (r: Shortcut)
        ensures
            r == reveal_shortcut_spec(),
    {
        Shortcut {
            modifiers: Modifiers { meta: true, shift: true, control: false, alt: false },
            key: KeyCode::Letter('V'),
        }
    }

    /// The action bound to this shortcut, if it is one of the two bindings.
    pub fn action(&self) -> (r: Option<ShortcutAction>)
        ensures
            r == action_of(*self),
    {
        if *self == Shortcut::capture_binding() {
            Some(ShortcutAction::Capture)
        } else if *self == Shortcut::reveal_binding() {
            Some(ShortcutAction::Reveal)
        } else {
            None
        }
    }
}

/// Routes a shortcut event to the action it triggers.
pub fn route(sc: &Shortcut, state: ShortcutState) -> (r: Option<ShortcutAction>)
    ensures
        r == triggered(*sc, state),
{
    match state {
        ShortcutState::Pressed => sc.action(),
        ShortcutState::Released => None,
    }
}

/// The two bindings registered at startup, reveal first.
pub fn bindings() -> (r: Vec<(Shortcut, ShortcutAction)>)
    ensures
        r@ == seq![
            (reveal_shortcut_spec(), ShortcutAction::Reveal),
            (capture_shortcut_spec(), ShortcutAction::Capture),
        ],
{
    let mut v: Vec<(Shortcut, ShortcutAction)> = Vec::new();
    v.push((Shortcut::reveal_binding(), ShortcutAction::Reveal));
    v.push((Shortcut::capture_binding(), ShortcutAction::Capture));
    v
}

} // verus!
