//! The floating panel: its visibility, and the window attributes that turn
//! the application's main window into a floating, non-activating panel.
use vstd::prelude::*;

verus! {

/// Whether the floating panel is on screen.
#[derive(Clone, Copy, Debug, PartialEq, Eq, Structural)]
pub enum PanelVisibility {
    Visible,
    Hidden,
}

/// The stacking level of a window.
#[derive(Clone, Copy, Debug, PartialEq, Eq, Structural)]
pub enum WindowLevel {
    /// The level of ordinary application windows.
    Normal,
    /// Above ordinary windows.
    Floating,
}

/// The window attributes applied once at startup.
#[derive(Clone, Copy, Debug, PartialEq, Eq, Structural)]
pub struct PanelConfig {
    pub level: WindowLevel,
    /// The panel can be shown without taking focus from other applications.
    pub non_activating: bool,
    /// The panel appears on every virtual desktop.
    pub join_all_spaces: bool,
    /// The panel may stand beside a full-screen window.
    pub full_screen_auxiliary: bool,
}

/// Native level number of a floating window.
pub const FLOATING_LEVEL_CODE: i32 = 4;
/// Native style-mask bit of a non-activating panel.
pub const NON_ACTIVATING_STYLE_BIT: i32 = 128;
/// Native collection-behaviour bit: joins all spaces.
pub const JOIN_ALL_SPACES_BIT: u64 = 1;
/// Native collection-behaviour bit: full-screen auxiliary.
pub const FULL_SCREEN_AUXILIARY_BIT: u64 = 256;

/// The label of the one window that becomes the panel.
pub open spec fn panel_label_spec() -> Seq<char> {
    "main"@
}

pub open spec fn level_code_of(level: WindowLevel) -> i32 {
    match level {
        WindowLevel::Normal => 0,
        WindowLevel::Floating => FLOATING_LEVEL_CODE,
    }
}

pub open spec fn style_mask_of(c: PanelConfig) -> i32 {
    if c.non_activating { NON_ACTIVATING_STYLE_BIT } else { 0 }
}

pub open spec fn collection_bits_of(c: PanelConfig) -> int {
    (if c.join_all_spaces { JOIN_ALL_SPACES_BIT as int } else { 0 }) + (if c.full_screen_auxiliary {
        FULL_SCREEN_AUXILIARY_BIT as int
    } else {
        0
    })
}

/// The label of the window that is turned into the panel.
pub fn panel_label() -> (r: &'static str)
    ensures
        r@ == panel_label_spec(),
{
    "main"
}

impl PanelConfig {
    /// The configuration of the panel: floating, non-activating, on every
    /// space and beside full-screen windows.
    pub fn floating_panel() -> (r: PanelConfig)
        ensures
            r.level == WindowLevel::Floating,
            r.non_activating,
            r.join_all_spaces,
            r.full_screen_auxiliary,
    {
        PanelConfig {
            level: WindowLevel::Floating,
            non_activating: true,
            join_all_spaces: true,
            full_screen_auxiliary: true,
        }
    }

    /// The native window level number.
    pub fn level_code(&self) -> (r: i32)
        ensures
            r == level_code_of(self.level),
    {
        match self.level {
            WindowLevel::Normal => 0,
            WindowLevel::Floating => FLOATING_LEVEL_CODE,
        }
    }

    /// The native style mask.
    pub fn style_mask(&self) -> (r: i32)
        ensures
            r == style_mask_of(*self),
    {
        if self.non_activating {
            NON_ACTIVATING_STYLE_BIT
        } else {
            0
        }
    }

    /// The native collection-behaviour bits.
    pub fn collection_bits(&self) -> (r: u64)
        ensures
            r == collection_bits_of(*self),
    {
        let a: u64 = if self.join_all_spaces { JOIN_ALL_SPACES_BIT } else { 0 };
        let b: u64 = if self.full_screen_auxiliary { FULL_SCREEN_AUXILIARY_BIT } else { 0 };
        a + b
    }
}

} // verus!
