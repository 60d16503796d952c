//! Decision logic of a background clipboard utility: two global shortcuts
//! (capture and reveal), an append-only clipboard history, a floating panel
//! that is shown or hidden, and a two-entry tray menu.
//!
//! The host application performs every native effect; this crate decides
//! which effect follows from each event and keeps the state that results.
pub mod history;
pub mod laws;
pub mod panel;
pub mod session;
pub mod shortcut;
pub mod tray;
