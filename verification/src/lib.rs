//! A status-bar (tray) menu: a named bar holding an ordered list of menu
//! entries, each of which either runs a callback or quits the application.
//!
//! The library keeps the menu, decides what the tray shows and what a click on
//! an entry does; the platform side that draws the tray and runs the event
//! loop lives outside this crate.
pub mod menu;
pub mod sysbar;

pub use menu::{EntryView, Layout, MenuAction, SysbarView};
pub use sysbar::Sysbar;
