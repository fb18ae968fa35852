//! A keyboard layout indicator for the system tray: the layout names, their
//! abbreviations and icons, the tray docking handshake and its retry policy, and
//! the state machine that decides when the icon is drawn again.
pub mod abbrev;
pub mod cache;
pub mod dock;
pub mod icon;
pub mod indicator;
pub mod layouts;
mod text;
