//! What the shell decides about the desktop around it: the theme, the tray
//! menu, and the global shortcuts.

pub mod shortcuts;
pub mod theme;
pub mod tray;
