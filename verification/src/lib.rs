//! A minimal desktop application shell, modelled as a lifecycle controller:
//! a greeting command, tray-click handling that reveals the main window, and
//! a close interceptor that hides the window instead of destroying it.

pub mod events;
pub mod greeting;
pub mod lifecycle;
