//! Events pushed to the controller by the host runtime, and the directives
//! the controller answers them with. The controller is purely reactive: it
//! never initiates work, it only maps each event to a directive that the
//! host then carries out.

use vstd::prelude::*;

verus! {

use vstd::string::StringExecFns;

/// A notification that the user interacted with the application's icon in
/// the system status area. Kinds other than the two clicks are ignored.
#[derive(Clone, Copy, PartialEq, Eq, Structural, Debug)]
pub enum TrayEvent {
    LeftClick,
    RightClick,
    /// Any tray interaction kind that the controller does not handle.
    Unhandled,
}

/// A notification about a requested change to the main window's lifecycle.
/// Only the close request is handled.
#[derive(Clone, Copy, PartialEq, Eq, Structural, Debug)]
pub enum WindowEvent {
    CloseRequested,
    /// Any window event kind that the controller does not handle.
    Unhandled,
}

/// What the controller asks the host to do with the main window after a
/// tray event.
#[derive(Clone, Copy, PartialEq, Eq, Structural, Debug)]
pub enum TrayDirective {
    /// Look the main window up and request that it be shown.
    ShowMainWindow,
    /// Do nothing.
    Ignore,
}

/// What the controller asks the host to do after a window event.
#[derive(Clone, Copy, PartialEq, Eq, Structural, Debug)]
pub enum WindowDirective {
    /// Suppress the default close action and request the window be hidden,
    /// so the process keeps running in the tray.
    HideAndPreventClose,
    /// Do nothing: the host applies its default behaviour.
    Ignore,
}

/// The directive answered to a tray event: both click kinds reveal the main
/// window, every other kind is a no-op.
pub open spec fn tray_directive_of(e: TrayEvent) -> TrayDirective {
    match e {
        TrayEvent::LeftClick => TrayDirective::ShowMainWindow,
        TrayEvent::RightClick => TrayDirective::ShowMainWindow,
        TrayEvent::Unhandled => TrayDirective::Ignore,
    }
}

/// The directive answered to a window event: a close request is converted
/// into hide-and-keep-alive, every other kind is a no-op.
pub open spec fn window_directive_of(e: WindowEvent) -> WindowDirective {
    match e {
        WindowEvent::CloseRequested => WindowDirective::HideAndPreventClose,
        WindowEvent::Unhandled => WindowDirective::Ignore,
    }
}

/// The diagnostic line emitted for a tray event, if any: one line naming
/// the click kind, nothing for ignored kinds.
pub open spec fn tray_message_of(e: TrayEvent) -> Option<Seq<char>> {
    match e {
        TrayEvent::LeftClick => Some("system tray received a left click"@),
        TrayEvent::RightClick => Some("system tray received a right click"@),
        TrayEvent::Unhandled => None,
    }
}

/// Decides what the host should do with the main window for a tray event.
pub fn tray_directive(e: &TrayEvent) -> (d: TrayDirective)
    ensures
        d == tray_directive_of(*e),
{
    match e {
        TrayEvent::LeftClick => TrayDirective::ShowMainWindow,
        TrayEvent::RightClick => TrayDirective::ShowMainWindow,
        TrayEvent::Unhandled => TrayDirective::Ignore,
    }
}

/// Decides what the host should do for a window event.
pub fn window_directive(e: &WindowEvent) -> (d: WindowDirective)
    ensures
        d == window_directive_of(*e),
{
    match e {
        WindowEvent::CloseRequested => WindowDirective::HideAndPreventClose,
        WindowEvent::Unhandled => WindowDirective::Ignore,
    }
}

/// Builds the diagnostic line for a tray event: `Some` exactly for the two
/// click kinds, naming which one occurred.
pub fn tray_message(e: &TrayEvent) -> (m: Option<String>)
    ensures
        m matches Some(line) ==> tray_message_of(*e) matches Some(v) && line@ == v,
        (m is Some) == (tray_message_of(*e) is Some),
{
    match e {
        TrayEvent::LeftClick => Some(String::from_str("system tray received a left click")),
        TrayEvent::RightClick => Some(String::from_str("system tray received a right click")),
        TrayEvent::Unhandled => None,
    }
}

} // verus!
