use tray_shell::events::TrayDirective;
use tray_shell::events::TrayEvent;
use tray_shell::events::WindowDirective;
use tray_shell::events::WindowEvent;
use tray_shell::events::tray_directive;
use tray_shell::events::tray_message;
use tray_shell::events::window_directive;
use tray_shell::lifecycle::AppContext;
use tray_shell::lifecycle::Event;
use tray_shell::lifecycle::LifecycleError;
use tray_shell::lifecycle::Platform;
use tray_shell::lifecycle::StartupActions;
use tray_shell::lifecycle::WindowState;
use tray_shell::lifecycle::handle_window_event;
use tray_shell::lifecycle::next_state;
use tray_shell::lifecycle::setup;

#[test]
fn startup_window_is_shown_and_alive() {
    let w = WindowState::startup();
    assert!(w.visible);
    assert!(w.alive);
}

#[test]
fn close_then_tray_click_scenario() {
    // Window shown; a close request hides it but the process stays alive;
    // a left click on the tray shows it again.
    let shown = WindowState::startup();
    let after_close = next_state(shown, &Event::Window(WindowEvent::CloseRequested));
    assert!(!after_close.visible);
    assert!(after_close.alive);
    let after_click = next_state(after_close, &Event::Tray(TrayEvent::LeftClick));
    assert!(after_click.visible);
    assert!(after_click.alive);
}

#[test]
fn repeated_close_requests_never_destroy_window() {
    let mut w = WindowState::startup();
    for _ in 0..8 {
        let prevent = handle_window_event(&mut w, &WindowEvent::CloseRequested);
        assert!(prevent);
        assert!(!w.visible);
        assert!(w.alive);
    }
}

#[test]
fn tray_clicks_show_window_whatever_its_prior_state() {
    for kind in [TrayEvent::LeftClick, TrayEvent::RightClick] {
        for visible in [false, true] {
            let w = WindowState { visible, alive: true };
            let next = next_state(w, &Event::Tray(kind));
            assert!(next.visible);
            assert!(next.alive);
            // Idempotent: a second identical click changes nothing.
            assert_eq!(next_state(next, &Event::Tray(kind)), next);
        }
    }
}

#[test]
fn unhandled_event_kinds_are_noops() {
    for visible in [false, true] {
        let w = WindowState { visible, alive: true };
        assert_eq!(next_state(w, &Event::Tray(TrayEvent::Unhandled)), w);
        assert_eq!(next_state(w, &Event::Window(WindowEvent::Unhandled)), w);
    }
}

#[test]
fn tray_directives_and_messages() {
    assert_eq!(tray_directive(&TrayEvent::LeftClick), TrayDirective::ShowMainWindow);
    assert_eq!(tray_directive(&TrayEvent::RightClick), TrayDirective::ShowMainWindow);
    assert_eq!(tray_directive(&TrayEvent::Unhandled), TrayDirective::Ignore);
    assert_eq!(
        tray_message(&TrayEvent::LeftClick).as_deref(),
        Some("system tray received a left click")
    );
    assert_eq!(
        tray_message(&TrayEvent::RightClick).as_deref(),
        Some("system tray received a right click")
    );
    assert_eq!(tray_message(&TrayEvent::Unhandled), None);
}

#[test]
fn window_directives() {
    assert_eq!(
        window_directive(&WindowEvent::CloseRequested),
        WindowDirective::HideAndPreventClose
    );
    assert_eq!(window_directive(&WindowEvent::Unhandled), WindowDirective::Ignore);
}

#[test]
fn tray_click_shows_window_through_context() {
    let mut ctx = AppContext::new(Some(WindowState { visible: false, alive: true }));
    let line = ctx
        .handle_tray_event(&TrayEvent::LeftClick)
        .expect("click with a window present must succeed");
    assert_eq!(line.as_deref(), Some("system tray received a left click"));
    let w = ctx.main_window.expect("window must still exist");
    assert!(w.visible);
    assert!(w.alive);
}

#[test]
fn tray_click_without_main_window_is_fatal() {
    let mut ctx = AppContext::new(None);
    let err = ctx.handle_tray_event(&TrayEvent::RightClick).unwrap_err();
    assert_eq!(err, LifecycleError::MainWindowMissing);
    assert_eq!(ctx.main_window, None);
}

#[test]
fn ignored_tray_event_makes_no_lookup_and_no_change() {
    let mut ctx = AppContext::new(None);
    let line = ctx
        .handle_tray_event(&TrayEvent::Unhandled)
        .expect("ignored kinds never fail, even without a window");
    assert_eq!(line, None);
}

#[test]
fn lookup_main_window_reports_the_missing_window() {
    let present = AppContext::new(Some(WindowState::startup()));
    assert_eq!(present.lookup_main_window(), Ok(WindowState::startup()));
    let absent = AppContext::new(None);
    assert_eq!(absent.lookup_main_window(), Err(LifecycleError::MainWindowMissing));
}

#[test]
fn setup_requests_accessory_policy_only_on_mac() {
    let ctx = AppContext::new(Some(WindowState::startup()));
    assert_eq!(
        setup(&ctx, &Platform::MacOs),
        Ok(StartupActions { set_accessory_policy: true })
    );
    assert_eq!(
        setup(&ctx, &Platform::Other),
        Ok(StartupActions { set_accessory_policy: false })
    );
}

#[test]
fn setup_without_main_window_is_fatal() {
    let ctx = AppContext::new(None);
    assert_eq!(setup(&ctx, &Platform::MacOs), Err(LifecycleError::MainWindowMissing));
}

#[test]
fn other_window_events_do_not_prevent_close() {
    let mut w = WindowState::startup();
    let prevent = handle_window_event(&mut w, &WindowEvent::Unhandled);
    assert!(!prevent);
    assert_eq!(w, WindowState::startup());
}
