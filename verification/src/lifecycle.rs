//! The application lifecycle controller: the `Hidden <-> Shown` state
//! machine of the main window, the handlers the host runtime calls, and the
//! startup hook. The host owns the event loop and the real window; this
//! module decides, and the host carries the directives out.

use vstd::prelude::*;

verus! {

use crate::events::TrayDirective;
use crate::events::TrayEvent;
use crate::events::WindowDirective;
use crate::events::WindowEvent;
use crate::events::tray_directive;
use crate::events::tray_directive_of;
use crate::events::tray_message;
use crate::events::tray_message_of;
use crate::events::window_directive;
use crate::events::window_directive_of;

/// The observable state of the main window: whether it is on screen, and
/// whether it still exists. The host creates it once at startup; nothing
/// the controller does ever destroys it.
#[derive(Clone, Copy, PartialEq, Eq, Structural, Debug)]
pub struct WindowState {
    /// Shown or hidden.
    pub visible: bool,
    /// False once the window has been destroyed.
    pub alive: bool,
}

/// Any event the host runtime pushes to the controller.
#[derive(Clone, Copy, PartialEq, Eq, Structural, Debug)]
pub enum Event {
    Tray(TrayEvent),
    Window(WindowEvent),
}

impl WindowState {
    /// The state of the main window right after startup: created and shown.
    pub fn startup() -> (w: WindowState)
        ensures
            w.visible,
            w.alive,
    {
        WindowState { visible: true, alive: true }
    }
}

/// What becomes of the window when the host carries out a tray directive.
pub open spec fn apply_tray_directive(w: WindowState, d: TrayDirective) -> WindowState {
    match d {
        TrayDirective::ShowMainWindow => WindowState { visible: true, alive: w.alive },
        TrayDirective::Ignore => w,
    }
}

/// What becomes of the window when the host carries out a window directive.
/// An unprevented close request is the host's default: it destroys the
/// window; the controller's directive replaces that with hiding.
pub open spec fn apply_window_directive(w: WindowState, e: WindowEvent, d: WindowDirective) -> WindowState {
    match e {
        WindowEvent::CloseRequested => match d {
            WindowDirective::HideAndPreventClose => WindowState { visible: false, alive: w.alive },
            WindowDirective::Ignore => WindowState { visible: false, alive: false },
        },
        WindowEvent::Unhandled => w,
    }
}

/// One step of the lifecycle: the controller's directive for `e`, carried
/// out by the host on window state `w`.
pub open spec fn step(w: WindowState, e: Event) -> WindowState {
    match e {
        Event::Tray(t) => apply_tray_directive(w, tray_directive_of(t)),
        Event::Window(v) => apply_window_directive(w, v, window_directive_of(v)),
    }
}

/// The window state after the host has dispatched a whole sequence of
/// events, one at a time, in order.
pub open spec fn run(w: WindowState, events: Seq<Event>) -> WindowState
    decreases events.len(),
{
    if events.len() == 0 {
        w
    } else {
        run(step(w, events[0]), events.subrange(1, events.len() as int))
    }
}

/// Computes the window state after one event. The host calls this with the
/// state it owns and the event it received, and owes the window the result.
pub fn next_state(w: WindowState, e: &Event) -> (r: WindowState)
    ensures
        r == step(w, *e),
{
    match e {
        Event::Tray(t) => match tray_directive(t) {
            TrayDirective::ShowMainWindow => WindowState { visible: true, alive: w.alive },
            TrayDirective::Ignore => w,
        },
        Event::Window(v) => match window_directive(v) {
            WindowDirective::HideAndPreventClose => WindowState { visible: false, alive: w.alive },
            WindowDirective::Ignore => w,
        },
    }
}

/// The one failure the controller models: the main window, which the
/// startup invariant promises to exist, could not be found. Unrecoverable.
#[derive(Clone, Copy, PartialEq, Eq, Structural, Debug)]
pub enum LifecycleError {
    MainWindowMissing,
}

/// The lifecycle context the host threads into each handler in place of an
/// ambient global: it yields the main window when asked by its well-known
/// identifier, or nothing if the startup invariant was broken.
pub struct AppContext {
    /// The main window, if it exists.
    pub main_window: Option<WindowState>,
}

impl AppContext {
    /// Wraps what the host's registry found under the main window's
    /// well-known identifier.
    pub fn new(main_window: Option<WindowState>) -> (ctx: AppContext)
        ensures
            ctx.main_window == main_window,
    {
        AppContext { main_window }
    }

    /// Looks the main window up. Its absence is an initialisation
    /// invariant violation, reported as the one fatal error.
    pub fn lookup_main_window(&self) -> (r: Result<WindowState, LifecycleError>)
        ensures
            self.main_window matches Some(w) ==> (r matches Ok(got) && got == w),
            self.main_window is None ==> (r matches Err(err) && err
                == LifecycleError::MainWindowMissing),
    {
        match self.main_window {
            Some(w) => Ok(w),
            None => Err(LifecycleError::MainWindowMissing),
        }
    }

    /// Handles one tray event: decides the directive, carries it out on
    /// the main window, and returns the diagnostic line to emit, if any.
    /// Ignored kinds touch nothing and never fail; a click fails exactly
    /// when the main window is missing, and then aborts the handler
    /// without a state change.
    pub fn handle_tray_event(&mut self, e: &TrayEvent) -> (r: Result<Option<String>, LifecycleError>)
        ensures
            tray_directive_of(*e) == TrayDirective::Ignore ==> ({
                &&& r matches Ok(m) && m is None
                &&& final(self).main_window == old(self).main_window
            }),
            tray_directive_of(*e) == TrayDirective::ShowMainWindow ==> match old(self).main_window {
                Some(w) => {
                    &&& r matches Ok(m) && m matches Some(line) && Some(line@) == tray_message_of(*e)
                    &&& final(self).main_window == Some(apply_tray_directive(w, TrayDirective::ShowMainWindow))
                },
                None => {
                    &&& r matches Err(err) && err == LifecycleError::MainWindowMissing
                    &&& final(self).main_window == old(self).main_window
                },
            },
    {
        match tray_directive(e) {
            TrayDirective::Ignore => Ok(None),
            TrayDirective::ShowMainWindow => match self.lookup_main_window() {
                Err(err) => Err(err),
                Ok(w) => {
                    self.main_window = Some(WindowState { visible: true, alive: w.alive });
                    Ok(tray_message(e))
                },
            },
        }
    }
}

/// Handles one window event for the window it concerns: a close request is
/// intercepted — the default close action is suppressed and the window
/// hidden instead — and every other kind is left alone. Returns whether
/// the host must prevent the default close.
pub fn handle_window_event(w: &mut WindowState, e: &WindowEvent) -> (prevent_close: bool)
    ensures
        *final(w) == apply_window_directive(*old(w), *e, window_directive_of(*e)),
        prevent_close == (window_directive_of(*e) == WindowDirective::HideAndPreventClose),
        final(w).alive == old(w).alive,
{
    match window_directive(e) {
        WindowDirective::HideAndPreventClose => {
            w.visible = false;
            true
        },
        WindowDirective::Ignore => false,
    }
}

/// The platform family the process runs on, queried at runtime: only the
/// Mac desktop family can opt a running application out of the dock and
/// task switchers.
#[derive(Clone, Copy, PartialEq, Eq, Structural, Debug)]
pub enum Platform {
    MacOs,
    Other,
}

/// What the startup hook asks the host to do.
#[derive(Clone, Copy, PartialEq, Eq, Structural, Debug)]
pub struct StartupActions {
    /// Switch the process's activation policy to "accessory" so it stays
    /// out of the dock and task switchers; set only on the Mac family.
    pub set_accessory_policy: bool,
}

/// The startup hook, run once when the host runtime finishes initialising:
/// decides whether to request the accessory activation policy, and asserts
/// that the main window exists. A missing window breaks the all-or-nothing
/// initialisation invariant and is the one fatal error.
pub fn setup(ctx: &AppContext, platform: &Platform) -> (r: Result<StartupActions, LifecycleError>)
    ensures
        ctx.main_window is Some ==> (r matches Ok(a) && a.set_accessory_policy == (*platform
            == Platform::MacOs)),
        ctx.main_window is None ==> (r matches Err(err) && err
            == LifecycleError::MainWindowMissing),
{
    match ctx.lookup_main_window() {
        Err(err) => Err(err),
        Ok(_) => Ok(StartupActions { set_accessory_policy: *platform == Platform::MacOs }),
    }
}

/// No directive the controller issues ever lets the window be destroyed:
/// one step of the lifecycle keeps the window exactly as alive as it was.
pub proof fn lemma_step_preserves_window(w: WindowState, e: Event)
    ensures
        step(w, e).alive == w.alive,
{
}

/// The window survives any sequence of dispatched events — in particular
/// any sequence of close requests — so the process keeps running in the
/// tray for as long as the host loop does.
pub proof fn lemma_run_never_destroys(w: WindowState, events: Seq<Event>)
    ensures
        run(w, events).alive == w.alive,
    decreases events.len(),
{
    if events.len() > 0 {
        lemma_step_preserves_window(w, events[0]);
        lemma_run_never_destroys(step(w, events[0]), events.subrange(1, events.len() as int));
    }
}

/// Running a sequence extended by one event is running the sequence and
/// then stepping on that event.
pub proof fn lemma_run_snoc(w: WindowState, events: Seq<Event>, e: Event)
    ensures
        run(w, events.push(e)) == step(run(w, events), e),
    decreases events.len(),
{
    if events.len() == 0 {
        assert(events.push(e)[0] == e);
        assert(events.push(e).subrange(1, events.push(e).len() as int) =~= Seq::<Event>::empty());
        assert(run(step(w, e), Seq::<Event>::empty()) == step(w, e));
        assert(run(w, events.push(e)) == run(step(w, e), Seq::<Event>::empty()));
        assert(run(w, events) == w);
    } else {
        assert(events.push(e)[0] == events[0]);
        assert(events.push(e).subrange(1, events.push(e).len() as int) =~= events.subrange(
            1,
            events.len() as int,
        ).push(e));
        lemma_run_snoc(step(w, events[0]), events.subrange(1, events.len() as int), e);
        assert(run(w, events.push(e)) == run(
            step(w, events[0]),
            events.subrange(1, events.len() as int).push(e),
        ));
        assert(run(w, events) == run(step(w, events[0]), events.subrange(1, events.len() as int)));
    }
}

/// Every close request in a dispatched sequence leaves the window hidden —
/// not destroyed — the moment it has been handled.
pub proof fn lemma_close_request_hides_window(w: WindowState, events: Seq<Event>, i: int)
    requires
        0 <= i < events.len(),
        events[i] == Event::Window(WindowEvent::CloseRequested),
    ensures
        !run(w, events.subrange(0, i + 1)).visible,
        run(w, events.subrange(0, i + 1)).alive == w.alive,
{
    assert(events.subrange(0, i + 1) =~= events.subrange(0, i).push(events[i]));
    lemma_run_snoc(w, events.subrange(0, i), events[i]);
    lemma_run_never_destroys(w, events.subrange(0, i));
}

/// Either tray click shows the window, whatever its prior visibility, and
/// a repeated click changes nothing further: showing is idempotent.
pub proof fn lemma_tray_click_shows_window(w: WindowState, t: TrayEvent)
    requires
        t == TrayEvent::LeftClick || t == TrayEvent::RightClick,
    ensures
        step(w, Event::Tray(t)).visible,
        step(w, Event::Tray(t)).alive == w.alive,
        step(step(w, Event::Tray(t)), Event::Tray(t)) == step(w, Event::Tray(t)),
{
}

/// A tray or window event kind the controller does not handle produces no
/// observable state change at all.
pub proof fn lemma_unhandled_event_is_noop(w: WindowState, e: Event)
    requires
        e == Event::Tray(TrayEvent::Unhandled) || e == Event::Window(WindowEvent::Unhandled),
    ensures
        step(w, e) == w,
{
}

} // verus!
