//! The adapter's main loop as a state machine: the startup protocol, then the
//! steady state in which platform events become engine events.
//!
//! The shell owns the window, the engine and the platform's event loop. It
//! asks the session what to do, does it, and reports what came of it.
use vstd::prelude::*;
use crate::binary::Binary64;
use crate::event::{
    Action, BrowserIdentity, ElementState, MouseScrollDelta, PlatformEvent, PointerState,
    SemanticEvent, TouchPhase, VirtualKey,
};

verus! {

/// The page that the engine is asked to open.
pub const HOME_URL: &'static str = "https://example.org";

/// Width of the window at startup, in pixels.
pub const WINDOW_WIDTH: u32 = 800;

/// Height of the window at startup, in pixels.
pub const WINDOW_HEIGHT: u32 = 600;

/// The OpenGL version that the window's context is asked for.
pub const GL_VERSION: (u8, u8) = (3, 2);

/// Whether the context waits for the vertical blank.
pub const VSYNC: bool = true;

/// The steps of the startup protocol, in their order.
#[derive(Clone, Copy, Debug, PartialEq, Eq)]
pub enum Step {
    CreateWindow,
    LoadGl,
    CreateWaker,
    BootEngine,
    RequestBrowser,
    AwaitIdentity,
    SelectBrowser(BrowserIdentity),
}

/// What the shell is to do for a step of the startup protocol.
#[derive(Clone, Copy, Debug, PartialEq, Eq)]
pub enum StartupAction {
    /// Create the native window and make its context current on this thread.
    CreateWindow { width: u32, height: u32, gl_version: (u8, u8), vsync: bool },
    /// Load the GL function table through the current context.
    LoadGl,
    /// Make the wake handle from the event loop.
    CreateWaker,
    /// Construct the engine and hand it the window adapter.
    BootEngine,
    /// Ask the engine for a new browsing context on this page.
    RequestBrowser { url: &'static str },
    /// Block until the engine answers with the context's identity.
    AwaitIdentity,
    /// Tell the engine to select the context.
    SelectBrowser(BrowserIdentity),
}

/// What came of a startup action.
#[derive(Clone, Copy, Debug, PartialEq, Eq)]
pub enum Outcome {
    /// The action was carried out.
    Completed,
    /// The engine answered with the identity of the new browsing context.
    Identity(BrowserIdentity),
}

/// The state of the main loop, as a plain value.
#[derive(Clone, Copy, Debug, PartialEq, Eq)]
pub enum SessionState {
    /// Startup is under way: `step` is the one being carried out.
    Initializing { step: Step, home_url: &'static str },
    /// Startup is done: platform events are handled for `browser`.
    Running { browser: BrowserIdentity, pointer: PointerState },
}

/// The main loop's state machine. A session is made in the initial state and
/// moves only through [`Session::advance`] and [`Session::handle`], so a
/// running session has gone through every step of the startup protocol.
#[derive(Clone, Copy, Debug, PartialEq, Eq)]
pub struct Session {
    state: SessionState,
}

impl View for Session {
    type V = SessionState;

    closed spec fn view(&self) -> SessionState {
        self.state
    }
}

impl SessionState {
    /// The state at process start.
    pub open spec fn initial(home_url: &'static str) -> SessionState {
        SessionState::Initializing { step: Step::CreateWindow, home_url }
    }

    /// Whether startup is done.
    pub open spec fn running(self) -> bool {
        self is Running
    }

    /// The browsing context that events are handled for, once startup is done.
    pub open spec fn managed_browser(self) -> Option<BrowserIdentity> {
        match self {
            SessionState::Running { browser, .. } => Some(browser),
            SessionState::Initializing { .. } => None,
        }
    }

    /// The last known pointer position, once startup is done.
    pub open spec fn last_pointer(self) -> Option<PointerState> {
        match self {
            SessionState::Running { pointer, .. } => Some(pointer),
            SessionState::Initializing { .. } => None,
        }
    }

    /// How many startup steps are behind the session.
    pub open spec fn position(self) -> nat {
        match self {
            SessionState::Initializing { step: Step::CreateWindow, .. } => 0,
            SessionState::Initializing { step: Step::LoadGl, .. } => 1,
            SessionState::Initializing { step: Step::CreateWaker, .. } => 2,
            SessionState::Initializing { step: Step::BootEngine, .. } => 3,
            SessionState::Initializing { step: Step::RequestBrowser, .. } => 4,
            SessionState::Initializing { step: Step::AwaitIdentity, .. } => 5,
            SessionState::Initializing { step: Step::SelectBrowser(_), .. } => 6,
            SessionState::Running { .. } => 7,
        }
    }

    /// The startup action that the session waits for, if any.
    pub open spec fn awaited(self) -> Option<StartupAction> {
        match self {
            SessionState::Initializing { step, home_url } => Some(
                match step {
                    Step::CreateWindow => StartupAction::CreateWindow {
                        width: WINDOW_WIDTH,
                        height: WINDOW_HEIGHT,
                        gl_version: GL_VERSION,
                        vsync: VSYNC,
                    },
                    Step::LoadGl => StartupAction::LoadGl,
                    Step::CreateWaker => StartupAction::CreateWaker,
                    Step::BootEngine => StartupAction::BootEngine,
                    Step::RequestBrowser => StartupAction::RequestBrowser { url: home_url },
                    Step::AwaitIdentity => StartupAction::AwaitIdentity,
                    Step::SelectBrowser(browser) => StartupAction::SelectBrowser(browser),
                },
            ),
            SessionState::Running { .. } => None,
        }
    }

    /// Whether `outcome` is the answer that the session waits for: an
    /// identity while it awaits one, a completion at every other step.
    pub open spec fn accepts(self, outcome: Outcome) -> bool {
        match self {
            SessionState::Initializing { step: Step::AwaitIdentity, .. } => outcome is Identity,
            SessionState::Initializing { .. } => outcome is Completed,
            SessionState::Running { .. } => false,
        }
    }

    /// The session after `outcome` was reported: one step further where the
    /// outcome is accepted, unchanged where it is not.
    pub open spec fn advanced(self, outcome: Outcome) -> SessionState {
        match (self, outcome) {
            (SessionState::Initializing { step, home_url }, Outcome::Completed) => match step {
                Step::CreateWindow => SessionState::Initializing { step: Step::LoadGl, home_url },
                Step::LoadGl => SessionState::Initializing { step: Step::CreateWaker, home_url },
                Step::CreateWaker => SessionState::Initializing { step: Step::BootEngine, home_url },
                Step::BootEngine => SessionState::Initializing { step: Step::RequestBrowser, home_url },
                Step::RequestBrowser => SessionState::Initializing {
                    step: Step::AwaitIdentity,
                    home_url,
                },
                Step::AwaitIdentity => self,
                Step::SelectBrowser(browser) => SessionState::Running {
                    browser,
                    pointer: PointerState::origin(),
                },
            },
            (
                SessionState::Initializing { step: Step::AwaitIdentity, home_url },
                Outcome::Identity(browser),
            ) => SessionState::Initializing { step: Step::SelectBrowser(browser), home_url },
            _ => self,
        }
    }

    /// What the shell is to do, in this order, when the platform delivers
    /// `event`. Before startup is done, and for every event that is not
    /// listed here, that is nothing.
    pub open spec fn reaction(self, event: PlatformEvent) -> Seq<Action> {
        match self {
            SessionState::Initializing { .. } => Seq::empty(),
            SessionState::Running { browser, pointer } => match event {
                PlatformEvent::Awakened => seq![Action::Forward(SemanticEvent::Poll)],
                PlatformEvent::CursorMoved { x, y } => seq![
                    Action::Forward(SemanticEvent::PointerMove { x: x.narrowed(), y: y.narrowed() }),
                ],
                PlatformEvent::KeyboardInput {
                    state: ElementState::Pressed,
                    key: Some(VirtualKey::R),
                } => seq![Action::Forward(SemanticEvent::Reload(browser))],
                PlatformEvent::MouseWheel { delta, phase } => seq![
                    Action::Forward(
                        SemanticEvent::Scroll {
                            dx: delta.pixel_delta().0,
                            dy: delta.pixel_delta().1,
                            pointer_x: pointer.whole_pixel().0 as i32,
                            pointer_y: pointer.whole_pixel().1 as i32,
                            phase: phase.mapped(),
                        },
                    ),
                ],
                PlatformEvent::Resized { width, height } => seq![
                    Action::Forward(SemanticEvent::Resize),
                    Action::ResizeWindow { width, height },
                ],
                _ => Seq::empty(),
            },
        }
    }

    /// The session after `event`: only a pointer movement, once startup is
    /// done, changes it.
    pub open spec fn after(self, event: PlatformEvent) -> SessionState {
        match (self, event) {
            (SessionState::Running { browser, .. }, PlatformEvent::CursorMoved { x, y }) => {
                SessionState::Running { browser, pointer: PointerState { x, y } }
            },
            _ => self,
        }
    }

    /// The session after each of `events` in turn.
    pub open spec fn after_all(self, events: Seq<PlatformEvent>) -> SessionState
        decreases events.len(),
    {
        if events.len() == 0 {
            self
        } else {
            self.after_all(events.drop_last()).after(events.last())
        }
    }
}

impl Session {
    /// Starts a session that will ask the engine to open `home_url`.
    pub fn new(home_url: &'static str) -> (session: Session)
        ensures
            session@ == SessionState::initial(home_url),
    {
        Session { state: SessionState::Initializing { step: Step::CreateWindow, home_url } }
    }

    /// The session's state, as a plain value.
    pub fn state(&self) -> (state: SessionState)
        ensures
            state == self@,
    {
        self.state
    }

    /// Whether startup is done.
    pub fn is_running(&self) -> (running: bool)
        ensures
            running == self@.running(),
    {
        match self.state {
            SessionState::Running { .. } => true,
            SessionState::Initializing { .. } => false,
        }
    }

    /// The browsing context that events are handled for, once startup is done.
    pub fn browser(&self) -> (browser: Option<BrowserIdentity>)
        ensures
            browser == self@.managed_browser(),
    {
        match self.state {
            SessionState::Running { browser, .. } => Some(browser),
            SessionState::Initializing { .. } => None,
        }
    }

    /// The last known pointer position, once startup is done.
    pub fn pointer(&self) -> (pointer: Option<PointerState>)
        ensures
            pointer == self@.last_pointer(),
    {
        match self.state {
            SessionState::Running { pointer, .. } => Some(pointer),
            SessionState::Initializing { .. } => None,
        }
    }

    /// The startup action to carry out now; `None` once startup is done.
    pub fn pending(&self) -> (action: Option<StartupAction>)
        ensures
            action == self@.awaited(),
    {
        match self.state {
            SessionState::Initializing { step, home_url } => Some(
                match step {
                    Step::CreateWindow => StartupAction::CreateWindow {
                        width: WINDOW_WIDTH,
                        height: WINDOW_HEIGHT,
                        gl_version: GL_VERSION,
                        vsync: VSYNC,
                    },
                    Step::LoadGl => StartupAction::LoadGl,
                    Step::CreateWaker => StartupAction::CreateWaker,
                    Step::BootEngine => StartupAction::BootEngine,
                    Step::RequestBrowser => StartupAction::RequestBrowser { url: home_url },
                    Step::AwaitIdentity => StartupAction::AwaitIdentity,
                    Step::SelectBrowser(browser) => StartupAction::SelectBrowser(browser),
                },
            ),
            SessionState::Running { .. } => None,
        }
    }

    /// Reports what came of the pending startup action. Returns whether the
    /// outcome was the awaited one; if not, the session stays as it was.
    pub fn advance(&mut self, outcome: Outcome) -> (accepted: bool)
        ensures
            accepted == old(self)@.accepts(outcome),
            final(self)@ == old(self)@.advanced(outcome),
    {
        match (self.state, outcome) {
            (SessionState::Initializing { step, home_url }, Outcome::Completed) => {
                let next = match step {
                    Step::CreateWindow => SessionState::Initializing { step: Step::LoadGl, home_url },
                    Step::LoadGl => SessionState::Initializing { step: Step::CreateWaker, home_url },
                    Step::CreateWaker => SessionState::Initializing {
                        step: Step::BootEngine,
                        home_url,
                    },
                    Step::BootEngine => SessionState::Initializing {
                        step: Step::RequestBrowser,
                        home_url,
                    },
                    Step::RequestBrowser => SessionState::Initializing {
                        step: Step::AwaitIdentity,
                        home_url,
                    },
                    Step::AwaitIdentity => {
                        return false;
                    },
                    Step::SelectBrowser(browser) => SessionState::Running {
                        browser,
                        pointer: PointerState { x: Binary64(0), y: Binary64(0) },
                    },
                };
                self.state = next;
                true
            },
            (
                SessionState::Initializing { step: Step::AwaitIdentity, home_url },
                Outcome::Identity(browser),
            ) => {
                self.state = SessionState::Initializing {
                    step: Step::SelectBrowser(browser),
                    home_url,
                };
                true
            },
            _ => false,
        }
    }

    /// Handles one platform event: updates the pointer state and returns what
    /// the shell is to do, in order.
    pub fn handle(&mut self, event: PlatformEvent) -> (actions: Vec<Action>)
        ensures
            final(self)@ == old(self)@.after(event),
            actions@ == old(self)@.reaction(event),
    {
        let mut actions: Vec<Action> = Vec::new();
        match self.state {
            SessionState::Initializing { .. } => {},
            SessionState::Running { browser, pointer } => match event {
                PlatformEvent::Awakened => {
                    actions.push(Action::Forward(SemanticEvent::Poll));
                },
                PlatformEvent::CursorMoved { x, y } => {
                    self.state = SessionState::Running { browser, pointer: PointerState { x, y } };
                    actions.push(
                        Action::Forward(SemanticEvent::PointerMove { x: x.narrow(), y: y.narrow() }),
                    );
                },
                PlatformEvent::KeyboardInput {
                    state: ElementState::Pressed,
                    key: Some(VirtualKey::R),
                } => {
                    actions.push(Action::Forward(SemanticEvent::Reload(browser)));
                },
                PlatformEvent::MouseWheel { delta, phase } => {
                    let (dx, dy) = delta.pixels();
                    let (pointer_x, pointer_y) = pointer.pixel();
                    actions.push(
                        Action::Forward(
                            SemanticEvent::Scroll {
                                dx,
                                dy,
                                pointer_x,
                                pointer_y,
                                phase: phase.event_type(),
                            },
                        ),
                    );
                },
                PlatformEvent::Resized { width, height } => {
                    actions.push(Action::Forward(SemanticEvent::Resize));
                    actions.push(Action::ResizeWindow { width, height });
                },
                _ => {},
            },
        }
        actions
    }
}

/// The startup protocol runs in one order. From the initial state, a
/// completion moves the session through window, GL table, wake handle and
/// engine; then it asks for a browsing context on the home page, once; then it
/// waits for the identity; then it selects that very context; and only after
/// that has completed is it running, for that identity and with the pointer
/// at the origin.
pub proof fn law_startup_order(home_url: &'static str, browser: BrowserIdentity)
    ensures
        ({
            let s0 = SessionState::initial(home_url);
            let s1 = s0.advanced(Outcome::Completed);
            let s2 = s1.advanced(Outcome::Completed);
            let s3 = s2.advanced(Outcome::Completed);
            let s4 = s3.advanced(Outcome::Completed);
            let s5 = s4.advanced(Outcome::Completed);
            let s6 = s5.advanced(Outcome::Identity(browser));
            let s7 = s6.advanced(Outcome::Completed);
            &&& s0.awaited() == Some(
                StartupAction::CreateWindow {
                    width: WINDOW_WIDTH,
                    height: WINDOW_HEIGHT,
                    gl_version: GL_VERSION,
                    vsync: VSYNC,
                },
            )
            &&& s1.awaited() == Some(StartupAction::LoadGl)
            &&& s2.awaited() == Some(StartupAction::CreateWaker)
            &&& s3.awaited() == Some(StartupAction::BootEngine)
            &&& s4.awaited() == Some(StartupAction::RequestBrowser { url: home_url })
            &&& s5.awaited() == Some(StartupAction::AwaitIdentity)
            &&& s6.awaited() == Some(StartupAction::SelectBrowser(browser))
            &&& s7.awaited() is None
            &&& s7 == SessionState::Running { browser, pointer: PointerState::origin() }
        }),
{
}

/// The startup protocol never repeats or skips a step: an accepted outcome
/// moves the session exactly one step on, any other leaves it as it is, and
/// a running session accepts none.
pub proof fn law_startup_advances_one_step(session: SessionState, outcome: Outcome)
    ensures
        session.accepts(outcome) ==> session.advanced(outcome).position() == session.position() + 1,
        !session.accepts(outcome) ==> session.advanced(outcome) == session,
        session.running() ==> !session.accepts(outcome),
        session.running() <==> session.position() == 7,
        session.running() <==> session.awaited() is None,
{
}

/// No platform event is consumed before startup is done.
pub proof fn law_events_wait_for_startup(session: SessionState, event: PlatformEvent)
    requires
        !session.running(),
    ensures
        session.reaction(event) == Seq::<Action>::empty(),
        session.after(event) == session,
{
}

/// No wake signal is lost: whatever events a running session has seen, a
/// wake signal that reaches it is answered with exactly one poll of the
/// engine, and leaves the session as it was.
pub proof fn law_every_wake_is_polled(session: SessionState, earlier: Seq<PlatformEvent>)
    requires
        session.running(),
    ensures
        session.after_all(earlier).reaction(PlatformEvent::Awakened) == seq![
            Action::Forward(SemanticEvent::Poll),
        ],
        session.after_all(earlier).after(PlatformEvent::Awakened) == session.after_all(earlier),
{
    law_identity_is_kept(session, earlier);
}

/// A running session stays running, for the same browsing context, whatever
/// events it sees.
pub proof fn law_identity_is_kept(session: SessionState, events: Seq<PlatformEvent>)
    requires
        session.running(),
    ensures
        session.after_all(events).running(),
        session.after_all(events)->browser == session->browser,
    decreases events.len(),
{
    if events.len() > 0 {
        law_identity_is_kept(session, events.drop_last());
    }
}

/// Events other than pointer movements leave the pointer where it was.
pub proof fn law_pointer_moves_only_with_cursor(session: SessionState, events: Seq<PlatformEvent>)
    requires
        session.running(),
        forall|i: int| 0 <= i < events.len() ==> !(#[trigger] events[i] is CursorMoved),
    ensures
        session.after_all(events) == session,
    decreases events.len(),
{
    if events.len() > 0 {
        law_pointer_moves_only_with_cursor(session, events.drop_last());
    }
}

/// A scroll carries the position of the last pointer movement, each
/// coordinate cut toward zero to a whole pixel: after a movement to
/// `(x, y)` and any events that are no pointer movements, a wheel event is
/// forwarded as one scroll at `(x.truncated(), y.truncated())`.
pub proof fn law_scroll_carries_last_pointer(
    session: SessionState,
    x: Binary64,
    y: Binary64,
    between: Seq<PlatformEvent>,
    delta: MouseScrollDelta,
    phase: TouchPhase,
)
    requires
        session.running(),
        forall|i: int| 0 <= i < between.len() ==> !(#[trigger] between[i] is CursorMoved),
    ensures
        session.after(PlatformEvent::CursorMoved { x, y }).after_all(between).reaction(
            PlatformEvent::MouseWheel { delta, phase },
        ) == seq![
            Action::Forward(
                SemanticEvent::Scroll {
                    dx: delta.pixel_delta().0,
                    dy: delta.pixel_delta().1,
                    pointer_x: x.truncated() as i32,
                    pointer_y: y.truncated() as i32,
                    phase: phase.mapped(),
                },
            ),
        ],
        i32::MIN <= x.truncated() <= i32::MAX,
        i32::MIN <= y.truncated() <= i32::MAX,
{
    law_pointer_moves_only_with_cursor(session.after(PlatformEvent::CursorMoved { x, y }), between);
}

/// Pressing "R" reloads the browsing context whose identity was established
/// at startup, with exactly one event, however many events came before;
/// releasing "R" does nothing.
pub proof fn law_reload_targets_startup_identity(
    home_url: &'static str,
    browser: BrowserIdentity,
    events: Seq<PlatformEvent>,
)
    ensures
        ({
            let started = SessionState::initial(home_url).advanced(Outcome::Completed).advanced(
                Outcome::Completed,
            ).advanced(Outcome::Completed).advanced(Outcome::Completed).advanced(
                Outcome::Completed,
            ).advanced(Outcome::Identity(browser)).advanced(Outcome::Completed);
            let now = started.after_all(events);
            &&& now.reaction(
                PlatformEvent::KeyboardInput {
                    state: ElementState::Pressed,
                    key: Some(VirtualKey::R),
                },
            ) == seq![Action::Forward(SemanticEvent::Reload(browser))]
            &&& now.reaction(
                PlatformEvent::KeyboardInput {
                    state: ElementState::Released,
                    key: Some(VirtualKey::R),
                },
            ) == Seq::<Action>::empty()
        }),
{
    law_startup_order(home_url, browser);
    law_identity_is_kept(SessionState::Running { browser, pointer: PointerState::origin() }, events);
}

/// The engine hears of a resize before the window's surface changes: in
/// every reaction, an order to resize the window stands directly behind the
/// forwarded resize event, and a resize of a running session's window gives
/// both.
pub proof fn law_resize_is_forwarded_first(session: SessionState, event: PlatformEvent)
    ensures
        forall|j: int|
            0 <= j < session.reaction(event).len() && #[trigger] session.reaction(event)[j]
                is ResizeWindow ==> j > 0 && session.reaction(event)[j - 1] == Action::Forward(
                SemanticEvent::Resize,
            ),
        session.running() ==> forall|width: u32, height: u32|
            #[trigger] session.reaction(PlatformEvent::Resized { width, height }) == seq![
                Action::Forward(SemanticEvent::Resize),
                Action::ResizeWindow { width, height },
            ],
{
}

} // verus!
