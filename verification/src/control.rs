//! The control flow of the event loop.
//!
//! One run of the loop alternates work that only the caller can do (dispatching
//! the event sources, calling the user's callback, flushing the display,
//! reading the clock) with decisions. The decisions are the transition
//! function of [`LoopRunner`]: the caller reports what it has done as an
//! [`Input`] and receives the next [`Action`] to perform.
//!
//! Instants are nanoseconds on a monotonic clock, durations are nanoseconds.
use vstd::prelude::*;

verus! {

/// What the user's callback asks the loop to do once the current events are handled.
#[derive(Clone, Copy, Debug, PartialEq, Eq, Hash, Structural)]
pub enum ControlFlow {
    /// Start a new iteration as soon as the pending events are handled.
    Poll,
    /// Sleep until an event arrives.
    Wait,
    /// Sleep until an event arrives or the given instant is reached.
    WaitUntil(u64),
    /// Leave the loop.
    Exit,
}

/// The control flow a loop starts with.
pub fn default_control_flow() -> (flow: ControlFlow)
    ensures
        flow == ControlFlow::Poll,
{
    ControlFlow::Poll
}

/// Why a new batch of events starts.
#[allow(inconsistent_fields)]
#[derive(Clone, Copy, Debug, PartialEq, Eq, Hash, Structural)]
pub enum StartCause {
    /// The instant asked for with `WaitUntil` was reached.
    ResumeTimeReached { start: u64, requested_resume: u64 },
    /// Events arrived before the instant asked for (if any) was reached.
    WaitCancelled { start: u64, requested_resume: Option<u64> },
    /// The loop was polling.
    Poll,
    /// The loop has just started.
    Init,
}

/// The events that the loop itself hands to the user's callback.
#[derive(Clone, Copy, Debug, PartialEq, Eq, Hash, Structural)]
pub enum LoopEvent {
    NewEvents(StartCause),
    MainEventsCleared,
    RedrawEventsCleared,
    LoopDestroyed,
}

/// What the caller has to do next.
#[derive(Clone, Copy, Debug, PartialEq, Eq, Hash, Structural)]
pub enum Action {
    /// Call the user's callback with this event and the current control flow,
    /// then report the control flow it leaves with `Input::CallbackReturned`.
    Deliver(LoopEvent),
    /// Dispatch the event sources, blocking at most this many nanoseconds
    /// (`None`: until an event arrives); then report `Input::Dispatched`.
    Dispatch(Option<u64>),
    /// Run the per-window updates that follow a dispatch; then report `Input::WindowsProcessed`.
    ProcessWindows,
    /// Run the redraw requests of the windows; then report `Input::RedrawsProcessed`.
    ProcessRedraws,
    /// Send the pending requests to the compositor; then report `Input::Flushed`.
    Flush,
    /// Dispatch the events already queued for the display without reading the
    /// socket; then report how many there were with `Input::PendingDispatched`.
    DispatchPending,
    /// Read the clock; then report it with `Input::Clock`.
    ReadClock,
    /// The loop is over.
    Finish,
}

/// What the caller reports back.
#[derive(Clone, Copy, Debug, PartialEq, Eq, Hash, Structural)]
pub enum Input {
    Start,
    CallbackReturned(ControlFlow),
    Dispatched,
    WindowsProcessed,
    RedrawsProcessed,
    Flushed,
    PendingDispatched(u64),
    Clock(u64),
}

/// Where the runner stands in the loop.
#[derive(Clone, Copy, Debug, PartialEq, Eq, Hash, Structural)]
pub enum Phase {
    /// Not started yet.
    Idle,
    /// A `NewEvents` event was handed out; the next iteration starts when it returns.
    NewEventsDelivered,
    /// The blocking dispatch that opens an iteration is running.
    MainDispatch,
    /// The per-window updates are running.
    WindowsPending,
    /// `MainEventsCleared` was handed out.
    MainClearedDelivered,
    /// The redraw requests are running.
    RedrawsPending,
    /// `RedrawEventsCleared` was handed out.
    RedrawClearedDelivered,
    /// The display is being flushed.
    Flushing,
    /// The events queued for the display are being dispatched.
    PendingRead,
    /// The non-blocking dispatch of `Poll` is running.
    PollDispatch,
    /// The dispatch of `Wait` is running.
    WaitDispatch,
    /// The clock is read to stamp the end of a `Wait`.
    WaitClock,
    /// The clock is read before sleeping until `deadline`.
    UntilStartClock { deadline: u64, instant_wakeup: bool },
    /// The dispatch of `WaitUntil` that started at `start` is running.
    UntilDispatch { deadline: u64, start: u64 },
    /// The clock is read after the dispatch of `WaitUntil`.
    UntilEndClock { deadline: u64, start: u64 },
    /// `LoopDestroyed` was handed out.
    DestroyDelivered,
    /// The loop is over.
    Finished,
}

/// The abstract state of a runner.
pub struct RunnerState {
    pub phase: Phase,
    pub control_flow: ControlFlow,
}

/// The control flow after a callback that asked for `requested`, where the
/// callback was handed the flow through the sticky rule: once the loop was
/// asked to exit, a later callback cannot take that back.
pub open spec fn sticky_flow(current: ControlFlow, requested: ControlFlow) -> ControlFlow {
    if current == ControlFlow::Exit {
        ControlFlow::Exit
    } else {
        requested
    }
}

/// How long the dispatch of `WaitUntil(deadline)` that starts at `start` may block.
pub open spec fn wait_until_timeout_spec(deadline: u64, start: u64, instant_wakeup: bool) -> u64 {
    if deadline > start && !instant_wakeup {
        (deadline - start) as u64
    } else {
        0
    }
}

/// Why events start after a `WaitUntil(deadline)` that began at `start` and
/// ended at `now`.
pub open spec fn resume_cause_spec(deadline: u64, start: u64, now: u64) -> StartCause {
    if now < deadline {
        StartCause::WaitCancelled { start, requested_resume: Some(deadline) }
    } else {
        StartCause::ResumeTimeReached { start, requested_resume: deadline }
    }
}

/// The inputs a runner in state `s` accepts: exactly the report of the action
/// it handed out last.
pub open spec fn accepts_spec(s: RunnerState, input: Input) -> bool {
    match s.phase {
        Phase::Idle => input == Input::Start,
        Phase::NewEventsDelivered
        | Phase::MainClearedDelivered
        | Phase::RedrawClearedDelivered
        | Phase::DestroyDelivered => input is CallbackReturned,
        Phase::MainDispatch
        | Phase::PollDispatch
        | Phase::WaitDispatch
        | Phase::UntilDispatch { .. } => input == Input::Dispatched,
        Phase::WindowsPending => input == Input::WindowsProcessed,
        Phase::RedrawsPending => input == Input::RedrawsProcessed,
        Phase::Flushing => input == Input::Flushed,
        Phase::PendingRead => input is PendingDispatched,
        Phase::WaitClock
        | Phase::UntilStartClock { .. }
        | Phase::UntilEndClock { .. } => input is Clock,
        Phase::Finished => false,
    }
}

/// The decision taken once the iteration's events are handled, given the
/// control flow and whether events were already queued for the display.
pub open spec fn decide_spec(flow: ControlFlow, instant_wakeup: bool) -> (Phase, Action) {
    match flow {
        ControlFlow::Exit => (Phase::DestroyDelivered, Action::Deliver(LoopEvent::LoopDestroyed)),
        ControlFlow::Poll => (Phase::PollDispatch, Action::Dispatch(Some(0))),
        ControlFlow::Wait => if instant_wakeup {
            (Phase::WaitClock, Action::ReadClock)
        } else {
            (Phase::WaitDispatch, Action::Dispatch(None))
        },
        ControlFlow::WaitUntil(deadline) => (
            Phase::UntilStartClock { deadline, instant_wakeup },
            Action::ReadClock,
        ),
    }
}

/// The transition function of the loop: next state and action for an accepted input.
pub open spec fn step_spec(s: RunnerState, input: Input) -> (RunnerState, Action) {
    let flow = s.control_flow;
    let next = |phase: Phase, action: Action| (RunnerState { phase, control_flow: flow }, action);
    match (s.phase, input) {
        (Phase::Idle, _) => next(
            Phase::NewEventsDelivered,
            Action::Deliver(LoopEvent::NewEvents(StartCause::Init)),
        ),
        (Phase::NewEventsDelivered, Input::CallbackReturned(r)) => (
            RunnerState { phase: Phase::MainDispatch, control_flow: r },
            Action::Dispatch(None),
        ),
        (Phase::MainDispatch, _) => next(Phase::WindowsPending, Action::ProcessWindows),
        (Phase::WindowsPending, _) => next(
            Phase::MainClearedDelivered,
            Action::Deliver(LoopEvent::MainEventsCleared),
        ),
        (Phase::MainClearedDelivered, Input::CallbackReturned(r)) => (
            RunnerState { phase: Phase::RedrawsPending, control_flow: sticky_flow(flow, r) },
            Action::ProcessRedraws,
        ),
        (Phase::RedrawsPending, _) => next(
            Phase::RedrawClearedDelivered,
            Action::Deliver(LoopEvent::RedrawEventsCleared),
        ),
        (Phase::RedrawClearedDelivered, Input::CallbackReturned(r)) => (
            RunnerState { phase: Phase::Flushing, control_flow: sticky_flow(flow, r) },
            Action::Flush,
        ),
        (Phase::Flushing, _) => next(Phase::PendingRead, Action::DispatchPending),
        (Phase::PendingRead, Input::PendingDispatched(n)) => {
            let (phase, action) = decide_spec(flow, n > 0);
            next(phase, action)
        },
        (Phase::PollDispatch, _) => next(
            Phase::NewEventsDelivered,
            Action::Deliver(LoopEvent::NewEvents(StartCause::Poll)),
        ),
        (Phase::WaitDispatch, _) => next(Phase::WaitClock, Action::ReadClock),
        (Phase::WaitClock, Input::Clock(t)) => next(
            Phase::NewEventsDelivered,
            Action::Deliver(
                LoopEvent::NewEvents(StartCause::WaitCancelled { start: t, requested_resume: None }),
            ),
        ),
        (Phase::UntilStartClock { deadline, instant_wakeup }, Input::Clock(start)) => next(
            Phase::UntilDispatch { deadline, start },
            Action::Dispatch(Some(wait_until_timeout_spec(deadline, start, instant_wakeup))),
        ),
        (Phase::UntilDispatch { deadline, start }, _) => next(
            Phase::UntilEndClock { deadline, start },
            Action::ReadClock,
        ),
        (Phase::UntilEndClock { deadline, start }, Input::Clock(now)) => next(
            Phase::NewEventsDelivered,
            Action::Deliver(LoopEvent::NewEvents(resume_cause_spec(deadline, start, now))),
        ),
        (Phase::DestroyDelivered, Input::CallbackReturned(r)) => (
            RunnerState { phase: Phase::Finished, control_flow: r },
            Action::Finish,
        ),
        _ => (s, Action::Finish),
    }
}

/// How long the dispatch of `WaitUntil(deadline)` that starts at `start` may
/// block: until the deadline, or not at all when it has passed or events are
/// already queued.
pub fn wait_until_timeout(deadline: u64, start: u64, instant_wakeup: bool) -> (timeout: u64)
    ensures
        timeout == wait_until_timeout_spec(deadline, start, instant_wakeup),
{
    if deadline > start && !instant_wakeup {
        deadline - start
    } else {
        0
    }
}

/// Why events start after a `WaitUntil(deadline)` that began at `start` and ended at `now`.
pub fn resume_cause(deadline: u64, start: u64, now: u64) -> (cause: StartCause)
    ensures
        cause == resume_cause_spec(deadline, start, now),
{
    if now < deadline {
        StartCause::WaitCancelled { start, requested_resume: Some(deadline) }
    } else {
        StartCause::ResumeTimeReached { start, requested_resume: deadline }
    }
}

/// The control flow after a callback reached through the sticky rule asked for `requested`.
pub fn sticky_control_flow(current: ControlFlow, requested: ControlFlow) -> (flow: ControlFlow)
    ensures
        flow == sticky_flow(current, requested),
{
    if current == ControlFlow::Exit {
        ControlFlow::Exit
    } else {
        requested
    }
}

/// Drives one run of the event loop.
pub struct LoopRunner {
    phase: Phase,
    control_flow: ControlFlow,
}

impl View for LoopRunner {
    type V = RunnerState;

    closed spec fn view(&self) -> RunnerState {
        RunnerState { phase: self.phase, control_flow: self.control_flow }
    }
}

impl LoopRunner {
    /// A runner that has not started, with the default control flow.
    pub fn new() -> (runner: LoopRunner)
        ensures
            runner@ == (RunnerState { phase: Phase::Idle, control_flow: ControlFlow::Poll }),
    {
        LoopRunner { phase: Phase::Idle, control_flow: default_control_flow() }
    }

    /// The control flow to hand to the next callback.
    pub fn control_flow(&self) -> (flow: ControlFlow)
        ensures
            flow == self@.control_flow,
    {
        self.control_flow
    }

    /// Where the runner stands.
    pub fn phase(&self) -> (phase: Phase)
        ensures
            phase == self@.phase,
    {
        self.phase
    }

    /// Whether the loop is over.
    pub fn is_finished(&self) -> (finished: bool)
        ensures
            finished == (self@.phase == Phase::Finished),
    {
        self.phase == Phase::Finished
    }

    /// Records what a callback reached through the sticky rule left as control
    /// flow: the callbacks of the event sources, of the window updates and of
    /// the redraw requests.
    pub fn sticky_callback_returned(&mut self, requested: ControlFlow)
        ensures
            final(self)@ == (RunnerState {
                control_flow: sticky_flow(old(self)@.control_flow, requested),
                ..old(self)@
            }),
    {
        self.control_flow = sticky_control_flow(self.control_flow, requested);
    }

    /// Whether `input` is the report that the runner waits for.
    pub fn accepts(&self, input: Input) -> (ok: bool)
        ensures
            ok == accepts_spec(self@, input),
    {
        match self.phase {
            Phase::Idle => input == Input::Start,
            Phase::NewEventsDelivered
            | Phase::MainClearedDelivered
            | Phase::RedrawClearedDelivered
            | Phase::DestroyDelivered => match input {
                Input::CallbackReturned(_) => true,
                _ => false,
            },
            Phase::MainDispatch
            | Phase::PollDispatch
            | Phase::WaitDispatch
            | Phase::UntilDispatch { .. } => input == Input::Dispatched,
            Phase::WindowsPending => input == Input::WindowsProcessed,
            Phase::RedrawsPending => input == Input::RedrawsProcessed,
            Phase::Flushing => input == Input::Flushed,
            Phase::PendingRead => match input {
                Input::PendingDispatched(_) => true,
                _ => false,
            },
            Phase::WaitClock
            | Phase::UntilStartClock { .. }
            | Phase::UntilEndClock { .. } => match input {
                Input::Clock(_) => true,
                _ => false,
            },
            Phase::Finished => false,
        }
    }

    /// Takes the report of the last action and returns the next one.
    pub fn step(&mut self, input: Input) -> (action: Action)
        requires
            accepts_spec(old(self)@, input),
        ensures
            (final(self)@, action) == step_spec(old(self)@, input),
    {
        let flow = self.control_flow;
        match (self.phase, input) {
            (Phase::Idle, _) => {
                self.phase = Phase::NewEventsDelivered;
                Action::Deliver(LoopEvent::NewEvents(StartCause::Init))
            },
            (Phase::NewEventsDelivered, Input::CallbackReturned(r)) => {
                self.phase = Phase::MainDispatch;
                self.control_flow = r;
                Action::Dispatch(None)
            },
            (Phase::MainDispatch, _) => {
                self.phase = Phase::WindowsPending;
                Action::ProcessWindows
            },
            (Phase::WindowsPending, _) => {
                self.phase = Phase::MainClearedDelivered;
                Action::Deliver(LoopEvent::MainEventsCleared)
            },
            (Phase::MainClearedDelivered, Input::CallbackReturned(r)) => {
                self.phase = Phase::RedrawsPending;
                self.control_flow = sticky_control_flow(flow, r);
                Action::ProcessRedraws
            },
            (Phase::RedrawsPending, _) => {
                self.phase = Phase::RedrawClearedDelivered;
                Action::Deliver(LoopEvent::RedrawEventsCleared)
            },
            (Phase::RedrawClearedDelivered, Input::CallbackReturned(r)) => {
                self.phase = Phase::Flushing;
                self.control_flow = sticky_control_flow(flow, r);
                Action::Flush
            },
            (Phase::Flushing, _) => {
                self.phase = Phase::PendingRead;
                Action::DispatchPending
            },
            (Phase::PendingRead, Input::PendingDispatched(n)) => {
                let instant_wakeup = n > 0;
                match flow {
                    ControlFlow::Exit => {
                        self.phase = Phase::DestroyDelivered;
                        Action::Deliver(LoopEvent::LoopDestroyed)
                    },
                    ControlFlow::Poll => {
                        self.phase = Phase::PollDispatch;
                        Action::Dispatch(Some(0))
                    },
                    ControlFlow::Wait => {
                        if instant_wakeup {
                            self.phase = Phase::WaitClock;
                            Action::ReadClock
                        } else {
                            self.phase = Phase::WaitDispatch;
                            Action::Dispatch(None)
                        }
                    },
                    ControlFlow::WaitUntil(deadline) => {
                        self.phase = Phase::UntilStartClock { deadline, instant_wakeup };
                        Action::ReadClock
                    },
                }
            },
            (Phase::PollDispatch, _) => {
                self.phase = Phase::NewEventsDelivered;
                Action::Deliver(LoopEvent::NewEvents(StartCause::Poll))
            },
            (Phase::WaitDispatch, _) => {
                self.phase = Phase::WaitClock;
                Action::ReadClock
            },
            (Phase::WaitClock, Input::Clock(t)) => {
                self.phase = Phase::NewEventsDelivered;
                Action::Deliver(
                    LoopEvent::NewEvents(StartCause::WaitCancelled { start: t, requested_resume: None }),
                )
            },
            (Phase::UntilStartClock { deadline, instant_wakeup }, Input::Clock(start)) => {
                self.phase = Phase::UntilDispatch { deadline, start };
                Action::Dispatch(Some(wait_until_timeout(deadline, start, instant_wakeup)))
            },
            (Phase::UntilDispatch { deadline, start }, _) => {
                self.phase = Phase::UntilEndClock { deadline, start };
                Action::ReadClock
            },
            (Phase::UntilEndClock { deadline, start }, Input::Clock(now)) => {
                self.phase = Phase::NewEventsDelivered;
                Action::Deliver(LoopEvent::NewEvents(resume_cause(deadline, start, now)))
            },
            (Phase::DestroyDelivered, Input::CallbackReturned(r)) => {
                self.phase = Phase::Finished;
                self.control_flow = r;
                Action::Finish
            },
            _ => Action::Finish,
        }
    }
}


/// The first report a fresh runner accepts is `Start`, and it answers with
/// `NewEvents(Init)`, before anything is dispatched.
pub proof fn lemma_loop_starts_with_init(flow: ControlFlow, input: Input)
    ensures
        accepts_spec(RunnerState { phase: Phase::Idle, control_flow: flow }, input) <==> input
            == Input::Start,
        step_spec(RunnerState { phase: Phase::Idle, control_flow: flow }, Input::Start).1
            == Action::Deliver(LoopEvent::NewEvents(StartCause::Init)),
{
}

/// Once the loop was asked to exit, a callback reached through the sticky rule
/// cannot take that back, whatever it asks for.
pub proof fn lemma_exit_is_sticky(s: RunnerState, requested: ControlFlow)
    requires
        s.control_flow == ControlFlow::Exit,
        s.phase == Phase::MainClearedDelivered || s.phase == Phase::RedrawClearedDelivered,
    ensures
        sticky_flow(s.control_flow, requested) == ControlFlow::Exit,
        step_spec(s, Input::CallbackReturned(requested)).0.control_flow == ControlFlow::Exit,
{
}

/// Every batch of new events is followed by a dispatch that blocks until an
/// event arrives: that is how each iteration of the loop opens.
pub proof fn lemma_new_events_open_an_iteration(s: RunnerState, returned: ControlFlow)
    requires
        s.phase == Phase::NewEventsDelivered,
    ensures
        step_spec(s, Input::CallbackReturned(returned))
            == (RunnerState { phase: Phase::MainDispatch, control_flow: returned }, Action::Dispatch(None)),
{
}

/// An iteration hands out its events in a fixed order: the window updates,
/// `MainEventsCleared`, the redraw requests, `RedrawEventsCleared`, then the
/// display is flushed and its queued events are dispatched.
pub proof fn lemma_iteration_order(
    s0: RunnerState,
    after_main_cleared: ControlFlow,
    after_redraw_cleared: ControlFlow,
)
    requires
        s0.phase == Phase::MainDispatch,
    ensures
        ({
            let (s1, a1) = step_spec(s0, Input::Dispatched);
            let (s2, a2) = step_spec(s1, Input::WindowsProcessed);
            let (s3, a3) = step_spec(s2, Input::CallbackReturned(after_main_cleared));
            let (s4, a4) = step_spec(s3, Input::RedrawsProcessed);
            let (s5, a5) = step_spec(s4, Input::CallbackReturned(after_redraw_cleared));
            let (s6, a6) = step_spec(s5, Input::Flushed);
            &&& a1 == Action::ProcessWindows
            &&& a2 == Action::Deliver(LoopEvent::MainEventsCleared)
            &&& a3 == Action::ProcessRedraws
            &&& a4 == Action::Deliver(LoopEvent::RedrawEventsCleared)
            &&& a5 == Action::Flush
            &&& a6 == Action::DispatchPending
            &&& s6.phase == Phase::PendingRead
            &&& s6.control_flow == sticky_flow(
                sticky_flow(s0.control_flow, after_main_cleared),
                after_redraw_cleared,
            )
        }),
{
}

/// When the events of an iteration are handled and the control flow is
/// `Exit`, the loop hands out `LoopDestroyed`, then finishes, and accepts no
/// report after that: nothing is dispatched again.
pub proof fn lemma_exit_ends_the_loop(s: RunnerState, queued: u64, returned: ControlFlow, later: Input)
    requires
        s.phase == Phase::PendingRead,
        s.control_flow == ControlFlow::Exit,
    ensures
        ({
            let (s1, a1) = step_spec(s, Input::PendingDispatched(queued));
            let (s2, a2) = step_spec(s1, Input::CallbackReturned(returned));
            &&& a1 == Action::Deliver(LoopEvent::LoopDestroyed)
            &&& accepts_spec(s1, Input::CallbackReturned(returned))
            &&& a2 == Action::Finish
            &&& s2.phase == Phase::Finished
            &&& !accepts_spec(s2, later)
        }),
{
}

/// An exit asked for by the callback of `MainEventsCleared` ends the loop at
/// the end of that iteration, whatever the later callbacks ask for.
pub proof fn lemma_exit_request_ends_iteration(
    s: RunnerState,
    after_redraw_cleared: ControlFlow,
    queued: u64,
)
    requires
        s.phase == Phase::MainClearedDelivered,
    ensures
        ({
            let (s1, _) = step_spec(s, Input::CallbackReturned(ControlFlow::Exit));
            let (s2, _) = step_spec(s1, Input::RedrawsProcessed);
            let (s3, _) = step_spec(s2, Input::CallbackReturned(after_redraw_cleared));
            let (s4, _) = step_spec(s3, Input::Flushed);
            let (_, a5) = step_spec(s4, Input::PendingDispatched(queued));
            a5 == Action::Deliver(LoopEvent::LoopDestroyed)
        }),
{
}

/// With `WaitUntil(deadline)`, the loop sleeps exactly until the deadline when
/// it has not passed and no event is queued, and does not sleep otherwise;
/// the new events say the deadline was reached exactly when the clock read
/// after the sleep is at or past it, and carry the instant the wait started.
pub proof fn lemma_wait_until_timing(deadline: u64, start: u64, instant_wakeup: bool, now: u64)
    ensures
        (deadline > start && !instant_wakeup) ==> start + wait_until_timeout_spec(deadline, start, instant_wakeup) == deadline,
        !(deadline > start && !instant_wakeup) ==> wait_until_timeout_spec(deadline, start, instant_wakeup) == 0,
        resume_cause_spec(deadline, start, now) is ResumeTimeReached <==> now >= deadline,
        resume_cause_spec(deadline, start, now) == (StartCause::ResumeTimeReached { start, requested_resume: deadline })
            || resume_cause_spec(deadline, start, now) == (StartCause::WaitCancelled { start, requested_resume: Some(deadline) }),
{
}

/// The iteration that follows a `Poll` starts with `NewEvents(Poll)` after a
/// dispatch that does not block.
pub proof fn lemma_poll_does_not_block(s: RunnerState, queued: u64)
    requires
        s.phase == Phase::PendingRead,
        s.control_flow == ControlFlow::Poll,
    ensures
        ({
            let (s1, a1) = step_spec(s, Input::PendingDispatched(queued));
            let (_, a2) = step_spec(s1, Input::Dispatched);
            &&& a1 == Action::Dispatch(Some(0))
            &&& a2 == Action::Deliver(LoopEvent::NewEvents(StartCause::Poll))
        }),
{
}

/// With `Wait`, the loop skips its sleep when events are already queued for
/// the display, and otherwise sleeps until an event arrives.
pub proof fn lemma_wait_skips_sleep_on_queued_events(s: RunnerState, queued: u64)
    requires
        s.phase == Phase::PendingRead,
        s.control_flow == ControlFlow::Wait,
    ensures
        queued > 0 ==> step_spec(s, Input::PendingDispatched(queued)).1 == Action::ReadClock,
        queued == 0 ==> step_spec(s, Input::PendingDispatched(queued)).1 == Action::Dispatch(None),
{
}


/// The runner always waits for the report of the action it handed out last,
/// and hands out `Finish` only when the loop is over.
pub proof fn lemma_step_awaits_its_report(s: RunnerState, input: Input, flow: ControlFlow, queued: u64, now: u64)
    requires
        accepts_spec(s, input),
    ensures
        ({
            let (next, action) = step_spec(s, input);
            match action {
                Action::Deliver(_) => accepts_spec(next, Input::CallbackReturned(flow)),
                Action::Dispatch(_) => accepts_spec(next, Input::Dispatched),
                Action::ProcessWindows => accepts_spec(next, Input::WindowsProcessed),
                Action::ProcessRedraws => accepts_spec(next, Input::RedrawsProcessed),
                Action::Flush => accepts_spec(next, Input::Flushed),
                Action::DispatchPending => accepts_spec(next, Input::PendingDispatched(queued)),
                Action::ReadClock => accepts_spec(next, Input::Clock(now)),
                Action::Finish => next.phase == Phase::Finished,
            }
        }),
{
}


/// With `WaitUntil(deadline)`, the dispatch after the clock read at `start`
/// does not block when events were already queued, and otherwise blocks until
/// the deadline (not at all once it has passed).
pub proof fn lemma_wait_until_dispatch(deadline: u64, queued: u64, start: u64)
    ensures
        ({
            let s = RunnerState { phase: Phase::PendingRead, control_flow: ControlFlow::WaitUntil(deadline) };
            let (s1, a1) = step_spec(s, Input::PendingDispatched(queued));
            let (_, a2) = step_spec(s1, Input::Clock(start));
            &&& a1 == Action::ReadClock
            &&& queued > 0 ==> a2 == Action::Dispatch(Some(0))
            &&& queued == 0 && deadline > start ==> a2 == Action::Dispatch(Some((deadline - start) as u64))
            &&& queued == 0 && deadline <= start ==> a2 == Action::Dispatch(Some(0))
        }),
{
}

/// A callback reached through the sticky rule gets the control flow it asks
/// for, unless the loop was already asked to exit; this holds for the flow the
/// runner keeps after `MainEventsCleared` and `RedrawEventsCleared` too.
pub proof fn lemma_sticky_request_replaces_flow(current: ControlFlow, requested: ControlFlow)
    requires
        current != ControlFlow::Exit,
    ensures
        sticky_flow(current, requested) == requested,
        step_spec(
            RunnerState { phase: Phase::MainClearedDelivered, control_flow: current },
            Input::CallbackReturned(requested),
        ).0.control_flow == requested,
        step_spec(
            RunnerState { phase: Phase::RedrawClearedDelivered, control_flow: current },
            Input::CallbackReturned(requested),
        ).0.control_flow == requested,
{
}

} // verus!
