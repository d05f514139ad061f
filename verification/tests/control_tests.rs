use winit::control::{
    resume_cause, sticky_control_flow, wait_until_timeout, Action, ControlFlow, Input, LoopEvent,
    LoopRunner, Phase, StartCause,
};

fn run_iteration(runner: &mut LoopRunner, after_main: ControlFlow, after_redraw: ControlFlow, queued: u64) -> Action {
    assert_eq!(runner.step(Input::Dispatched), Action::ProcessWindows);
    assert_eq!(runner.step(Input::WindowsProcessed), Action::Deliver(LoopEvent::MainEventsCleared));
    assert_eq!(runner.step(Input::CallbackReturned(after_main)), Action::ProcessRedraws);
    assert_eq!(runner.step(Input::RedrawsProcessed), Action::Deliver(LoopEvent::RedrawEventsCleared));
    assert_eq!(runner.step(Input::CallbackReturned(after_redraw)), Action::Flush);
    assert_eq!(runner.step(Input::Flushed), Action::DispatchPending);
    runner.step(Input::PendingDispatched(queued))
}

fn started() -> LoopRunner {
    let mut runner = LoopRunner::new();
    assert_eq!(runner.control_flow(), ControlFlow::Poll);
    assert!(runner.accepts(Input::Start));
    assert!(!runner.accepts(Input::Dispatched));
    assert_eq!(runner.step(Input::Start), Action::Deliver(LoopEvent::NewEvents(StartCause::Init)));
    runner
}

#[test]
fn loop_starts_with_init_then_blocks() {
    let mut runner = started();
    assert_eq!(runner.step(Input::CallbackReturned(ControlFlow::Wait)), Action::Dispatch(None));
    assert_eq!(runner.phase(), Phase::MainDispatch);
}

#[test]
fn poll_dispatches_without_blocking() {
    let mut runner = started();
    runner.step(Input::CallbackReturned(ControlFlow::Poll));
    assert_eq!(run_iteration(&mut runner, ControlFlow::Poll, ControlFlow::Poll, 0), Action::Dispatch(Some(0)));
    assert_eq!(runner.step(Input::Dispatched), Action::Deliver(LoopEvent::NewEvents(StartCause::Poll)));
    assert_eq!(runner.step(Input::CallbackReturned(ControlFlow::Poll)), Action::Dispatch(None));
}

#[test]
fn wait_blocks_unless_events_are_queued() {
    let mut runner = started();
    runner.step(Input::CallbackReturned(ControlFlow::Wait));
    assert_eq!(run_iteration(&mut runner, ControlFlow::Wait, ControlFlow::Wait, 0), Action::Dispatch(None));
    assert_eq!(runner.step(Input::Dispatched), Action::ReadClock);
    assert_eq!(
        runner.step(Input::Clock(500)),
        Action::Deliver(LoopEvent::NewEvents(StartCause::WaitCancelled { start: 500, requested_resume: None }))
    );
    runner.step(Input::CallbackReturned(ControlFlow::Wait));
    assert_eq!(run_iteration(&mut runner, ControlFlow::Wait, ControlFlow::Wait, 3), Action::ReadClock);
}

#[test]
fn wait_until_sleeps_until_the_deadline() {
    let mut runner = started();
    runner.step(Input::CallbackReturned(ControlFlow::WaitUntil(1_000)));
    assert_eq!(
        run_iteration(&mut runner, ControlFlow::WaitUntil(1_000), ControlFlow::WaitUntil(1_000), 0),
        Action::ReadClock
    );
    assert_eq!(runner.step(Input::Clock(400)), Action::Dispatch(Some(600)));
    assert_eq!(runner.step(Input::Dispatched), Action::ReadClock);
    assert_eq!(
        runner.step(Input::Clock(1_000)),
        Action::Deliver(LoopEvent::NewEvents(StartCause::ResumeTimeReached { start: 400, requested_resume: 1_000 }))
    );
}

#[test]
fn wait_until_cancelled_by_an_event() {
    let mut runner = started();
    runner.step(Input::CallbackReturned(ControlFlow::WaitUntil(1_000)));
    run_iteration(&mut runner, ControlFlow::WaitUntil(1_000), ControlFlow::WaitUntil(1_000), 0);
    runner.step(Input::Clock(400));
    runner.step(Input::Dispatched);
    assert_eq!(
        runner.step(Input::Clock(700)),
        Action::Deliver(LoopEvent::NewEvents(StartCause::WaitCancelled {
            start: 400,
            requested_resume: Some(1_000)
        }))
    );
}

#[test]
fn exit_is_sticky_and_ends_the_loop() {
    let mut runner = started();
    runner.step(Input::CallbackReturned(ControlFlow::Poll));
    runner.sticky_callback_returned(ControlFlow::Exit);
    runner.sticky_callback_returned(ControlFlow::Poll);
    assert_eq!(runner.control_flow(), ControlFlow::Exit);
    assert_eq!(
        run_iteration(&mut runner, ControlFlow::Wait, ControlFlow::Poll, 0),
        Action::Deliver(LoopEvent::LoopDestroyed)
    );
    assert_eq!(runner.step(Input::CallbackReturned(ControlFlow::Exit)), Action::Finish);
    assert!(runner.is_finished());
    assert!(!runner.accepts(Input::Start));
    assert!(!runner.accepts(Input::Dispatched));
}

#[test]
fn exit_asked_at_main_events_cleared_ends_the_iteration() {
    let mut runner = started();
    runner.step(Input::CallbackReturned(ControlFlow::Wait));
    assert_eq!(
        run_iteration(&mut runner, ControlFlow::Exit, ControlFlow::Wait, 7),
        Action::Deliver(LoopEvent::LoopDestroyed)
    );
}

#[test]
fn timing_helpers() {
    assert_eq!(wait_until_timeout(1_000, 400, false), 600);
    assert_eq!(wait_until_timeout(1_000, 400, true), 0);
    assert_eq!(wait_until_timeout(1_000, 1_000, false), 0);
    assert_eq!(wait_until_timeout(1_000, 2_000, false), 0);
    assert_eq!(resume_cause(10, 3, 9), StartCause::WaitCancelled { start: 3, requested_resume: Some(10) });
    assert_eq!(resume_cause(10, 3, 10), StartCause::ResumeTimeReached { start: 3, requested_resume: 10 });
    assert_eq!(sticky_control_flow(ControlFlow::Exit, ControlFlow::Wait), ControlFlow::Exit);
    assert_eq!(sticky_control_flow(ControlFlow::Wait, ControlFlow::Poll), ControlFlow::Poll);
}
