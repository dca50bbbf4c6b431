use winit::event_loop::ControlFlow;
use winit::event_loop::EventHandler;
use winit::event_loop::run_iteration;
use winit::event_loop::EventLoopClosed;
use winit::event_loop::EventLoopProxy;
use winit::event_loop::EventsLoopProxy;
use winit::event_loop::FinishOutcome;
use winit::event_loop::LoopPhase;
use winit::event_loop::LoopState;
use winit::event_loop::WakeDirective;
use winit::event_loop::wake_directive;
use winit::events::Event;
use winit::events::StartCause;
use winit::events::WindowEvent;
use winit::events::WindowId;

fn window_event(id: u64) -> Event<u32> {
    Event::WindowEvent { window_id: WindowId(id), event: WindowEvent::CloseRequested }
}

#[test]
fn first_iteration_brackets_with_init() {
    let mut state: LoopState<u32> = LoopState::new();
    state.queue_event(window_event(1));
    state.queue_event(window_event(2));
    let first = state.begin_iteration(0);
    assert_eq!(first, Event::NewEvents(StartCause::Init));
    assert_eq!(state.next_event(), Some(window_event(1)));
    assert_eq!(state.next_event(), Some(window_event(2)));
    assert_eq!(state.next_event(), None);
    let last = state.events_cleared();
    assert_eq!(last, Event::EventsCleared);
    // The control flow stayed at its default, so the blocking primitive
    // (polling from the start) is left untouched.
    let outcome = state.finish_iteration(7);
    assert_eq!(outcome, FinishOutcome::Continue(WakeDirective::Unchanged));
    assert_eq!(state.phase, LoopPhase::Idle);
}

#[test]
fn exit_emits_one_loop_destroyed_and_terminates() {
    let mut state: LoopState<u32> = LoopState::new();
    state.begin_iteration(0);
    assert_eq!(state.next_event(), None);
    state.set_control_flow(ControlFlow::Exit);
    state.events_cleared();
    let outcome = state.finish_iteration(0);
    assert_eq!(outcome, FinishOutcome::Destroy);
    assert_eq!(state.phase, LoopPhase::Exited);
}

#[test]
fn wait_then_cancelled_cause() {
    let mut state: LoopState<u32> = LoopState::new();
    state.begin_iteration(0);
    state.set_control_flow(ControlFlow::Wait);
    state.events_cleared();
    let outcome = state.finish_iteration(10);
    assert_eq!(outcome, FinishOutcome::Continue(WakeDirective::Disarm));
    let ev = state.begin_iteration(25);
    assert_eq!(
        ev,
        Event::NewEvents(StartCause::WaitCancelled { start: 10, requested_resume: None })
    );
}

#[test]
fn wait_until_resume_time_reached() {
    let mut state: LoopState<u32> = LoopState::new();
    state.begin_iteration(0);
    state.set_control_flow(ControlFlow::WaitUntil(100));
    state.events_cleared();
    let outcome = state.finish_iteration(5);
    assert_eq!(outcome, FinishOutcome::Continue(WakeDirective::ArmAt(100)));
    let ev = state.begin_iteration(100);
    assert_eq!(
        ev,
        Event::NewEvents(StartCause::ResumeTimeReached { start: 5, requested_resume: 100 })
    );
}

#[test]
fn wait_until_cut_short_reports_deadline() {
    let mut state: LoopState<u32> = LoopState::new();
    state.begin_iteration(0);
    state.set_control_flow(ControlFlow::WaitUntil(100));
    state.events_cleared();
    state.finish_iteration(5);
    let ev = state.begin_iteration(60);
    assert_eq!(
        ev,
        Event::NewEvents(StartCause::WaitCancelled { start: 5, requested_resume: Some(100) })
    );
}

#[test]
fn identical_deadline_is_not_rearmed() {
    let mut state: LoopState<u32> = LoopState::new();
    state.begin_iteration(0);
    state.set_control_flow(ControlFlow::WaitUntil(100));
    state.events_cleared();
    state.finish_iteration(5);
    // The wait is cut short; the callback asks for the same deadline again.
    state.begin_iteration(50);
    state.set_control_flow(ControlFlow::WaitUntil(100));
    state.events_cleared();
    let outcome = state.finish_iteration(50);
    assert_eq!(outcome, FinishOutcome::Continue(WakeDirective::Unchanged));
}

#[test]
fn control_flow_resets_to_poll_each_iteration() {
    let mut state: LoopState<u32> = LoopState::new();
    state.begin_iteration(0);
    state.set_control_flow(ControlFlow::Wait);
    state.events_cleared();
    state.finish_iteration(0);
    state.begin_iteration(1);
    assert_eq!(state.get_control_flow(), ControlFlow::Poll);
}

#[test]
fn events_queued_after_cleared_wait_for_next_iteration() {
    let mut state: LoopState<u32> = LoopState::new();
    state.begin_iteration(0);
    assert_eq!(state.next_event(), None);
    state.events_cleared();
    state.queue_event(window_event(9));
    state.finish_iteration(0);
    state.begin_iteration(1);
    assert_eq!(state.next_event(), Some(window_event(9)));
}

#[test]
fn wake_directive_cases() {
    assert_eq!(wake_directive(ControlFlow::Poll, ControlFlow::Poll), WakeDirective::Unchanged);
    assert_eq!(wake_directive(ControlFlow::Poll, ControlFlow::Wait), WakeDirective::Disarm);
    assert_eq!(wake_directive(ControlFlow::Wait, ControlFlow::Poll), WakeDirective::Arm);
    assert_eq!(
        wake_directive(ControlFlow::Wait, ControlFlow::WaitUntil(3)),
        WakeDirective::ArmAt(3)
    );
    assert_eq!(
        wake_directive(ControlFlow::WaitUntil(3), ControlFlow::WaitUntil(3)),
        WakeDirective::Unchanged
    );
}

#[test]
fn proxy_send_enqueues_and_requests_wakeup() {
    let mut proxy: EventLoopProxy<u32> = EventLoopProxy::new();
    assert_eq!(proxy.send_event(5), Ok(()));
    assert_eq!(proxy.send_event(6), Ok(()));
    assert!(proxy.wake_requested);
    let drained = proxy.take_events();
    assert_eq!(drained, vec![5, 6]);
    assert!(!proxy.wake_requested);
}

#[test]
fn send_event_fails_after_close() {
    let mut proxy: EventLoopProxy<u32> = EventLoopProxy::new();
    proxy.close();
    assert_eq!(proxy.send_event(5), Err(EventLoopClosed));
    assert_eq!(proxy.take_events(), Vec::<u32>::new());
}

#[test]
fn wakeup_proxy_round_trip() {
    let mut proxy = EventsLoopProxy::new();
    assert_eq!(proxy.wakeup(), Ok(()));
    assert!(proxy.take_wakeup());
    assert!(!proxy.take_wakeup());
    proxy.close();
    assert_eq!(proxy.wakeup(), Err(EventLoopClosed));
}

#[test]
fn control_flow_default_is_poll() {
    assert_eq!(ControlFlow::default(), ControlFlow::Poll);
}

struct Recorder {
    seen: Vec<Event<u32>>,
    exit_at: usize,
}

impl EventHandler<u32> for Recorder {
    fn handle_event(&mut self, event: Event<u32>, control_flow: &mut ControlFlow) {
        self.seen.push(event);
        if self.seen.len() >= self.exit_at {
            *control_flow = ControlFlow::Exit;
        }
    }
}

#[test]
fn run_iteration_brackets_and_destroys_once() {
    let mut state: LoopState<u32> = LoopState::new();
    state.queue_event(window_event(1));
    let mut handler = Recorder { seen: Vec::new(), exit_at: usize::MAX };
    let outcome = run_iteration(&mut state, &mut handler, 0);
    assert!(matches!(outcome, FinishOutcome::Continue(_)));
    assert_eq!(
        handler.seen,
        vec![
            Event::NewEvents(StartCause::Init),
            window_event(1),
            Event::EventsCleared,
        ]
    );

    // The callback exits during the second iteration: exactly one
    // LoopDestroyed follows its EventsCleared, and the machine is
    // terminal.
    handler.exit_at = handler.seen.len() + 1;
    let outcome = run_iteration(&mut state, &mut handler, 1);
    assert_eq!(outcome, FinishOutcome::Destroy);
    assert_eq!(state.phase, LoopPhase::Exited);
    assert_eq!(
        &handler.seen[3..],
        &[
            Event::NewEvents(StartCause::Poll),
            Event::EventsCleared,
            Event::LoopDestroyed,
        ]
    );
}
