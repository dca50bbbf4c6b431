//! The control-flow loop: `ControlFlow`, the per-iteration state machine,
//! and the cross-thread proxy model.
//!
//! The loop state machine is driven from outside: the adapter asks it to
//! begin an iteration, hands each returned event to the user callback, lets
//! the callback write the control flow back, and finally asks how to wait
//! before the next iteration. Every event the machine hands out is recorded
//! in a ghost history, over which the bracketing and termination laws are
//! stated and proved.

use vstd::prelude::*;

use crate::events::Event;
use crate::events::StartCause;

verus! {

/// Set by the user callback: how the loop should behave once the current
/// iteration finishes.
#[derive(Debug, Copy, Clone, PartialEq, Eq, Structural, Hash)]
pub enum ControlFlow {
    /// Suspend until another event arrives.
    Wait,
    /// Suspend until another event arrives or the given time is reached.
    WaitUntil(u64),
    /// Begin a new iteration immediately.
    Poll,
    /// Deliver `LoopDestroyed` and stop. Once set, the control flow must
    /// not be changed away from `Exit`.
    Exit,
}

impl Default for ControlFlow {
    fn default() -> (r: ControlFlow)
        ensures
            r == ControlFlow::Poll,
    {
        ControlFlow::Poll
    }
}

/// The error returned when a proxy tries to wake a loop that no longer
/// exists.
#[derive(Debug, Copy, Clone, PartialEq, Eq, Structural, Hash)]
pub struct EventLoopClosed;

/// How the blocking primitive must be reconfigured between iterations.
#[derive(Debug, Copy, Clone, PartialEq, Eq, Structural)]
pub enum WakeDirective {
    /// The control flow did not change: leave the timer alone. Skipping the
    /// redundant rearm is observable to timer hooks, so it is stated, not
    /// just an optimization.
    Unchanged,
    /// Block indefinitely until an event or a proxy wakeup arrives.
    Disarm,
    /// Do not block: start the next iteration immediately.
    Arm,
    /// Block until the given time, or until an event or wakeup arrives.
    ArmAt(u64),
}

/// The timer decision for a finished iteration, from the control flow at
/// the end of the previous iteration and the one just set.
pub fn wake_directive(previous: ControlFlow, current: ControlFlow) -> (r: WakeDirective)
    requires
        current != ControlFlow::Exit,
    ensures
        previous == current ==> r == WakeDirective::Unchanged,
        previous != current && current == ControlFlow::Wait ==> r == WakeDirective::Disarm,
        previous != current && current == ControlFlow::Poll ==> r == WakeDirective::Arm,
        previous != current && (current matches ControlFlow::WaitUntil(t)) ==> r
            == WakeDirective::ArmAt(current->WaitUntil_0),
{
    if previous == current {
        WakeDirective::Unchanged
    } else {
        match current {
            ControlFlow::Wait => WakeDirective::Disarm,
            ControlFlow::WaitUntil(t) => WakeDirective::ArmAt(t),
            ControlFlow::Poll => WakeDirective::Arm,
            // Excluded by the precondition; the loop never reaches here.
            ControlFlow::Exit => WakeDirective::Arm,
        }
    }
}

/// What a finished iteration asks the adapter to do next.
#[derive(Debug, Copy, Clone, PartialEq, Eq, Structural)]
pub enum FinishOutcome {
    /// Keep running; reconfigure the blocking primitive as directed.
    Continue(WakeDirective),
    /// The callback asked to exit: the machine has recorded the final
    /// `LoopDestroyed` event, which the adapter must deliver once, and no
    /// event will ever be handed out again.
    Destroy,
}

/// Where the machine stands in the iteration protocol.
#[derive(Debug, Copy, Clone, PartialEq, Eq, Structural)]
pub enum LoopPhase {
    /// Between iterations (or before the first one).
    Idle,
    /// `NewEvents` has been handed out; queued events are being drained.
    Dispatching,
    /// `EventsCleared` has been handed out; waiting for the verdict.
    Clearing,
    /// `LoopDestroyed` has been handed out; terminal.
    Exited,
}

/// True of the synthetic bracketing events that only the loop itself may
/// emit.
pub open spec fn is_synthetic<T>(ev: Event<T>) -> bool {
    ||| ev is NewEvents
    ||| ev is EventsCleared
    ||| ev is LoopDestroyed
}

/// The exact event sequence of one complete iteration: `NewEvents` first,
/// the drained body, `EventsCleared` last, and — only when the iteration
/// ended in `Exit` — the final `LoopDestroyed`.
pub open spec fn iteration_events<T>(cause: StartCause, body: Seq<Event<T>>, exit: bool) -> Seq<
    Event<T>,
> {
    seq![Event::NewEvents(cause)] + body + seq![Event::EventsCleared] + if exit {
        seq![Event::LoopDestroyed]
    } else {
        Seq::empty()
    }
}

/// The explicit state of the control-flow loop, threaded through the
/// adapter instead of living in process-global handler state.
pub struct LoopState<T> {
    /// The control flow the callback last requested.
    pub control_flow: ControlFlow,
    /// The control flow in force at the end of the previous iteration.
    pub control_flow_prev: ControlFlow,
    /// When the current wait began.
    pub start_time: u64,
    /// Events queued for dispatch, oldest first.
    pub pending: Vec<Event<T>>,
    /// Protocol phase.
    pub phase: LoopPhase,
    /// Whether the first iteration has begun.
    pub started: bool,
    /// Every event handed out for dispatch, in order.
    pub history: Ghost<Seq<Event<T>>>,
    /// The history as it stood when the current iteration began.
    pub iter_base: Ghost<Seq<Event<T>>>,
    /// The cause the current iteration began with.
    pub iter_cause: Ghost<StartCause>,
    /// The body events handed out so far in the current iteration.
    pub iter_body: Ghost<Seq<Event<T>>>,
}

impl<T> LoopState<T> {
    /// Well-formedness: the ghost history decomposes according to the
    /// phase, queued events are never the synthetic ones, `LoopDestroyed`
    /// appears exactly once and last — and only once the machine exited.
    pub open spec fn inv(&self) -> bool {
        &&& (forall|i: int|
            0 <= i < self.pending@.len() ==> !is_synthetic(#[trigger] self.pending@[i]))
        &&& (forall|i: int|
            0 <= i < self.iter_body@.len() ==> !is_synthetic(#[trigger] self.iter_body@[i]))
        &&& (self.phase != LoopPhase::Exited ==> forall|i: int|
            0 <= i < self.history@.len() ==> !((#[trigger] self.history@[i]) is LoopDestroyed))
        &&& (self.phase == LoopPhase::Exited ==> {
            &&& self.history@.len() > 0
            &&& self.history@.last() is LoopDestroyed
            &&& forall|i: int|
                0 <= i < self.history@.len() - 1 ==> !((#[trigger] self.history@[i]) is LoopDestroyed)
        })
        &&& (!self.started ==> self.phase == LoopPhase::Idle && self.history@ =~= Seq::<
            Event<T>,
        >::empty())
        &&& (self.phase == LoopPhase::Dispatching ==> self.history@ =~= self.iter_base@ + seq![
            Event::<T>::NewEvents(self.iter_cause@),
        ] + self.iter_body@)
        &&& (self.phase == LoopPhase::Clearing ==> self.history@ =~= self.iter_base@ + seq![
            Event::<T>::NewEvents(self.iter_cause@),
        ] + self.iter_body@ + seq![Event::<T>::EventsCleared])
        &&& (self.phase == LoopPhase::Idle && self.started ==> self.control_flow
            != ControlFlow::Exit)
    }

    /// A fresh machine: control flow at its default, nothing queued,
    /// nothing dispatched.
    pub fn new() -> (s: Self)
        ensures
            s.inv(),
            !s.started,
            s.phase == LoopPhase::Idle,
            s.control_flow == ControlFlow::Poll,
            s.pending@.len() == 0,
            s.history@ =~= Seq::<Event<T>>::empty(),
    {
        LoopState {
            control_flow: ControlFlow::Poll,
            control_flow_prev: ControlFlow::Poll,
            start_time: 0,
            pending: Vec::new(),
            phase: LoopPhase::Idle,
            started: false,
            history: Ghost(Seq::empty()),
            iter_base: Ghost(Seq::empty()),
            iter_cause: Ghost(StartCause::Init),
            iter_body: Ghost(Seq::empty()),
        }
    }

    /// Queues one normalized event for the next dispatch. Producers (native
    /// callbacks, the proxy drain) only enqueue; they never invoke the user
    /// callback themselves.
    pub fn queue_event(&mut self, ev: Event<T>)
        requires
            old(self).inv(),
            !is_synthetic(ev),
        ensures
            final(self).inv(),
            final(self).pending@ == old(self).pending@.push(ev),
            final(self).phase == old(self).phase,
            final(self).started == old(self).started,
            final(self).control_flow == old(self).control_flow,
            final(self).history@ == old(self).history@,
    {
        let ghost prev = self.pending@;
        self.pending.push(ev);
        proof {
            assert forall|i: int| 0 <= i < self.pending@.len() implies !is_synthetic(
                #[trigger] self.pending@[i],
            ) by {
                if i < prev.len() {
                    assert(self.pending@[i] == prev[i]);
                }
            }
        }
    }

    /// The cause the next iteration will start with, from the control flow
    /// in force and the time the wait began.
    pub open spec fn spec_start_cause(&self, now: u64) -> StartCause {
        if !self.started {
            StartCause::Init
        } else {
            match self.control_flow {
                ControlFlow::Poll => StartCause::Poll,
                ControlFlow::Wait => StartCause::WaitCancelled {
                    start: self.start_time,
                    requested_resume: None,
                },
                ControlFlow::WaitUntil(resume) => if now >= resume {
                    StartCause::ResumeTimeReached { start: self.start_time, requested_resume: resume }
                } else {
                    StartCause::WaitCancelled {
                        start: self.start_time,
                        requested_resume: Some(resume),
                    }
                },
                ControlFlow::Exit => StartCause::Poll,
            }
        }
    }

    /// Begins an iteration: hands out the `NewEvents` bracketing event.
    /// The control flow resets to its default; the callback may overwrite
    /// it while the iteration's events are dispatched.
    pub fn begin_iteration(&mut self, now: u64) -> (ev: Event<T>)
        requires
            old(self).inv(),
            old(self).phase == LoopPhase::Idle,
        ensures
            final(self).inv(),
            ev == Event::<T>::NewEvents(old(self).spec_start_cause(now)),
            final(self).phase == LoopPhase::Dispatching,
            final(self).started,
            final(self).control_flow == ControlFlow::Poll,
            final(self).control_flow_prev == old(self).control_flow,
            final(self).pending@ == old(self).pending@,
            final(self).history@ == old(self).history@.push(ev),
            final(self).iter_base@ == old(self).history@,
            final(self).iter_cause@ == old(self).spec_start_cause(now),
            final(self).iter_body@ =~= Seq::<Event<T>>::empty(),
    {
        let cause = if !self.started {
            StartCause::Init
        } else {
            match self.control_flow {
                ControlFlow::Poll => StartCause::Poll,
                ControlFlow::Wait => StartCause::WaitCancelled {
                    start: self.start_time,
                    requested_resume: None,
                },
                ControlFlow::WaitUntil(resume) => if now >= resume {
                    StartCause::ResumeTimeReached {
                        start: self.start_time,
                        requested_resume: resume,
                    }
                } else {
                    StartCause::WaitCancelled {
                        start: self.start_time,
                        requested_resume: Some(resume),
                    }
                },
                // Excluded by the invariant once started; a fresh machine
                // starts with `Init` above.
                ControlFlow::Exit => StartCause::Poll,
            }
        };
        self.iter_base = Ghost(self.history@);
        self.iter_cause = Ghost(cause);
        self.iter_body = Ghost(Seq::empty());
        self.history = Ghost(self.history@.push(Event::NewEvents(cause)));
        self.control_flow_prev = self.control_flow;
        self.control_flow = ControlFlow::Poll;
        self.phase = LoopPhase::Dispatching;
        self.started = true;
        Event::NewEvents(cause)
    }

    /// Hands out the oldest queued event, or `None` once the queue is
    /// drained and the iteration can move on to `EventsCleared`.
    pub fn next_event(&mut self) -> (r: Option<Event<T>>)
        requires
            old(self).inv(),
            old(self).phase == LoopPhase::Dispatching,
        ensures
            final(self).inv(),
            final(self).phase == LoopPhase::Dispatching,
            final(self).started == old(self).started,
            final(self).control_flow == old(self).control_flow,
            final(self).control_flow_prev == old(self).control_flow_prev,
            final(self).iter_base@ == old(self).iter_base@,
            final(self).iter_cause@ == old(self).iter_cause@,
            old(self).pending@.len() == 0 ==> r is None && *final(self) == *old(self),
            old(self).pending@.len() > 0 ==> {
                &&& r == Some(old(self).pending@.first())
                &&& final(self).pending@ == old(self).pending@.drop_first()
                &&& final(self).history@ == old(self).history@.push(old(self).pending@.first())
                &&& final(self).iter_body@ == old(self).iter_body@.push(
                    old(self).pending@.first(),
                )
            },
    {
        if self.pending.len() == 0 {
            None
        } else {
            let ev = self.pending.remove(0);
            self.history = Ghost(self.history@.push(ev));
            self.iter_body = Ghost(self.iter_body@.push(ev));
            proof {
                assert(self.pending@ =~= old(self).pending@.drop_first());
            }
            Some(ev)
        }
    }

    /// The user callback's write of the control flow, as relayed by the
    /// adapter after each callback invocation. Changing the control flow
    /// away from `Exit` after `Exit` was set is a caller logic error and is
    /// excluded by precondition, which makes `Exit` monotonic.
    pub fn set_control_flow(&mut self, flow: ControlFlow)
        requires
            old(self).inv(),
            old(self).phase == LoopPhase::Dispatching || old(self).phase == LoopPhase::Clearing,
            old(self).control_flow == ControlFlow::Exit ==> flow == ControlFlow::Exit,
        ensures
            final(self).inv(),
            *final(self) == (LoopState { control_flow: flow, ..*old(self) }),
    {
        self.control_flow = flow;
    }

    /// Reads the control flow, as the adapter does to show the callback the
    /// current value.
    pub fn get_control_flow(&self) -> (r: ControlFlow)
        ensures
            r == self.control_flow,
    {
        self.control_flow
    }

    /// Ends the dispatch phase: hands out the `EventsCleared` bracketing
    /// event. Events queued after this point wait for the next iteration.
    pub fn events_cleared(&mut self) -> (ev: Event<T>)
        requires
            old(self).inv(),
            old(self).phase == LoopPhase::Dispatching,
        ensures
            final(self).inv(),
            ev == Event::<T>::EventsCleared,
            final(self).phase == LoopPhase::Clearing,
            final(self).started == old(self).started,
            final(self).control_flow == old(self).control_flow,
            final(self).control_flow_prev == old(self).control_flow_prev,
            final(self).pending@ == old(self).pending@,
            final(self).history@ == old(self).history@.push(Event::EventsCleared),
            final(self).iter_base@ == old(self).iter_base@,
            final(self).iter_cause@ == old(self).iter_cause@,
            final(self).iter_body@ == old(self).iter_body@,
    {
        self.history = Ghost(self.history@.push(Event::EventsCleared));
        self.phase = LoopPhase::Clearing;
        Event::EventsCleared
    }

    /// Closes the iteration. If the callback asked to exit, the machine
    /// records the final `LoopDestroyed` — the adapter delivers it once and
    /// never invokes the callback again; otherwise the machine returns to
    /// idle with the directive for the blocking primitive.
    ///
    /// In either case the history grew by exactly one bracketed iteration:
    /// `iteration_events` of the cause, the dispatched body, and the exit
    /// verdict.
    pub fn finish_iteration(&mut self, now: u64) -> (r: FinishOutcome)
        requires
            old(self).inv(),
            old(self).phase == LoopPhase::Clearing,
        ensures
            final(self).inv(),
            final(self).history@ =~= old(self).iter_base@ + iteration_events(
                old(self).iter_cause@,
                old(self).iter_body@,
                old(self).control_flow == ControlFlow::Exit,
            ),
            final(self).pending@ == old(self).pending@,
            old(self).control_flow == ControlFlow::Exit ==> {
                &&& r == FinishOutcome::Destroy
                &&& final(self).phase == LoopPhase::Exited
            },
            old(self).control_flow != ControlFlow::Exit ==> {
                &&& r == FinishOutcome::Continue(
                    spec_wake_directive(old(self).control_flow_prev, old(self).control_flow),
                )
                &&& final(self).phase == LoopPhase::Idle
                &&& final(self).control_flow == old(self).control_flow
                &&& final(self).control_flow_prev == old(self).control_flow
                &&& final(self).start_time == now
            },
    {
        if matches!(self.control_flow, ControlFlow::Exit) {
            self.history = Ghost(self.history@.push(Event::LoopDestroyed));
            self.phase = LoopPhase::Exited;
            proof {
                assert(self.history@ =~= old(self).iter_base@ + iteration_events(
                    old(self).iter_cause@,
                    old(self).iter_body@,
                    true,
                ));
            }
            FinishOutcome::Destroy
        } else {
            let directive = wake_directive(self.control_flow_prev, self.control_flow);
            self.control_flow_prev = self.control_flow;
            self.start_time = now;
            self.phase = LoopPhase::Idle;
            proof {
                assert(self.history@ =~= old(self).iter_base@ + iteration_events(
                    old(self).iter_cause@,
                    old(self).iter_body@,
                    false,
                ));
            }
            FinishOutcome::Continue(directive)
        }
    }
}

impl<T> LoopState<T> {
    /// How many events are queued.
    pub fn pending_count(&self) -> (r: usize)
        ensures
            r == self.pending@.len(),
    {
        self.pending.len()
    }
}

/// What the user gives the loop: a handler invoked once per event, free
/// to write the control flow it wants through the second parameter.
pub trait EventHandler<T> {
    fn handle_event(&mut self, event: Event<T>, control_flow: &mut ControlFlow);
}

/// Installs the control flow a handler asked for, keeping `Exit` sticky:
/// once the machine holds `Exit`, a handler's later write cannot revert
/// it.
fn relay_control_flow<T>(state: &mut LoopState<T>, requested: ControlFlow)
    requires
        old(state).inv(),
        old(state).phase == LoopPhase::Dispatching || old(state).phase == LoopPhase::Clearing,
    ensures
        final(state).inv(),
        *final(state) == (LoopState {
            control_flow: (if old(state).control_flow == ControlFlow::Exit {
                ControlFlow::Exit
            } else {
                requested
            }),
            ..*old(state)
        }),
{
    if matches!(state.get_control_flow(), ControlFlow::Exit) {
        state.set_control_flow(ControlFlow::Exit);
    } else {
        state.set_control_flow(requested);
    }
}

/// Runs one complete iteration against a handler: `NewEvents` first, the
/// queued events in order, `EventsCleared` last — and, when the handler
/// exited the loop, the single final `LoopDestroyed`, after which the
/// machine is terminal and no handler invocation ever follows. The
/// history grows by exactly the bracketed iteration over the events that
/// were queued on entry.
pub fn run_iteration<T, H: EventHandler<T>>(
    state: &mut LoopState<T>,
    handler: &mut H,
    now: u64,
) -> (r: FinishOutcome)
    requires
        old(state).inv(),
        old(state).phase == LoopPhase::Idle,
    ensures
        final(state).inv(),
        final(state).pending@.len() == 0,
        final(state).history@ =~= old(state).history@ + iteration_events(
            old(state).spec_start_cause(now),
            old(state).pending@,
            final(state).phase == LoopPhase::Exited,
        ),
        r == FinishOutcome::Destroy <==> final(state).phase == LoopPhase::Exited,
        r matches FinishOutcome::Continue(d) ==> final(state).phase == LoopPhase::Idle,
{
    let ghost cause = state.spec_start_cause(now);
    let ghost queued = state.pending@;
    let ev = state.begin_iteration(now);
    let mut flow = state.get_control_flow();
    handler.handle_event(ev, &mut flow);
    relay_control_flow(state, flow);
    while state.pending_count() > 0
        invariant
            state.inv(),
            state.phase == LoopPhase::Dispatching,
            state.iter_base@ =~= old(state).history@,
            state.iter_cause@ == cause,
            state.iter_body@.len() <= queued.len(),
            state.iter_body@ =~= queued.take(state.iter_body@.len() as int),
            state.pending@ =~= queued.skip(state.iter_body@.len() as int),
        decreases state.pending@.len(),
    {
        let ghost k = state.iter_body@.len() as int;
        let next = state.next_event();
        match next {
            Some(ev) => {
                proof {
                    assert(queued.skip(k).first() == queued[k]);
                    assert(state.iter_body@ =~= queued.take(k + 1));
                    assert(state.pending@ =~= queued.skip(k + 1));
                }
                let mut flow = state.get_control_flow();
                handler.handle_event(ev, &mut flow);
                relay_control_flow(state, flow);
            },
            None => {},
        }
    }
    proof {
        assert(state.iter_body@ =~= queued);
    }
    let ev = state.events_cleared();
    let mut flow = state.get_control_flow();
    handler.handle_event(ev, &mut flow);
    relay_control_flow(state, flow);
    let outcome = state.finish_iteration(now);
    if matches!(outcome, FinishOutcome::Destroy) {
        // The final teardown event: delivered exactly once, and the
        // machine accepts no further dispatch.
        let mut flow = ControlFlow::Exit;
        handler.handle_event(Event::LoopDestroyed, &mut flow);
    }
    outcome
}

/// The timer decision as a spec-level function, mirroring
/// `wake_directive`.
pub open spec fn spec_wake_directive(previous: ControlFlow, current: ControlFlow) -> WakeDirective {
    if previous == current {
        WakeDirective::Unchanged
    } else {
        match current {
            ControlFlow::Wait => WakeDirective::Disarm,
            ControlFlow::WaitUntil(t) => WakeDirective::ArmAt(t),
            ControlFlow::Poll => WakeDirective::Arm,
            ControlFlow::Exit => WakeDirective::Arm,
        }
    }
}

/// Every iteration is bracketed: its first event is `NewEvents` with the
/// iteration's cause, its last ordinary event is `EventsCleared`, and the
/// only event that may follow `EventsCleared` is the single final
/// `LoopDestroyed` of an exiting iteration. This holds for the very first
/// iteration too, whose cause is `Init`.
pub proof fn lemma_iteration_brackets<T>(cause: StartCause, body: Seq<Event<T>>, exit: bool)
    ensures
        iteration_events(cause, body, exit).first() == Event::<T>::NewEvents(cause),
        iteration_events(cause, body, exit)[body.len() as int + 1] == Event::<T>::EventsCleared,
        !exit ==> iteration_events(cause, body, exit).last() == Event::<T>::EventsCleared,
        exit ==> iteration_events(cause, body, exit).last() == Event::<T>::LoopDestroyed,
        exit ==> iteration_events(cause, body, exit)[body.len() as int + 1] == Event::<
            T,
        >::EventsCleared,
{
}

/// Once the callback's `Exit` has been observed, the loop has delivered
/// exactly one `LoopDestroyed`, as the very last event of its history; the
/// machine is in its terminal phase, from which no method hands out any
/// further event.
pub proof fn lemma_exit_is_terminal<T>(s: &LoopState<T>)
    requires
        s.inv(),
        s.phase == LoopPhase::Exited,
    ensures
        s.history@.len() > 0,
        s.history@.last() is LoopDestroyed,
        forall|i: int| 0 <= i < s.history@.len() - 1 ==> !((#[trigger] s.history@[i]) is LoopDestroyed),
{
}

/// A cross-thread proxy's shared state: values sent from other threads,
/// whether the owning loop still exists, and whether a wakeup of the
/// blocked loop is due. The adapter guards one instance with a lock and a
/// wakeup primitive; sending never blocks and never partially enqueues.
pub struct EventLoopProxy<T> {
    /// Whether the owning loop still exists.
    pub open_for_events: bool,
    /// Values sent and not yet drained, oldest first.
    pub pending: Vec<T>,
    /// Whether the loop must be woken.
    pub wake_requested: bool,
}

impl<T> EventLoopProxy<T> {
    /// A proxy for a live loop with nothing sent yet.
    pub fn new() -> (s: Self)
        ensures
            s.open_for_events,
            s.pending@.len() == 0,
            !s.wake_requested,
    {
        EventLoopProxy { open_for_events: true, pending: Vec::new(), wake_requested: false }
    }

    /// Sends one value to the owning loop: enqueues it as a pending user
    /// event and requests a wakeup. Fails, leaving the state unchanged,
    /// exactly when the owning loop no longer exists.
    pub fn send_event(&mut self, event: T) -> (r: Result<(), EventLoopClosed>)
        ensures
            old(self).open_for_events ==> {
                &&& r is Ok
                &&& final(self).pending@ == old(self).pending@.push(event)
                &&& final(self).wake_requested
                &&& final(self).open_for_events
            },
            !old(self).open_for_events ==> r == Err::<(), EventLoopClosed>(EventLoopClosed)
                && *final(self) == *old(self),
    {
        if self.open_for_events {
            self.pending.push(event);
            self.wake_requested = true;
            Ok(())
        } else {
            Err(EventLoopClosed)
        }
    }

    /// The loop side: drains everything sent so far, in sending order, and
    /// acknowledges the wakeup.
    pub fn take_events(&mut self) -> (r: Vec<T>)
        ensures
            r@ == old(self).pending@,
            final(self).pending@.len() == 0,
            !final(self).wake_requested,
            final(self).open_for_events == old(self).open_for_events,
    {
        self.wake_requested = false;
        let mut drained: Vec<T> = Vec::new();
        core::mem::swap(&mut drained, &mut self.pending);
        drained
    }

    /// The loop side, on teardown: further sends fail with
    /// `EventLoopClosed`.
    pub fn close(&mut self)
        ensures
            !final(self).open_for_events,
            final(self).pending@ == old(self).pending@,
            final(self).wake_requested == old(self).wake_requested,
    {
        self.open_for_events = false;
    }
}

/// A wakeup-only proxy for callers that poll rather than block: it carries no
/// payload, only the request that the blocked loop wake up.
pub struct EventsLoopProxy {
    /// Whether the owning loop still exists.
    pub open_for_events: bool,
    /// Whether the loop must be woken.
    pub wake_requested: bool,
}

impl EventsLoopProxy {
    /// A proxy for a live loop.
    pub fn new() -> (s: Self)
        ensures
            s.open_for_events,
            !s.wake_requested,
    {
        EventsLoopProxy { open_for_events: true, wake_requested: false }
    }

    /// Requests that the blocked loop wake up. Fails exactly when the
    /// owning loop no longer exists.
    pub fn wakeup(&mut self) -> (r: Result<(), EventLoopClosed>)
        ensures
            old(self).open_for_events ==> r is Ok && final(self).wake_requested
                && final(self).open_for_events,
            !old(self).open_for_events ==> r == Err::<(), EventLoopClosed>(EventLoopClosed)
                && *final(self) == *old(self),
    {
        if self.open_for_events {
            self.wake_requested = true;
            Ok(())
        } else {
            Err(EventLoopClosed)
        }
    }

    /// The loop side: acknowledges a wakeup.
    pub fn take_wakeup(&mut self) -> (r: bool)
        ensures
            r == old(self).wake_requested,
            !final(self).wake_requested,
            final(self).open_for_events == old(self).open_for_events,
    {
        let was = self.wake_requested;
        self.wake_requested = false;
        was
    }

    /// The loop side, on teardown.
    pub fn close(&mut self)
        ensures
            !final(self).open_for_events,
            final(self).wake_requested == old(self).wake_requested,
    {
        self.open_for_events = false;
    }
}

} // verus!
