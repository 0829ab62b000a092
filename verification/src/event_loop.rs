//! The event loop's control-flow state machine.
//!
//! Before each iteration the loop inspects the control-flow value the
//! application callback last wrote and decides how to wait for the next
//! host notification: busy-poll, block indefinitely, block with a deadline,
//! or stop. `Exit` is terminal: once observed at a wait-decision point the
//! loop emits the final `LoopDestroyed` teardown and returns — no further
//! event batch is ever dispatched. The host-facing runner performs the
//! actual waiting and dispatching; the decisions are made here.

use vstd::prelude::*;

use crate::event::{ElementState, VirtualKeyCode, WindowEvent};

verus! {

/// How the loop blocks between iterations. Deadlines are in milliseconds of
/// host monotonic time.
#[derive(Clone, Copy, Debug, PartialEq, Eq, Structural)]
pub enum ControlFlow {
    /// Run the next iteration immediately.
    Poll,
    /// Block until a host notification arrives.
    Wait,
    /// Block until a notification arrives or the deadline passes.
    WaitUntil(u64),
    /// Stop the loop.
    Exit,
}

/// What the runner does before the next batch.
#[derive(Clone, Copy, Debug, PartialEq, Eq, Structural)]
pub enum WaitDecision {
    /// Do not block; poll the host once.
    PollNow,
    /// Block until a host notification arrives.
    WaitForNotification,
    /// Block until a notification arrives or the deadline (milliseconds)
    /// passes, then synthesize a timeout wake.
    WaitWithDeadline(u64),
    /// Do not wait: the loop is stopping.
    StopLoop,
}

/// The wait decision each control-flow value dictates.
pub open spec fn decision_of(cf: ControlFlow) -> WaitDecision {
    match cf {
        ControlFlow::Poll => WaitDecision::PollNow,
        ControlFlow::Wait => WaitDecision::WaitForNotification,
        ControlFlow::WaitUntil(deadline) => WaitDecision::WaitWithDeadline(deadline),
        ControlFlow::Exit => WaitDecision::StopLoop,
    }
}

/// Decide how to wait for the next host notification.
pub fn decide_wait(cf: &ControlFlow) -> (d: WaitDecision)
    ensures
        d == decision_of(*cf),
{
    match *cf {
        ControlFlow::Poll => WaitDecision::PollNow,
        ControlFlow::Wait => WaitDecision::WaitForNotification,
        ControlFlow::WaitUntil(deadline) => WaitDecision::WaitWithDeadline(deadline),
        ControlFlow::Exit => WaitDecision::StopLoop,
    }
}

/// Whether the loop is still iterating or has returned.
#[derive(Clone, Copy, Debug, PartialEq, Eq, Structural)]
pub enum LoopPhase {
    /// The loop is running and will reach another wait-decision point.
    Active,
    /// The loop has returned; nothing further happens.
    Finished,
}

/// The loop-facing state: the current control-flow value and whether the
/// loop is still running.
#[derive(Clone, Copy, Debug, PartialEq, Eq, Structural)]
pub struct EventLoopState {
    pub control_flow: ControlFlow,
    pub phase: LoopPhase,
}

/// What one wait-decision point tells the runner to do.
#[derive(Clone, Copy, Debug, PartialEq, Eq, Structural)]
pub enum LoopAction {
    /// Wait as decided, then dispatch one batch: `NewEvents`, the pending
    /// window, device and user events, `MainEventsCleared`.
    DispatchBatch(WaitDecision),
    /// Dispatch the final `LoopDestroyed` teardown event and return.
    EmitLoopDestroyed,
    /// The loop has already returned.
    AlreadyFinished,
}

/// The action a wait-decision point takes, from the state it observes.
pub open spec fn action_of(s: EventLoopState) -> LoopAction {
    if s.phase == LoopPhase::Finished {
        LoopAction::AlreadyFinished
    } else if s.control_flow == ControlFlow::Exit {
        LoopAction::EmitLoopDestroyed
    } else {
        LoopAction::DispatchBatch(decision_of(s.control_flow))
    }
}

/// The state a wait-decision point leaves behind.
pub open spec fn observe_spec(s: EventLoopState) -> EventLoopState {
    if s.phase == LoopPhase::Finished {
        s
    } else if s.control_flow == ControlFlow::Exit {
        EventLoopState { phase: LoopPhase::Finished, ..s }
    } else {
        s
    }
}

impl EventLoopState {
    /// A freshly constructed loop: active, initially polling.
    pub fn new() -> (s: EventLoopState)
        ensures
            s == (EventLoopState { control_flow: ControlFlow::Poll, phase: LoopPhase::Active }),
    {
        EventLoopState { control_flow: ControlFlow::Poll, phase: LoopPhase::Active }
    }

    /// One wait-decision point: observe the control-flow value the callback
    /// last wrote and tell the runner what to do next. Observing `Exit`
    /// finishes the loop.
    pub fn next_action(&mut self) -> (a: LoopAction)
        ensures
            a == action_of(*old(self)),
            *final(self) == observe_spec(*old(self)),
    {
        match self.phase {
            LoopPhase::Finished => LoopAction::AlreadyFinished,
            LoopPhase::Active => {
                match self.control_flow {
                    ControlFlow::Exit => {
                        self.phase = LoopPhase::Finished;
                        LoopAction::EmitLoopDestroyed
                    },
                    _ => LoopAction::DispatchBatch(decide_wait(&self.control_flow)),
                }
            },
        }
    }

    /// The write the application callback makes through its scoped mutable
    /// view of the control flow. It takes effect at the next wait-decision
    /// point, not retroactively.
    pub fn set_control_flow(&mut self, cf: ControlFlow)
        ensures
            *final(self) == (EventLoopState { control_flow: cf, ..*old(self) }),
    {
        self.control_flow = cf;
    }
}

/// The state after running from `s` through one wait-decision point per
/// entry of `writes`: whenever a batch is dispatched, the callback replies
/// with the next control-flow write; after `EmitLoopDestroyed` or on a
/// finished loop no callback runs and no write is observed.
pub open spec fn run_from(s: EventLoopState, writes: Seq<ControlFlow>) -> EventLoopState
    decreases writes.len(),
{
    if writes.len() == 0 {
        s
    } else {
        let observed = observe_spec(s);
        let after_callback = if action_of(s) is DispatchBatch {
            EventLoopState { control_flow: writes[0], ..observed }
        } else {
            observed
        };
        run_from(after_callback, writes.skip(1))
    }
}

/// The actions the loop takes running from `s` through one wait-decision
/// point per entry of `writes`, in order.
pub open spec fn actions_from(s: EventLoopState, writes: Seq<ControlFlow>) -> Seq<LoopAction>
    decreases writes.len(),
{
    if writes.len() == 0 {
        Seq::empty()
    } else {
        let observed = observe_spec(s);
        let after_callback = if action_of(s) is DispatchBatch {
            EventLoopState { control_flow: writes[0], ..observed }
        } else {
            observed
        };
        seq![action_of(s)] + actions_from(after_callback, writes.skip(1))
    }
}

/// Drive the loop through one wait-decision point per scripted write:
/// whenever a batch is dispatched, the callback's write is applied; the
/// actions taken and the state left behind are exactly those of the trace.
pub fn run_scripted(s: &mut EventLoopState, writes: &Vec<ControlFlow>) -> (actions: Vec<
    LoopAction,
>)
    ensures
        *final(s) == run_from(*old(s), writes@),
        actions@ == actions_from(*old(s), writes@),
{
    let n = writes.len();
    let mut actions: Vec<LoopAction> = Vec::new();
    let mut i: usize = 0;
    proof {
        assert(writes@.skip(0) =~= writes@);
        assert(Seq::<LoopAction>::empty() + actions_from(*s, writes@) =~= actions_from(
            *s,
            writes@,
        ));
    }
    while i < n
        invariant
            n == writes@.len(),
            i <= n,
            run_from(*old(s), writes@) == run_from(*s, writes@.skip(i as int)),
            actions_from(*old(s), writes@) == actions@ + actions_from(*s, writes@.skip(i as int)),
        decreases n - i,
    {
        let ghost pre = *s;
        let ghost rest = writes@.skip(i as int);
        let ghost done = actions@;
        let action = s.next_action();
        match action {
            LoopAction::DispatchBatch(_) => {
                s.set_control_flow(writes[i]);
            },
            _ => {},
        }
        actions.push(action);
        proof {
            assert(rest[0] == writes@[i as int]);
            assert(rest.skip(1) =~= writes@.skip(i + 1));
            assert(run_from(pre, rest) == run_from(*s, writes@.skip(i + 1)));
            assert(actions_from(pre, rest) == seq![action_of(pre)] + actions_from(
                *s,
                writes@.skip(i + 1),
            ));
            assert(actions@ =~= done + seq![action_of(pre)]);
            assert(done + (seq![action_of(pre)] + actions_from(*s, writes@.skip(i + 1))) =~= (done
                + seq![action_of(pre)]) + actions_from(*s, writes@.skip(i + 1)));
        }
        i = i + 1;
    }
    proof {
        assert(writes@.skip(n as int) =~= Seq::<ControlFlow>::empty());
        assert(actions@ + Seq::<LoopAction>::empty() =~= actions@);
    }
    actions
}

/// A finished loop stays finished, whatever the callback would have written.
pub proof fn lemma_finished_absorbing(s: EventLoopState, writes: Seq<ControlFlow>)
    requires
        s.phase == LoopPhase::Finished,
    ensures
        run_from(s, writes) == s,
    decreases writes.len(),
{
    if writes.len() > 0 {
        lemma_finished_absorbing(s, writes.skip(1));
    }
}

/// Law: `Exit` is terminal. From any state in which the loop is about to
/// observe `Exit` — or has already returned — no sequence of further
/// callback writes leads to another dispatched event batch: the loop emits
/// the single `LoopDestroyed` teardown and thereafter only reports that it
/// has finished.
pub proof fn lemma_exit_is_terminal(s: EventLoopState, writes: Seq<ControlFlow>)
    requires
        s.control_flow == ControlFlow::Exit || s.phase == LoopPhase::Finished,
    ensures
        !(action_of(run_from(s, writes)) is DispatchBatch),
        action_of(run_from(s, writes)) == if s.phase == LoopPhase::Finished || writes.len() > 0 {
            LoopAction::AlreadyFinished
        } else {
            LoopAction::EmitLoopDestroyed
        },
{
    if s.phase == LoopPhase::Finished {
        lemma_finished_absorbing(s, writes);
    } else if writes.len() > 0 {
        let observed = observe_spec(s);
        assert(observed.phase == LoopPhase::Finished);
        lemma_finished_absorbing(observed, writes.skip(1));
    }
}

/// Law: once `Exit` is about to be observed — or the loop has already
/// returned — no action anywhere in any further trace dispatches an event
/// batch.
pub proof fn lemma_exit_trace_never_dispatches(s: EventLoopState, writes: Seq<ControlFlow>)
    requires
        s.control_flow == ControlFlow::Exit || s.phase == LoopPhase::Finished,
    ensures
        forall|j: int| 0 <= j < actions_from(s, writes).len() ==> !(#[trigger] actions_from(
            s,
            writes,
        )[j] is DispatchBatch),
    decreases writes.len(),
{
    if writes.len() > 0 {
        let observed = observe_spec(s);
        lemma_exit_trace_never_dispatches(observed, writes.skip(1));
        assert(actions_from(s, writes) == seq![action_of(s)] + actions_from(
            observed,
            writes.skip(1),
        ));
        assert forall|j: int| 0 <= j < actions_from(s, writes).len() implies !(
        #[trigger] actions_from(s, writes)[j] is DispatchBatch) by {
            if j == 0 {
                assert(actions_from(s, writes)[0] == action_of(s));
            } else {
                assert(actions_from(s, writes)[j] == actions_from(observed, writes.skip(1))[j
                    - 1]);
            }
        }
    }
}

/// `e` is a release of the Escape key.
pub open spec fn escape_release(e: WindowEvent) -> bool {
    e matches WindowEvent::KeyboardInput {
        state: ElementState::Released,
        virtual_keycode: Some(VirtualKeyCode::Escape),
        ..
    }
}

/// The reference application's policy: a released Escape key requests exit;
/// every other window event — including a pressed Escape — leaves the
/// control flow as it was.
pub fn escape_requests_exit(event: &WindowEvent, control_flow: &mut ControlFlow)
    ensures
        escape_release(*event) ==> *final(control_flow) == ControlFlow::Exit,
        !escape_release(*event) ==> *final(control_flow) == *old(control_flow),
{
    match event {
        WindowEvent::KeyboardInput {
            state: ElementState::Released,
            virtual_keycode: Some(VirtualKeyCode::Escape),
            scancode: _,
        } => {
            *control_flow = ControlFlow::Exit;
        },
        _ => {},
    }
}

} // verus!
