//! The draw-and-wait loop, as a machine.
//!
//! The loop itself does no input or output. It says what is to be done next
//! (draw a frame, wait for an event, return), is told how that went, and
//! moves on. Whoever owns the terminal does the work in between.

use vstd::prelude::*;
use crate::event::InputEvent;

verus! {

/// The two states of the loop.
#[derive(Clone, Copy, Debug, PartialEq, Eq)]
pub enum LoopState {
    Running,
    Terminated,
}

/// What the loop asks for next.
#[derive(Clone, Copy, Debug, PartialEq, Eq)]
pub enum LoopAction {
    /// Draw one frame.
    Draw,
    /// Wait, however long it takes, for the next input event.
    ReadEvent,
    /// Nothing more: the loop has ended and its result can be taken.
    Return,
}

/// How the last action went.
#[derive(Debug, PartialEq, Eq)]
pub enum LoopOutcome<E> {
    /// The frame was drawn.
    Drawn,
    /// This event arrived.
    Received(InputEvent),
    /// Drawing or reading failed with this error.
    Failed(E),
}

/// The loop: a frame is due, or an event is awaited, or it has ended with a
/// result.
#[derive(Debug, PartialEq, Eq)]
pub enum RenderLoop<E> {
    Drawing,
    Waiting,
    Terminated(Result<(), E>),
}

impl<E> LoopOutcome<E> {
    /// Whether the outcome is the arrival of the quit key.
    pub open spec fn is_quit(self) -> bool {
        match self {
            LoopOutcome::Received(event) => event.is_quit(),
            _ => false,
        }
    }
}

impl<E> RenderLoop<E> {
    /// Which of its two states the loop is in.
    pub open spec fn spec_state(self) -> LoopState {
        match self {
            RenderLoop::Terminated(_) => LoopState::Terminated,
            _ => LoopState::Running,
        }
    }

    /// What the loop asks for in this state.
    pub open spec fn spec_action(self) -> LoopAction {
        match self {
            RenderLoop::Drawing => LoopAction::Draw,
            RenderLoop::Waiting => LoopAction::ReadEvent,
            RenderLoop::Terminated(_) => LoopAction::Return,
        }
    }

    /// The loop after `outcome`. A failure of the pending action ends the
    /// loop with that error; a drawn frame is followed by a wait; the quit
    /// key ends the loop with success and any other event asks for the next
    /// frame. An outcome that does not answer the pending action changes
    /// nothing, and neither does anything once the loop has ended.
    pub open spec fn step(self, outcome: LoopOutcome<E>) -> Self {
        match self {
            RenderLoop::Drawing => match outcome {
                LoopOutcome::Drawn => RenderLoop::Waiting,
                LoopOutcome::Received(_) => RenderLoop::Drawing,
                LoopOutcome::Failed(e) => RenderLoop::Terminated(Err(e)),
            },
            RenderLoop::Waiting => match outcome {
                LoopOutcome::Drawn => RenderLoop::Waiting,
                LoopOutcome::Received(event) => if event.is_quit() {
                    RenderLoop::Terminated(Ok(()))
                } else {
                    RenderLoop::Drawing
                },
                LoopOutcome::Failed(e) => RenderLoop::Terminated(Err(e)),
            },
            RenderLoop::Terminated(r) => RenderLoop::Terminated(r),
        }
    }

    /// The loop after each outcome of `script` in turn.
    pub open spec fn run(self, script: Seq<LoopOutcome<E>>) -> Self
        decreases script.len(),
    {
        if script.len() == 0 {
            self
        } else {
            self.run(script.drop_last()).step(script.last())
        }
    }

    /// The loop after it has drawn a frame for, and then received, each event
    /// of `events` in turn, nothing failing.
    pub open spec fn after_events(events: Seq<InputEvent>) -> Self
        decreases events.len(),
    {
        if events.len() == 0 {
            RenderLoop::Drawing
        } else {
            Self::after_events(events.drop_last()).step(LoopOutcome::Drawn).step(
                LoopOutcome::Received(events.last()),
            )
        }
    }

    /// A loop that has not drawn anything yet.
    pub fn new() -> (r: Self)
        ensures
            r == RenderLoop::<E>::Drawing,
    {
        RenderLoop::Drawing
    }

    /// Which of its two states the loop is in.
    pub fn state(&self) -> (s: LoopState)
        ensures
            s == self.spec_state(),
    {
        match self {
            RenderLoop::Terminated(_) => LoopState::Terminated,
            _ => LoopState::Running,
        }
    }

    /// What is to be done next.
    pub fn action(&self) -> (a: LoopAction)
        ensures
            a == self.spec_action(),
    {
        match self {
            RenderLoop::Drawing => LoopAction::Draw,
            RenderLoop::Waiting => LoopAction::ReadEvent,
            RenderLoop::Terminated(_) => LoopAction::Return,
        }
    }

    /// Moves the loop on, given how its last action went.
    pub fn advance(self, outcome: LoopOutcome<E>) -> (r: Self)
        ensures
            r == self.step(outcome),
    {
        match self {
            RenderLoop::Drawing => match outcome {
                LoopOutcome::Drawn => RenderLoop::Waiting,
                LoopOutcome::Received(_) => RenderLoop::Drawing,
                LoopOutcome::Failed(e) => RenderLoop::Terminated(Err(e)),
            },
            RenderLoop::Waiting => match outcome {
                LoopOutcome::Drawn => RenderLoop::Waiting,
                LoopOutcome::Received(event) => if event.quits() {
                    RenderLoop::Terminated(Ok(()))
                } else {
                    RenderLoop::Drawing
                },
                LoopOutcome::Failed(e) => RenderLoop::Terminated(Err(e)),
            },
            RenderLoop::Terminated(r) => RenderLoop::Terminated(r),
        }
    }

    /// The result of the loop, once it has ended.
    pub fn result(self) -> (r: Option<Result<(), E>>)
        ensures
            r == match self {
                RenderLoop::Terminated(res) => Some(res),
                _ => None,
            },
    {
        match self {
            RenderLoop::Terminated(res) => Some(res),
            _ => None,
        }
    }
}

/// Whether no outcome of `script` is a failure or the quit key.
pub open spec fn uneventful<E>(script: Seq<LoopOutcome<E>>) -> bool {
    forall|i: int|
        0 <= i < script.len() ==> match #[trigger] script[i] {
            LoopOutcome::Drawn => true,
            LoopOutcome::Received(event) => !event.is_quit(),
            LoopOutcome::Failed(_) => false,
        }
}

/// A running loop ends at one step exactly when the pending action fails or
/// the awaited event is the quit key, and it ends with success exactly when
/// it is the quit key that ends it.
pub proof fn lemma_step_ends_loop<E>(state: RenderLoop<E>, outcome: LoopOutcome<E>)
    requires
        state.spec_state() == LoopState::Running,
    ensures
        state.step(outcome).spec_state() == LoopState::Terminated <==> (outcome is Failed || (state
            == RenderLoop::<E>::Waiting && outcome.is_quit())),
        state.step(outcome) == RenderLoop::<E>::Terminated(Ok(())) <==> (state == RenderLoop::<
            E,
        >::Waiting && outcome.is_quit()),
        outcome matches LoopOutcome::Failed(e) ==> state.step(outcome) == RenderLoop::<
            E,
        >::Terminated(Err(e)),
{
}

/// Once the loop has ended, nothing moves it: its result stays what it was.
pub proof fn lemma_terminated_is_absorbing<E>(state: RenderLoop<E>, script: Seq<LoopOutcome<E>>)
    requires
        state.spec_state() == LoopState::Terminated,
    ensures
        state.run(script) == state,
    decreases script.len(),
{
    if script.len() > 0 {
        lemma_terminated_is_absorbing(state, script.drop_last());
    }
}

/// However many frames are drawn and whatever events arrive, of whatever
/// kind, a running loop keeps running as long as nothing fails and no event
/// is the quit key.
pub proof fn lemma_runs_while_uneventful<E>(state: RenderLoop<E>, script: Seq<LoopOutcome<E>>)
    requires
        state.spec_state() == LoopState::Running,
        uneventful(script),
    ensures
        state.run(script).spec_state() == LoopState::Running,
    decreases script.len(),
{
    if script.len() > 0 {
        let before = script.drop_last();
        assert forall|i: int| 0 <= i < before.len() implies match #[trigger] before[i] {
            LoopOutcome::Drawn => true,
            LoopOutcome::Received(event) => !event.is_quit(),
            LoopOutcome::Failed(_) => false,
        } by {
            assert(before[i] == script[i]);
        }
        lemma_runs_while_uneventful(state, before);
        assert(script.last() == script[script.len() - 1]);
    }
}

/// A loop that started running and has ended with success was sent the quit
/// key; one that has ended with an error was told of that very failure.
pub proof fn lemma_ended_for_a_reason<E>(state: RenderLoop<E>, script: Seq<LoopOutcome<E>>)
    requires
        state.spec_state() == LoopState::Running,
    ensures
        state.run(script) == RenderLoop::<E>::Terminated(Ok(())) ==> exists|i: int|
            0 <= i < script.len() && (#[trigger] script[i]).is_quit(),
        forall|e: E|
            state.run(script) == RenderLoop::<E>::Terminated(Err(e)) ==> exists|i: int|
                0 <= i < script.len() && #[trigger] script[i] == LoopOutcome::<E>::Failed(e),
    decreases script.len(),
{
    if script.len() > 0 {
        let before = script.drop_last();
        let last = script.len() - 1;
        lemma_ended_for_a_reason(state, before);
        let earlier = state.run(before);
        assert(state.run(script) == earlier.step(script[last]));
        if state.run(script) == RenderLoop::<E>::Terminated(Ok(())) {
            if earlier.spec_state() == LoopState::Terminated {
                let i = choose|i: int| 0 <= i < before.len() && (#[trigger] before[i]).is_quit();
                assert(script[i] == before[i]);
            } else {
                assert(script[last].is_quit());
            }
        }
        assert forall|e: E|
            state.run(script) == RenderLoop::<E>::Terminated(Err(e)) implies exists|i: int|
            0 <= i < script.len() && #[trigger] script[i] == LoopOutcome::<E>::Failed(e) by {
            if earlier.spec_state() == LoopState::Terminated {
                let i = choose|i: int|
                    0 <= i < before.len() && #[trigger] before[i] == LoopOutcome::<E>::Failed(e);
                assert(script[i] == before[i]);
            } else {
                assert(script[last] == LoopOutcome::<E>::Failed(e));
            }
        }
    }
}

/// With every frame drawn and every read answered, the loop is still running
/// exactly when none of the events was the quit key, and has otherwise ended
/// with success.
pub proof fn lemma_quit_key_alone_ends_loop<E>(events: Seq<InputEvent>)
    ensures
        (forall|i: int| 0 <= i < events.len() ==> !(#[trigger] events[i]).is_quit())
            ==> RenderLoop::<E>::after_events(events) == RenderLoop::<E>::Drawing,
        (exists|i: int| 0 <= i < events.len() && (#[trigger] events[i]).is_quit())
            ==> RenderLoop::<E>::after_events(events) == RenderLoop::<E>::Terminated(Ok(())),
    decreases events.len(),
{
    if events.len() > 0 {
        let before = events.drop_last();
        let last = events.len() - 1;
        lemma_quit_key_alone_ends_loop::<E>(before);
        assert(forall|i: int| 0 <= i < before.len() ==> before[i] == events[i]);
        if exists|i: int| 0 <= i < before.len() && (#[trigger] before[i]).is_quit() {
        } else if events[last].is_quit() {
        } else {
            assert forall|i: int| 0 <= i < events.len() implies !(#[trigger] events[i]).is_quit() by {
                if i < last {
                    assert(before[i] == events[i]);
                }
            }
        }
    }
}

/// Drawing again with no event in between changes nothing: the loop is
/// where the first draw left it, and holds nothing that a draw could alter.
pub proof fn lemma_redraw_is_idempotent<E>(state: RenderLoop<E>)
    ensures
        state.step(LoopOutcome::Drawn).step(LoopOutcome::Drawn) == state.step(LoopOutcome::Drawn),
{
}

} // verus!
