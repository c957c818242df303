//! The per-toast lifecycle coordinator: the state machine that takes one
//! toast from visible through clearing to removed. The surrounding runtime
//! owns the timers; it reports each elapsed wait or observed flag flip as an
//! event, and performs the wait the returned action asks for. Every
//! decision — which event moves the state, when the clear flag is set, when
//! the registry's `remove` is called — is made here, against the registry.

use vstd::prelude::*;

use crate::toast::data::ToastId;
use crate::toaster::context::{
    found_toast, remove_model, signal_model, ToasterContext, ToasterModel,
};

verus! {

/// Duration of the exit animation, in milliseconds: the wait between a
/// toast's clear flag flipping and its removal from the registry,
/// independent of the expiry duration.
pub const EXIT_ANIMATION_MS: u32 = 200;

/// States of one toast's lifecycle, in the order they are passed through.
/// A toast without an expiry stays `Visible` until an external clear or
/// dismiss flips its flag; it never leaves on its own.
#[derive(Clone, Copy, PartialEq, Eq, Structural, Debug)]
pub enum LifecycleState {
    Visible,
    Clearing,
    Removed,
}

/// Events the coordinator reacts to, each reported by the runtime that owns
/// the timers and watches the clear flag.
#[derive(Clone, Copy, PartialEq, Eq, Structural, Debug)]
pub enum LifecycleEvent {
    /// The toast's expiry duration has elapsed.
    ExpiryElapsed,
    /// The toast's clear flag has been observed true.
    ClearSignalSet,
    /// The exit-animation wait has elapsed.
    ExitElapsed,
}

/// What the coordinator asks of the runtime after an event.
#[derive(Clone, Copy, PartialEq, Eq, Structural, Debug)]
pub enum LifecycleAction {
    /// The clear flag was set: begin the exit transition's rendering.
    SignalledClear,
    /// Wait out the exit animation (`EXIT_ANIMATION_MS`), then report
    /// `ExitElapsed`.
    StartExitWait,
    /// The toast was removed from the registry; the coordinator is done.
    RemovedToast,
    /// Nothing to do: a stale timer or a repeated signal lost the race.
    Stay,
}

/// Whether the toast carrying `id` is active with its clear flag set.
pub open spec fn signal_is_set(m: ToasterModel, id: ToastId) -> bool {
    match found_toast(m, id) {
        Some(t) => t.clear_signal,
        None => false,
    }
}

/// The transition table of the lifecycle: from a state, an event, and the
/// observed clear flag, to the next state and the action taken.
///
/// The expiry timer only sets the flag — and only if nothing set it first:
/// whichever of expiry, dismiss and bulk clear comes first is authoritative,
/// the others find the flag set and stay. The move to `Clearing` happens on
/// observing the flag, so every exit takes the same animation path; the move
/// to `Removed` happens once the exit wait has elapsed, exactly once.
pub open spec fn spec_step(
    state: LifecycleState,
    event: LifecycleEvent,
    signal_set: bool,
) -> (LifecycleState, LifecycleAction) {
    match (state, event) {
        (LifecycleState::Visible, LifecycleEvent::ExpiryElapsed) => if signal_set {
            (LifecycleState::Visible, LifecycleAction::Stay)
        } else {
            (LifecycleState::Visible, LifecycleAction::SignalledClear)
        },
        (LifecycleState::Visible, LifecycleEvent::ClearSignalSet) => (
            LifecycleState::Clearing,
            LifecycleAction::StartExitWait,
        ),
        (LifecycleState::Clearing, LifecycleEvent::ExitElapsed) => (
            LifecycleState::Removed,
            LifecycleAction::RemovedToast,
        ),
        _ => (state, LifecycleAction::Stay),
    }
}

/// What an action does to the registry: setting the clear flag of the
/// coordinator's toast, removing it, or nothing.
pub open spec fn apply_action(
    m: ToasterModel,
    action: LifecycleAction,
    id: ToastId,
) -> ToasterModel {
    match action {
        LifecycleAction::SignalledClear => signal_model(m, id),
        LifecycleAction::RemovedToast => remove_model(m, id),
        LifecycleAction::StartExitWait => m,
        LifecycleAction::Stay => m,
    }
}

/// Rank of a state in the lifecycle's one-way order.
pub open spec fn state_rank(state: LifecycleState) -> int {
    match state {
        LifecycleState::Visible => 0,
        LifecycleState::Clearing => 1,
        LifecycleState::Removed => 2,
    }
}

/// The lifecycle never moves backward: whatever the event and the flag, a
/// step keeps or advances the state's rank — each toast's
/// visible, clearing, removed sequence is monotonic.
pub proof fn lemma_lifecycle_monotonic(
    state: LifecycleState,
    event: LifecycleEvent,
    signal_set: bool,
)
    ensures
        state_rank(spec_step(state, event, signal_set).0) >= state_rank(state),
{
}

/// Removal happens exactly once: only the step out of `Clearing` removes
/// the toast, it lands in `Removed`, and `Removed` is terminal — no further
/// event moves the state or touches the registry.
pub proof fn lemma_remove_exactly_once(
    state: LifecycleState,
    event: LifecycleEvent,
    signal_set: bool,
)
    ensures
        spec_step(state, event, signal_set).1 == LifecycleAction::RemovedToast ==> (state
            == LifecycleState::Clearing && spec_step(state, event, signal_set).0
            == LifecycleState::Removed),
        state == LifecycleState::Removed ==> (spec_step(state, event, signal_set).0
            == LifecycleState::Removed && spec_step(state, event, signal_set).1
            == LifecycleAction::Stay),
{
}

/// The per-toast coordinator: the identifier of the toast it drives, and
/// where in the lifecycle that toast stands.
#[derive(Clone, Copy, PartialEq, Eq, Structural, Debug)]
pub struct LifecycleCoordinator {
    pub id: ToastId,
    pub state: LifecycleState,
}

impl LifecycleCoordinator {
    /// A coordinator for a freshly enqueued toast: its lifecycle starts
    /// `Visible`.
    pub fn new(id: ToastId) -> (r: Self)
        ensures
            r.id == id,
            r.state == LifecycleState::Visible,
    {
        LifecycleCoordinator { id, state: LifecycleState::Visible }
    }

    /// Reacts to one event: reads the toast's clear flag, takes the step
    /// the transition table gives, performs its action on the registry, and
    /// returns the action for the runtime to act on (starting the exit
    /// wait is the runtime's part).
    pub fn handle(&mut self, event: LifecycleEvent, toaster: &mut ToasterContext) -> (action:
        LifecycleAction)
        requires
            old(toaster)@.wf(),
        ensures
            final(toaster)@.wf(),
            final(self).id == old(self).id,
            ({
                let step = spec_step(old(self).state, event, signal_is_set(old(toaster)@, old(self).id));
                &&& final(self).state == step.0
                &&& action == step.1
                &&& final(toaster)@ == apply_action(old(toaster)@, step.1, old(self).id)
            }),
    {
        let signal_set = match toaster.clear_signal(self.id) {
            Some(b) => b,
            None => false,
        };
        match (self.state, event) {
            (LifecycleState::Visible, LifecycleEvent::ExpiryElapsed) => {
                if signal_set {
                    LifecycleAction::Stay
                } else {
                    toaster.set_clear_signal(self.id);
                    LifecycleAction::SignalledClear
                }
            },
            (LifecycleState::Visible, LifecycleEvent::ClearSignalSet) => {
                self.state = LifecycleState::Clearing;
                LifecycleAction::StartExitWait
            },
            (LifecycleState::Clearing, LifecycleEvent::ExitElapsed) => {
                self.state = LifecycleState::Removed;
                toaster.remove(self.id);
                LifecycleAction::RemovedToast
            },
            _ => LifecycleAction::Stay,
        }
    }
}

} // verus!
