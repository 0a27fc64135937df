//! Things that are updated in four phases, frame after frame.

use vstd::prelude::*;
use crate::fallible::Fallible;

verus! {

/// One of the four steps of an update, in the order in which they run.
#[derive(Clone, Copy, Debug, PartialEq, Eq, Structural)]
pub enum Phase {
    /// Input and network are brought up to date, before any state changes.
    PreUpdate,
    /// The fixed-step update; it runs only when a fixed step is due.
    FixedUpdate,
    /// The variable-rate update.
    Update,
    /// Adjustments at the end of the frame, after all other changes.
    PostUpdate,
}

/// Something that is updated in four phases, frame after frame.
///
/// An implementation says with [`Tickable::phase`] what each phase may
/// do to it; its four methods keep to that. One that does not say it may
/// do anything.
pub trait Tickable: Fallible + Sized {
    /// Whether the phase `phase`, run on `pre` with `elapse_ns`
    /// nanoseconds since the last frame, may leave `post` and return
    /// `outcome`.
    open spec fn phase(
        pre: Self,
        phase: Phase,
        elapse_ns: u64,
        post: Self,
        outcome: Result<(), Self::Error>,
    ) -> bool {
        true
    }

    /// Prepares the frame: input, network, state to reset.
    fn pre_update(&mut self, elapse_ns: u64) -> (outcome: Result<(), Self::Error>)
        ensures
            Self::phase(*old(self), Phase::PreUpdate, elapse_ns, *final(self), outcome),
    ;

    /// Advances what moves in fixed steps.
    fn fixed_update(&mut self, elapse_ns: u64) -> (outcome: Result<(), Self::Error>)
        ensures
            Self::phase(*old(self), Phase::FixedUpdate, elapse_ns, *final(self), outcome),
    ;

    /// Advances everything else.
    fn update(&mut self, elapse_ns: u64) -> (outcome: Result<(), Self::Error>)
        ensures
            Self::phase(*old(self), Phase::Update, elapse_ns, *final(self), outcome),
    ;

    /// Finishes the frame, after all other changes.
    fn post_update(&mut self, elapse_ns: u64) -> (outcome: Result<(), Self::Error>)
        ensures
            Self::phase(*old(self), Phase::PostUpdate, elapse_ns, *final(self), outcome),
    ;
}

/// Whether running the phases `phases` in order on `pre`, each with
/// `elapse_ns`, may leave `post` and return `outcome`, with `invoked`
/// phases begun.
///
/// The first phase that fails ends the run: its error is the outcome and
/// no later phase is begun.
pub open spec fn runs<K: Tickable>(
    pre: K,
    phases: Seq<Phase>,
    elapse_ns: u64,
    post: K,
    outcome: Result<(), K::Error>,
    invoked: nat,
) -> bool
    decreases phases.len(),
{
    if phases.len() == 0 {
        post == pre && outcome is Ok && invoked == 0
    } else {
        exists|mid: K, first: Result<(), K::Error>|
            {
                &&& #[trigger] K::phase(pre, phases[0], elapse_ns, mid, first)
                &&& invoked >= 1
                &&& if first is Err {
                    post == mid && outcome == first && invoked == 1
                } else {
                    runs(mid, phases.drop_first(), elapse_ns, post, outcome, (invoked - 1) as nat)
                }
            }
    }
}

/// The phases of one frame: all four where a fixed step is due, else all
/// but the fixed update.
pub open spec fn frame_phases(fixed_step_due: bool) -> Seq<Phase> {
    if fixed_step_due {
        seq![Phase::PreUpdate, Phase::FixedUpdate, Phase::Update, Phase::PostUpdate]
    } else {
        seq![Phase::PreUpdate, Phase::Update, Phase::PostUpdate]
    }
}

} // verus!
