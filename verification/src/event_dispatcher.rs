//! Offering an event to a chain of handlers, the first of which that
//! consumes it ends the chain.

use vstd::prelude::*;
use crate::fallible::Fallible;

verus! {

/// Something that hands out the events that have arrived since it was
/// last asked.
pub trait EventSource<E> {
    /// The events that have arrived, in the order of their arrival. It
    /// does not wait for one.
    fn poll(&mut self) -> &[E];
}

/// Something that reacts to events.
///
/// An implementation says with [`EventHandler::handles`] what an event
/// may do to it; [`EventHandler::handle`] keeps to that. One that does
/// not say it may do anything.
pub trait EventHandler<E>: Fallible + Sized {
    /// Whether `pre`, given `event`, may become `post` and return
    /// `outcome`.
    open spec fn handles(pre: Self, event: E, post: Self, outcome: Result<bool, Self::Error>) -> bool {
        true
    }

    /// Reacts to `event`. It returns `true` where it has consumed the
    /// event, `false` to pass it on to the next handler.
    fn handle(&mut self, event: &E) -> (outcome: Result<bool, Self::Error>)
        ensures
            Self::handles(*old(self), *event, *final(self), outcome),
    ;
}

/// Whether offering `event` to the handlers `pre`, in order, may leave
/// them as `post` and return `outcome`.
///
/// The handlers are invoked in order up to the one at `stop`: each
/// handler before it declines, the one at `stop` consumes the event or
/// fails, and none after it is invoked. Where every handler declines,
/// `stop` is their number and the event is not handled.
pub open spec fn fired_up_to<E, H: EventHandler<E>>(
    pre: Seq<H>,
    event: E,
    post: Seq<H>,
    outcome: Result<bool, H::Error>,
    stop: int,
) -> bool {
    &&& post.len() == pre.len()
    &&& 0 <= stop <= pre.len()
    &&& forall|i: int|
        0 <= i < stop ==> #[trigger] H::handles(pre[i], event, post[i], Ok::<bool, H::Error>(false))
    &&& forall|i: int| stop < i < pre.len() ==> #[trigger] post[i] == pre[i]
    &&& if stop == pre.len() {
        outcome == Ok::<bool, H::Error>(false)
    } else {
        &&& H::handles(pre[stop], event, post[stop], outcome)
        &&& outcome != Ok::<bool, H::Error>(false)
    }
}

/// Whether offering `event` to the handlers `pre`, in order, may leave
/// them as `post` and return `outcome`.
pub open spec fn fired<E, H: EventHandler<E>>(
    pre: Seq<H>,
    event: E,
    post: Seq<H>,
    outcome: Result<bool, H::Error>,
) -> bool {
    exists|stop: int| #[trigger] fired_up_to(pre, event, post, outcome, stop)
}

/// Something that offers an event to a chain of handlers.
pub trait EventDispatcher<E> {
    /// Offers `event` to the handlers in order, up to the first that
    /// consumes it or fails. It returns whether a handler consumed the
    /// event, or the error of the handler that failed.
    fn fire<H: EventHandler<E>>(&self, handlers: &mut Vec<H>, event: &E) -> (outcome: Result<
        bool,
        H::Error,
    >)
        ensures
            fired(old(handlers)@, *event, final(handlers)@, outcome),
    ;
}

/// The dispatcher that keeps nothing between events.
#[derive(Debug, Clone, Copy, PartialEq, Eq, Structural)]
pub struct StdEventDispatcher {}

impl StdEventDispatcher {
    /// A dispatcher.
    pub fn new() -> StdEventDispatcher {
        StdEventDispatcher {  }
    }
}

impl Default for StdEventDispatcher {
    fn default() -> StdEventDispatcher {
        StdEventDispatcher {  }
    }
}

impl<E> EventDispatcher<E> for StdEventDispatcher {
    fn fire<H: EventHandler<E>>(&self, handlers: &mut Vec<H>, event: &E) -> (outcome: Result<
        bool,
        H::Error,
    >) {
        let n = handlers.len();
        let mut i: usize = 0;
        while i < n
            invariant
                i <= n,
                handlers.len() == n,
                n == old(handlers).len(),
                forall|j: int|
                    0 <= j < i ==> #[trigger] H::handles(
                        old(handlers)@[j],
                        *event,
                        handlers@[j],
                        Ok::<bool, H::Error>(false),
                    ),
                forall|j: int| i <= j < n ==> handlers@[j] == old(handlers)@[j],
            decreases n - i,
        {
            let outcome = handlers[i].handle(event);
            match outcome {
                Ok(false) => {},
                _ => {
                    proof {
                        assert(fired_up_to(
                            old(handlers)@,
                            *event,
                            handlers@,
                            outcome,
                            i as int,
                        ));
                    }
                    return outcome;
                },
            }
            i += 1;
        }
        proof {
            assert(fired_up_to(
                old(handlers)@,
                *event,
                handlers@,
                Ok::<bool, H::Error>(false),
                n as int,
            ));
        }
        Ok(false)
    }
}

/// Where the first handler declines and the second consumes, both are
/// invoked and the event is handled.
///
/// "Declines" and "consumes" say what the handler can do with this
/// event at all: every outcome that it allows.
pub proof fn lemma_second_handler_consumes<E, H: EventHandler<E>>(
    pre: Seq<H>,
    event: E,
    post: Seq<H>,
    outcome: Result<bool, H::Error>,
)
    requires
        pre.len() == 2,
        fired(pre, event, post, outcome),
        forall|p: H, r: Result<bool, H::Error>| #[trigger]
            H::handles(pre[0], event, p, r) ==> r == Ok::<bool, H::Error>(false),
        forall|p: H, r: Result<bool, H::Error>| #[trigger]
            H::handles(pre[1], event, p, r) ==> r == Ok::<bool, H::Error>(true),
    ensures
        outcome == Ok::<bool, H::Error>(true),
        H::handles(pre[0], event, post[0], Ok::<bool, H::Error>(false)),
        H::handles(pre[1], event, post[1], Ok::<bool, H::Error>(true)),
{
    let stop = choose|stop: int| #[trigger] fired_up_to(pre, event, post, outcome, stop);
    if stop == 2 {
        assert(H::handles(pre[1], event, post[1], Ok::<bool, H::Error>(false)));
    } else if stop == 1 {
        assert(H::handles(pre[0], event, post[0], Ok::<bool, H::Error>(false)));
        assert(H::handles(pre[1], event, post[1], outcome));
    } else {
        assert(H::handles(pre[0], event, post[0], outcome));
    }
}

/// Where the first handler consumes, the event is handled and no other
/// handler is invoked: each is as it was.
pub proof fn lemma_first_handler_consumes<E, H: EventHandler<E>>(
    pre: Seq<H>,
    event: E,
    post: Seq<H>,
    outcome: Result<bool, H::Error>,
)
    requires
        pre.len() >= 1,
        fired(pre, event, post, outcome),
        forall|p: H, r: Result<bool, H::Error>| #[trigger]
            H::handles(pre[0], event, p, r) ==> r == Ok::<bool, H::Error>(true),
    ensures
        outcome == Ok::<bool, H::Error>(true),
        post.len() == pre.len(),
        forall|i: int| 1 <= i < pre.len() ==> post[i] == pre[i],
{
    let stop = choose|stop: int| #[trigger] fired_up_to(pre, event, post, outcome, stop);
    if stop > 0 {
        assert(H::handles(pre[0], event, post[0], Ok::<bool, H::Error>(false)));
    }
}

/// Where the first handler fails, its error is returned and no other
/// handler is invoked: each is as it was.
pub proof fn lemma_first_handler_fails<E, H: EventHandler<E>>(
    pre: Seq<H>,
    event: E,
    post: Seq<H>,
    outcome: Result<bool, H::Error>,
)
    requires
        pre.len() >= 1,
        fired(pre, event, post, outcome),
        forall|p: H, r: Result<bool, H::Error>| #[trigger]
            H::handles(pre[0], event, p, r) ==> r is Err,
    ensures
        outcome is Err,
        H::handles(pre[0], event, post[0], outcome),
        post.len() == pre.len(),
        forall|i: int| 1 <= i < pre.len() ==> post[i] == pre[i],
{
    let stop = choose|stop: int| #[trigger] fired_up_to(pre, event, post, outcome, stop);
    if stop > 0 {
        assert(H::handles(pre[0], event, post[0], Ok::<bool, H::Error>(false)));
    }
}

/// Where every handler declines, the event is not handled, which is no
/// error; and where the event is not handled, every handler was invoked
/// and declined.
pub proof fn lemma_not_handled<E, H: EventHandler<E>>(
    pre: Seq<H>,
    event: E,
    post: Seq<H>,
    outcome: Result<bool, H::Error>,
)
    requires
        fired(pre, event, post, outcome),
    ensures
        outcome == Ok::<bool, H::Error>(false) <==> fired_up_to(
            pre,
            event,
            post,
            outcome,
            pre.len() as int,
        ),
{
    let stop = choose|stop: int| #[trigger] fired_up_to(pre, event, post, outcome, stop);
}

} // verus!
