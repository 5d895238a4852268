//! What becomes of a resource once a reconciliation is over.

use crate::time::Duration;
use vstd::prelude::*;

verus! {

/// When to reconcile a resource again if nothing changes in the meantime.
#[derive(Clone, Copy, Debug, PartialEq, Eq)]
pub struct Action {
    requeue_after: Option<Duration>,
}

impl View for Action {
    /// The delay in nanoseconds, or `None` for "only when it changes".
    type V = Option<nat>;

    closed spec fn view(&self) -> Option<nat> {
        match self.requeue_after {
            Some(after) => Some(after@),
            None => None,
        }
    }
}

impl Action {
    /// Reconciles the resource again after `after`, even if it has not
    /// changed.
    pub fn requeue(after: Duration) -> (action: Action)
        ensures
            action@ == Some(after@),
    {
        Action { requeue_after: Some(after) }
    }

    /// Leaves the resource alone until it changes.
    pub fn await_change() -> (action: Action)
        ensures
            action@ == None::<nat>,
    {
        Action { requeue_after: None }
    }

    /// The delay after which to reconcile again, if there is one.
    pub fn requeue_after(&self) -> (after: Option<Duration>)
        ensures
            after is Some <==> self@ is Some,
            after is Some ==> after->0@ == self@->0,
    {
        self.requeue_after
    }
}

/// An action asks for the delay that it was made with, and for none if it was
/// made without.
pub proof fn law_action_keeps_its_delay(
    delay: Duration,
    requeued: Action,
    awaited: Action,
    again: Option<Duration>,
    never: Option<Duration>,
)
    requires
        call_ensures(Action::requeue, (delay,), requeued),
        call_ensures(Action::await_change, (), awaited),
        call_ensures(Action::requeue_after, (&requeued,), again),
        call_ensures(Action::requeue_after, (&awaited,), never),
    ensures
        again is Some && again->0@ == delay@,
        never is None,
{
}

} // verus!
