//! What a controller does with one resource: the steps of a reconciliation,
//! and when to look at the resource again.

use crate::action::Action;
use crate::finalizer::{add_patch, addition, patch_view, position, remove_patch, removal};
use crate::finalizer::{law_addition_appends, law_removal_takes_out_only_ours, lemma_patch_of_two};
use crate::finalizer::{law_removed_finalizer_is_gone, patched, texts};
use crate::finalizer::{ObjectMeta, ObjectMetaView, PatchOperation, PatchOperationView};
use crate::outside::{drawn, random_range};
use crate::time::{millis, secs, Duration};
use std::sync::Arc;
use vstd::arithmetic::power2::{lemma2_to64, lemma_pow2_strictly_increases, lemma_pow2_unfold, pow2};
use vstd::prelude::*;

verus! {

/// Why a reconciliation failed. `E` is the error of the context, `K` that of
/// a request to the API server.
#[derive(Debug, PartialEq, Eq)]
pub enum Error<E, K> {
    /// The context failed to apply the resource.
    ApplyFailed(E),
    /// The context failed to clean up the resource.
    CleanupFailed(E),
    /// The patch that adds the finalizer failed.
    AddFinalizer(K),
    /// The patch that removes the finalizer failed.
    RemoveFinalizer(K),
    /// A patch is due, but the object has no name to send it to.
    UnnamedObject,
}

/// What happened last in a reconciliation.
#[derive(Debug)]
pub enum ReconcileEvent<E, K> {
    /// The reconciliation begins.
    Started,
    /// The patch that adds the finalizer was sent, with this outcome.
    FinalizerAdded(Result<(), K>),
    /// The context applied the resource, with this outcome.
    Applied(Result<Option<Action>, E>),
    /// The context cleaned up the resource, with this outcome.
    CleanedUp(Result<Option<Action>, E>),
    /// The patch that removes the finalizer was sent, with this outcome.
    FinalizerRemoved(Result<(), K>),
}

/// What to do next in a reconciliation.
#[derive(Debug)]
pub enum ReconcileStep<E, K> {
    /// Send this patch to the object, to add the finalizer.
    AddFinalizer { name: String, patch: Vec<PatchOperation> },
    /// Have the context apply the resource.
    Apply,
    /// Have the context clean up the resource.
    Cleanup,
    /// Send this patch to the object, to remove the finalizer.
    RemoveFinalizer { name: String, patch: Vec<PatchOperation> },
    /// The reconciliation is over: the result is what
    /// [`Context::on_success`] makes of this action.
    Succeed(Option<Action>),
    /// The reconciliation is over, with this result.
    Done(Result<Action, Error<E, K>>),
}

/// The mathematical value of a [`ReconcileStep`].
pub enum ReconcileStepView<E, K> {
    AddFinalizer { name: Seq<char>, patch: Seq<PatchOperationView> },
    Apply,
    Cleanup,
    RemoveFinalizer { name: Seq<char>, patch: Seq<PatchOperationView> },
    Succeed(Option<Action>),
    Done(Result<Option<nat>, Error<E, K>>),
}

impl<E, K> View for ReconcileStep<E, K> {
    type V = ReconcileStepView<E, K>;

    open spec fn view(&self) -> ReconcileStepView<E, K> {
        match *self {
            ReconcileStep::AddFinalizer { name, patch } => ReconcileStepView::AddFinalizer {
                name: name@,
                patch: patch_view(patch@),
            },
            ReconcileStep::Apply => ReconcileStepView::Apply,
            ReconcileStep::Cleanup => ReconcileStepView::Cleanup,
            ReconcileStep::RemoveFinalizer { name, patch } => ReconcileStepView::RemoveFinalizer {
                name: name@,
                patch: patch_view(patch@),
            },
            ReconcileStep::Succeed(action) => ReconcileStepView::Succeed(action),
            ReconcileStep::Done(Ok(action)) => ReconcileStepView::Done(Ok(action@)),
            ReconcileStep::Done(Err(e)) => ReconcileStepView::Done(Err(e)),
        }
    }
}

impl<E, K> ReconcileStep<E, K> {
    /// What a reconciliation that begins with this step is called, given
    /// whether the object is being deleted.
    pub fn label(&self, deleting: bool) -> (label: &'static str)
        ensures
            label@ == match self {
                ReconcileStep::Apply => "apply"@,
                ReconcileStep::Cleanup => "cleanup"@,
                _ => if deleting {
                    "delete"@
                } else {
                    "init"@
                },
            },
    {
        match self {
            ReconcileStep::Apply => "apply",
            ReconcileStep::Cleanup => "cleanup",
            _ => if deleting {
                "delete"
            } else {
                "init"
            },
        }
    }
}

/// The first step of a reconciliation.
pub open spec fn first_step<E, K>(
    finalizer: Option<Seq<char>>,
    meta: ObjectMetaView,
) -> ReconcileStepView<E, K> {
    match finalizer {
        Some(finalizer) => match meta.finalizers.index_of_first(finalizer) {
            Some(_) => if !meta.deleting {
                ReconcileStepView::Apply
            } else if meta.name is Some {
                ReconcileStepView::Cleanup
            } else {
                ReconcileStepView::Done(Err(Error::UnnamedObject))
            },
            None => if meta.deleting {
                ReconcileStepView::Done(Ok(None))
            } else {
                match meta.name {
                    Some(name) => ReconcileStepView::AddFinalizer {
                        name,
                        patch: addition(meta.finalizers, finalizer),
                    },
                    None => ReconcileStepView::Done(Err(Error::UnnamedObject)),
                }
            },
        },
        None => if meta.deleting {
            ReconcileStepView::Done(Ok(None))
        } else {
            ReconcileStepView::Apply
        },
    }
}

/// What to do once the object is cleaned up for good.
pub open spec fn removal_step<E, K>(
    finalizer: Option<Seq<char>>,
    meta: ObjectMetaView,
) -> ReconcileStepView<E, K> {
    match finalizer {
        Some(finalizer) => match meta.finalizers.index_of_first(finalizer) {
            Some(index) => match meta.name {
                Some(name) => ReconcileStepView::RemoveFinalizer {
                    name,
                    patch: removal(index as usize, finalizer),
                },
                None => ReconcileStepView::Done(Err(Error::UnnamedObject)),
            },
            None => ReconcileStepView::Done(Ok(None)),
        },
        None => ReconcileStepView::Done(Ok(None)),
    }
}

/// The next step of a reconciliation.
pub open spec fn reconcile_step<E, K>(
    finalizer: Option<Seq<char>>,
    meta: ObjectMetaView,
    event: ReconcileEvent<E, K>,
) -> ReconcileStepView<E, K> {
    match event {
        ReconcileEvent::Started => first_step(finalizer, meta),
        ReconcileEvent::FinalizerAdded(Ok(_)) => ReconcileStepView::Done(Ok(None)),
        ReconcileEvent::FinalizerAdded(Err(e)) => ReconcileStepView::Done(
            Err(Error::AddFinalizer(e)),
        ),
        ReconcileEvent::Applied(Ok(action)) => ReconcileStepView::Succeed(action),
        ReconcileEvent::Applied(Err(e)) => ReconcileStepView::Done(Err(Error::ApplyFailed(e))),
        ReconcileEvent::CleanedUp(Ok(Some(action))) => ReconcileStepView::Done(Ok(action@)),
        ReconcileEvent::CleanedUp(Ok(None)) => removal_step(finalizer, meta),
        ReconcileEvent::CleanedUp(Err(e)) => ReconcileStepView::Done(Err(Error::CleanupFailed(e))),
        ReconcileEvent::FinalizerRemoved(Ok(_)) => ReconcileStepView::Done(Ok(None)),
        ReconcileEvent::FinalizerRemoved(Err(e)) => ReconcileStepView::Done(
            Err(Error::RemoveFinalizer(e)),
        ),
    }
}

/// The characters of an optional string slice.
pub open spec fn opt_text(s: Option<&str>) -> Option<Seq<char>> {
    match s {
        Some(s) => Some(s@),
        None => None,
    }
}

/// The shortest and (exclusively) the longest time, in seconds, after which a
/// resource that was applied is applied again without a change.
pub const RESYNC_SECONDS: (u64, u64) = (2400, 3600);

/// Whether a resource that was applied is left alone for a time that was drawn
/// from the resync range.
pub open spec fn resyncs(answer: Action) -> bool {
    exists|seconds: u64|
        {
            &&& drawn(RESYNC_SECONDS.0, RESYNC_SECONDS.1, seconds)
            &&& RESYNC_SECONDS.0 <= seconds < RESYNC_SECONDS.1
            &&& answer@ == Some(#[trigger] secs(seconds as nat))
        }
}

/// The longest delay after an error, in seconds: it starts at 2 seconds and
/// doubles with each error in a row, up to 256 seconds.
pub open spec fn backoff_seconds(consecutive_errors: u32) -> nat {
    if consecutive_errors < 7 {
        pow2((consecutive_errors + 1) as nat)
    } else {
        pow2(8)
    }
}

/// Whether a resource whose reconciliation failed is left alone for a time that
/// was drawn from half the longest delay at least, and less than the whole.
pub open spec fn backs_off(consecutive_errors: u32, answer: Action) -> bool {
    let seconds = backoff_seconds(consecutive_errors);
    exists|delay: u64|
        {
            &&& drawn((seconds * 500) as u64, (seconds * 1000) as u64, delay)
            &&& seconds * 500 <= delay < seconds * 1000
            &&& answer@ == Some(#[trigger] millis(delay as nat))
        }
}

/// What a controller does with the resources that it watches. The data that it
/// works on implements this trait; what talks to the cluster (applying a
/// resource, cleaning it up, sending patches) is left to the program around
/// it, which does what [`reconcile`](Context::reconcile) tells it to.
pub trait Context {
    /// The type of the resources.
    type Resource;

    /// The error with which applying or cleaning up a resource may fail.
    type Error;

    /// The error with which a request to the API server may fail.
    type ApiError;

    /// The name of the finalizer that keeps a resource from being deleted
    /// before it is cleaned up. Without one, resources are never cleaned up.
    const FINALIZER_NAME: Option<&'static str>;

    /// Decides the next step of a reconciliation of the object with this
    /// metadata.
    fn reconcile(
        &self,
        meta: &ObjectMeta,
        event: ReconcileEvent<Self::Error, Self::ApiError>,
    ) -> (step: ReconcileStep<Self::Error, Self::ApiError>)
        default_ensures
            step@ == reconcile_step(opt_text(Self::FINALIZER_NAME), meta@, event),
    {
        next_step(Self::FINALIZER_NAME, meta, event)
    }

    /// Decides when to reconcile a resource again after it was applied:
    /// unless applying it has said so, after 40 to 60 minutes.
    fn on_success(&self, _resource: &Self::Resource, action: Option<Action>) -> (answer: Action)
        default_ensures
            action matches Some(action) ==> answer == action,
            action is None ==> resyncs(answer),
    {
        success_action(action)
    }

    /// Decides when to reconcile a resource again after that failed, given how
    /// often it has failed before in a row.
    fn on_error(
        self: Arc<Self>,
        _resource: Arc<Self::Resource>,
        _err: &Error<Self::Error, Self::ApiError>,
        consecutive_errors: u32,
    ) -> (answer: Action)
        default_ensures
            backs_off(consecutive_errors, answer),
    {
        error_action(consecutive_errors)
    }
}

/// When to reconcile a resource again after it was applied: what applying it
/// has said, or after a random time within the resync range, so that the
/// resources of a controller spread out.
pub fn success_action(action: Option<Action>) -> (answer: Action)
    ensures
        action matches Some(action) ==> answer == action,
        action is None ==> resyncs(answer),
{
    match action {
        Some(action) => action,
        None => {
            let seconds: u64 = random_range(RESYNC_SECONDS.0, RESYNC_SECONDS.1);
            let answer = resync_action(seconds);
            assert(answer@ == Some(secs(seconds as nat)));
            answer
        },
    }
}

/// Reconciles a resource again after this many seconds.
pub fn resync_action(seconds: u64) -> (answer: Action)
    ensures
        answer@ == Some(secs(seconds as nat)),
{
    Action::requeue(Duration::from_secs(seconds))
}

/// The shortest and (exclusively) the longest delay after an error, in
/// milliseconds, given how many errors came before it in a row.
pub fn error_delays(consecutive_errors: u32) -> (delays: (u64, u64))
    ensures
        delays.0 == backoff_seconds(consecutive_errors) * 500,
        delays.1 == backoff_seconds(consecutive_errors) * 1000,
        0 < delays.0 < delays.1,
{
    let doublings: u32 = if consecutive_errors < 7 {
        consecutive_errors
    } else {
        7
    };
    proof {
        lemma2_to64();
    }
    let mut seconds: u64 = 2;
    let mut i: u32 = 0;
    while i < doublings
        invariant
            i <= doublings <= 7,
            seconds == pow2((i + 1) as nat),
            0 < seconds <= 256,
        decreases doublings - i,
    {
        proof {
            lemma_pow2_unfold((i + 2) as nat);
            lemma2_to64();
        }
        seconds = seconds * 2;
        i = i + 1;
        proof {
            if i < 7 {
                lemma_pow2_strictly_increases((i + 1) as nat, 8);
            }
        }
    }
    (seconds * 500, seconds * 1000)
}

/// When to reconcile a resource again after an error: after a random time that
/// grows with the number of errors that came before it in a row.
pub fn error_action(consecutive_errors: u32) -> (answer: Action)
    ensures
        backs_off(consecutive_errors, answer),
{
    let delays = error_delays(consecutive_errors);
    let delay: u64 = random_range(delays.0, delays.1);
    let answer = backoff_action(delay);
    assert(answer@ == Some(millis(delay as nat)));
    answer
}

/// Reconciles a resource again after this many milliseconds.
pub fn backoff_action(delay: u64) -> (answer: Action)
    ensures
        answer@ == Some(millis(delay as nat)),
{
    Action::requeue(Duration::from_millis(delay))
}

/// The next step of a reconciliation.
pub fn next_step<E, K>(
    finalizer: Option<&str>,
    meta: &ObjectMeta,
    event: ReconcileEvent<E, K>,
) -> (step: ReconcileStep<E, K>)
    ensures
        step@ == reconcile_step(opt_text(finalizer), meta@, event),
{
    match event {
        ReconcileEvent::Started => match finalizer {
            Some(finalizer) => match position(&meta.finalizers, finalizer) {
                Some(_) => if !meta.deleting {
                    ReconcileStep::Apply
                } else if meta.name.is_some() {
                    ReconcileStep::Cleanup
                } else {
                    // the finalizer could not be removed afterwards
                    ReconcileStep::Done(Err(Error::UnnamedObject))
                },
                None => if meta.deleting {
                    // our work here is done
                    ReconcileStep::Done(Ok(Action::await_change()))
                } else {
                    // the finalizer must be in place before it is safe to
                    // apply the resource
                    match &meta.name {
                        Some(name) => ReconcileStep::AddFinalizer {
                            name: name.clone(),
                            patch: add_patch(&meta.finalizers, finalizer),
                        },
                        None => ReconcileStep::Done(Err(Error::UnnamedObject)),
                    }
                },
            },
            None => if meta.deleting {
                ReconcileStep::Done(Ok(Action::await_change()))
            } else {
                ReconcileStep::Apply
            },
        },
        // the patch is a change, so it causes a new reconciliation
        ReconcileEvent::FinalizerAdded(Ok(_)) => ReconcileStep::Done(Ok(Action::await_change())),
        ReconcileEvent::FinalizerAdded(Err(e)) => ReconcileStep::Done(Err(Error::AddFinalizer(e))),
        ReconcileEvent::Applied(Ok(action)) => ReconcileStep::Succeed(action),
        ReconcileEvent::Applied(Err(e)) => ReconcileStep::Done(Err(Error::ApplyFailed(e))),
        // there is more to clean up, so the finalizer stays
        ReconcileEvent::CleanedUp(Ok(Some(action))) => ReconcileStep::Done(Ok(action)),
        ReconcileEvent::CleanedUp(Ok(None)) => match finalizer {
            Some(finalizer) => match position(&meta.finalizers, finalizer) {
                Some(index) => match &meta.name {
                    Some(name) => ReconcileStep::RemoveFinalizer {
                        name: name.clone(),
                        patch: remove_patch(index, finalizer),
                    },
                    None => ReconcileStep::Done(Err(Error::UnnamedObject)),
                },
                None => ReconcileStep::Done(Ok(Action::await_change())),
            },
            None => ReconcileStep::Done(Ok(Action::await_change())),
        },
        ReconcileEvent::CleanedUp(Err(e)) => ReconcileStep::Done(Err(Error::CleanupFailed(e))),
        ReconcileEvent::FinalizerRemoved(Ok(_)) => ReconcileStep::Done(Ok(Action::await_change())),
        ReconcileEvent::FinalizerRemoved(Err(e)) => ReconcileStep::Done(
            Err(Error::RemoveFinalizer(e)),
        ),
    }
}

/// A resource is cleaned up only while it is being deleted, carries our
/// finalizer and has a name, and then always; cleaning up is always the first
/// step.
pub proof fn law_cleanup_runs_under_our_finalizer<E, K>(
    finalizer: Option<Seq<char>>,
    meta: ObjectMetaView,
    event: ReconcileEvent<E, K>,
)
    ensures
        reconcile_step(finalizer, meta, event) is Cleanup <==> {
            &&& event is Started
            &&& meta.deleting
            &&& meta.name is Some
            &&& finalizer is Some
            &&& meta.finalizers.contains(finalizer->0)
        },
{
    if finalizer is Some {
        meta.finalizers.index_of_first_ensures(finalizer->0);
    }
}

/// A resource is applied only while it is not being deleted, and only once our
/// finalizer, if there is one, is in place.
pub proof fn law_apply_runs_under_our_finalizer<E, K>(
    finalizer: Option<Seq<char>>,
    meta: ObjectMetaView,
    event: ReconcileEvent<E, K>,
)
    ensures
        reconcile_step(finalizer, meta, event) is Apply <==> {
            &&& event is Started
            &&& !meta.deleting
            &&& finalizer is Some ==> meta.finalizers.contains(finalizer->0)
        },
{
    if finalizer is Some {
        meta.finalizers.index_of_first_ensures(finalizer->0);
    }
}

/// An object without a name is refused where a patch would have to be sent to
/// it, before anything is cleaned up, and nowhere else: it is refused if it
/// carries our finalizer while it is being deleted, or does not carry it while
/// it is not.
pub proof fn law_unnamed_object_is_refused<E, K>(finalizer: Seq<char>, meta: ObjectMetaView)
    ensures
        reconcile_step::<E, K>(Some(finalizer), meta, ReconcileEvent::Started)
            == ReconcileStepView::<E, K>::Done(Err(Error::UnnamedObject)) <==> {
            &&& meta.name is None
            &&& meta.deleting == meta.finalizers.contains(finalizer)
        },
{
    meta.finalizers.index_of_first_ensures(finalizer);
}

/// An object that is being deleted and does not carry our finalizer is left
/// alone: the finalizer is not added again, and nothing is cleaned up.
pub proof fn law_deleting_without_our_finalizer_does_nothing<E, K>(
    finalizer: Seq<char>,
    meta: ObjectMetaView,
)
    requires
        meta.deleting,
        !meta.finalizers.contains(finalizer),
    ensures
        reconcile_step::<E, K>(Some(finalizer), meta, ReconcileEvent::Started)
            == ReconcileStepView::<E, K>::Done(Ok(None)),
{
    meta.finalizers.index_of_first_ensures(finalizer);
}

/// An object with a name that is not being deleted and does not carry our
/// finalizer gets it: it is appended to the finalizers that the object has. The object is
/// then applied by the reconciliation that this change causes.
pub proof fn law_finalizer_is_added_before_apply<E, K>(finalizer: Seq<char>, meta: ObjectMetaView)
    requires
        !meta.deleting,
        meta.name is Some,
        !meta.finalizers.contains(finalizer),
    ensures
        ({
            let step = reconcile_step::<E, K>(Some(finalizer), meta, ReconcileEvent::Started);
            let added = ObjectMetaView { finalizers: meta.finalizers.push(finalizer), ..meta };
            &&& step is AddFinalizer
            &&& step->AddFinalizer_name == meta.name->0
            &&& patched(meta.finalizers, step->AddFinalizer_patch) == Some(added.finalizers)
            &&& reconcile_step::<E, K>(
                Some(finalizer),
                meta,
                ReconcileEvent::FinalizerAdded(Ok(())),
            ) == ReconcileStepView::<E, K>::Done(Ok(None))
            &&& reconcile_step::<E, K>(Some(finalizer), added, ReconcileEvent::Started) is Apply
        }),
{
    meta.finalizers.index_of_first_ensures(finalizer);
    law_addition_appends(meta.finalizers, meta.finalizers, finalizer);
    let added = meta.finalizers.push(finalizer);
    assert(added[added.len() - 1] == finalizer);
    added.index_of_first_ensures(finalizer);
}

/// An object after one reconciliation, in which cleaning it up, if it comes to
/// that, has this outcome, and the API server accepts the patches.
pub open spec fn reconciled<E>(
    finalizer: Seq<char>,
    meta: ObjectMetaView,
    cleanup: Result<Option<Action>, E>,
) -> ObjectMetaView {
    let after = match reconcile_step::<E, ()>(Some(finalizer), meta, ReconcileEvent::Started) {
        ReconcileStepView::AddFinalizer { patch, .. } => patched(meta.finalizers, patch),
        ReconcileStepView::Cleanup => match reconcile_step::<E, ()>(
            Some(finalizer),
            meta,
            ReconcileEvent::CleanedUp(cleanup),
        ) {
            ReconcileStepView::RemoveFinalizer { patch, .. } => patched(meta.finalizers, patch),
            _ => Some(meta.finalizers),
        },
        _ => Some(meta.finalizers),
    };
    match after {
        Some(finalizers) => ObjectMetaView { finalizers, ..meta },
        None => meta,
    }
}

/// An object after a reconciliation for each of these outcomes of cleaning it
/// up.
pub open spec fn reconciled_all<E>(
    finalizer: Seq<char>,
    meta: ObjectMetaView,
    cleanups: Seq<Result<Option<Action>, E>>,
) -> ObjectMetaView
    decreases cleanups.len(),
{
    if cleanups.len() == 0 {
        meta
    } else {
        reconciled(
            finalizer,
            reconciled_all(finalizer, meta, cleanups.drop_last()),
            cleanups.last(),
        )
    }
}

/// While cleaning up asks to be called again, or fails, the finalizer stays,
/// however often that happens; so the next reconciliation cleans up again,
/// unless the object has no name.
pub proof fn law_finalizer_stays_until_cleanup_is_done<E>(
    finalizer: Seq<char>,
    meta: ObjectMetaView,
    cleanups: Seq<Result<Option<Action>, E>>,
)
    requires
        meta.deleting,
        meta.finalizers.contains(finalizer),
        forall|i: int|
            0 <= i < cleanups.len() ==> #[trigger] cleanups[i] != Ok::<Option<Action>, E>(None),
    ensures
        reconciled_all(finalizer, meta, cleanups) == meta,
        meta.name is Some ==> reconcile_step::<E, ()>(
            Some(finalizer),
            reconciled_all(finalizer, meta, cleanups),
            ReconcileEvent::Started,
        ) is Cleanup,
    decreases cleanups.len(),
{
    meta.finalizers.index_of_first_ensures(finalizer);
    if cleanups.len() > 0 {
        let before = cleanups.drop_last();
        assert forall|i: int| 0 <= i < before.len() implies #[trigger] before[i] != Ok::<
            Option<Action>,
            E,
        >(None) by {
            assert(before[i] == cleanups[i]);
        }
        law_finalizer_stays_until_cleanup_is_done(finalizer, meta, before);
        assert(cleanups.last() == cleanups[cleanups.len() - 1]);
    }
}

/// A reconciliation whose cleanup asks to be called again ends with what the
/// cleanup asked for.
pub proof fn law_cleanup_decides_when_it_runs_again<E, K>(
    finalizer: Option<Seq<char>>,
    meta: ObjectMetaView,
    action: Action,
)
    ensures
        reconcile_step::<E, K>(
            finalizer,
            meta,
            ReconcileEvent::CleanedUp(Ok(Some(action))),
        ) == ReconcileStepView::<E, K>::Done(Ok(action@)),
{
}

/// Once cleaning up an object is done, the finalizer is removed and the others
/// stay as they are, so that the object can go away.
pub proof fn law_finished_cleanup_removes_finalizer<E>(finalizer: Seq<char>, meta: ObjectMetaView)
    requires
        meta.deleting,
        meta.name is Some,
        meta.finalizers.contains(finalizer),
        meta.finalizers.len() <= usize::MAX,
    ensures
        reconciled(finalizer, meta, Ok::<Option<Action>, E>(None)) == (ObjectMetaView {
            finalizers: meta.finalizers.remove_value(finalizer),
            ..meta
        }),
{
    meta.finalizers.index_of_first_ensures(finalizer);
    let index = meta.finalizers.index_of_first(finalizer)->0;
    law_removal_takes_out_only_ours(meta.finalizers, meta.finalizers, index as usize, finalizer);
}

/// After that, whatever else keeps the object alive, no reconciliation adds the
/// finalizer again or cleans up again.
pub proof fn law_nothing_happens_after_cleanup<E>(
    finalizer: Seq<char>,
    meta: ObjectMetaView,
    cleanups: Seq<Result<Option<Action>, E>>,
)
    requires
        meta.deleting,
        meta.name is Some,
        meta.finalizers.no_duplicates(),
        meta.finalizers.contains(finalizer),
        meta.finalizers.len() <= usize::MAX,
    ensures
        ({
            let cleaned = reconciled(finalizer, meta, Ok::<Option<Action>, E>(None));
            &&& !cleaned.finalizers.contains(finalizer)
            &&& reconciled_all(finalizer, cleaned, cleanups) == cleaned
            &&& reconcile_step::<E, ()>(
                Some(finalizer),
                reconciled_all(finalizer, cleaned, cleanups),
                ReconcileEvent::Started,
            ) == ReconcileStepView::<E, ()>::Done(Ok(None))
        }),
    decreases cleanups.len(),
{
    let cleaned = reconciled(finalizer, meta, Ok::<Option<Action>, E>(None));
    law_finished_cleanup_removes_finalizer::<E>(finalizer, meta);
    law_removed_finalizer_is_gone(meta.finalizers, finalizer);
    law_deleting_without_our_finalizer_does_nothing::<E, ()>(finalizer, cleaned);
    if cleanups.len() > 0 {
        law_nothing_happens_after_cleanup(finalizer, meta, cleanups.drop_last());
    }
}

/// The longest delay after an error starts at 2 seconds, doubles with each
/// error in a row, and is 256 seconds from the eighth error on.
pub proof fn law_backoff_doubles_up_to_a_limit(consecutive_errors: u32)
    ensures
        backoff_seconds(0) == 2,
        consecutive_errors < 7 ==> backoff_seconds((consecutive_errors + 1) as u32) == 2
            * backoff_seconds(consecutive_errors),
        consecutive_errors >= 7 ==> backoff_seconds(consecutive_errors) == 256,
        2 <= backoff_seconds(consecutive_errors) <= 256,
{
    lemma2_to64();
    if consecutive_errors < 7 {
        lemma_pow2_unfold((consecutive_errors + 2) as nat);
        if consecutive_errors > 0 {
            lemma_pow2_strictly_increases(1, (consecutive_errors + 1) as nat);
        }
        lemma_pow2_strictly_increases((consecutive_errors + 1) as nat, 8);
    }
}

/// However the delays are drawn, an error that comes after more errors in a row
/// is followed by a longer delay, until the limit is reached.
pub proof fn law_delays_grow(
    earlier_errors: u32,
    later_errors: u32,
    earlier: Action,
    later: Action,
)
    requires
        earlier_errors < later_errors,
        earlier_errors < 7,
        backs_off(earlier_errors, earlier),
        backs_off(later_errors, later),
    ensures
        earlier@ is Some,
        later@ is Some,
        earlier@->0 < later@->0,
{
    law_backoff_doubles_up_to_a_limit(earlier_errors);
    let last: nat = if later_errors < 7 {
        (later_errors + 1) as nat
    } else {
        8
    };
    if earlier_errors + 2 < last {
        lemma_pow2_strictly_increases((earlier_errors + 2) as nat, last);
    }
}

/// A delay after an error is at least one second, and less than 256 seconds.
pub proof fn law_delays_are_bounded(consecutive_errors: u32, answer: Action)
    requires
        backs_off(consecutive_errors, answer),
    ensures
        answer@ is Some,
        secs(1) <= answer@->0 < secs(256),
{
    law_backoff_doubles_up_to_a_limit(consecutive_errors);
}

/// What applying a resource asks for is what happens: the action that it
/// returns is handed on as it is, and, unless the context decides otherwise, is
/// the result of the reconciliation. Only if it returns none is the resource
/// left alone for 40 to 60 minutes.
pub proof fn law_apply_decides_when_it_runs_again<E, K>(
    finalizer: Option<Seq<char>>,
    meta: ObjectMetaView,
    action: Option<Action>,
    answer: Action,
)
    ensures
        reconcile_step::<E, K>(finalizer, meta, ReconcileEvent::Applied(Ok(action)))
            == ReconcileStepView::<E, K>::Succeed(action),
        action is Some && call_ensures(success_action, (action,), answer) ==> answer == action->0,
        action is None && call_ensures(success_action, (action,), answer) ==> {
            &&& answer@ is Some
            &&& 2_400_000_000_000 <= answer@->0 < 3_600_000_000_000
        },
{
}

/// A resource that is left alone after it was applied is left alone for a whole
/// number of seconds that was drawn from all those between 40 and 60 minutes.
pub proof fn law_resyncs_spread_out(answer: Action)
    requires
        resyncs(answer),
    ensures
        exists|seconds: u64| #[trigger]
            drawn(2400, 3600, seconds) && answer@ == Some((seconds * 1_000_000_000) as nat),
{
    let seconds = choose|seconds: u64|
        {
            &&& drawn(RESYNC_SECONDS.0, RESYNC_SECONDS.1, seconds)
            &&& RESYNC_SECONDS.0 <= seconds < RESYNC_SECONDS.1
            &&& answer@ == Some(#[trigger] secs(seconds as nat))
        };
    assert(drawn(2400, 3600, seconds));
}

/// A resource whose reconciliation failed is left alone for a whole number of
/// milliseconds that was drawn from all those between the shortest and the
/// longest delay, the shortest being half the longest.
pub proof fn law_delays_spread_out(consecutive_errors: u32, answer: Action)
    requires
        call_ensures(error_action, (consecutive_errors,), answer),
    ensures
        exists|delay: u64| #[trigger]
            drawn(
                (500 * backoff_seconds(consecutive_errors)) as u64,
                (1000 * backoff_seconds(consecutive_errors)) as u64,
                delay,
            ) && answer@ == Some((delay * 1_000_000) as nat),
        answer@ is Some,
        backoff_seconds(consecutive_errors) * 500_000_000 <= answer@->0 < backoff_seconds(
            consecutive_errors,
        ) * 1_000_000_000,
{
    assert(backs_off(consecutive_errors, answer));
    let seconds = backoff_seconds(consecutive_errors);
    let delay = choose|delay: u64|
        {
            &&& drawn((seconds * 500) as u64, (seconds * 1000) as u64, delay)
            &&& seconds * 500 <= delay < seconds * 1000
            &&& answer@ == Some(#[trigger] millis(delay as nat))
        };
    assert(drawn((500 * seconds) as u64, (1000 * seconds) as u64, delay));
}

/// Whatever fails, the reconciliation fails with that very error, told by what
/// it happened to: nothing is retried, patched or applied after it.
pub proof fn law_failures_end_the_reconciliation<E, K>(
    finalizer: Option<Seq<char>>,
    meta: ObjectMetaView,
    error: E,
    refused: K,
)
    ensures
        reconcile_step::<E, K>(finalizer, meta, ReconcileEvent::Applied(Err(error)))
            == ReconcileStepView::<E, K>::Done(Err(Error::ApplyFailed(error))),
        reconcile_step::<E, K>(finalizer, meta, ReconcileEvent::CleanedUp(Err(error)))
            == ReconcileStepView::<E, K>::Done(Err(Error::CleanupFailed(error))),
        reconcile_step::<E, K>(finalizer, meta, ReconcileEvent::FinalizerAdded(Err(refused)))
            == ReconcileStepView::<E, K>::Done(Err(Error::AddFinalizer(refused))),
        reconcile_step::<E, K>(finalizer, meta, ReconcileEvent::FinalizerRemoved(Err(refused)))
            == ReconcileStepView::<E, K>::Done(Err(Error::RemoveFinalizer(refused))),
{
}

/// A reconciliation that has changed the finalizers of an object is over, and
/// leaves the object alone until it changes.
pub proof fn law_patched_object_is_left_alone<E, K>(
    finalizer: Option<Seq<char>>,
    meta: ObjectMetaView,
)
    ensures
        reconcile_step::<E, K>(finalizer, meta, ReconcileEvent::FinalizerAdded(Ok(())))
            == ReconcileStepView::<E, K>::Done(Ok(None)),
        reconcile_step::<E, K>(finalizer, meta, ReconcileEvent::FinalizerRemoved(Ok(())))
            == ReconcileStepView::<E, K>::Done(Ok(None)),
{
}

/// A controller without a finalizer applies every object that is not being
/// deleted, whatever finalizers or name it has, and leaves alone every one that
/// is.
pub proof fn law_without_a_finalizer_objects_are_only_applied<E, K>(meta: ObjectMetaView)
    ensures
        reconcile_step::<E, K>(None, meta, ReconcileEvent::Started) == if meta.deleting {
            ReconcileStepView::<E, K>::Done(Ok(None))
        } else {
            ReconcileStepView::<E, K>::Apply
        },
        reconcile_step::<E, K>(None, meta, ReconcileEvent::CleanedUp(Ok(None)))
            == ReconcileStepView::<E, K>::Done(Ok(None)),
{
}

/// The patch that adds the finalizer is sent to the object by its name. Whatever
/// finalizers the object has by then, it is accepted exactly if they are still
/// those that were read, and then ours stands behind them.
pub proof fn law_finalizer_is_added_to_what_was_read<E, K>(
    finalizer: Seq<char>,
    meta: ObjectMetaView,
    current: Seq<Seq<char>>,
)
    requires
        !meta.deleting,
        meta.name is Some,
        !meta.finalizers.contains(finalizer),
    ensures
        reconcile_step::<E, K>(
            Some(finalizer),
            meta,
            ReconcileEvent::Started,
        ) matches ReconcileStepView::AddFinalizer { name, patch } && {
            &&& Some(name) == meta.name
            &&& patched(current, patch) is Some <==> current == meta.finalizers
            &&& patched(current, patch) matches Some(after) ==> after == current.push(finalizer)
        },
{
    meta.finalizers.index_of_first_ensures(finalizer);
    law_addition_appends(meta.finalizers, current, finalizer);
}

/// Once cleaning up is done, the patch that removes the finalizer is sent to
/// the object by its name. Whatever finalizers the object has by then, it is
/// accepted exactly if ours still stands where it was first found, and then
/// takes out that one and no other. An object that does not carry our
/// finalizer is left alone, and one without a name is refused.
pub proof fn law_finalizer_is_removed_where_it_was_read<E, K>(
    finalizer: Seq<char>,
    meta: ObjectMetaView,
    current: Seq<Seq<char>>,
    i: int,
)
    requires
        meta.finalizers.len() <= usize::MAX,
        0 <= i < meta.finalizers.len() ==> meta.finalizers[i] == finalizer,
        0 <= i <= meta.finalizers.len(),
        forall|j: int| 0 <= j < i ==> #[trigger] meta.finalizers[j] != finalizer,
    ensures
        ({
            let step = reconcile_step::<E, K>(
                Some(finalizer),
                meta,
                ReconcileEvent::CleanedUp(Ok(None)),
            );
            if i == meta.finalizers.len() {
                step == ReconcileStepView::<E, K>::Done(Ok(None))
            } else if meta.name is None {
                step == ReconcileStepView::<E, K>::Done(Err(Error::UnnamedObject))
            } else {
                step matches ReconcileStepView::RemoveFinalizer { name, patch } && {
                    &&& Some(name) == meta.name
                    &&& patched(current, patch) is Some <==> i < current.len() && current[i]
                        == finalizer
                    &&& patched(current, patch) matches Some(after) ==> after == current.remove(i)
                }
            }
        }),
{
    meta.finalizers.index_of_first_ensures(finalizer);
    if i < meta.finalizers.len() {
        assert(meta.finalizers.contains(finalizer));
        let first = meta.finalizers.index_of_first(finalizer)->0;
        assert(first == i) by {
            if first < i {
                assert(meta.finalizers[first] != finalizer);
            }
        }
        law_removal_takes_out_only_ours(meta.finalizers, current, i as usize, finalizer);
        lemma_patch_of_two(
            current,
            removal(i as usize, finalizer)[0],
            removal(i as usize, finalizer)[1],
        );
        assert(removal(i as usize, finalizer) =~= seq![
            removal(i as usize, finalizer)[0],
            removal(i as usize, finalizer)[1],
        ]);
    } else {
        assert(!meta.finalizers.contains(finalizer));
    }
}

/// A step is decided from the object as it is: from its name and the text of
/// each of its finalizers, from whether it is being deleted, and from the
/// finalizer of the context, letter by letter.
pub proof fn law_object_is_seen_as_it_is(meta: ObjectMeta, finalizer: &str)
    ensures
        meta@.deleting == meta.deleting,
        meta@.name is Some <==> meta.name is Some,
        meta.name matches Some(name) ==> meta@.name == Some(name@),
        meta@.finalizers.len() == meta.finalizers@.len(),
        forall|i: int|
            0 <= i < meta.finalizers@.len() ==> #[trigger] meta@.finalizers[i]
                == meta.finalizers@[i]@,
        opt_text(Some(finalizer)) == Some(finalizer@),
        opt_text(None) is None,
{
}

/// A context that leaves every decision to the defaults, with the resources,
/// the errors and the finalizer of another.
pub struct Defaults<C>(pub C);

impl<C: Context> Context for Defaults<C> {
    type Resource = C::Resource;

    type Error = C::Error;

    type ApiError = C::ApiError;

    const FINALIZER_NAME: Option<&'static str> = C::FINALIZER_NAME;
}

impl<C: Context> Defaults<C> {
    /// When a resource is reconciled again after it was applied: what applying
    /// it asks for is what happens, and a resource for which nothing is asked
    /// is applied again after 40 to 60 minutes.
    pub fn after_success(&self, resource: &C::Resource, action: Option<Action>) -> (answer: Action)
        ensures
            action is Some ==> answer == action->0,
            action is None ==> {
                &&& answer@ is Some
                &&& 2_400_000_000_000 <= answer@->0 < 3_600_000_000_000
            },
    {
        self.on_success(resource, action)
    }

    /// When a resource is reconciled again after that failed: after a time that
    /// depends on how many errors came before this one in a row, whichever
    /// error it is, half the longest delay at least, and less than the whole.
    pub fn after_error(
        self: Arc<Self>,
        resource: Arc<C::Resource>,
        err: &Error<C::Error, C::ApiError>,
        consecutive_errors: u32,
    ) -> (answer: Action)
        ensures
            answer@ is Some,
            backoff_seconds(consecutive_errors) * 500_000_000 <= answer@->0 < backoff_seconds(
                consecutive_errors,
            ) * 1_000_000_000,
    {
        self.on_error(resource, err, consecutive_errors)
    }

    /// The next step of a reconciliation: applying and cleaning up begin one
    /// exactly where the object and the finalizer call for it, and what
    /// applying asks for is handed on.
    pub fn step(
        &self,
        meta: &ObjectMeta,
        event: ReconcileEvent<C::Error, C::ApiError>,
    ) -> (step: ReconcileStep<C::Error, C::ApiError>)
        ensures
            step@ == reconcile_step(opt_text(C::FINALIZER_NAME), meta@, event),
            event is Applied && event->Applied_0 is Ok ==> step@ == ReconcileStepView::<
                C::Error,
                C::ApiError,
            >::Succeed(event->Applied_0->Ok_0),
            step is Apply <==> {
                &&& event is Started
                &&& !meta.deleting
                &&& C::FINALIZER_NAME is Some ==> texts(meta.finalizers@).contains(
                    C::FINALIZER_NAME->0@,
                )
            },
            step is Cleanup <==> {
                &&& event is Started
                &&& meta.deleting
                &&& meta.name is Some
                &&& C::FINALIZER_NAME is Some
                &&& texts(meta.finalizers@).contains(C::FINALIZER_NAME->0@)
            },
    {
        proof {
            law_cleanup_runs_under_our_finalizer(opt_text(C::FINALIZER_NAME), meta@, event);
            law_apply_runs_under_our_finalizer(opt_text(C::FINALIZER_NAME), meta@, event);
        }
        self.reconcile(meta, event)
    }
}

/// A reconciliation is called after what it does with the object: applying and
/// cleaning up are called that, and everything else after whether the object
/// is being deleted.
pub proof fn law_label_tells_what_is_done<E, K>(
    step: ReconcileStep<E, K>,
    deleting: bool,
    label: &'static str,
)
    requires
        call_ensures(ReconcileStep::<E, K>::label, (&step, deleting), label),
    ensures
        step is Apply <==> label@ == "apply"@,
        step is Cleanup <==> label@ == "cleanup"@,
        !(step is Apply) && !(step is Cleanup) && deleting <==> label@ == "delete"@,
        !(step is Apply) && !(step is Cleanup) && !deleting <==> label@ == "init"@,
{
    reveal_strlit("apply");
    reveal_strlit("cleanup");
    reveal_strlit("delete");
    reveal_strlit("init");
    assert("apply"@[0] == 'a' && "cleanup"@[0] == 'c' && "delete"@[0] == 'd' && "init"@[0] == 'i');
}

/// The steps of a reconciliation, as they are taken: what applying asks for is
/// handed on, every error is told by what it happened to, and a cleanup that
/// asks to be called again is.
pub proof fn law_steps_are_taken_as_decided<E, K>(
    finalizer: Option<&str>,
    meta: ObjectMeta,
    event: ReconcileEvent<E, K>,
    step: ReconcileStep<E, K>,
)
    requires
        call_ensures(next_step::<E, K>, (finalizer, &meta, event), step),
    ensures
        step@ == reconcile_step(opt_text(finalizer), meta@, event),
        match event {
            ReconcileEvent::Applied(Ok(action)) => step == ReconcileStep::<E, K>::Succeed(action),
            ReconcileEvent::Applied(Err(e)) => step == ReconcileStep::<E, K>::Done(
                Err(Error::ApplyFailed(e)),
            ),
            ReconcileEvent::CleanedUp(Err(e)) => step == ReconcileStep::<E, K>::Done(
                Err(Error::CleanupFailed(e)),
            ),
            ReconcileEvent::CleanedUp(Ok(Some(action))) => step is Done && step->Done_0 is Ok
                && step->Done_0->Ok_0@ == action@,
            ReconcileEvent::FinalizerAdded(Err(e)) => step == ReconcileStep::<E, K>::Done(
                Err(Error::AddFinalizer(e)),
            ),
            ReconcileEvent::FinalizerRemoved(Err(e)) => step == ReconcileStep::<E, K>::Done(
                Err(Error::RemoveFinalizer(e)),
            ),
            _ => true,
        },
        step matches ReconcileStep::AddFinalizer { name, patch } ==> {
            &&& meta.name matches Some(of) && of@ == name@
            &&& step@ == (ReconcileStepView::<E, K>::AddFinalizer {
                name: name@,
                patch: patch_view(patch@),
            })
        },
        step matches ReconcileStep::RemoveFinalizer { name, patch } ==> {
            &&& meta.name matches Some(of) && of@ == name@
            &&& step@ == (ReconcileStepView::<E, K>::RemoveFinalizer {
                name: name@,
                patch: patch_view(patch@),
            })
        },
{
}

} // verus!
