//! The lease that candidates compete for, and the contents that acquiring,
//! renewing and releasing it give it.

use crate::time::{MicroTime, Timestamp};
use vstd::prelude::*;

verus! {

/// The contents of a `coordination.k8s.io/v1` lease.
#[derive(Debug, PartialEq, Eq)]
pub struct LeaseSpec {
    /// When the current holder acquired the lease.
    pub acquire_time: Option<MicroTime>,
    /// Who holds the lease. Nobody does if this is missing or empty.
    pub holder_identity: Option<String>,
    /// How long other candidates wait before they take the lease over.
    pub lease_duration_seconds: Option<i32>,
    /// How often the lease has passed from one holder to another.
    pub lease_transitions: Option<i32>,
    /// The holder that coordinated leader election would rather see.
    pub preferred_holder: Option<String>,
    /// When the current holder last renewed the lease.
    pub renew_time: Option<MicroTime>,
    /// The strategy of coordinated leader election.
    pub strategy: Option<String>,
}

/// The mathematical value of a [`LeaseSpec`].
pub struct LeaseSpecView {
    pub acquire_time: Option<MicroTime>,
    pub holder_identity: Option<Seq<char>>,
    pub lease_duration_seconds: Option<i32>,
    pub lease_transitions: Option<i32>,
    pub preferred_holder: Option<Seq<char>>,
    pub renew_time: Option<MicroTime>,
    pub strategy: Option<Seq<char>>,
}

/// The characters of an optional string.
pub open spec fn text(s: Option<String>) -> Option<Seq<char>> {
    match s {
        Some(s) => Some(s@),
        None => None,
    }
}

impl View for LeaseSpec {
    type V = LeaseSpecView;

    open spec fn view(&self) -> LeaseSpecView {
        LeaseSpecView {
            acquire_time: self.acquire_time,
            holder_identity: text(self.holder_identity),
            lease_duration_seconds: self.lease_duration_seconds,
            lease_transitions: self.lease_transitions,
            preferred_holder: text(self.preferred_holder),
            renew_time: self.renew_time,
            strategy: text(self.strategy),
        }
    }
}

impl LeaseSpecView {
    /// The contents of a lease that has none.
    pub open spec fn empty() -> LeaseSpecView {
        LeaseSpecView {
            acquire_time: None,
            holder_identity: None,
            lease_duration_seconds: None,
            lease_transitions: None,
            preferred_holder: None,
            renew_time: None,
            strategy: None,
        }
    }

    /// Whether the lease names `identity` as its holder.
    pub open spec fn names(self, identity: Seq<char>) -> bool {
        self.holder_identity == Some(identity)
    }

    /// Whether somebody holds the lease: an empty holder is none.
    pub open spec fn is_held(self) -> bool {
        self.holder_identity is Some && self.holder_identity->0.len() > 0
    }
}

/// The number that follows `n`, unless `n` is the largest.
pub open spec fn successor(n: i32) -> i32 {
    if n == i32::MAX {
        i32::MAX
    } else {
        (n + 1) as i32
    }
}

/// The contents that make `identity` the holder of a lease with the contents
/// `prev`, or of a new lease if there is no `prev`.
pub open spec fn next_spec_view(
    identity: Seq<char>,
    lease_duration_seconds: i32,
    prev: Option<LeaseSpecView>,
    now: Timestamp,
) -> LeaseSpecView {
    let kept = prev is Some && prev->0.names(identity);
    LeaseSpecView {
        holder_identity: Some(identity),
        lease_duration_seconds: Some(lease_duration_seconds),
        acquire_time: if kept {
            prev->0.acquire_time
        } else {
            Some(MicroTime(now))
        },
        renew_time: Some(MicroTime(now)),
        lease_transitions: match prev {
            None => Some(0),
            Some(prev) => if kept {
                prev.lease_transitions
            } else {
                match prev.lease_transitions {
                    Some(n) => Some(successor(n)),
                    None => Some(1),
                }
            },
        },
        ..LeaseSpecView::empty()
    }
}

/// The contents of a lease with the contents `prev` once it is released.
pub open spec fn released_spec_view(prev: LeaseSpecView) -> LeaseSpecView {
    LeaseSpecView { lease_transitions: prev.lease_transitions, ..LeaseSpecView::empty() }
}

/// Compares two optional strings by their characters.
fn same_text(a: &Option<String>, b: &Option<String>) -> (same: bool)
    ensures
        same == (text(*a) == text(*b)),
{
    match (a, b) {
        (Some(a), Some(b)) => *a == *b,
        (None, None) => true,
        _ => false,
    }
}

/// Compares two optional times.
fn same_time(a: Option<MicroTime>, b: Option<MicroTime>) -> (same: bool)
    ensures
        same == (a == b),
{
    match (a, b) {
        (Some(a), Some(b)) => a == b,
        (None, None) => true,
        _ => false,
    }
}

/// Compares two optional numbers.
fn same_number(a: Option<i32>, b: Option<i32>) -> (same: bool)
    ensures
        same == (a == b),
{
    match (a, b) {
        (Some(a), Some(b)) => a == b,
        (None, None) => true,
        _ => false,
    }
}

impl Default for LeaseSpec {
    /// The contents of a lease that has none.
    fn default() -> (spec: LeaseSpec)
        ensures
            spec@ == LeaseSpecView::empty(),
    {
        LeaseSpec {
            acquire_time: None,
            holder_identity: None,
            lease_duration_seconds: None,
            lease_transitions: None,
            preferred_holder: None,
            renew_time: None,
            strategy: None,
        }
    }
}

impl LeaseSpec {
    /// Whether two leases have the same contents, in every field.
    pub fn same(&self, other: &LeaseSpec) -> (same: bool)
        ensures
            same == (self@ == other@),
    {
        same_time(self.acquire_time, other.acquire_time) && same_text(
            &self.holder_identity,
            &other.holder_identity,
        ) && same_number(self.lease_duration_seconds, other.lease_duration_seconds) && same_number(
            self.lease_transitions,
            other.lease_transitions,
        ) && same_text(&self.preferred_holder, &other.preferred_holder) && same_time(
            self.renew_time,
            other.renew_time,
        ) && same_text(&self.strategy, &other.strategy)
    }

    /// Whether the lease names `identity` as its holder.
    pub fn names(&self, identity: &String) -> (named: bool)
        ensures
            named == self@.names(identity@),
    {
        match &self.holder_identity {
            Some(holder) => *holder == *identity,
            None => false,
        }
    }

    /// Whether somebody holds the lease. A missing or empty holder means that
    /// it was voluntarily released (some candidates write an empty string on
    /// release).
    pub fn is_held(&self) -> (held: bool)
        ensures
            held == self@.is_held(),
    {
        match &self.holder_identity {
            Some(holder) => !holder.as_str().is_empty(),
            None => false,
        }
    }
}

/// Compute the lease spec that makes `identity` the holder, given the
/// previous spec (if the lease already existed).
pub fn next_spec(
    identity: &str,
    lease_duration_seconds: i32,
    prev: Option<&LeaseSpec>,
    now: Timestamp,
) -> (spec: LeaseSpec)
    ensures
        spec@ == next_spec_view(
            identity@,
            lease_duration_seconds,
            match prev {
                Some(prev) => Some(prev@),
                None => None,
            },
            now,
        ),
{
    let holder = identity.to_owned();
    let now = MicroTime(now);
    let (acquire_time, lease_transitions) = match prev {
        None => (Some(now), Some(0)),
        Some(prev) => if prev.names(&holder) {
            (prev.acquire_time, prev.lease_transitions)
        } else {
            let transitions: i32 = prev.lease_transitions.unwrap_or(0);
            let transitions: i32 = if transitions == i32::MAX {
                i32::MAX
            } else {
                transitions + 1
            };
            (Some(now), Some(transitions))
        },
    };
    LeaseSpec {
        holder_identity: Some(holder),
        lease_duration_seconds: Some(lease_duration_seconds),
        acquire_time,
        renew_time: Some(now),
        lease_transitions,
        preferred_holder: None,
        strategy: None,
    }
}

/// Compute the lease spec that marks the lease as no longer held,
/// preserving the transition count for the next holder to increment.
pub fn released_spec(prev: &LeaseSpec) -> (spec: LeaseSpec)
    ensures
        spec@ == released_spec_view(prev@),
{
    LeaseSpec {
        acquire_time: None,
        holder_identity: None,
        lease_duration_seconds: None,
        lease_transitions: prev.lease_transitions,
        preferred_holder: None,
        renew_time: None,
        strategy: None,
    }
}

/// A lease as the API server hands it out: its metadata, which is carried
/// along untouched, and its contents.
#[derive(Debug)]
pub struct Lease<M> {
    pub metadata: M,
    pub spec: Option<LeaseSpec>,
}

/// The mathematical value of a [`Lease`].
pub struct LeaseView<M> {
    pub metadata: M,
    pub spec: Option<LeaseSpecView>,
}

impl<M> View for Lease<M> {
    type V = LeaseView<M>;

    open spec fn view(&self) -> LeaseView<M> {
        LeaseView {
            metadata: self.metadata,
            spec: match self.spec {
                Some(spec) => Some(spec@),
                None => None,
            },
        }
    }
}

impl<M> LeaseView<M> {
    /// The contents of the lease, those of an empty one if it has none.
    pub open spec fn contents(self) -> LeaseSpecView {
        match self.spec {
            Some(spec) => spec,
            None => LeaseSpecView::empty(),
        }
    }
}

impl<M> Lease<M> {
    /// Takes the lease apart into its metadata and its contents.
    pub fn into_parts(self) -> (parts: (M, LeaseSpec))
        ensures
            parts.0 == self@.metadata,
            parts.1@ == self@.contents(),
    {
        let spec = match self.spec {
            Some(spec) => spec,
            None => LeaseSpec::default(),
        };
        (self.metadata, spec)
    }
}

/// A lease that did not exist starts out with no transitions, and its tenure
/// starts now.
pub proof fn law_new_lease_starts_afresh(identity: Seq<char>, seconds: i32, now: Timestamp)
    ensures
        next_spec_view(identity, seconds, None, now).names(identity),
        next_spec_view(identity, seconds, None, now).lease_transitions == Some(0i32),
        next_spec_view(identity, seconds, None, now).acquire_time == Some(MicroTime(now)),
        next_spec_view(identity, seconds, None, now).renew_time == Some(MicroTime(now)),
{
}

/// Renewing a lease preserves when it was acquired and how often it changed
/// hands; only the time of the renewal moves on.
pub proof fn law_renewal_preserves_tenure(
    identity: Seq<char>,
    seconds: i32,
    prev: LeaseSpecView,
    now: Timestamp,
)
    requires
        prev.names(identity),
    ensures
        ({
            let next = next_spec_view(identity, seconds, Some(prev), now);
            &&& next.names(identity)
            &&& next.acquire_time == prev.acquire_time
            &&& next.lease_transitions == prev.lease_transitions
            &&& next.renew_time == Some(MicroTime(now))
        }),
{
}

/// Taking a lease over counts exactly one transition (until the counter is at
/// its largest), and starts a tenure of the new holder.
pub proof fn law_takeover_counts_one_transition(
    identity: Seq<char>,
    seconds: i32,
    prev: LeaseSpecView,
    now: Timestamp,
)
    requires
        !prev.names(identity),
    ensures
        ({
            let next = next_spec_view(identity, seconds, Some(prev), now);
            let before: int = match prev.lease_transitions {
                Some(n) => n as int,
                None => 0,
            };
            &&& next.names(identity)
            &&& next.acquire_time == Some(MicroTime(now))
            &&& next.renew_time == Some(MicroTime(now))
            &&& next.lease_transitions is Some
            &&& before < i32::MAX ==> next.lease_transitions->0 == before + 1
            &&& before == i32::MAX ==> next.lease_transitions->0 == i32::MAX
        }),
{
}

/// A released lease is held by nobody and keeps its count of transitions, for
/// the next holder to increment.
pub proof fn law_release_preserves_transitions(
    identity: Seq<char>,
    seconds: i32,
    prev: LeaseSpecView,
    now: Timestamp,
)
    ensures
        !released_spec_view(prev).is_held(),
        released_spec_view(prev).lease_transitions == prev.lease_transitions,
        released_spec_view(prev).renew_time is None,
        next_spec_view(identity, seconds, Some(released_spec_view(prev)), now).lease_transitions
            == match prev.lease_transitions {
            Some(n) => Some(successor(n)),
            None => Some(1i32),
        },
{
}

/// Claiming or renewing a lease gives it exactly these contents: the claimant as
/// the holder, the duration that it asks for, now as the time of the renewal,
/// and none of what belongs to coordinated leader election.
pub proof fn law_claim_is_complete(
    identity: &str,
    seconds: i32,
    prev: Option<&LeaseSpec>,
    now: Timestamp,
    spec: LeaseSpec,
)
    requires
        call_ensures(next_spec, (identity, seconds, prev, now), spec),
    ensures
        spec.holder_identity is Some && spec.holder_identity->0@ == identity@,
        spec.lease_duration_seconds == Some(seconds),
        spec.renew_time == Some(MicroTime(now)),
        spec.preferred_holder is None,
        spec.strategy is None,
        prev is None ==> spec.acquire_time == Some(MicroTime(now)),
        prev is None ==> spec.lease_transitions == Some(0i32),
        prev matches Some(prev) ==> {
            let ours = prev.holder_identity matches Some(holder) && holder@ == identity@;
            let before: int = match prev.lease_transitions {
                Some(n) => n as int,
                None => 0,
            };
            &&& ours ==> spec.acquire_time == prev.acquire_time
            &&& ours ==> spec.lease_transitions == prev.lease_transitions
            &&& !ours ==> spec.acquire_time == Some(MicroTime(now))
            &&& !ours ==> spec.lease_transitions is Some
            &&& !ours && before < 0x7fff_ffff ==> spec.lease_transitions->0 == before + 1
            &&& !ours && before == 0x7fff_ffff ==> spec.lease_transitions->0 == before
        },
{
}

/// A released lease has a count of transitions, if it had one, and nothing else.
pub proof fn law_release_leaves_only_transitions(prev: LeaseSpec, spec: LeaseSpec)
    requires
        call_ensures(released_spec, (&prev,), spec),
    ensures
        spec.holder_identity is None,
        spec.acquire_time is None,
        spec.renew_time is None,
        spec.lease_duration_seconds is None,
        spec.preferred_holder is None,
        spec.strategy is None,
        spec.lease_transitions == prev.lease_transitions,
{
}

/// Whether two leases have the same contents is a matter of every field: a
/// change of any of them is a change of the lease.
pub proof fn law_every_field_counts(a: LeaseSpec, b: LeaseSpec, same: bool)
    requires
        call_ensures(LeaseSpec::same, (&a, &b), same),
    ensures
        same ==> {
            &&& a.acquire_time == b.acquire_time
            &&& a.renew_time == b.renew_time
            &&& a.lease_duration_seconds == b.lease_duration_seconds
            &&& a.lease_transitions == b.lease_transitions
            &&& same_words(a.holder_identity, b.holder_identity)
            &&& same_words(a.preferred_holder, b.preferred_holder)
            &&& same_words(a.strategy, b.strategy)
        },
        !same ==> !{
            &&& a.acquire_time == b.acquire_time
            &&& a.renew_time == b.renew_time
            &&& a.lease_duration_seconds == b.lease_duration_seconds
            &&& a.lease_transitions == b.lease_transitions
            &&& same_words(a.holder_identity, b.holder_identity)
            &&& same_words(a.preferred_holder, b.preferred_holder)
            &&& same_words(a.strategy, b.strategy)
        },
{
}

/// Whether two strings are both missing, or both there with the same characters.
pub open spec fn same_words(a: Option<String>, b: Option<String>) -> bool {
    ||| a is None && b is None
    ||| a is Some && b is Some && a->0@ == b->0@
}

/// Who holds a lease: somebody exactly if a holder is named and not empty, and
/// the one who is named, letter by letter. A lease without contents is held by
/// nobody.
pub proof fn law_holder_is_the_one_named<M>(spec: LeaseSpec, identity: String, lease: LeaseView<M>)
    ensures
        spec@.is_held() <==> spec.holder_identity is Some && spec.holder_identity->0@.len() > 0,
        spec@.names(identity@) <==> spec.holder_identity is Some && spec.holder_identity->0@
            == identity@,
        lease.spec matches Some(spec) ==> lease.contents() == spec,
        lease.spec is None ==> {
            &&& !lease.contents().is_held()
            &&& lease.contents().lease_transitions is None
            &&& lease.contents().acquire_time is None
            &&& lease.contents().renew_time is None
            &&& lease.contents().lease_duration_seconds is None
            &&& lease.contents().preferred_holder is None
            &&& lease.contents().strategy is None
        },
{
}

} // verus!
