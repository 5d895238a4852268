//! Why an election has one winner at a time.
//!
//! Three things keep two candidates from leading at once. A write that is
//! based on a stale read is refused by the API server, so only one of several
//! concurrent claims succeeds. A candidate claims a lease that another one
//! holds only after it has seen nothing else for a whole lease duration. And a
//! leader that cannot renew the lease steps down before that much time has
//! passed since it last wrote the lease.

use crate::leader_election::{settled, ApiError, HoldEvent, HoldStepView, CONFLICT};
use crate::leader_election::{LeaderElectionView, LeaseEventView, LeaseRequestView, LeaseStepView};
use crate::leader_election::ObservationView;
use crate::lease::{released_spec_view, successor, LeaseSpecView, LeaseView};
use crate::time::{elapsed, MicroTime, Timestamp};
use vstd::prelude::*;

verus! {

/// One read of the lease by a waiting candidate, at `clock` by its own clock.
pub struct Poll {
    pub spec: LeaseSpecView,
    pub clock: nat,
}

/// A waiting candidate reads a lease with these contents.
pub open spec fn reading(spec: LeaseSpecView) -> LeaseEventView<(), ()> {
    LeaseEventView::Fetched(Ok(Some(LeaseView { metadata: (), spec: Some(spec) })))
}

/// Whether a candidate that reads a lease with these contents sends a write.
pub open spec fn takes(
    candidate: LeaderElectionView,
    observed: Option<ObservationView>,
    spec: LeaseSpecView,
    clock: nat,
    now: Timestamp,
) -> bool {
    candidate.acquire_step(observed, reading(spec), clock, now) is Send
}

/// Whether a step asks the API server to give the lease these contents.
pub open spec fn asks<M, K>(step: LeaseStepView<M, K>, spec: LeaseSpecView) -> bool {
    match step {
        LeaseStepView::Send(LeaseRequestView::Create { spec: asked, .. }) => asked == spec,
        LeaseStepView::Send(LeaseRequestView::Replace { lease, .. }) => lease.spec == Some(spec),
        _ => false,
    }
}

/// What a candidate has observed after these reads.
pub open spec fn observed_after(
    candidate: LeaderElectionView,
    polls: Seq<Poll>,
) -> Option<ObservationView>
    decreases polls.len(),
{
    if polls.len() == 0 {
        None
    } else {
        candidate.acquire_observed(
            observed_after(candidate, polls.drop_last()),
            reading(polls.last().spec),
            polls.last().clock,
        )
    }
}

/// Whether the lease, whenever these reads found it held by another candidate,
/// has had the contents `spec` since read `i`, which was the first to find them.
pub open spec fn unchanged_since(
    candidate: LeaderElectionView,
    polls: Seq<Poll>,
    i: int,
    spec: LeaseSpecView,
) -> bool {
    &&& 0 <= i < polls.len()
    &&& polls[i].spec == spec
    &&& forall|j: int|
        i <= j < polls.len() && candidate.foreign(#[trigger] polls[j].spec) ==> polls[j].spec
            == spec
}

/// An observation goes back to a read of the lease that nothing has
/// contradicted since.
proof fn lemma_observation_is_a_poll(candidate: LeaderElectionView, polls: Seq<Poll>)
    ensures
        observed_after(candidate, polls) matches Some(o) ==> exists|i: int|
            #[trigger] unchanged_since(candidate, polls, i, o.spec) && polls[i].clock == o.at,
    decreases polls.len(),
{
    if polls.len() > 0 {
        let before = polls.drop_last();
        lemma_observation_is_a_poll(candidate, before);
        let observed = observed_after(candidate, polls);
        if observed is Some {
            let o = observed->0;
            let n = polls.len() - 1;
            if observed_after(candidate, before) == observed {
                let i = choose|i: int|
                    #[trigger] unchanged_since(candidate, before, i, o.spec) && before[i].clock
                        == o.at;
                assert forall|j: int|
                    i <= j < polls.len() && candidate.foreign(
                        #[trigger] polls[j].spec,
                    ) implies polls[j].spec == o.spec by {
                    if j < n {
                        assert(before[j] == polls[j]);
                    }
                }
                assert(before[i] == polls[i]);
                assert(unchanged_since(candidate, polls, i, o.spec));
            } else {
                assert(unchanged_since(candidate, polls, n, o.spec));
            }
        }
    }
}

/// A candidate takes over a lease that another one holds only if it has seen
/// the lease go unchanged for a full lease duration.
pub proof fn law_takeover_needs_an_unchanged_lease(
    candidate: LeaderElectionView,
    polls: Seq<Poll>,
    spec: LeaseSpecView,
    clock: nat,
    now: Timestamp,
)
    requires
        candidate.foreign(spec),
        takes(candidate, observed_after(candidate, polls), spec, clock, now),
    ensures
        exists|i: int| #[trigger]
            unchanged_since(candidate, polls, i, spec) && elapsed(polls[i].clock, clock)
                >= candidate.lease_duration,
{
    lemma_observation_is_a_poll(candidate, polls);
}

/// A candidate that has seen a held lease go unchanged for a full lease
/// duration takes it over, whatever it saw before: it is enough that some read
/// was that long ago, and that it and all reads since show the same contents.
pub proof fn law_unchanged_lease_is_taken_over(
    candidate: LeaderElectionView,
    polls: Seq<Poll>,
    i: int,
    spec: LeaseSpecView,
    clock: nat,
    now: Timestamp,
)
    requires
        candidate.foreign(spec),
        forall|a: int, b: int|
            0 <= a <= b < polls.len() ==> (#[trigger] polls[a]).clock <= (
            #[trigger] polls[b]).clock,
        0 <= i < polls.len(),
        forall|j: int| i <= j < polls.len() ==> (#[trigger] polls[j]).spec == spec,
        elapsed(polls[i].clock, clock) >= candidate.lease_duration,
    ensures
        candidate.may_claim(observed_after(candidate, polls), spec, clock),
        takes(candidate, observed_after(candidate, polls), spec, clock, now),
{
    lemma_first_sight_counts(candidate, polls, i, spec);
}

/// Seeing the same held lease again does not restart the wait.
proof fn lemma_first_sight_counts(
    candidate: LeaderElectionView,
    polls: Seq<Poll>,
    i: int,
    spec: LeaseSpecView,
)
    requires
        candidate.foreign(spec),
        forall|a: int, b: int|
            0 <= a <= b < polls.len() ==> (#[trigger] polls[a]).clock <= (
            #[trigger] polls[b]).clock,
        0 <= i < polls.len(),
        forall|j: int| i <= j < polls.len() ==> (#[trigger] polls[j]).spec == spec,
    ensures
        observed_after(candidate, polls) matches Some(o) && o.spec == spec && o.at
            <= polls[i].clock,
    decreases polls.len(),
{
    let before = polls.drop_last();
    assert forall|j: int| 0 <= j < before.len() implies before[j] == polls[j] by {}
    assert(polls.last() == polls[polls.len() - 1]);
    if i < before.len() {
        assert forall|j: int| i <= j < before.len() implies (#[trigger] before[j]).spec == spec by {
            assert(before[j] == polls[j]);
        }
        assert forall|a: int, b: int| 0 <= a <= b < before.len() implies (
        #[trigger] before[a]).clock <= (#[trigger] before[b]).clock by {
            assert(before[a] == polls[a] && before[b] == polls[b]);
        }
        lemma_first_sight_counts(candidate, before, i, spec);
    } else {
        lemma_observation_is_a_poll(candidate, before);
        let observed = observed_after(candidate, before);
        if observed is Some && observed->0.spec == spec {
            let k = choose|k: int| #[trigger]
                unchanged_since(candidate, before, k, spec) && before[k].clock == observed->0.at;
            assert(before[k] == polls[k]);
        }
    }
}

/// A change of a lease that another candidate holds restarts the wait: the
/// candidate does not claim the lease, and remembers when it saw the change.
pub proof fn law_change_restarts_the_wait(
    candidate: LeaderElectionView,
    observed: Option<ObservationView>,
    spec: LeaseSpecView,
    clock: nat,
    now: Timestamp,
)
    requires
        candidate.foreign(spec),
        observed matches Some(o) ==> o.spec != spec,
    ensures
        !candidate.may_claim(observed, spec, clock),
        !takes(candidate, observed, spec, clock, now),
        candidate.observe(observed, spec, clock) == Some(ObservationView { spec, at: clock }),
        candidate.acquire_observed(observed, reading(spec), clock) == Some(
            ObservationView { spec, at: clock },
        ),
{
}

/// A renewal is a change that other candidates see, as long as the wall clock
/// of the leader has moved on since the renewal before.
pub proof fn law_renewal_is_a_change(
    leader: LeaderElectionView,
    prev: LeaseSpecView,
    now: Timestamp,
)
    requires
        prev.renew_time != Some(MicroTime(now)),
    ensures
        leader.claim(Some(prev), now) != prev,
{
}

/// The times and the duration that a lease holds do not decide whether a
/// candidate claims it: with others in it, a lease that the candidate has
/// observed, or one that it sees for the first time, is treated just the same.
pub proof fn law_times_in_the_lease_do_not_decide(
    candidate: LeaderElectionView,
    observed: ObservationView,
    spec: LeaseSpecView,
    acquire_time: Option<MicroTime>,
    renew_time: Option<MicroTime>,
    lease_duration_seconds: Option<i32>,
    clock: nat,
    now: Timestamp,
)
    requires
        observed.spec == spec,
    ensures
        ({
            let retimed = LeaseSpecView {
                acquire_time,
                renew_time,
                lease_duration_seconds,
                ..spec
            };
            &&& candidate.may_claim(Some(observed), spec, clock) == candidate.may_claim(
                Some(ObservationView { spec: retimed, ..observed }),
                retimed,
                clock,
            )
            &&& candidate.may_claim(None, spec, clock) == candidate.may_claim(None, retimed, clock)
            &&& takes(candidate, Some(observed), spec, clock, now) == takes(
                candidate,
                Some(ObservationView { spec: retimed, ..observed }),
                retimed,
                clock,
                now,
            )
            &&& takes(candidate, None, spec, clock, now) == takes(
                candidate,
                None,
                retimed,
                clock,
                now,
            )
        }),
{
}

/// The wall clock does not decide whether a candidate claims a lease either.
pub proof fn law_wall_clock_does_not_decide<M, K>(
    candidate: LeaderElectionView,
    observed: Option<ObservationView>,
    event: LeaseEventView<M, K>,
    clock: nat,
    now: Timestamp,
    other: Timestamp,
)
    ensures
        candidate.acquire_step(observed, event, clock, now) is Send == candidate.acquire_step(
            observed,
            event,
            clock,
            other,
        ) is Send,
{
}

/// Only the time that passes on the candidate's own clock counts, not what the
/// clock shows: clocks of different candidates may be set differently.
pub proof fn law_clock_settings_do_not_decide(
    candidate: LeaderElectionView,
    observed: Option<ObservationView>,
    spec: LeaseSpecView,
    clock: nat,
    skew: nat,
    now: Timestamp,
)
    ensures
        ({
            let skewed = match observed {
                Some(o) => Some(ObservationView { spec: o.spec, at: o.at + skew }),
                None => None,
            };
            &&& candidate.may_claim(observed, spec, clock) == candidate.may_claim(
                skewed,
                spec,
                clock + skew,
            )
            &&& takes(candidate, observed, spec, clock, now) == takes(
                candidate,
                skewed,
                spec,
                clock + skew,
                now,
            )
        }),
{
}

/// A lease that was released, or that names an empty holder, can be claimed at
/// once by every candidate, whatever it has observed; the claim counts one
/// transition.
pub proof fn law_free_lease_is_claimed_at_once<M, K>(
    candidate: LeaderElectionView,
    observed: Option<ObservationView>,
    lease: LeaseView<M>,
    clock: nat,
    now: Timestamp,
)
    requires
        candidate.identity.len() > 0,
        !lease.contents().is_held(),
    ensures
        ({
            let claim = candidate.claim(Some(lease.contents()), now);
            &&& candidate.acquire_step::<M, K>(
                observed,
                LeaseEventView::Fetched(Ok(Some(lease))),
                clock,
                now,
            ) == LeaseStepView::<M, K>::Send(candidate.replace(lease, claim))
            &&& claim.names(candidate.identity)
            &&& claim.lease_transitions == match lease.contents().lease_transitions {
                Some(n) => Some(successor(n)),
                None => Some(1i32),
            }
        }),
{
}

/// What the holder writes on release is free for everybody: handing leadership
/// over does not wait for the lease to expire.
pub proof fn law_release_hands_over(
    leader: LeaderElectionView,
    candidate: LeaderElectionView,
    prev: LeaseSpecView,
    observed: Option<ObservationView>,
    clock: nat,
    now: Timestamp,
)
    requires
        prev.names(leader.identity),
    ensures
        candidate.may_claim(observed, released_spec_view(prev), clock),
        asks(leader.release_step(reading(prev)), released_spec_view(prev)),
        takes(candidate, observed, released_spec_view(prev), clock, now),
{
}

/// Renewing and releasing touch only a lease that names us: for every other
/// one, and for none, the attempt ends without a write.
pub proof fn law_only_our_lease_is_renewed_or_released<M, K>(
    election: LeaderElectionView,
    read: Option<LeaseView<M>>,
    now: Timestamp,
)
    requires
        read matches Some(lease) ==> !lease.contents().names(election.identity),
    ensures
        ({
            let event = LeaseEventView::<M, K>::Fetched(Ok(read));
            let stop = LeaseStepView::<M, K>::Done(Ok(false));
            &&& election.renew_step(event, now) == stop
            &&& election.release_step(event) == stop
        }),
{
}

/// The API server's side of the protocol: the lease, with the version that the
/// last write gave it, and how many writes there have been.
pub struct Server {
    pub lease: Option<LeaseView<nat>>,
    pub writes: nat,
}

impl Server {
    /// Versions are never reused.
    pub open spec fn wf(self) -> bool {
        self.lease matches Some(lease) ==> lease.metadata <= self.writes
    }

    /// Whether the server accepts a write: it creates only what does not
    /// exist, and replaces only what has not been updated since it was read.
    pub open spec fn accepts(self, request: LeaseRequestView<nat>) -> bool {
        match request {
            LeaseRequestView::Get { .. } => false,
            LeaseRequestView::Create { .. } => self.lease is None,
            LeaseRequestView::Replace { lease, .. } => self.lease is Some
                && self.lease->0.metadata == lease.metadata,
        }
    }

    /// The contents that a request asks for.
    pub open spec fn asked(request: LeaseRequestView<nat>) -> Option<LeaseSpecView> {
        match request {
            LeaseRequestView::Get { .. } => None,
            LeaseRequestView::Create { spec, .. } => Some(spec),
            LeaseRequestView::Replace { lease, .. } => lease.spec,
        }
    }

    /// The server after a request.
    pub open spec fn serve(self, request: LeaseRequestView<nat>) -> Server {
        if self.accepts(request) {
            Server {
                lease: Some(
                    LeaseView { metadata: self.writes + 1, spec: Self::asked(request) },
                ),
                writes: self.writes + 1,
            }
        } else {
            self
        }
    }

    /// The server after a sequence of requests.
    pub open spec fn serve_all(self, requests: Seq<LeaseRequestView<nat>>) -> Server
        decreases requests.len(),
    {
        if requests.len() == 0 {
            self
        } else {
            self.serve_all(requests.drop_last()).serve(requests.last())
        }
    }

    /// What the sender of a write hears back.
    pub open spec fn reply<K>(self, request: LeaseRequestView<nat>, cause: K) -> Result<
        (),
        ApiError<K>,
    > {
        if self.accepts(request) {
            Ok(())
        } else {
            Err(ApiError::Status { code: CONFLICT, cause })
        }
    }
}

/// The server only ever moves on.
proof fn lemma_server_moves_on(server: Server, requests: Seq<LeaseRequestView<nat>>)
    requires
        server.wf(),
    ensures
        ({
            let after = server.serve_all(requests);
            &&& after.wf()
            &&& after.writes >= server.writes
            &&& after.writes == server.writes ==> after == server
            &&& after.writes > server.writes ==> {
                &&& after.lease is Some
                &&& after.lease->0.metadata > server.writes
            }
        }),
    decreases requests.len(),
{
    if requests.len() > 0 {
        lemma_server_moves_on(server, requests.drop_last());
    }
}

/// The write that a candidate decides on after reading the lease from
/// `server`, if it decides on one.
pub open spec fn claim_after_read<K>(
    candidate: LeaderElectionView,
    observed: Option<ObservationView>,
    server: Server,
    clock: nat,
    now: Timestamp,
) -> LeaseStepView<nat, K> {
    candidate.acquire_step(observed, LeaseEventView::Fetched(Ok(server.lease)), clock, now)
}

/// Of several candidates that read the lease in the same state, at most one
/// acquires it: once a write of anybody has been accepted since a candidate
/// read the lease, its own write is refused, and its attempt ends without the
/// lease.
pub proof fn law_one_winner<K>(
    candidate: LeaderElectionView,
    observed: Option<ObservationView>,
    server: Server,
    others: Seq<LeaseRequestView<nat>>,
    clock: nat,
    now: Timestamp,
    cause: K,
)
    requires
        server.wf(),
        claim_after_read::<K>(candidate, observed, server, clock, now) is Send,
        server.serve_all(others).writes > server.writes,
    ensures
        ({
            let request = claim_after_read::<K>(candidate, observed, server, clock, now)->Send_0;
            let after = server.serve_all(others);
            &&& !after.accepts(request)
            &&& after.serve(request) == after
            &&& candidate.acquire_step::<nat, K>(
                observed,
                LeaseEventView::Written(after.reply(request, cause)),
                clock,
                now,
            ) == LeaseStepView::<nat, K>::Done(Ok(false))
        }),
{
    lemma_server_moves_on(server, others);
}

/// A leader that renews or releases the lease cannot undo what another
/// candidate has written since the leader read the lease: the leader's write
/// is refused. The renewal then counts as failed, so that the leader looks
/// again; the release ends, as there is nothing left to release.
pub proof fn law_stale_renewal_is_refused<K>(
    leader: LeaderElectionView,
    server: Server,
    others: Seq<LeaseRequestView<nat>>,
    now: Timestamp,
    cause: K,
)
    requires
        server.wf(),
        server.serve_all(others).writes > server.writes,
    ensures
        ({
            let after = server.serve_all(others);
            let read = LeaseEventView::<nat, K>::Fetched(Ok(server.lease));
            let conflict = ApiError::Status { code: CONFLICT, cause };
            &&& leader.renew_step(read, now) matches LeaseStepView::Send(request) ==> {
                &&& !after.accepts(request)
                &&& leader.renew_step::<nat, K>(
                    LeaseEventView::Written(after.reply(request, cause)),
                    now,
                ) == LeaseStepView::<nat, K>::Done(Err(conflict))
            }
            &&& leader.release_step(read) matches LeaseStepView::Send(request) ==> {
                &&& !after.accepts(request)
                &&& leader.release_step::<nat, K>(
                    LeaseEventView::Written(after.reply(request, cause)),
                ) == LeaseStepView::<nat, K>::Done(Ok(false))
            }
        }),
{
    lemma_server_moves_on(server, others);
}

/// A candidate whose attempt ends with the lease is the one that the server
/// has as its holder.
pub proof fn law_winner_holds_the_lease<K>(
    candidate: LeaderElectionView,
    observed: Option<ObservationView>,
    server: Server,
    others: Seq<LeaseRequestView<nat>>,
    clock: nat,
    now: Timestamp,
    cause: K,
)
    requires
        server.wf(),
        claim_after_read::<K>(candidate, observed, server, clock, now) is Send,
        ({
            let request = claim_after_read::<K>(candidate, observed, server, clock, now)->Send_0;
            settled(server.serve_all(others).reply(request, cause)) == Ok::<bool, ApiError<K>>(true)
        }),
    ensures
        ({
            let request = claim_after_read::<K>(candidate, observed, server, clock, now)->Send_0;
            let after = server.serve_all(others).serve(request);
            &&& server.serve_all(others) == server
            &&& after.lease is Some
            &&& after.lease->0.contents().names(candidate.identity)
        }),
{
    lemma_server_moves_on(server, others);
}

/// One event of a leader's tenure, at `clock` by its own clock.
pub struct Moment<K> {
    pub event: HoldEvent<K>,
    pub clock: nat,
}

/// Whether an event says that the lease was just written successfully.
pub open spec fn renews<K>(event: HoldEvent<K>) -> bool {
    event is Started || event == HoldEvent::<K>::Renewed(Ok(true))
}

/// Whether `next` is what comes of the step that the leader takes after
/// `moment`, if no timer is more than `slack` late.
pub open spec fn follows<K>(
    leader: LeaderElectionView,
    last_renew: nat,
    moment: Moment<K>,
    next: Moment<K>,
    slack: nat,
) -> bool {
    match leader.hold_step(last_renew, moment.event, moment.clock) {
        HoldStepView::Sleep { period, .. } => {
            &&& next.event is Slept
            &&& moment.clock + period <= next.clock <= moment.clock + period + slack
        },
        HoldStepView::Renew { timeout } => {
            &&& next.event is Renewed || next.event is TimedOut
            &&& moment.clock <= next.clock <= moment.clock + timeout + slack
        },
        HoldStepView::StepDown(_) => false,
    }
}

/// When the lease was last renewed, as the leader has it when moment `i` comes.
pub open spec fn last_renewal<K>(leader: LeaderElectionView, tenure: Seq<Moment<K>>, i: int) -> nat
    decreases i,
{
    if i <= 0 {
        tenure[0].clock
    } else {
        leader.hold_renewed(
            last_renewal(leader, tenure, i - 1),
            tenure[i - 1].event,
            tenure[i - 1].clock,
        )
    }
}

/// What a leader goes through after it last wrote the lease successfully.
pub open spec fn last_tenure<K>(
    leader: LeaderElectionView,
    tenure: Seq<Moment<K>>,
    slack: nat,
) -> bool {
    &&& tenure.len() > 0
    &&& renews(tenure[0].event)
    &&& forall|i: int| 0 < i < tenure.len() ==> !renews((#[trigger] tenure[i]).event)
    &&& forall|i: int|
        0 <= i < tenure.len() - 1 ==> follows(
            leader,
            last_renewal(leader, tenure, i),
            #[trigger] tenure[i],
            tenure[i + 1],
            slack,
        )
}

/// During a last tenure, the last renewal is the one that it starts with.
proof fn lemma_tenure_starts_with_last_renewal<K>(
    leader: LeaderElectionView,
    tenure: Seq<Moment<K>>,
    slack: nat,
    i: int,
)
    requires
        last_tenure(leader, tenure, slack),
        0 <= i <= tenure.len(),
    ensures
        last_renewal(leader, tenure, i) == tenure[0].clock,
    decreases i,
{
    if i > 0 {
        lemma_tenure_starts_with_last_renewal(leader, tenure, slack, i - 1);
        if i > 1 {
            assert(!renews(tenure[i - 1].event));
        }
    }
}

/// How late each kind of moment in a tenure can come.
proof fn lemma_moment_in_time<K>(
    leader: LeaderElectionView,
    tenure: Seq<Moment<K>>,
    slack: nat,
    i: int,
)
    requires
        leader.valid(),
        last_tenure(leader, tenure, slack),
        0 <= i < tenure.len(),
    ensures
        ({
            let start = tenure[0].clock;
            let deadline = start + leader.renew_deadline;
            let clock = tenure[i].clock;
            &&& clock >= start
            &&& match leader.hold_step(start, tenure[i].event, clock) {
                HoldStepView::Sleep { period, .. } => clock + period <= deadline,
                HoldStepView::Renew { .. } => clock <= deadline + slack,
                HoldStepView::StepDown(_) => clock <= deadline + 2 * slack,
            }
        }),
    decreases i,
{
    if i > 0 {
        lemma_moment_in_time(leader, tenure, slack, i - 1);
        lemma_tenure_starts_with_last_renewal(leader, tenure, slack, i - 1);
        assert(follows(leader, tenure[0].clock, tenure[i - 1], tenure[i - 1 + 1], slack));
        assert(!renews(tenure[i].event));
    }
}

/// A leader that cannot renew the lease stops acting as the leader: nothing of
/// its tenure happens later than the renew deadline after the last renewal, but
/// for the lateness of two timers.
pub proof fn law_leader_stops_in_time<K>(
    leader: LeaderElectionView,
    tenure: Seq<Moment<K>>,
    slack: nat,
)
    requires
        leader.valid(),
        last_tenure(leader, tenure, slack),
    ensures
        forall|i: int|
            0 <= i < tenure.len() ==> (#[trigger] tenure[i]).clock <= tenure[0].clock
                + leader.renew_deadline + 2 * slack,
{
    assert forall|i: int| 0 <= i < tenure.len() implies (#[trigger] tenure[i]).clock
        <= tenure[0].clock + leader.renew_deadline + 2 * slack by {
        lemma_moment_in_time(leader, tenure, slack, i);
    }
}

/// Every attempt to renew the lease is bounded by the renew deadline: if there
/// is time left, the attempt gets all of it and no more, and else none.
pub proof fn law_renewal_is_bounded_by_the_deadline<K>(
    leader: LeaderElectionView,
    last_renew: nat,
    clock: nat,
)
    requires
        last_renew <= clock,
    ensures
        ({
            let deadline = last_renew + leader.renew_deadline;
            let step = leader.hold_step::<K>(last_renew, HoldEvent::Slept, clock);
            &&& step is Renew
            &&& clock < deadline ==> step->timeout > 0 && clock + step->timeout == deadline
            &&& clock >= deadline ==> step->timeout == 0
        }),
{
}

/// A leader whose renewal fails or ends at or after the renew deadline steps
/// down, unless the lease turns out to be renewed after all.
pub proof fn law_deadline_ends_leadership<K>(
    leader: LeaderElectionView,
    last_renew: nat,
    event: HoldEvent<K>,
    clock: nat,
)
    requires
        event is Renewed || event is TimedOut,
        !renews(event),
        clock >= last_renew + leader.renew_deadline,
    ensures
        leader.hold_step(last_renew, event, clock) is StepDown,
{
}

/// Only one replica leads at a time. Let `leader` have written `written` at
/// `write_time` and heard of it at the first moment of `tenure`, and let
/// `candidate` be about to take the lease over at `clock`, all on one time
/// axis. If the leader's renew deadline and the lateness of its timers,
/// together with the time that the write took to be confirmed, do not exceed
/// the candidate's lease duration, then the leader's tenure is over by then.
pub proof fn law_mutual_exclusion<K>(
    leader: LeaderElectionView,
    tenure: Seq<Moment<K>>,
    slack: nat,
    written: LeaseSpecView,
    write_time: nat,
    candidate: LeaderElectionView,
    polls: Seq<Poll>,
    clock: nat,
    now: Timestamp,
)
    requires
        leader.valid(),
        candidate.valid(),
        last_tenure(leader, tenure, slack),
        candidate.foreign(written),
        forall|j: int|
            0 <= j < polls.len() && (#[trigger] polls[j]).spec == written ==> polls[j].clock
                >= write_time,
        takes(candidate, observed_after(candidate, polls), written, clock, now),
        tenure[0].clock + leader.renew_deadline + 2 * slack <= write_time
            + candidate.lease_duration,
    ensures
        forall|i: int| 0 <= i < tenure.len() ==> (#[trigger] tenure[i]).clock <= clock,
{
    law_leader_stops_in_time(leader, tenure, slack);
    law_takeover_needs_an_unchanged_lease(candidate, polls, written, clock, now);
    let i = choose|i: int| #[trigger]
        unchanged_since(candidate, polls, i, written) && elapsed(polls[i].clock, clock)
            >= candidate.lease_duration;
    assert(polls[i].spec == written);
}

/// A renew deadline that is less than the lease duration is enough, if nothing
/// is late: a leader that cannot reach the API server any more gives up before
/// another candidate with the same lease duration can take the lease over,
/// whatever the retry period is.
pub proof fn law_leader_gives_up_before_takeover<K>(
    leader: LeaderElectionView,
    tenure: Seq<Moment<K>>,
    written: LeaseSpecView,
    candidate: LeaderElectionView,
    polls: Seq<Poll>,
    clock: nat,
    now: Timestamp,
)
    requires
        leader.valid(),
        candidate.valid(),
        candidate.lease_duration == leader.lease_duration,
        last_tenure(leader, tenure, 0),
        candidate.foreign(written),
        forall|j: int|
            0 <= j < polls.len() && (#[trigger] polls[j]).spec == written ==> polls[j].clock
                >= tenure[0].clock,
        takes(candidate, observed_after(candidate, polls), written, clock, now),
    ensures
        forall|i: int| 0 <= i < tenure.len() ==> (#[trigger] tenure[i]).clock < clock,
{
    law_leader_stops_in_time(leader, tenure, 0);
    law_takeover_needs_an_unchanged_lease(candidate, polls, written, clock, now);
    let i = choose|i: int| #[trigger]
        unchanged_since(candidate, polls, i, written) && elapsed(polls[i].clock, clock)
            >= candidate.lease_duration;
    assert(polls[i].spec == written);
}

/// A write of the lease that the API server accepted at `time`.
pub struct Write {
    pub by: LeaderElectionView,
    pub spec: LeaseSpecView,
    pub time: nat,
}

/// Whether `write` claims the lease as a candidate does that decided on it at
/// `clock`, after these reads. No read shows contents before they are written.
pub open spec fn claims(
    prev: Option<Write>,
    write: Write,
    polls: Seq<Poll>,
    clock: nat,
    now: Timestamp,
) -> bool {
    &&& clock <= write.time
    &&& match prev {
        Some(prev) => {
            &&& asks(
                write.by.acquire_step(
                    observed_after(write.by, polls),
                    reading(prev.spec),
                    clock,
                    now,
                ),
                write.spec,
            )
            &&& forall|j: int|
                0 <= j < polls.len() && (#[trigger] polls[j]).spec == prev.spec ==> polls[j].clock
                    >= prev.time
        },
        None => asks(
            write.by.acquire_step(
                observed_after(write.by, polls),
                LeaseEventView::<(), ()>::Fetched(Ok(None)),
                clock,
                now,
            ),
            write.spec,
        ),
    }
}

/// Whether `write` renews the lease as its holder does.
pub open spec fn renewal(prev: Write, write: Write, now: Timestamp) -> bool {
    asks(write.by.renew_step(reading(prev.spec), now), write.spec)
}

/// Whether `write` releases the lease as its holder does.
pub open spec fn release(prev: Write, write: Write) -> bool {
    asks(write.by.release_step(reading(prev.spec)), write.spec)
}

/// Whether `write` respects the lease that it finds: it claims, renews or
/// releases it by the rules.
pub open spec fn respects(prev: Option<Write>, write: Write) -> bool {
    ||| exists|polls: Seq<Poll>, clock: nat, now: Timestamp|
        #[trigger] claims(prev, write, polls, clock, now)
    ||| prev is Some && exists|now: Timestamp| #[trigger] renewal(prev->0, write, now)
    ||| prev is Some && release(prev->0, write)
}

/// The write before the one with this index, if there is one.
pub open spec fn before(writes: Seq<Write>, k: int) -> Option<Write> {
    if k > 0 {
        Some(writes[k - 1])
    } else {
        None
    }
}

/// What has happened to a lease, among candidates that respect it.
pub struct History<K> {
    /// The writes that the API server accepted, in their order. Each is based
    /// on the contents that the write before it left (see [`law_one_winner`]).
    pub writes: Seq<Write>,
    /// For each write, what its author went through as the leader after it
    /// heard of that write, until it heard of a later one; nothing, if it did
    /// not hear of it in time.
    pub tenures: Seq<Seq<Moment<K>>>,
}

impl<K> History<K> {
    /// Whether the writes are in order, and each respects the one before it.
    pub open spec fn orderly(self) -> bool {
        &&& forall|k: int|
            0 <= k < self.writes.len() ==> {
                &&& (#[trigger] self.writes[k]).by.valid()
                &&& respects(before(self.writes, k), self.writes[k])
            }
        &&& forall|a: int, b: int|
            0 <= a <= b < self.writes.len() ==> (#[trigger] self.writes[a]).time <= (
            #[trigger] self.writes[b]).time
    }

    /// Whether leaders hear of their writes within `latency`, whether no timer
    /// is more than `slack` late, and whether leaders release the lease only
    /// after they have stopped.
    pub open spec fn timely(self, slack: nat, latency: nat) -> bool {
        &&& self.tenures.len() == self.writes.len()
        &&& forall|k: int|
            0 <= k < self.writes.len() && (#[trigger] self.tenures[k]).len() > 0 ==> {
                &&& last_tenure(self.writes[k].by, self.tenures[k], slack)
                &&& self.writes[k].spec.names(self.writes[k].by.identity)
                &&& self.writes[k].time <= self.tenures[k][0].clock <= self.writes[k].time + latency
            }
        &&& forall|a: int, b: int, i: int|
            0 <= a < b < self.writes.len() && 0 <= i < self.tenures[a].len() && release(
                self.writes[b - 1],
                #[trigger] self.writes[b],
            ) && self.writes[a].by.identity == self.writes[b].by.identity ==> (
            #[trigger] self.tenures[a][i]).clock <= self.writes[b].time
    }

    /// Whether the timings leave room for that: every leader stops within the
    /// lease duration of every candidate.
    pub open spec fn roomy(self, slack: nat, latency: nat) -> bool {
        forall|a: int, b: int|
            0 <= a < self.writes.len() && 0 <= b < self.writes.len() ==> latency + (
            #[trigger] self.writes[a]).by.renew_deadline + 2 * slack <= (
            #[trigger] self.writes[b]).by.lease_duration
    }
}

/// The first write after `a`, up to `b`, that does not name the holder that
/// `a` names.
proof fn lemma_first_change(writes: Seq<Write>, holder: Seq<char>, a: int, b: int) -> (c: int)
    requires
        0 <= a < b < writes.len(),
        writes[a].spec.names(holder),
        !writes[b].spec.names(holder),
    ensures
        a < c <= b,
        !writes[c].spec.names(holder),
        writes[c - 1].spec.names(holder),
    decreases b - a,
{
    if writes[a + 1].spec.names(holder) {
        lemma_first_change(writes, holder, a + 1, b)
    } else {
        a + 1
    }
}

/// A moment of a leader's tenure is over when the lease passes on.
proof fn lemma_tenure_ends_before_change<K>(
    history: History<K>,
    slack: nat,
    latency: nat,
    a: int,
    c: int,
    i: int,
)
    requires
        history.orderly(),
        history.timely(slack, latency),
        history.roomy(slack, latency),
        0 <= a < c < history.writes.len(),
        0 <= i < history.tenures[a].len(),
        history.writes[c - 1].spec.names(history.writes[a].by.identity),
        !history.writes[c].spec.names(history.writes[a].by.identity),
    ensures
        history.tenures[a][i].clock <= history.writes[c].time,
{
    let writes = history.writes;
    let leader = writes[a].by;
    let prev = writes[c - 1];
    let write = writes[c];
    assert(history.tenures[a].len() > 0);
    law_leader_stops_in_time(leader, history.tenures[a], slack);
    assert(respects(before(writes, c), write));
    if exists|polls: Seq<Poll>, clock: nat, now: Timestamp| #[trigger]
        claims(Some(prev), write, polls, clock, now) {
        let (polls, clock, now) = choose|polls: Seq<Poll>, clock: nat, now: Timestamp| #[trigger]
            claims(Some(prev), write, polls, clock, now);
        assert(write.spec.names(write.by.identity));
        assert(write.by.foreign(prev.spec));
        law_takeover_needs_an_unchanged_lease(write.by, polls, prev.spec, clock, now);
        let j = choose|j: int| #[trigger]
            unchanged_since(write.by, polls, j, prev.spec) && elapsed(polls[j].clock, clock)
                >= write.by.lease_duration;
        assert(polls[j].spec == prev.spec);
        assert(writes[a].time <= writes[c - 1].time);
    } else if release(prev, write) {
        assert(release(writes[c - 1], writes[c]));
    } else {
        let now = choose|now: Timestamp| #[trigger] renewal(prev, write, now);
        assert(write.spec.names(write.by.identity));
    }
}

/// Only one replica leads at a time, however often the lease changes hands.
/// Among candidates that respect the lease, whose timers and requests are
/// timely, and whose timings leave room for the lateness that remains, nothing
/// that one leader does comes after anything that a later leader does.
pub proof fn law_one_leader_at_a_time<K>(
    history: History<K>,
    slack: nat,
    latency: nat,
    a: int,
    b: int,
    i: int,
    j: int,
)
    requires
        history.orderly(),
        history.timely(slack, latency),
        history.roomy(slack, latency),
        0 <= a < b < history.writes.len(),
        history.writes[a].by.identity != history.writes[b].by.identity,
        0 <= i < history.tenures[a].len(),
        0 <= j < history.tenures[b].len(),
    ensures
        history.tenures[a][i].clock <= history.tenures[b][j].clock,
{
    let writes = history.writes;
    let holder = writes[a].by.identity;
    assert(history.tenures[a].len() > 0 && history.tenures[b].len() > 0);
    let c = lemma_first_change(writes, holder, a, b);
    lemma_tenure_ends_before_change(history, slack, latency, a, c, i);
    assert(writes[c].time <= writes[b].time);
    lemma_moment_in_time(writes[b].by, history.tenures[b], slack, j);
}

} // verus!
