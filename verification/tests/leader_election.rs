//! Leader election: the contents of the lease, and the decisions of candidates
//! and leaders.

use k8s_controller::leader_election::{
    AcquireStep, ApiError, ConfigError, HoldEvent, HoldStep, LeaseEvent, LeaseRequest, LeaseStep,
    Observation, ReleaseReport, RetryCause, StepDown,
};
use k8s_controller::lease::{next_spec, released_spec, Lease, LeaseSpec};
use k8s_controller::time::{Duration, Instant, MicroTime, Timestamp};
use k8s_controller::LeaderElection;

type Event = LeaseEvent<u32, &'static str>;
type Step = LeaseStep<u32, &'static str>;

fn timestamp(text: &str) -> Timestamp {
    let parsed: k8s_openapi::jiff::Timestamp = text.parse().unwrap();
    Timestamp { nanosecond: parsed.as_nanosecond() }
}

fn now() -> Timestamp {
    timestamp("2026-07-22T00:00:00Z")
}

fn at(secs: u64) -> Instant {
    Instant::at(Duration::from_secs(secs))
}

fn held_by(holder: &str, renewed: i128, transitions: i32) -> LeaseSpec {
    LeaseSpec {
        holder_identity: Some(holder.to_owned()),
        lease_duration_seconds: Some(15),
        acquire_time: Some(MicroTime(Timestamp { nanosecond: 0 })),
        renew_time: Some(MicroTime(Timestamp { nanosecond: renewed })),
        lease_transitions: Some(transitions),
        ..Default::default()
    }
}

fn us() -> LeaderElection {
    LeaderElection::new("default", "the-lease", "us")
}

fn conflict() -> ApiError<&'static str> {
    ApiError::Status { code: 409, cause: "conflict" }
}

fn broken() -> ApiError<&'static str> {
    ApiError::Other { cause: "connection reset" }
}

fn read(version: u32, spec: LeaseSpec) -> Event {
    LeaseEvent::Fetched(Ok(Some(Lease { metadata: version, spec: Some(spec) })))
}

/// The version and the contents of a lease that is to be replaced.
fn replaced(step: Step) -> (u32, LeaseSpec) {
    match step {
        LeaseStep::Send(LeaseRequest::Replace { name, lease }) => {
            assert_eq!(name, "the-lease");
            (lease.metadata, lease.spec.unwrap())
        }
        other => panic!("expected a replacement, got {other:?}"),
    }
}

fn done(step: Step) -> Result<bool, ApiError<&'static str>> {
    match step {
        LeaseStep::Done(result) => result,
        other => panic!("expected the end of the attempt, got {other:?}"),
    }
}

fn gets(step: Step) -> bool {
    matches!(step, LeaseStep::Send(LeaseRequest::Get { name }) if name == "the-lease")
}

#[test]
fn fresh_acquire() {
    let spec = next_spec("us", 15, None, now());
    assert_eq!(spec.holder_identity.as_deref(), Some("us"));
    assert_eq!(spec.lease_duration_seconds, Some(15));
    assert_eq!(spec.acquire_time, Some(MicroTime(now())));
    assert_eq!(spec.renew_time, Some(MicroTime(now())));
    assert_eq!(spec.lease_transitions, Some(0));
}

#[test]
fn renewal_preserves_acquire_time_and_transitions() {
    let acquired: Timestamp = timestamp("2026-07-21T00:00:00Z");
    let prev = LeaseSpec {
        holder_identity: Some("us".to_owned()),
        lease_duration_seconds: Some(15),
        acquire_time: Some(MicroTime(acquired)),
        renew_time: Some(MicroTime(acquired)),
        lease_transitions: Some(3),
        ..Default::default()
    };
    let spec = next_spec("us", 15, Some(&prev), now());
    assert_eq!(spec.holder_identity.as_deref(), Some("us"));
    assert_eq!(spec.acquire_time, Some(MicroTime(acquired)));
    assert_eq!(spec.renew_time, Some(MicroTime(now())));
    assert_eq!(spec.lease_transitions, Some(3));
}

#[test]
fn takeover_increments_transitions() {
    let prev = LeaseSpec {
        holder_identity: Some("them".to_owned()),
        lease_duration_seconds: Some(15),
        acquire_time: Some(MicroTime(now())),
        renew_time: Some(MicroTime(now())),
        lease_transitions: Some(3),
        ..Default::default()
    };
    let spec = next_spec("us", 15, Some(&prev), now());
    assert_eq!(spec.holder_identity.as_deref(), Some("us"));
    assert_eq!(spec.acquire_time, Some(MicroTime(now())));
    assert_eq!(spec.lease_transitions, Some(4));
}

#[test]
fn release_clears_holder_and_preserves_transitions() {
    let prev = LeaseSpec {
        holder_identity: Some("us".to_owned()),
        lease_duration_seconds: Some(15),
        acquire_time: Some(MicroTime(now())),
        renew_time: Some(MicroTime(now())),
        lease_transitions: Some(3),
        ..Default::default()
    };
    let spec = released_spec(&prev);
    assert_eq!(spec.holder_identity, None);
    assert_eq!(spec.lease_transitions, Some(3));
    assert_eq!(spec.renew_time, None);
}

#[test]
fn transitions_start_counting_and_saturate() {
    let unset = LeaseSpec { holder_identity: Some("them".to_owned()), ..Default::default() };
    assert_eq!(next_spec("us", 15, Some(&unset), now()).lease_transitions, Some(1));
    let full = held_by("them", 1, i32::MAX);
    assert_eq!(next_spec("us", 15, Some(&full), now()).lease_transitions, Some(i32::MAX));
    let unset_but_ours = LeaseSpec { holder_identity: Some("us".to_owned()), ..Default::default() };
    assert_eq!(next_spec("us", 15, Some(&unset_but_ours), now()).lease_transitions, None);
}

#[test]
fn claims_and_releases_drop_coordination_fields() {
    let prev = LeaseSpec {
        preferred_holder: Some("somebody".to_owned()),
        strategy: Some("OldestEmulationVersion".to_owned()),
        ..held_by("us", 1, 2)
    };
    let next = next_spec("us", 15, Some(&prev), now());
    assert_eq!(next.preferred_holder, None);
    assert_eq!(next.strategy, None);
    assert_eq!(released_spec(&prev), LeaseSpec { lease_transitions: Some(2), ..Default::default() });
}

#[test]
fn contents_are_compared_in_every_field() {
    let spec = held_by("them", 1, 2);
    assert!(spec.same(&held_by("them", 1, 2)));
    assert!(!spec.same(&held_by("other", 1, 2)));
    assert!(!spec.same(&held_by("them", 2, 2)));
    assert!(!spec.same(&held_by("them", 1, 3)));
    assert!(!spec.same(&LeaseSpec { acquire_time: None, ..held_by("them", 1, 2) }));
    assert!(!spec.same(&LeaseSpec { lease_duration_seconds: None, ..held_by("them", 1, 2) }));
    assert!(!spec.same(&LeaseSpec { strategy: Some(String::new()), ..held_by("them", 1, 2) }));
    assert!(!spec.same(&LeaseSpec {
        preferred_holder: Some(String::new()),
        ..held_by("them", 1, 2)
    }));
}

#[test]
fn defaults_are_those_of_client_go() {
    let election = us();
    assert_eq!(election.namespace(), "default");
    assert_eq!(election.lease_name(), "the-lease");
    assert_eq!(election.identity(), "us");
    assert_eq!(election.lease_duration_seconds(), 15);
    assert_eq!(election.validate(), Ok(()));
    // the retry period
    match election.acquire::<&str>(Ok(false)) {
        AcquireStep::Retry { after, .. } => assert_eq!(after, Duration::from_secs(2)),
        other => panic!("got {other:?}"),
    }
    // the renew deadline
    let mut last_renew = at(0);
    match election.hold::<&str>(&mut last_renew, HoldEvent::Slept, at(0)) {
        HoldStep::Renew { timeout } => assert_eq!(timeout, Duration::from_secs(10)),
        other => panic!("got {other:?}"),
    }
}

#[test]
fn configuration_is_validated() {
    assert_eq!(
        LeaderElection::new("default", "the-lease", "").validate(),
        Err(ConfigError::EmptyIdentity)
    );
    assert_eq!(
        us().with_renew_deadline(Duration::from_secs(15)).validate(),
        Err(ConfigError::RenewDeadlineTooLong)
    );
    assert_eq!(
        us().with_lease_duration(Duration::from_secs(9)).validate(),
        Err(ConfigError::RenewDeadlineTooLong)
    );
    assert_eq!(
        us().with_retry_period(Duration::from_secs(10)).validate(),
        Err(ConfigError::RetryPeriodTooLong)
    );
    assert_eq!(
        us().with_retry_period(Duration::from_millis(9999)).validate(),
        Ok(())
    );
    assert_eq!(ConfigError::EmptyIdentity.message(), "identity must not be empty");
    assert_eq!(
        ConfigError::RenewDeadlineTooLong.message(),
        "renew_deadline must be less than lease_duration"
    );
    assert_eq!(
        ConfigError::RetryPeriodTooLong.message(),
        "retry_period must be less than renew_deadline"
    );
}

#[test]
fn lease_duration_is_rounded_down_and_capped() {
    let rounded = us().with_lease_duration(Duration::from_millis(15_999));
    assert_eq!(rounded.lease_duration_seconds(), 15);
    let capped = us().with_lease_duration(Duration::from_secs(1 << 40));
    assert_eq!(capped.lease_duration_seconds(), i32::MAX);
}

#[test]
fn a_clone_behaves_alike() {
    let election = us().with_lease_duration(Duration::from_secs(60)).clone();
    assert_eq!(election.identity(), "us");
    assert_eq!(election.lease_duration_seconds(), 60);
}

#[test]
fn missing_lease_is_created() {
    let mut observed: Option<Observation> = None;
    assert!(gets(us().try_acquire_at(&mut observed, Event::Started, at(0), now())));
    match us().try_acquire_at(&mut observed, Event::Fetched(Ok(None)), at(0), now()) {
        LeaseStep::Send(LeaseRequest::Create { name, spec }) => {
            assert_eq!(name, "the-lease");
            assert!(spec.same(&next_spec("us", 15, None, now())));
        }
        other => panic!("got {other:?}"),
    }
    assert!(observed.is_none());
}

#[test]
fn outcome_of_a_claim() {
    let mut observed: Option<Observation> = None;
    let written = us().try_acquire_at(&mut observed, Event::Written(Ok(())), at(0), now());
    assert_eq!(done(written), Ok(true));
    let lost = us().try_acquire_at(&mut observed, Event::Written(Err(conflict())), at(0), now());
    assert_eq!(done(lost), Ok(false));
    let failed = us().try_acquire_at(&mut observed, Event::Written(Err(broken())), at(0), now());
    assert_eq!(done(failed), Err(broken()));
    let unread = us().try_acquire_at(&mut observed, Event::Fetched(Err(conflict())), at(0), now());
    assert_eq!(done(unread), Err(conflict()));
}

#[test]
fn our_own_lease_is_claimed_again_without_waiting() {
    let mut observed: Option<Observation> = None;
    let step = us().try_acquire_at(&mut observed, read(7, held_by("us", 1, 3)), at(0), now());
    let (version, spec) = replaced(step);
    assert_eq!(version, 7);
    assert_eq!(spec.acquire_time, Some(MicroTime(Timestamp { nanosecond: 0 })));
    assert_eq!(spec.lease_transitions, Some(3));
    assert_eq!(spec.renew_time, Some(MicroTime(now())));
}

#[test]
fn free_lease_is_claimed_at_once() {
    for free in [
        LeaseSpec::default(),
        released_spec(&held_by("them", 1, 3)),
        LeaseSpec { holder_identity: Some(String::new()), ..held_by("them", 1, 3) },
    ] {
        let mut observed: Option<Observation> = None;
        let (version, spec) = replaced(us().try_acquire_at(&mut observed, read(4, free), at(0), now()));
        assert_eq!(version, 4);
        assert_eq!(spec.holder_identity.as_deref(), Some("us"));
        assert!(observed.is_none());
    }
    // a lease without any contents
    let mut observed: Option<Observation> = None;
    let bare = Event::Fetched(Ok(Some(Lease { metadata: 5, spec: None })));
    let (version, spec) = replaced(us().try_acquire_at(&mut observed, bare, at(0), now()));
    assert_eq!(version, 5);
    assert_eq!(spec.lease_transitions, Some(1));
}

#[test]
fn released_lease_is_taken_with_one_transition() {
    let mut observed: Option<Observation> = None;
    let released = released_spec(&held_by("them", 1, 3));
    let (_, spec) = replaced(us().try_acquire_at(&mut observed, read(1, released), at(0), now()));
    assert_eq!(spec.lease_transitions, Some(4));
    assert_eq!(spec.acquire_time, Some(MicroTime(now())));
}

#[test]
fn held_lease_is_taken_over_only_after_the_lease_duration() {
    let mut observed: Option<Observation> = None;
    let poll = |observed: &mut Option<Observation>, renewed: i128, clock: Instant| {
        us().try_acquire_at(observed, read(1, held_by("them", renewed, 3)), clock, now())
    };
    assert_eq!(done(poll(&mut observed, 1, at(100))), Ok(false));
    assert_eq!(done(poll(&mut observed, 1, at(110))), Ok(false));
    // the holder renews the lease, so the wait starts over
    assert_eq!(done(poll(&mut observed, 2, at(114))), Ok(false));
    assert_eq!(done(poll(&mut observed, 2, at(116))), Ok(false));
    let early = Instant::at(Duration::new(128, 999_999_999));
    assert_eq!(done(poll(&mut observed, 2, early)), Ok(false));
    let (version, spec) = replaced(poll(&mut observed, 2, at(129)));
    assert_eq!(version, 1);
    assert_eq!(spec.holder_identity.as_deref(), Some("us"));
    assert_eq!(spec.lease_transitions, Some(4));
}

#[test]
fn times_in_the_lease_do_not_expire_it() {
    // renewed long ago by the wall clock, but seen for the first time
    let mut observed: Option<Observation> = None;
    let step = us().try_acquire_at(&mut observed, read(1, held_by("them", 0, 3)), at(100_000), now());
    assert_eq!(done(step), Ok(false));
    let seen = observed.unwrap();
    assert!(seen.spec.same(&held_by("them", 0, 3)));
    assert_eq!(seen.at, at(100_000));
}

#[test]
fn only_one_of_two_claims_wins() {
    // both candidates read version 1; the server has moved on when the second
    // one writes
    let mut server_version = 1;
    let mut attempt = |identity: &str| {
        let election = LeaderElection::new("default", "the-lease", identity);
        let mut observed: Option<Observation> = None;
        let free = read(1, LeaseSpec::default());
        let (version, _) = replaced(election.try_acquire_at(&mut observed, free, at(0), now()));
        let written = if version == server_version {
            server_version += 1;
            Ok(())
        } else {
            Err(conflict())
        };
        done(election.try_acquire_at(&mut observed, Event::Written(written), at(0), now()))
    };
    assert_eq!(attempt("a"), Ok(true));
    assert_eq!(attempt("b"), Ok(false));
}

#[test]
fn attempts_are_repeated_until_one_succeeds() {
    assert!(matches!(us().acquire::<&str>(Ok(true)), AcquireStep::Acquired));
    assert!(matches!(
        us().acquire::<&str>(Ok(false)),
        AcquireStep::Retry { cause: RetryCause::HeldByAnother, .. }
    ));
    for code in [401, 403] {
        let denied = ApiError::Status { code, cause: "denied" };
        assert!(matches!(
            us().acquire(Err(denied)),
            AcquireStep::Retry { cause: RetryCause::NotPermitted(_), .. }
        ));
    }
    for failure in [broken(), conflict(), ApiError::Status { code: 500, cause: "oops" }] {
        assert!(matches!(
            us().acquire(Err(failure)),
            AcquireStep::Retry { cause: RetryCause::Failed(_), .. }
        ));
    }
}

#[test]
fn renewal_of_our_lease() {
    assert!(gets(us().renew_at(Event::Started, now())));
    let (version, spec) = replaced(us().renew_at(read(9, held_by("us", 1, 3)), now()));
    assert_eq!(version, 9);
    assert_eq!(spec.renew_time, Some(MicroTime(now())));
    assert_eq!(spec.acquire_time, Some(MicroTime(Timestamp { nanosecond: 0 })));
    assert_eq!(done(us().renew_at(Event::Written(Ok(())), now())), Ok(true));
    // a lost renewal is an error, not the end of the tenure
    assert_eq!(done(us().renew_at(Event::Written(Err(conflict())), now())), Err(conflict()));
}

#[test]
fn renewal_of_a_lost_lease() {
    assert_eq!(done(us().renew_at(read(9, held_by("them", 1, 3)), now())), Ok(false));
    assert_eq!(done(us().renew_at(read(9, LeaseSpec::default()), now())), Ok(false));
    assert_eq!(done(us().renew_at(Event::Fetched(Ok(None)), now())), Ok(false));
    assert_eq!(done(us().renew_at(Event::Fetched(Err(broken())), now())), Err(broken()));
}

fn timeout(step: HoldStep<&'static str>) -> Duration {
    match step {
        HoldStep::Renew { timeout } => timeout,
        other => panic!("expected a renewal, got {other:?}"),
    }
}

/// For how long to sleep, and after which failure.
fn sleep(step: HoldStep<&'static str>) -> (Duration, Option<ApiError<&'static str>>) {
    match step {
        HoldStep::Sleep { period, failure } => (period, failure),
        other => panic!("expected a sleep, got {other:?}"),
    }
}

fn sleeps(step: HoldStep<&'static str>) -> Option<ApiError<&'static str>> {
    let (period, failure) = sleep(step);
    assert_eq!(period, Duration::from_secs(2));
    failure
}

#[test]
fn leader_renews_until_the_lease_is_taken() {
    let mut last_renew = at(0);
    assert_eq!(sleeps(us().hold(&mut last_renew, HoldEvent::Started, at(50))), None);
    assert_eq!(last_renew, at(50));
    let slept = us().hold(&mut last_renew, HoldEvent::Slept, at(52));
    assert_eq!(timeout(slept), Duration::from_secs(8));
    assert_eq!(sleeps(us().hold(&mut last_renew, HoldEvent::Renewed(Ok(true)), at(53))), None);
    assert_eq!(last_renew, at(53));
    let taken = us().hold::<&str>(&mut last_renew, HoldEvent::Renewed(Ok(false)), at(55));
    assert!(matches!(taken, HoldStep::StepDown(StepDown::TakenOver)));
    assert_eq!(last_renew, at(53));
}

#[test]
fn leader_gives_up_at_the_renew_deadline() {
    let mut last_renew = at(0);
    us().hold::<&str>(&mut last_renew, HoldEvent::Started, at(0));
    let failed = us().hold(&mut last_renew, HoldEvent::Renewed(Err(broken())), at(8));
    assert_eq!(sleep(failed), (Duration::from_secs(2), Some(broken())));
    let failed = us().hold(&mut last_renew, HoldEvent::Renewed(Err(broken())), at(9));
    assert_eq!(sleep(failed), (Duration::from_secs(1), Some(broken())));
    let slept = us().hold(&mut last_renew, HoldEvent::Slept, at(10));
    assert_eq!(timeout(slept), Duration::from_secs(0));
    let failed = us().hold(&mut last_renew, HoldEvent::Renewed(Err(broken())), at(10));
    match failed {
        HoldStep::StepDown(StepDown::DeadlineExceeded(e)) => assert_eq!(e, broken()),
        other => panic!("got {other:?}"),
    }
    let hung = us().hold::<&str>(&mut last_renew, HoldEvent::TimedOut, at(10));
    assert!(matches!(hung, HoldStep::StepDown(StepDown::TimedOut)));
    assert_eq!(last_renew, at(0));
}

#[test]
fn leader_is_gone_before_a_candidate_takes_over() {
    // the leader last renews at 100 and never reaches the API server again
    let mut last_renew = at(0);
    us().hold::<&str>(&mut last_renew, HoldEvent::Started, at(100));
    let mut clock = 100;
    let stopped = loop {
        clock += 2;
        let attempt = timeout(us().hold(&mut last_renew, HoldEvent::Slept, at(clock)));
        if attempt.as_secs() == 0 {
            break clock;
        }
        match us().hold(&mut last_renew, HoldEvent::Renewed(Err(broken())), at(clock)) {
            HoldStep::StepDown(_) => break clock,
            step => assert_eq!(sleeps(step), Some(broken())),
        }
    };
    assert_eq!(stopped, 110);
    // a candidate that saw that renewal at once takes over at 115
    let candidate = LeaderElection::new("default", "the-lease", "them");
    let mut observed: Option<Observation> = None;
    for clock in 100..115 {
        let step = candidate.try_acquire_at(&mut observed, read(1, held_by("us", 1, 0)), at(clock), now());
        assert_eq!(done(step), Ok(false));
    }
    replaced(candidate.try_acquire_at(&mut observed, read(1, held_by("us", 1, 0)), at(115), now()));
}

#[test]
fn release_of_our_lease() {
    assert!(gets(us().try_release(Event::Started)));
    let (version, spec) = replaced(us().try_release(read(3, held_by("us", 1, 3))));
    assert_eq!(version, 3);
    assert!(spec.same(&released_spec(&held_by("us", 1, 3))));
    let released = done(us().try_release(Event::Written(Ok(()))));
    assert!(matches!(us().release(released), ReleaseReport::Released));
}

#[test]
fn release_of_a_lost_lease() {
    for event in [
        read(3, held_by("them", 1, 3)),
        read(3, LeaseSpec::default()),
        Event::Fetched(Ok(None)),
        Event::Written(Err(conflict())),
    ] {
        let result = done(us().try_release(event));
        assert_eq!(result, Ok(false));
        assert!(matches!(us().release(result), ReleaseReport::NotHeld));
    }
}

#[test]
fn failed_release_is_reported() {
    for event in [Event::Fetched(Err(broken())), Event::Written(Err(broken()))] {
        match us().release(done(us().try_release(event))) {
            ReleaseReport::Failed(e) => assert_eq!(e, broken()),
            other => panic!("got {other:?}"),
        }
    }
}

#[test]
fn clocks_may_be_set_differently() {
    for origin in [0, 5, 1_000_000] {
        let mut observed: Option<Observation> = None;
        let poll = |observed: &mut Option<Observation>, clock: u64| {
            us().try_acquire_at(observed, read(1, held_by("them", 1, 0)), at(origin + clock), now())
        };
        assert_eq!(done(poll(&mut observed, 0)), Ok(false));
        assert_eq!(done(poll(&mut observed, 14)), Ok(false));
        replaced(poll(&mut observed, 15));
    }
}

#[test]
fn duration_in_the_lease_does_not_decide() {
    for stored in [None, Some(-1), Some(1), Some(15), Some(3600)] {
        let held = || LeaseSpec { lease_duration_seconds: stored, ..held_by("them", 1, 0) };
        let mut observed: Option<Observation> = None;
        let mut poll = |clock: u64| us().try_acquire_at(&mut observed, read(1, held()), at(clock), now());
        assert_eq!(done(poll(0)), Ok(false));
        assert_eq!(done(poll(14)), Ok(false));
        replaced(poll(15));
    }
}

#[test]
fn wall_clock_does_not_decide() {
    for wall in ["1970-01-01T00:00:00Z", "2026-07-22T00:00:00Z", "2999-01-01T00:00:00Z"] {
        let mut observed: Option<Observation> = None;
        let lease = read(1, held_by("them", 1, 0));
        assert_eq!(done(us().try_acquire_at(&mut observed, lease, at(0), timestamp(wall))), Ok(false));
        let lease = read(1, held_by("them", 1, 0));
        replaced(us().try_acquire_at(&mut observed, lease, at(15), timestamp(wall)));
    }
}

#[test]
fn renewal_with_a_new_time_is_a_change() {
    let prev = next_spec("us", 15, None, timestamp("2026-07-21T00:00:00Z"));
    assert!(!next_spec("us", 15, Some(&prev), now()).same(&prev));
}

#[test]
fn a_history_of_leaders_does_not_overlap() {
    // "a" writes the lease at 0, 2 and 4 and then hangs; "b" polls every second
    let a = LeaderElection::new("default", "the-lease", "a");
    let b = LeaderElection::new("default", "the-lease", "b");
    let mut stored = next_spec("a", 15, None, Timestamp { nanosecond: 0 });
    let mut last_renew = at(0);
    a.hold::<&str>(&mut last_renew, HoldEvent::Started, at(0));
    let mut observed: Option<Observation> = None;
    let (mut stopped, mut taken) = (None, None);
    for clock in 0..40 {
        if clock == 2 || clock == 4 {
            stored = next_spec("a", 15, Some(&stored), Timestamp { nanosecond: clock.into() });
            a.hold::<&str>(&mut last_renew, HoldEvent::Renewed(Ok(true)), at(clock as u64));
        } else if clock > 4 && stopped.is_none() {
            let failed = HoldEvent::Renewed(Err(broken()));
            if let HoldStep::StepDown(_) = a.hold(&mut last_renew, failed, at(clock as u64)) {
                stopped = Some(clock);
            }
        }
        let copy = LeaseSpec {
            holder_identity: stored.holder_identity.clone(),
            acquire_time: stored.acquire_time,
            lease_duration_seconds: stored.lease_duration_seconds,
            lease_transitions: stored.lease_transitions,
            renew_time: stored.renew_time,
            ..Default::default()
        };
        let step = b.try_acquire_at(&mut observed, read(1, copy), at(clock as u64), now());
        if let LeaseStep::Send(LeaseRequest::Replace { .. }) = step {
            taken = Some(clock);
            break;
        }
    }
    assert_eq!(stopped, Some(14));
    assert_eq!(taken, Some(19));
}

#[test]
fn claims_and_renewals_are_dated_by_the_wall_clock() {
    let before = k8s_openapi::jiff::Timestamp::now().as_nanosecond();
    let mut observed: Option<Observation> = None;
    let (_, claim) = replaced(us().try_acquire(&mut observed, read(1, LeaseSpec::default()), at(0)));
    let (_, renewal) = replaced(us().renew(read(1, held_by("us", 1, 3))));
    let after = k8s_openapi::jiff::Timestamp::now().as_nanosecond();
    for spec in [&claim, &renewal] {
        let dated = spec.renew_time.unwrap().0.nanosecond;
        assert!(before <= dated && dated <= after);
    }
    assert_eq!(claim.acquire_time, claim.renew_time);
    assert_eq!(renewal.lease_transitions, Some(3));
    assert!(gets(us().try_acquire(&mut observed, Event::Started, at(0))));
    assert!(gets(us().renew(Event::Started)));
}

#[test]
fn a_long_retry_period_does_not_outlast_the_deadline() {
    let leader = us()
        .with_renew_deadline(Duration::from_secs(14))
        .with_retry_period(Duration::from_secs(13));
    assert_eq!(leader.validate(), Ok(()));
    let mut last_renew = at(0);
    let started = leader.hold(&mut last_renew, HoldEvent::Started, at(0));
    assert_eq!(sleep(started), (Duration::from_secs(13), None));
    let slept = leader.hold(&mut last_renew, HoldEvent::Slept, at(13));
    assert_eq!(timeout(slept), Duration::from_secs(1));
    let half_past = Instant::at(Duration::from_millis(13_500));
    let failed = leader.hold(&mut last_renew, HoldEvent::Renewed(Err(broken())), half_past);
    assert_eq!(sleep(failed), (Duration::from_millis(500), Some(broken())));
    let slept = leader.hold(&mut last_renew, HoldEvent::Slept, at(14));
    assert_eq!(timeout(slept), Duration::from_secs(0));
    let hung = leader.hold::<&str>(&mut last_renew, HoldEvent::TimedOut, at(14));
    assert!(matches!(hung, HoldStep::StepDown(StepDown::TimedOut)));
}

#[test]
fn an_unchanged_lease_is_taken_over_whatever_was_seen_before() {
    let mut observed: Option<Observation> = None;
    let poll = |observed: &mut Option<Observation>, spec: LeaseSpec, clock: u64| {
        us().try_acquire_at(observed, read(1, spec), at(clock), now())
    };
    done(poll(&mut observed, held_by("others", 1, 0), 0)).unwrap();
    done(poll(&mut observed, held_by("them", 1, 1), 10)).unwrap();
    assert_eq!(done(poll(&mut observed, held_by("them", 1, 1), 24)), Ok(false));
    replaced(poll(&mut observed, held_by("them", 1, 1), 25));
}
