//! Lease-based leader election.

use crate::lease::{next_spec, next_spec_view, released_spec, released_spec_view};
use crate::lease::{Lease, LeaseSpec, LeaseSpecView, LeaseView};
use crate::outside::{read_from_wall_clock, wall_clock};
use crate::time::{elapsed, minus, secs, Duration, Instant, MicroTime, Timestamp, NANOS_PER_SEC};
use vstd::prelude::*;

verus! {

/// Lease-based leader election, allowing multiple replicas of a controller
/// to run while ensuring that only one of them is reconciling at a time.
///
/// This uses a `coordination.k8s.io/v1` lease object, following the same
/// protocol (and using the same default timings) as the Kubernetes client-go
/// `leaderelection` package: the leader repeatedly renews the lease, and
/// other candidates take the lease over if the leader fails to renew it for
/// `lease_duration`. Expiry is determined by observing the lease go
/// unchanged for `lease_duration`, rather than by comparing timestamps in
/// the lease against the local clock, so it is robust to clock skew between
/// candidates. Note that this protocol is cooperative: it guarantees mutual
/// exclusion only among candidates that respect the lease.
///
/// The controller's service account needs `get`, `create`, and `update`
/// permissions on `leases` in the `coordination.k8s.io` API group for this
/// to work.
///
/// The `identity` must be non-empty and unique to each running instance of
/// the controller; the pod name (available in the `HOSTNAME` environment
/// variable, or via the downward API) is a good choice.
#[derive(Debug)]
pub struct LeaderElection {
    namespace: String,
    lease_name: String,
    identity: String,
    lease_duration: Duration,
    renew_deadline: Duration,
    retry_period: Duration,
}

/// The mathematical value of a [`LeaderElection`], with its timings in
/// nanoseconds.
pub struct LeaderElectionView {
    pub namespace: Seq<char>,
    pub lease_name: Seq<char>,
    pub identity: Seq<char>,
    pub lease_duration: nat,
    pub renew_deadline: nat,
    pub retry_period: nat,
}

impl View for LeaderElection {
    type V = LeaderElectionView;

    closed spec fn view(&self) -> LeaderElectionView {
        LeaderElectionView {
            namespace: self.namespace@,
            lease_name: self.lease_name@,
            identity: self.identity@,
            lease_duration: self.lease_duration@,
            renew_deadline: self.renew_deadline@,
            retry_period: self.retry_period@,
        }
    }
}

impl Clone for LeaderElection {
    fn clone(&self) -> (election: LeaderElection)
        ensures
            election@ == self@,
    {
        LeaderElection {
            namespace: self.namespace.clone(),
            lease_name: self.lease_name.clone(),
            identity: self.identity.clone(),
            lease_duration: self.lease_duration,
            renew_deadline: self.renew_deadline,
            retry_period: self.retry_period,
        }
    }
}

/// What is wrong with the configuration of an election.
#[derive(Clone, Copy, Debug, PartialEq, Eq, Structural)]
pub enum ConfigError {
    /// The identity is empty.
    EmptyIdentity,
    /// The renew deadline is not less than the lease duration.
    RenewDeadlineTooLong,
    /// The retry period is not less than the renew deadline.
    RetryPeriodTooLong,
}

/// A failed request to the API server. `cause` is carried along untouched.
#[derive(Debug, PartialEq, Eq)]
pub enum ApiError<K> {
    /// The API server refused the request with an HTTP status code.
    Status { code: u16, cause: K },
    /// The request failed in some other way.
    Other { cause: K },
}

/// The status code of a request that lost against a concurrent one.
pub const CONFLICT: u16 = 409;

/// The status code of a request without valid credentials.
pub const UNAUTHORIZED: u16 = 401;

/// The status code of a request that the credentials do not permit.
pub const FORBIDDEN: u16 = 403;

impl<K> ApiError<K> {
    /// Whether the request lost against a concurrent one.
    pub open spec fn conflict(self) -> bool {
        self matches ApiError::Status { code, .. } && code == CONFLICT
    }

    /// Whether the service account lacks permissions.
    pub open spec fn denied(self) -> bool {
        self matches ApiError::Status { code, .. } && (code == UNAUTHORIZED || code == FORBIDDEN)
    }

    /// Whether the request lost against a concurrent one.
    pub fn is_conflict(&self) -> (conflict: bool)
        ensures
            conflict == self.conflict(),
    {
        match self {
            ApiError::Status { code, .. } => *code == CONFLICT,
            ApiError::Other { .. } => false,
        }
    }

    /// Whether the service account lacks permissions. This never resolves on
    /// its own.
    pub fn is_denied(&self) -> (denied: bool)
        ensures
            denied == self.denied(),
    {
        match self {
            ApiError::Status { code, .. } => *code == UNAUTHORIZED || *code == FORBIDDEN,
            ApiError::Other { .. } => false,
        }
    }
}

/// The last contents of the lease that a candidate saw, and when it first saw
/// them by its own clock.
#[derive(Debug)]
pub struct Observation {
    pub spec: LeaseSpec,
    pub at: Instant,
}

/// The mathematical value of an [`Observation`].
pub struct ObservationView {
    pub spec: LeaseSpecView,
    pub at: nat,
}

impl View for Observation {
    type V = ObservationView;

    open spec fn view(&self) -> ObservationView {
        ObservationView { spec: self.spec@, at: self.at@ }
    }
}

/// The value of an optional observation.
pub open spec fn observation(observed: Option<Observation>) -> Option<ObservationView> {
    match observed {
        Some(observed) => Some(observed@),
        None => None,
    }
}

/// A request to the API server about the lease called `name`.
#[derive(Debug)]
pub enum LeaseRequest<M> {
    /// Read the lease.
    Get { name: String },
    /// Create the lease. This must fail with a conflict if it exists.
    Create { name: String, spec: LeaseSpec },
    /// Replace the lease. This must fail with a conflict if it was updated
    /// since it was read with the same metadata.
    Replace { name: String, lease: Lease<M> },
}

/// The mathematical value of a [`LeaseRequest`].
pub enum LeaseRequestView<M> {
    Get { name: Seq<char> },
    Create { name: Seq<char>, spec: LeaseSpecView },
    Replace { name: Seq<char>, lease: LeaseView<M> },
}

impl<M> View for LeaseRequest<M> {
    type V = LeaseRequestView<M>;

    open spec fn view(&self) -> LeaseRequestView<M> {
        match *self {
            LeaseRequest::Get { name } => LeaseRequestView::Get { name: name@ },
            LeaseRequest::Create { name, spec } => LeaseRequestView::Create {
                name: name@,
                spec: spec@,
            },
            LeaseRequest::Replace { name, lease } => LeaseRequestView::Replace {
                name: name@,
                lease: lease@,
            },
        }
    }
}

/// What happened last in one attempt to acquire, renew or release the lease.
#[derive(Debug)]
pub enum LeaseEvent<M, K> {
    /// The attempt begins.
    Started,
    /// The lease was read, or does not exist, or could not be read.
    Fetched(Result<Option<Lease<M>>, ApiError<K>>),
    /// The lease was created or replaced, or could not be.
    Written(Result<(), ApiError<K>>),
}

/// The mathematical value of a [`LeaseEvent`].
pub enum LeaseEventView<M, K> {
    Started,
    Fetched(Result<Option<LeaseView<M>>, ApiError<K>>),
    Written(Result<(), ApiError<K>>),
}

impl<M, K> View for LeaseEvent<M, K> {
    type V = LeaseEventView<M, K>;

    open spec fn view(&self) -> LeaseEventView<M, K> {
        match *self {
            LeaseEvent::Started => LeaseEventView::Started,
            LeaseEvent::Fetched(Ok(Some(lease))) => LeaseEventView::Fetched(Ok(Some(lease@))),
            LeaseEvent::Fetched(Ok(None)) => LeaseEventView::Fetched(Ok(None)),
            LeaseEvent::Fetched(Err(e)) => LeaseEventView::Fetched(Err(e)),
            LeaseEvent::Written(result) => LeaseEventView::Written(result),
        }
    }
}

/// What to do next in one attempt to acquire, renew or release the lease.
#[derive(Debug)]
pub enum LeaseStep<M, K> {
    /// Send this request and hand back its outcome.
    Send(LeaseRequest<M>),
    /// The attempt is over: whether it succeeded, or why it failed.
    Done(Result<bool, ApiError<K>>),
}

/// The mathematical value of a [`LeaseStep`].
pub enum LeaseStepView<M, K> {
    Send(LeaseRequestView<M>),
    Done(Result<bool, ApiError<K>>),
}

impl<M, K> View for LeaseStep<M, K> {
    type V = LeaseStepView<M, K>;

    open spec fn view(&self) -> LeaseStepView<M, K> {
        match *self {
            LeaseStep::Send(request) => LeaseStepView::Send(request@),
            LeaseStep::Done(result) => LeaseStepView::Done(result),
        }
    }
}

/// What a write that may lose against a concurrent one achieved: losing is
/// no error.
pub open spec fn settled<K>(written: Result<(), ApiError<K>>) -> Result<bool, ApiError<K>> {
    match written {
        Ok(_) => Ok(true),
        Err(e) => if e.conflict() {
            Ok(false)
        } else {
            Err(e)
        },
    }
}

/// What a write that may lose against a concurrent one achieved: losing is
/// no error.
fn settle<K>(written: Result<(), ApiError<K>>) -> (result: Result<bool, ApiError<K>>)
    ensures
        result == settled(written),
{
    match written {
        Ok(_) => Ok(true),
        Err(e) => if e.is_conflict() {
            Ok(false)
        } else {
            Err(e)
        },
    }
}

/// Why a candidate does not hold the lease after an attempt to acquire it.
#[derive(Debug)]
pub enum RetryCause<K> {
    /// Another candidate holds the lease.
    HeldByAnother,
    /// The service account may not access the lease. It needs `get`, `create`,
    /// and `update` permissions on leases in `coordination.k8s.io`.
    NotPermitted(ApiError<K>),
    /// The attempt failed in some other way.
    Failed(ApiError<K>),
}

/// What to do after an attempt to acquire the lease.
#[derive(Debug)]
pub enum AcquireStep<K> {
    /// Stop: we hold the lease.
    Acquired,
    /// Attempt it again after this period, jittered to avoid thundering herds.
    Retry { cause: RetryCause<K>, after: Duration },
}

/// The mathematical value of an [`AcquireStep`].
pub enum AcquireStepView<K> {
    Acquired,
    Retry { cause: RetryCause<K>, after: nat },
}

impl<K> View for AcquireStep<K> {
    type V = AcquireStepView<K>;

    open spec fn view(&self) -> AcquireStepView<K> {
        match *self {
            AcquireStep::Acquired => AcquireStepView::Acquired,
            AcquireStep::Retry { cause, after } => AcquireStepView::Retry { cause, after: after@ },
        }
    }
}

/// What happened last while the lease is held.
#[derive(Debug)]
pub enum HoldEvent<K> {
    /// We have just acquired the lease.
    Started,
    /// The sleep is over.
    Slept,
    /// The attempt to renew the lease ended in time, with this result.
    Renewed(Result<bool, ApiError<K>>),
    /// The attempt to renew the lease did not end in time.
    TimedOut,
}

/// Why a leader gives up leadership.
#[derive(Debug)]
pub enum StepDown<K> {
    /// Another candidate took the lease.
    TakenOver,
    /// The lease could not be renewed within the renew deadline; the last
    /// attempt failed with this error.
    DeadlineExceeded(ApiError<K>),
    /// The last attempt to renew the lease did not end within the renew
    /// deadline.
    TimedOut,
}

/// What to do next while the lease is held.
#[derive(Debug)]
pub enum HoldStep<K> {
    /// Sleep for this period, which ends by the renew deadline. `failure` is
    /// the error of the attempt to renew the lease that just failed, if one
    /// did.
    Sleep { period: Duration, failure: Option<ApiError<K>> },
    /// Attempt to renew the lease, for no longer than `timeout`.
    Renew { timeout: Duration },
    /// Stop acting as the leader.
    StepDown(StepDown<K>),
}

/// The mathematical value of a [`HoldStep`].
pub enum HoldStepView<K> {
    Sleep { period: nat, failure: Option<ApiError<K>> },
    Renew { timeout: nat },
    StepDown(StepDown<K>),
}

impl<K> View for HoldStep<K> {
    type V = HoldStepView<K>;

    open spec fn view(&self) -> HoldStepView<K> {
        match *self {
            HoldStep::Sleep { period, failure } => HoldStepView::Sleep { period: period@, failure },
            HoldStep::Renew { timeout } => HoldStepView::Renew { timeout: timeout@ },
            HoldStep::StepDown(cause) => HoldStepView::StepDown(cause),
        }
    }
}

/// What came of releasing the lease.
#[derive(Debug)]
pub enum ReleaseReport<K> {
    /// The lease is free for another candidate to take.
    Released,
    /// We did not hold the lease, so there was nothing to release.
    NotHeld,
    /// The lease could not be released; it will expire on its own.
    Failed(ApiError<K>),
}

impl ConfigError {
    /// Says in words what is wrong.
    pub fn message(&self) -> (message: &'static str)
        ensures
            message@ == match self {
                ConfigError::EmptyIdentity => "identity must not be empty"@,
                ConfigError::RenewDeadlineTooLong => "renew_deadline must be less than lease_duration"@,
                ConfigError::RetryPeriodTooLong => "retry_period must be less than renew_deadline"@,
            },
    {
        match self {
            ConfigError::EmptyIdentity => "identity must not be empty",
            ConfigError::RenewDeadlineTooLong => "renew_deadline must be less than lease_duration",
            ConfigError::RetryPeriodTooLong => "retry_period must be less than renew_deadline",
        }
    }
}

impl LeaderElectionView {
    /// Whether the timings are consistent and the identity is not empty.
    pub open spec fn valid(self) -> bool {
        &&& self.identity.len() > 0
        &&& self.renew_deadline < self.lease_duration
        &&& self.retry_period < self.renew_deadline
    }

    /// The lease duration in whole seconds, as far as a lease can hold it.
    pub open spec fn seconds(self) -> i32 {
        let seconds = self.lease_duration / NANOS_PER_SEC as nat;
        if seconds <= i32::MAX {
            seconds as i32
        } else {
            i32::MAX
        }
    }

    /// The contents that this candidate writes to hold the lease.
    pub open spec fn claim(self, prev: Option<LeaseSpecView>, now: Timestamp) -> LeaseSpecView {
        next_spec_view(self.identity, self.seconds(), prev, now)
    }

    /// Whether the lease is held by another candidate.
    pub open spec fn foreign(self, spec: LeaseSpecView) -> bool {
        spec.is_held() && !spec.names(self.identity)
    }

    /// Whether a lease with these contents has expired at `clock`: the
    /// candidate has seen nothing else for the whole lease duration.
    pub open spec fn expired(
        self,
        observed: Option<ObservationView>,
        spec: LeaseSpecView,
        clock: nat,
    ) -> bool {
        &&& observed is Some
        &&& observed->0.spec == spec
        &&& elapsed(observed->0.at, clock) >= self.lease_duration
    }

    /// Whether this candidate may claim a lease with these contents.
    pub open spec fn may_claim(
        self,
        observed: Option<ObservationView>,
        spec: LeaseSpecView,
        clock: nat,
    ) -> bool {
        !self.foreign(spec) || self.expired(observed, spec, clock)
    }

    /// What this candidate has observed after reading a lease with these
    /// contents: a change of a lease that another candidate holds restarts
    /// the wait.
    pub open spec fn observe(
        self,
        observed: Option<ObservationView>,
        spec: LeaseSpecView,
        clock: nat,
    ) -> Option<ObservationView> {
        if self.foreign(spec) && !(observed is Some && observed->0.spec == spec) {
            Some(ObservationView { spec, at: clock })
        } else {
            observed
        }
    }

    /// The request that reads the lease.
    pub open spec fn get<M>(self) -> LeaseRequestView<M> {
        LeaseRequestView::Get { name: self.lease_name }
    }

    /// The request that gives the lease that was read other contents.
    pub open spec fn replace<M>(self, read: LeaseView<M>, spec: LeaseSpecView) -> LeaseRequestView<
        M,
    > {
        LeaseRequestView::Replace {
            name: self.lease_name,
            lease: LeaseView { metadata: read.metadata, spec: Some(spec) },
        }
    }

    /// The next step of an attempt to acquire the lease.
    pub open spec fn acquire_step<M, K>(
        self,
        observed: Option<ObservationView>,
        event: LeaseEventView<M, K>,
        clock: nat,
        now: Timestamp,
    ) -> LeaseStepView<M, K> {
        match event {
            LeaseEventView::Started => LeaseStepView::Send(self.get()),
            LeaseEventView::Fetched(Err(e)) => LeaseStepView::Done(Err(e)),
            LeaseEventView::Fetched(Ok(None)) => LeaseStepView::Send(
                LeaseRequestView::Create { name: self.lease_name, spec: self.claim(None, now) },
            ),
            LeaseEventView::Fetched(Ok(Some(lease))) => if self.may_claim(
                observed,
                lease.contents(),
                clock,
            ) {
                LeaseStepView::Send(self.replace(lease, self.claim(Some(lease.contents()), now)))
            } else {
                LeaseStepView::Done(Ok(false))
            },
            LeaseEventView::Written(result) => LeaseStepView::Done(settled(result)),
        }
    }

    /// What this candidate has observed after `event`.
    pub open spec fn acquire_observed<M, K>(
        self,
        observed: Option<ObservationView>,
        event: LeaseEventView<M, K>,
        clock: nat,
    ) -> Option<ObservationView> {
        match event {
            LeaseEventView::Fetched(Ok(Some(lease))) => self.observe(
                observed,
                lease.contents(),
                clock,
            ),
            _ => observed,
        }
    }

    /// The next step of an attempt to renew the lease.
    pub open spec fn renew_step<M, K>(
        self,
        event: LeaseEventView<M, K>,
        now: Timestamp,
    ) -> LeaseStepView<M, K> {
        match event {
            LeaseEventView::Started => LeaseStepView::Send(self.get()),
            LeaseEventView::Fetched(Err(e)) => LeaseStepView::Done(Err(e)),
            LeaseEventView::Fetched(Ok(Some(lease))) => if lease.contents().names(self.identity) {
                LeaseStepView::Send(self.replace(lease, self.claim(Some(lease.contents()), now)))
            } else {
                LeaseStepView::Done(Ok(false))
            },
            LeaseEventView::Fetched(Ok(None)) => LeaseStepView::Done(Ok(false)),
            LeaseEventView::Written(Ok(_)) => LeaseStepView::Done(Ok(true)),
            LeaseEventView::Written(Err(e)) => LeaseStepView::Done(Err(e)),
        }
    }

    /// The next step of an attempt to release the lease.
    pub open spec fn release_step<M, K>(self, event: LeaseEventView<M, K>) -> LeaseStepView<M, K> {
        match event {
            LeaseEventView::Started => LeaseStepView::Send(self.get()),
            LeaseEventView::Fetched(Err(e)) => LeaseStepView::Done(Err(e)),
            LeaseEventView::Fetched(Ok(Some(lease))) => if lease.contents().names(self.identity) {
                LeaseStepView::Send(self.replace(lease, released_spec_view(lease.contents())))
            } else {
                LeaseStepView::Done(Ok(false))
            },
            LeaseEventView::Fetched(Ok(None)) => LeaseStepView::Done(Ok(false)),
            LeaseEventView::Written(result) => LeaseStepView::Done(settled(result)),
        }
    }

    /// What to do after an attempt to acquire the lease.
    pub open spec fn after_attempt<K>(self, attempt: Result<bool, ApiError<K>>) -> AcquireStepView<
        K,
    > {
        match attempt {
            Ok(true) => AcquireStepView::Acquired,
            Ok(false) => AcquireStepView::Retry {
                cause: RetryCause::HeldByAnother,
                after: self.retry_period,
            },
            Err(e) => AcquireStepView::Retry {
                cause: if e.denied() {
                    RetryCause::NotPermitted(e)
                } else {
                    RetryCause::Failed(e)
                },
                after: self.retry_period,
            },
        }
    }

    /// What to do next while the lease is held, last renewed at `last_renew`.
    pub open spec fn hold_step<K>(
        self,
        last_renew: nat,
        event: HoldEvent<K>,
        clock: nat,
    ) -> HoldStepView<K> {
        match event {
            HoldEvent::Started => HoldStepView::Sleep { period: self.retry_period, failure: None },
            HoldEvent::Slept => HoldStepView::Renew {
                timeout: minus(self.renew_deadline, elapsed(last_renew, clock)),
            },
            HoldEvent::Renewed(Ok(true)) => HoldStepView::Sleep {
                period: self.retry_period,
                failure: None,
            },
            HoldEvent::Renewed(Ok(false)) => HoldStepView::StepDown(StepDown::TakenOver),
            HoldEvent::Renewed(Err(e)) => if elapsed(last_renew, clock) >= self.renew_deadline {
                HoldStepView::StepDown(StepDown::DeadlineExceeded(e))
            } else {
                let left = minus(self.renew_deadline, elapsed(last_renew, clock));
                HoldStepView::Sleep {
                    period: if left < self.retry_period {
                        left
                    } else {
                        self.retry_period
                    },
                    failure: Some(e),
                }
            },
            HoldEvent::TimedOut => HoldStepView::StepDown(StepDown::TimedOut),
        }
    }

    /// When the lease was last renewed, after `event`.
    pub open spec fn hold_renewed<K>(
        self,
        last_renew: nat,
        event: HoldEvent<K>,
        clock: nat,
    ) -> nat {
        match event {
            HoldEvent::Started => clock,
            HoldEvent::Renewed(Ok(true)) => clock,
            _ => last_renew,
        }
    }
}

/// What came of an attempt to release the lease.
pub open spec fn release_report<K>(attempt: Result<bool, ApiError<K>>) -> ReleaseReport<K> {
    match attempt {
        Ok(true) => ReleaseReport::Released,
        Ok(false) => ReleaseReport::NotHeld,
        Err(e) => ReleaseReport::Failed(e),
    }
}

impl LeaderElection {
    /// Creates a leader election configuration for the lease named
    /// `lease_name` in the given `namespace`, identifying this instance of
    /// the controller as `identity`. The timings default to the client-go
    /// defaults: a lease duration of 15 seconds, a renew deadline of 10
    /// seconds, and a retry period of 2 seconds.
    pub fn new(namespace: &str, lease_name: &str, identity: &str) -> (election: LeaderElection)
        ensures
            election@ == (LeaderElectionView {
                namespace: namespace@,
                lease_name: lease_name@,
                identity: identity@,
                lease_duration: secs(15),
                renew_deadline: secs(10),
                retry_period: secs(2),
            }),
    {
        LeaderElection {
            namespace: namespace.to_owned(),
            lease_name: lease_name.to_owned(),
            identity: identity.to_owned(),
            lease_duration: Duration::from_secs(15),
            renew_deadline: Duration::from_secs(10),
            retry_period: Duration::from_secs(2),
        }
    }

    /// Sets how long a non-leader must wait after the last observed change
    /// to the lease before forcibly taking it over. Larger values slow down
    /// failover; smaller values increase the risk that a leader which is
    /// still running (but partitioned from the API server) has not yet
    /// stopped reconciling when the new leader starts. Must be greater than
    /// the renew deadline.
    pub fn with_lease_duration(self, lease_duration: Duration) -> (election: LeaderElection)
        ensures
            election@ == (LeaderElectionView { lease_duration: lease_duration@, ..self@ }),
    {
        LeaderElection { lease_duration, ..self }
    }

    /// Sets how long the leader will keep trying to renew the lease before
    /// giving up leadership. Must be less than the lease duration (so that
    /// a leader which cannot reach the API server gives up before another
    /// candidate can take the lease over) and greater than the retry
    /// period.
    pub fn with_renew_deadline(self, renew_deadline: Duration) -> (election: LeaderElection)
        ensures
            election@ == (LeaderElectionView { renew_deadline: renew_deadline@, ..self@ }),
    {
        LeaderElection { renew_deadline, ..self }
    }

    /// Sets how often candidates poll the lease while waiting to acquire
    /// it, and how often the leader renews it.
    pub fn with_retry_period(self, retry_period: Duration) -> (election: LeaderElection)
        ensures
            election@ == (LeaderElectionView { retry_period: retry_period@, ..self@ }),
    {
        LeaderElection { retry_period, ..self }
    }

    /// The namespace of the lease.
    pub fn namespace(&self) -> (namespace: &str)
        ensures
            namespace@ == self@.namespace,
    {
        self.namespace.as_str()
    }

    /// The name of the lease.
    pub fn lease_name(&self) -> (lease_name: &str)
        ensures
            lease_name@ == self@.lease_name,
    {
        self.lease_name.as_str()
    }

    /// The identity of this candidate.
    pub fn identity(&self) -> (identity: &str)
        ensures
            identity@ == self@.identity,
    {
        self.identity.as_str()
    }

    /// Checks the configuration, and reports the first thing that is wrong
    /// with it. An election with an invalid configuration must not be entered.
    pub fn validate(&self) -> (result: Result<(), ConfigError>)
        ensures
            result is Ok <==> self@.valid(),
            result == Err::<(), ConfigError>(ConfigError::EmptyIdentity) <==> self@.identity.len()
                == 0,
            result == Err::<(), ConfigError>(ConfigError::RenewDeadlineTooLong) <==> {
                &&& self@.identity.len() > 0
                &&& self@.renew_deadline >= self@.lease_duration
            },
            result == Err::<(), ConfigError>(ConfigError::RetryPeriodTooLong) <==> {
                &&& self@.identity.len() > 0
                &&& self@.renew_deadline < self@.lease_duration
                &&& self@.retry_period >= self@.renew_deadline
            },
    {
        if self.identity.as_str().is_empty() {
            Err(ConfigError::EmptyIdentity)
        } else if self.renew_deadline.as_nanos() >= self.lease_duration.as_nanos() {
            Err(ConfigError::RenewDeadlineTooLong)
        } else if self.retry_period.as_nanos() >= self.renew_deadline.as_nanos() {
            Err(ConfigError::RetryPeriodTooLong)
        } else {
            Ok(())
        }
    }

    /// The lease duration in whole seconds, or the most that a lease can hold
    /// if that is less.
    pub fn lease_duration_seconds(&self) -> (seconds: i32)
        ensures
            seconds == self@.seconds(),
    {
        let seconds: u64 = self.lease_duration.as_secs();
        if seconds <= i32::MAX as u64 {
            seconds as i32
        } else {
            i32::MAX
        }
    }

    /// The request that reads the lease.
    fn get<M>(&self) -> (request: LeaseRequest<M>)
        ensures
            request@ == self@.get::<M>(),
    {
        LeaseRequest::Get { name: self.lease_name.clone() }
    }

    /// The request that claims the lease that was read, with the metadata and
    /// the contents that it was read with.
    fn claim<M>(&self, metadata: M, spec: &LeaseSpec, now: Timestamp) -> (request: LeaseRequest<M>)
        ensures
            request@ == self@.replace(
                LeaseView { metadata, spec: None },
                self@.claim(Some(spec@), now),
            ),
    {
        let spec = next_spec(
            self.identity.as_str(),
            self.lease_duration_seconds(),
            Some(spec),
            now,
        );
        LeaseRequest::Replace {
            name: self.lease_name.clone(),
            lease: Lease { metadata, spec: Some(spec) },
        }
    }

    /// Try once to acquire the lease; the attempt ends with whether we now
    /// hold it. `observed` tracks the last seen state of the lease and when we
    /// saw it, so that expiry is measured against our own clock: `clock` is a
    /// reading of it, taken after the event. A claim is dated by the wall
    /// clock.
    pub fn try_acquire<M, K>(
        &self,
        observed: &mut Option<Observation>,
        event: LeaseEvent<M, K>,
        clock: Instant,
    ) -> (step: LeaseStep<M, K>)
        ensures
            exists|now: Timestamp|
                read_from_wall_clock(now) && step@ == #[trigger] self@.acquire_step(
                    observation(*old(observed)),
                    event@,
                    clock@,
                    now,
                ),
            observation(*final(observed)) == self@.acquire_observed(
                observation(*old(observed)),
                event@,
                clock@,
            ),
    {
        self.try_acquire_at(observed, event, clock, wall_clock())
    }

    /// [`try_acquire`](LeaderElection::try_acquire) with `now` as the reading
    /// of the wall clock.
    pub fn try_acquire_at<M, K>(
        &self,
        observed: &mut Option<Observation>,
        event: LeaseEvent<M, K>,
        clock: Instant,
        now: Timestamp,
    ) -> (step: LeaseStep<M, K>)
        ensures
            step@ == self@.acquire_step(observation(*old(observed)), event@, clock@, now),
            observation(*final(observed)) == self@.acquire_observed(
                observation(*old(observed)),
                event@,
                clock@,
            ),
    {
        match event {
            LeaseEvent::Started => LeaseStep::Send(self.get()),
            LeaseEvent::Fetched(Err(e)) => LeaseStep::Done(Err(e)),
            LeaseEvent::Fetched(Ok(None)) => LeaseStep::Send(
                LeaseRequest::Create {
                    name: self.lease_name.clone(),
                    spec: next_spec(
                        self.identity.as_str(),
                        self.lease_duration_seconds(),
                        None,
                        now,
                    ),
                },
            ),
            LeaseEvent::Fetched(Ok(Some(lease))) => {
                let (metadata, spec) = lease.into_parts();
                // a missing or empty holder means the lease was voluntarily
                // released and can be taken immediately
                if spec.is_held() && !spec.names(&self.identity) {
                    let since: Option<Instant> = match observed {
                        Some(last) => if last.spec.same(&spec) {
                            Some(last.at)
                        } else {
                            None
                        },
                        None => None,
                    };
                    match since {
                        None => {
                            *observed = Some(Observation { spec, at: clock });
                            return LeaseStep::Done(Ok(false));
                        },
                        Some(at) => {
                            if at.elapsed(clock).as_nanos() < self.lease_duration.as_nanos() {
                                return LeaseStep::Done(Ok(false));
                            }
                            // the holder has failed to renew the lease for a
                            // full lease_duration, so we can take it over

                        },
                    }
                }
                LeaseStep::Send(self.claim(metadata, &spec, now))
            },
            // losing the write means that another candidate created or
            // updated the lease first
            LeaseEvent::Written(result) => LeaseStep::Done(settle(result)),
        }
    }

    /// Try once to renew the lease; the attempt ends with whether we still
    /// hold it. A renewal is dated by the wall clock.
    pub fn renew<M, K>(&self, event: LeaseEvent<M, K>) -> (step: LeaseStep<M, K>)
        ensures
            exists|now: Timestamp|
                read_from_wall_clock(now) && step@ == #[trigger] self@.renew_step(event@, now),
    {
        self.renew_at(event, wall_clock())
    }

    /// [`renew`](LeaderElection::renew) with `now` as the reading of the wall
    /// clock.
    pub fn renew_at<M, K>(&self, event: LeaseEvent<M, K>, now: Timestamp) -> (step: LeaseStep<M, K>)
        ensures
            step@ == self@.renew_step(event@, now),
    {
        match event {
            LeaseEvent::Started => LeaseStep::Send(self.get()),
            LeaseEvent::Fetched(Err(e)) => LeaseStep::Done(Err(e)),
            LeaseEvent::Fetched(Ok(None)) => LeaseStep::Done(Ok(false)),
            LeaseEvent::Fetched(Ok(Some(lease))) => {
                let (metadata, spec) = lease.into_parts();
                if spec.names(&self.identity) {
                    LeaseStep::Send(self.claim(metadata, &spec, now))
                } else {
                    LeaseStep::Done(Ok(false))
                }
            },
            LeaseEvent::Written(Ok(_)) => LeaseStep::Done(Ok(true)),
            LeaseEvent::Written(Err(e)) => LeaseStep::Done(Err(e)),
        }
    }

    /// Try once to release the lease; the attempt ends with whether we
    /// released it.
    pub fn try_release<M, K>(&self, event: LeaseEvent<M, K>) -> (step: LeaseStep<M, K>)
        ensures
            step@ == self@.release_step(event@),
    {
        match event {
            LeaseEvent::Started => LeaseStep::Send(self.get()),
            LeaseEvent::Fetched(Err(e)) => LeaseStep::Done(Err(e)),
            LeaseEvent::Fetched(Ok(None)) => LeaseStep::Done(Ok(false)),
            LeaseEvent::Fetched(Ok(Some(lease))) => {
                let (metadata, spec) = lease.into_parts();
                if spec.names(&self.identity) {
                    LeaseStep::Send(
                        LeaseRequest::Replace {
                            name: self.lease_name.clone(),
                            lease: Lease { metadata, spec: Some(released_spec(&spec)) },
                        },
                    )
                } else {
                    LeaseStep::Done(Ok(false))
                }
            },
            // losing the write means that another candidate already took the
            // lease over
            LeaseEvent::Written(result) => LeaseStep::Done(settle(result)),
        }
    }

    /// Wait until we hold the lease: decides what to do after an attempt to
    /// acquire it (see [`try_acquire`](LeaderElection::try_acquire)).
    pub fn acquire<K>(&self, attempt: Result<bool, ApiError<K>>) -> (step: AcquireStep<K>)
        requires
            self@.valid(),
        ensures
            step@ == self@.after_attempt(attempt),
    {
        match attempt {
            Ok(true) => AcquireStep::Acquired,
            Ok(false) => AcquireStep::Retry {
                cause: RetryCause::HeldByAnother,
                after: self.retry_period,
            },
            // a lack of permissions will never resolve on its own, so it is
            // reported apart from other errors
            Err(e) => AcquireStep::Retry {
                cause: if e.is_denied() {
                    RetryCause::NotPermitted(e)
                } else {
                    RetryCause::Failed(e)
                },
                after: self.retry_period,
            },
        }
    }

    /// Renew the lease until we lose it: decides what to do next while we hold
    /// it. `last_renew` tracks when the lease was last renewed, and `clock` is
    /// a reading of the monotonic clock, taken after the event.
    pub fn hold<K>(
        &self,
        last_renew: &mut Instant,
        event: HoldEvent<K>,
        clock: Instant,
    ) -> (step: HoldStep<K>)
        ensures
            step@ == self@.hold_step(old(last_renew)@, event, clock@),
            final(last_renew)@ == self@.hold_renewed(old(last_renew)@, event, clock@),
    {
        match event {
            HoldEvent::Started => {
                *last_renew = clock;
                HoldStep::Sleep { period: self.retry_period, failure: None }
            },
            // bound each attempt by the time remaining until the renew
            // deadline, so that a hung request can't keep us acting as leader
            // after another candidate may have taken over
            HoldEvent::Slept => HoldStep::Renew {
                timeout: self.renew_deadline.saturating_sub(last_renew.elapsed(clock)),
            },
            HoldEvent::Renewed(Ok(true)) => {
                *last_renew = clock;
                HoldStep::Sleep { period: self.retry_period, failure: None }
            },
            HoldEvent::Renewed(Ok(false)) => HoldStep::StepDown(StepDown::TakenOver),
            HoldEvent::Renewed(Err(e)) => {
                let left: Duration = self.renew_deadline.saturating_sub(last_renew.elapsed(clock));
                if left.as_nanos() == 0 {
                    HoldStep::StepDown(StepDown::DeadlineExceeded(e))
                } else if left.as_nanos() < self.retry_period.as_nanos() {
                    // sleep no longer than until the renew deadline, so that
                    // we give up in time
                    HoldStep::Sleep { period: left, failure: Some(e) }
                } else {
                    HoldStep::Sleep { period: self.retry_period, failure: Some(e) }
                }
            },
            HoldEvent::TimedOut => HoldStep::StepDown(StepDown::TimedOut),
        }
    }

    /// Voluntarily release the lease if we hold it, allowing another
    /// candidate to take it over immediately rather than waiting for it to
    /// expire: reports what came of the attempt (see
    /// [`try_release`](LeaderElection::try_release)). This is best-effort:
    /// errors are reported and otherwise ignored, since the lease will expire
    /// on its own regardless.
    pub fn release<K>(&self, attempt: Result<bool, ApiError<K>>) -> (report: ReleaseReport<K>)
        ensures
            report == release_report(attempt),
    {
        match attempt {
            Ok(true) => ReleaseReport::Released,
            Ok(false) => ReleaseReport::NotHeld,
            Err(e) => ReleaseReport::Failed(e),
        }
    }
}

/// Who holds a lease that was read: nobody, if it has no contents, no holder or
/// an empty one.
pub open spec fn holder<M>(lease: LeaseView<M>) -> Option<Seq<char>> {
    match lease.spec {
        Some(spec) => match spec.holder_identity {
            Some(name) => if name.len() == 0 {
                None
            } else {
                Some(name)
            },
            None => None,
        },
        None => None,
    }
}

/// Whether a lease that is written says for how long it is held: the lease
/// duration, rounded down to whole seconds, or the most that a lease can say.
pub open spec fn states_duration(spec: LeaseSpecView, lease_duration: nat) -> bool {
    &&& spec.lease_duration_seconds is Some
    &&& spec.lease_duration_seconds->0 >= 0
    &&& spec.lease_duration_seconds->0 * 1_000_000_000 <= lease_duration
    &&& spec.lease_duration_seconds->0 == 0x7fff_ffff || lease_duration < (
    spec.lease_duration_seconds->0 + 1) * 1_000_000_000
}

/// Whether a count of transitions is one more than it was, where no count
/// stands for zero, and the largest count stays.
pub open spec fn one_more(before: Option<i32>, after: Option<i32>) -> bool {
    let n: int = match before {
        Some(n) => n as int,
        None => 0,
    };
    &&& after is Some
    &&& n < 0x7fff_ffff ==> after->0 == n + 1
    &&& n == 0x7fff_ffff ==> after->0 == n
}

/// Every attempt begins with a read of the lease that the election is about.
pub proof fn law_attempts_begin_with_a_read<M, K>(
    election: LeaderElectionView,
    observed: Option<ObservationView>,
    clock: nat,
    now: Timestamp,
)
    ensures
        ({
            let read = LeaseStepView::<M, K>::Send(
                LeaseRequestView::Get { name: election.lease_name },
            );
            let started = LeaseEventView::<M, K>::Started;
            &&& election.acquire_step(observed, started, clock, now) == read
            &&& election.renew_step(started, now) == read
            &&& election.release_step(started) == read
        }),
{
}

/// An attempt whose read fails ends with the error of the read, whichever it
/// is, without a write.
pub proof fn law_failed_read_ends_the_attempt<M, K>(
    election: LeaderElectionView,
    observed: Option<ObservationView>,
    error: ApiError<K>,
    clock: nat,
    now: Timestamp,
)
    ensures
        ({
            let failed = LeaseStepView::<M, K>::Done(Err(error));
            let read = LeaseEventView::<M, K>::Fetched(Err(error));
            &&& election.acquire_step(observed, read, clock, now) == failed
            &&& election.renew_step(read, now) == failed
            &&& election.release_step(read) == failed
        }),
{
}

/// A lease that does not exist is created, for the candidate, from now on and
/// without transitions; there is nothing in it to renew or to release.
pub proof fn law_missing_lease_is_created<M, K>(
    election: LeaderElectionView,
    observed: Option<ObservationView>,
    clock: nat,
    now: Timestamp,
)
    ensures
        ({
            let read = LeaseEventView::<M, K>::Fetched(Ok(None));
            &&& election.acquire_step(observed, read, clock, now) matches LeaseStepView::Send(
                LeaseRequestView::Create { name, spec },
            ) && {
                &&& name == election.lease_name
                &&& spec.holder_identity == Some(election.identity)
                &&& spec.acquire_time == Some(MicroTime(now))
                &&& spec.renew_time == Some(MicroTime(now))
                &&& spec.lease_transitions == Some(0i32)
                &&& states_duration(spec, election.lease_duration)
                &&& spec.preferred_holder is None
                &&& spec.strategy is None
            }
            &&& election.renew_step(read, now) == LeaseStepView::<M, K>::Done(Ok(false))
            &&& election.release_step(read) == LeaseStepView::<M, K>::Done(Ok(false))
        }),
{
    lemma_whole_seconds(election.lease_duration);
}

/// Rounding down to whole seconds.
proof fn lemma_whole_seconds(nanos: nat)
    ensures
        nanos / 1_000_000_000 * 1_000_000_000 <= nanos,
        nanos < (nanos / 1_000_000_000 + 1) * 1_000_000_000,
{
}

/// A lease that exists is claimed exactly if nobody else holds it, or if
/// the candidate has observed just these contents for its own lease duration;
/// or else the attempt ends without the lease.
pub proof fn law_lease_is_claimed_if_free_or_expired<M, K>(
    candidate: LeaderElectionView,
    observed: Option<ObservationView>,
    lease: LeaseView<M>,
    clock: nat,
    now: Timestamp,
)
    ensures
        ({
            let step = candidate.acquire_step::<M, K>(
                observed,
                LeaseEventView::Fetched(Ok(Some(lease))),
                clock,
                now,
            );
            let free = holder(lease) is None || holder(lease) == Some(candidate.identity);
            let expired = observed matches Some(o) && {
                &&& lease.spec == Some(o.spec)
                &&& clock - o.at >= candidate.lease_duration || candidate.lease_duration == 0
            };
            &&& step is Send <==> free || expired
            &&& step is Done <==> !free && !expired
            &&& step is Done ==> step == LeaseStepView::<M, K>::Done(Ok(false))
        }),
{
}

/// Whoever claims or renews a lease asks for it under its name, as it was read,
/// and becomes or stays its holder as of now. Claiming the lease from somebody
/// else, or from nobody, starts a tenure and counts one transition; the
/// holder's own tenure goes on.
pub proof fn law_claim_makes_us_the_holder<M, K>(
    election: LeaderElectionView,
    observed: Option<ObservationView>,
    lease: LeaseView<M>,
    clock: nat,
    now: Timestamp,
    step: LeaseStepView<M, K>,
)
    requires
        ({
            let read = LeaseEventView::<M, K>::Fetched(Ok(Some(lease)));
            ||| step == election.acquire_step(observed, read, clock, now)
            ||| step == election.renew_step(read, now)
        }),
        step is Send,
    ensures
        step matches LeaseStepView::Send(LeaseRequestView::Replace { name, lease: written }) && {
            &&& name == election.lease_name
            &&& written.metadata == lease.metadata
            &&& written.spec matches Some(spec) && {
                &&& spec.holder_identity == Some(election.identity)
                &&& spec.renew_time == Some(MicroTime(now))
                &&& states_duration(spec, election.lease_duration)
                &&& spec.preferred_holder is None
                &&& spec.strategy is None
                &&& match lease.spec {
                    Some(prev) => if prev.holder_identity == Some(election.identity) {
                        &&& spec.acquire_time == prev.acquire_time
                        &&& spec.lease_transitions == prev.lease_transitions
                    } else {
                        &&& spec.acquire_time == Some(MicroTime(now))
                        &&& one_more(prev.lease_transitions, spec.lease_transitions)
                    },
                    None => {
                        &&& spec.acquire_time == Some(MicroTime(now))
                        &&& spec.lease_transitions == Some(1i32)
                    },
                }
            }
        },
{
    lemma_whole_seconds(election.lease_duration);
}

/// A lease is renewed exactly if it names us, and likewise it is released: or
/// else the attempt ends, and nothing is written.
pub proof fn law_our_lease_is_renewed_and_released<M, K>(
    election: LeaderElectionView,
    lease: LeaseView<M>,
    now: Timestamp,
)
    ensures
        ({
            let read = LeaseEventView::<M, K>::Fetched(Ok(Some(lease)));
            let ours = lease.spec matches Some(spec) && spec.holder_identity == Some(
                election.identity,
            );
            let stop = LeaseStepView::<M, K>::Done(Ok(false));
            &&& if ours {
                election.renew_step(read, now) is Send && election.release_step(read) is Send
            } else {
                election.renew_step(read, now) == stop && election.release_step(read) == stop
            }
        }),
{
}

/// As long as a leader renews the lease, it does not lose it: every renewal
/// keeps the leader as the holder, so that another candidate that reads it
/// for the first time, or after something else, does not write; and the leader
/// itself can renew it again.
pub proof fn law_renewed_lease_stays_ours<M, K>(
    leader: LeaderElectionView,
    candidate: LeaderElectionView,
    observed: Option<ObservationView>,
    lease: LeaseView<M>,
    clock: nat,
    now: Timestamp,
    later: Timestamp,
)
    requires
        leader.identity.len() > 0,
        candidate.identity != leader.identity,
        leader.renew_step(LeaseEventView::<M, K>::Fetched(Ok(Some(lease))), now) is Send,
    ensures
        leader.renew_step(
            LeaseEventView::<M, K>::Fetched(Ok(Some(lease))),
            now,
        ) matches LeaseStepView::Send(LeaseRequestView::Replace { lease: written, .. }) && {
            let read = LeaseEventView::<M, K>::Fetched(Ok(Some(written)));
            &&& (observed matches Some(o) ==> Some(o.spec) != written.spec)
                ==> candidate.acquire_step(observed, read, clock, later) == LeaseStepView::<
                M,
                K,
            >::Done(Ok(false))
            &&& candidate.renew_step(read, later) == LeaseStepView::<M, K>::Done(Ok(false))
            &&& candidate.release_step(read) == LeaseStepView::<M, K>::Done(Ok(false))
            &&& leader.renew_step(read, later) is Send
            &&& leader.release_step(read) is Send
        },
{
}

/// Releasing a lease asks for it under its name, as it was read, to be left
/// without a holder and with nothing but its count of transitions; every
/// candidate then claims it at the first sight, and counts one more.
pub proof fn law_released_lease_is_free<M, K>(
    leader: LeaderElectionView,
    candidate: LeaderElectionView,
    observed: Option<ObservationView>,
    lease: LeaseView<M>,
    clock: nat,
    now: Timestamp,
)
    requires
        leader.release_step(LeaseEventView::<M, K>::Fetched(Ok(Some(lease)))) is Send,
    ensures
        leader.release_step(
            LeaseEventView::<M, K>::Fetched(Ok(Some(lease))),
        ) matches LeaseStepView::Send(LeaseRequestView::Replace { name, lease: written }) && {
            let read = LeaseEventView::<M, K>::Fetched(Ok(Some(written)));
            &&& name == leader.lease_name
            &&& written.metadata == lease.metadata
            &&& written.spec matches Some(spec) && {
                &&& spec.holder_identity is None
                &&& spec.acquire_time is None
                &&& spec.renew_time is None
                &&& spec.lease_duration_seconds is None
                &&& spec.preferred_holder is None
                &&& spec.strategy is None
                &&& lease.spec is Some
                &&& spec.lease_transitions == lease.spec->0.lease_transitions
                &&& candidate.acquire_step(
                    observed,
                    read,
                    clock,
                    now,
                ) matches LeaseStepView::Send(LeaseRequestView::Replace { lease: claimed, .. })
                    && claimed.spec matches Some(claim) && one_more(
                    lease.spec->0.lease_transitions,
                    claim.lease_transitions,
                )
            }
            &&& leader.renew_step(read, now) == LeaseStepView::<M, K>::Done(Ok(false))
        },
{
}

/// What a candidate remembers of the lease: a lease that somebody else holds,
/// from the first time on that it sees just these contents. Nothing else, and
/// not seeing them again, changes what it remembers.
pub proof fn law_candidate_remembers_first_sight<M, K>(
    candidate: LeaderElectionView,
    observed: Option<ObservationView>,
    event: LeaseEventView<M, K>,
    clock: nat,
)
    ensures
        ({
            let after = candidate.acquire_observed(observed, event, clock);
            let news = event matches LeaseEventView::Fetched(Ok(Some(lease))) && {
                &&& holder(lease) is Some
                &&& holder(lease) != Some(candidate.identity)
                &&& observed matches Some(o) ==> Some(o.spec) != lease.spec
            };
            &&& !news ==> after == observed
            &&& news ==> after is Some && after->0.at == clock && event == LeaseEventView::<
                M,
                K,
            >::Fetched(
                Ok(Some(LeaseView { spec: Some(after->0.spec), ..event->Fetched_0->Ok_0->0 })),
            )
        }),
{
}

/// The outcome of a write decides the attempt. A write that succeeds achieves
/// what it is for. One that loses against a concurrent one (status 409) leaves
/// a candidate without the lease, and a leader that releases it with nothing
/// to release; for a renewal it is an error. Every other error is passed on.
pub proof fn law_write_decides_the_attempt<M, K>(
    election: LeaderElectionView,
    observed: Option<ObservationView>,
    error: ApiError<K>,
    clock: nat,
    now: Timestamp,
)
    ensures
        ({
            let written = LeaseEventView::<M, K>::Written(Ok(()));
            let failed = LeaseEventView::<M, K>::Written(Err(error));
            let achieved = LeaseStepView::<M, K>::Done(Ok(true));
            let lost = error matches ApiError::Status { code, .. } && code == 409;
            let ended = if lost {
                LeaseStepView::<M, K>::Done(Ok(false))
            } else {
                LeaseStepView::<M, K>::Done(Err(error))
            };
            &&& election.acquire_step(observed, written, clock, now) == achieved
            &&& election.renew_step(written, now) == achieved
            &&& election.release_step(written) == achieved
            &&& election.acquire_step(observed, failed, clock, now) == ended
            &&& election.release_step(failed) == ended
            &&& election.renew_step(failed, now) == LeaseStepView::<M, K>::Done(Err(error))
        }),
{
}

/// A candidate stops trying once it holds the lease, and only then. After
/// every other attempt, whatever became of it, it waits for the retry period;
/// a lack of permissions (status 401 or 403) is told from other errors, and
/// every error is reported as it is.
pub proof fn law_candidate_waits_between_attempts<K>(
    election: LeaderElection,
    attempt: Result<bool, ApiError<K>>,
    step: AcquireStep<K>,
)
    requires
        call_ensures(LeaderElection::acquire::<K>, (&election, attempt), step),
    ensures
        step is Acquired <==> attempt == Ok::<bool, ApiError<K>>(true),
        step@ == election@.after_attempt(attempt),
        step matches AcquireStep::Retry { cause, after } ==> {
            &&& after@ == election@.retry_period
            &&& match attempt {
                Ok(held) => !held && cause == RetryCause::<K>::HeldByAnother,
                Err(e) => if e is Status && (e->code == 401 || e->code == 403) {
                    cause == RetryCause::NotPermitted(e)
                } else {
                    cause == RetryCause::Failed(e)
                },
            }
        },
{
}

/// A leader whose renewal fails keeps trying, whatever the error is, as long as
/// the renew deadline has not passed since the last renewal: it sleeps for the
/// retry period, or until the deadline if that comes first. It gives up only
/// once the deadline has passed. Either way the error is reported.
pub proof fn law_leader_keeps_trying_until_the_deadline<K>(
    leader: LeaderElectionView,
    last_renew: nat,
    error: ApiError<K>,
    clock: nat,
)
    requires
        last_renew <= clock,
    ensures
        ({
            let deadline = last_renew + leader.renew_deadline;
            let step = leader.hold_step(last_renew, HoldEvent::Renewed(Err(error)), clock);
            &&& clock >= deadline ==> step == HoldStepView::StepDown(
                StepDown::DeadlineExceeded(error),
            )
            &&& clock < deadline ==> {
                &&& step matches HoldStepView::Sleep { period, failure }
                &&& failure == Some(error)
                &&& period == leader.retry_period || clock + period == deadline
                &&& period <= leader.retry_period
                &&& clock + period <= deadline
            }
        }),
{
}

/// A leader that acquires or renews the lease sleeps for the retry period, and
/// has the whole renew deadline ahead of it again. Whatever else happens, the
/// deadline does not move.
pub proof fn law_only_a_renewal_moves_the_deadline<K>(
    leader: LeaderElectionView,
    last_renew: nat,
    event: HoldEvent<K>,
    clock: nat,
)
    ensures
        ({
            let renewed = event is Started || event == HoldEvent::<K>::Renewed(Ok(true));
            let after = leader.hold_renewed(last_renew, event, clock);
            let step = leader.hold_step(last_renew, event, clock);
            &&& after == if renewed {
                clock
            } else {
                last_renew
            }
            &&& renewed ==> step == HoldStepView::<K>::Sleep {
                period: leader.retry_period,
                failure: None,
            }
            &&& renewed ==> leader.hold_step(
                after,
                HoldEvent::<K>::Slept,
                clock + leader.retry_period,
            ) == (HoldStepView::<K>::Renew {
                timeout: if leader.renew_deadline >= leader.retry_period {
                    (leader.renew_deadline - leader.retry_period) as nat
                } else {
                    0
                },
            })
        }),
{
}

/// A leader stops leading for one of three reasons, and for no other: the lease
/// turned out not to be its own, the renew deadline has passed with an error,
/// or the attempt to renew the lease did not end in time. After a sleep it
/// always attempts to renew the lease.
pub proof fn law_leader_steps_down_for_a_reason<K>(
    leader: LeaderElectionView,
    last_renew: nat,
    event: HoldEvent<K>,
    clock: nat,
)
    ensures
        ({
            let step = leader.hold_step(last_renew, event, clock);
            let overdue = clock >= last_renew + leader.renew_deadline || leader.renew_deadline == 0;
            &&& step is StepDown <==> {
                ||| event == HoldEvent::<K>::Renewed(Ok(false))
                ||| event is Renewed && event->Renewed_0 is Err && overdue
                ||| event is TimedOut
            }
            &&& step is Renew <==> event is Slept
            &&& step == HoldStepView::<K>::StepDown(StepDown::TakenOver) <==> event == HoldEvent::<
                K,
            >::Renewed(Ok(false))
            &&& step == HoldStepView::<K>::StepDown(StepDown::TimedOut) <==> event is TimedOut
        }),
{
}

/// A clock that is read before the last renewal counts as no time passed.
pub proof fn law_time_does_not_run_backwards<K>(
    leader: LeaderElectionView,
    last_renew: nat,
    event: HoldEvent<K>,
    clock: nat,
)
    requires
        clock <= last_renew,
    ensures
        leader.hold_step(last_renew, event, clock) == leader.hold_step(
            last_renew,
            event,
            last_renew,
        ),
{
}

/// A leader with a valid configuration gets to renew the lease: when the sleep
/// after a renewal ends in time, there is time left for the attempt.
pub proof fn law_valid_leader_gets_to_renew<K>(leader: LeaderElectionView, last_renew: nat)
    requires
        leader.valid(),
    ensures
        leader.hold_step(
            last_renew,
            HoldEvent::<K>::Slept,
            last_renew + leader.retry_period,
        ) matches HoldStepView::Renew { timeout } && timeout > 0,
{
}

/// A configuration is accepted exactly if the identity is not empty and the
/// timings nest: each retry period ends before the renew deadline, and the
/// renew deadline passes before the lease expires. Of several things that are
/// wrong, the first of these is reported: the identity, the renew deadline, the
/// retry period.
pub proof fn law_valid_timings_nest(election: LeaderElection, result: Result<(), ConfigError>)
    requires
        call_ensures(LeaderElection::validate, (&election,), result),
    ensures
        result is Ok <==> {
            &&& election@.identity.len() > 0
            &&& election@.retry_period < election@.renew_deadline < election@.lease_duration
        },
        election@.valid() <==> result is Ok,
        result matches Err(e) ==> match e {
            ConfigError::EmptyIdentity => election@.identity.len() == 0,
            ConfigError::RenewDeadlineTooLong => {
                &&& election@.identity.len() > 0
                &&& election@.lease_duration <= election@.renew_deadline
            },
            ConfigError::RetryPeriodTooLong => {
                &&& election@.identity.len() > 0
                &&& election@.renew_deadline < election@.lease_duration
                &&& election@.renew_deadline <= election@.retry_period
            },
        },
{
}

/// The timings of a new election are those of client-go, in nanoseconds, and
/// it is accepted unless the identity is empty. Each setting changes what it is
/// called after, to the value that it is given, and nothing else.
pub proof fn law_settings_are_independent(
    namespace: &str,
    lease_name: &str,
    identity: &str,
    created: LeaderElection,
    set: Duration,
    leased: LeaderElection,
    due: LeaderElection,
    retrying: LeaderElection,
)
    requires
        call_ensures(LeaderElection::new, (namespace, lease_name, identity), created),
        call_ensures(LeaderElection::with_lease_duration, (created, set), leased),
        call_ensures(LeaderElection::with_renew_deadline, (leased, set), due),
        call_ensures(LeaderElection::with_retry_period, (due, set), retrying),
    ensures
        created@.namespace == namespace@,
        created@.lease_name == lease_name@,
        created@.identity == identity@,
        created@.lease_duration == 15_000_000_000,
        created@.renew_deadline == 10_000_000_000,
        created@.retry_period == 2_000_000_000,
        identity@.len() > 0 ==> created@.valid(),
        leased@ == (LeaderElectionView { lease_duration: set@, ..created@ }),
        due@ == (LeaderElectionView { renew_deadline: set@, ..leased@ }),
        retrying@ == (LeaderElectionView { retry_period: set@, ..due@ }),
{
}

/// What a release reports is what became of the attempt: released exactly if
/// the attempt succeeded, and every error as it is.
pub proof fn law_release_reports_the_attempt<K>(
    election: LeaderElection,
    attempt: Result<bool, ApiError<K>>,
    report: ReleaseReport<K>,
)
    requires
        call_ensures(LeaderElection::release::<K>, (&election, attempt), report),
    ensures
        report is Released <==> attempt == Ok::<bool, ApiError<K>>(true),
        report is NotHeld <==> attempt == Ok::<bool, ApiError<K>>(false),
        attempt matches Err(e) ==> report == ReleaseReport::Failed(e),
{
}

/// While a leader holds the lease, a renewal that fails with whatever error
/// before the renew deadline is followed by a sleep that reports the error and
/// ends by the deadline, and leaves the deadline where it is; a renewal that
/// succeeds moves it.
pub proof fn law_hold_keeps_renewing<K>(
    election: LeaderElection,
    last_renew: &mut Instant,
    event: HoldEvent<K>,
    clock: Instant,
    step: HoldStep<K>,
)
    requires
        call_ensures(LeaderElection::hold::<K>, (&election, last_renew, event, clock), step),
    ensures
        step@ == election@.hold_step(old(last_renew)@, event, clock@),
        final(last_renew)@ == election@.hold_renewed(old(last_renew)@, event, clock@),
        event is Slept <==> step is Renew,
        event is Slept && old(last_renew)@ <= clock@ <= old(last_renew)@ + election@.renew_deadline
            ==> clock@ + step->timeout@ == old(last_renew)@ + election@.renew_deadline,
        event is Slept && clock@ >= old(last_renew)@ + election@.renew_deadline
            ==> step->timeout@ == 0,
        event is Renewed && event->Renewed_0 is Err && old(last_renew)@ <= clock@ < old(
            last_renew,
        )@ + election@.renew_deadline ==> {
            &&& step is Sleep
            &&& step->failure == Some(event->Renewed_0->Err_0)
            &&& step->period@ == if clock@ + election@.retry_period <= old(last_renew)@
                + election@.renew_deadline {
                election@.retry_period as int
            } else {
                old(last_renew)@ + election@.renew_deadline - clock@
            }
            &&& final(last_renew)@ == old(last_renew)@
        },
        event is Started || event == HoldEvent::<K>::Renewed(Ok(true)) ==> {
            &&& step is Sleep
            &&& step->failure is None
            &&& step->period@ == election@.retry_period
            &&& final(last_renew)@ == clock@
        },
        event == HoldEvent::<K>::Renewed(Ok(false)) ==> step == HoldStep::<K>::StepDown(
            StepDown::TakenOver,
        ),
        event is TimedOut ==> step == HoldStep::<K>::StepDown(StepDown::TimedOut),
{
}

/// A candidate that reads a lease takes it, or remembers it, by what it sees: it
/// sends a write exactly if nobody else holds the lease, or if it first saw just
/// these contents a full lease duration ago; what it first sees, it remembers
/// from then on.
pub proof fn law_acquire_waits_for_the_lease_to_expire<M, K>(
    election: LeaderElection,
    observed: &mut Option<Observation>,
    event: LeaseEvent<M, K>,
    clock: Instant,
    now: Timestamp,
    step: LeaseStep<M, K>,
)
    requires
        call_ensures(
            LeaderElection::try_acquire_at::<M, K>,
            (&election, observed, event, clock, now),
            step,
        ),
    ensures
        step@ == election@.acquire_step(observation(*old(observed)), event@, clock@, now),
        observation(*final(observed)) == election@.acquire_observed(
            observation(*old(observed)),
            event@,
            clock@,
        ),
        event matches LeaseEvent::Fetched(Ok(Some(lease))) ==> {
            let free = holder(lease@) is None || holder(lease@) == Some(election@.identity);
            let seen = *old(observed) matches Some(o) && lease.spec matches Some(spec) && o.spec@
                == spec@;
            let waited = seen && clock@ >= (*old(observed))->0.at@
                + election@.lease_duration;
            &&& free || waited ==> step is Send
            &&& !free && !waited && election@.lease_duration > 0 ==> step == LeaseStep::<
                M,
                K,
            >::Done(Ok(false))
            &&& !free && !seen ==> (*final(observed) matches Some(o) && o.at@ == clock@ && o.spec@
                == lease.spec->0@)
        },
{
}

/// Renewing goes on with the lease exactly if it names us, and keeps us as its
/// holder; releasing it leaves nobody.
pub proof fn law_renew_keeps_and_release_frees<M, K>(
    election: LeaderElection,
    event: LeaseEvent<M, K>,
    now: Timestamp,
    renewed: LeaseStep<M, K>,
    released: LeaseStep<M, K>,
)
    requires
        call_ensures(LeaderElection::renew_at::<M, K>, (&election, event, now), renewed),
        call_ensures(LeaderElection::try_release::<M, K>, (&election, event), released),
    ensures
        renewed@ == election@.renew_step(event@, now),
        released@ == election@.release_step(event@),
        event matches LeaseEvent::Fetched(Ok(Some(lease))) ==> {
            let ours = lease.spec matches Some(spec) && spec.holder_identity matches Some(holder)
                && holder@ == election@.identity;
            &&& renewed is Send <==> ours
            &&& released is Send <==> ours
            &&& ours ==> {
                &&& renewed->Send_0 matches LeaseRequest::Replace { name, lease: written } && {
                    &&& name@ == election@.lease_name
                    &&& written.metadata == lease.metadata
                    &&& written.spec matches Some(spec) && {
                        &&& spec.holder_identity matches Some(holder) && holder@
                            == election@.identity
                        &&& spec.renew_time == Some(MicroTime(now))
                        &&& spec.acquire_time == lease.spec->0.acquire_time
                        &&& spec.lease_transitions == lease.spec->0.lease_transitions
                    }
                }
                &&& released->Send_0 matches LeaseRequest::Replace { name, lease: written } && {
                    &&& name@ == election@.lease_name
                    &&& written.metadata == lease.metadata
                    &&& written.spec matches Some(spec) && {
                        &&& spec.holder_identity is None
                        &&& spec.lease_transitions == lease.spec->0.lease_transitions
                    }
                }
            }
            &&& !ours ==> {
                &&& renewed == LeaseStep::<M, K>::Done(Ok(false))
                &&& released == LeaseStep::<M, K>::Done(Ok(false))
            }
        },
{
}

/// What is written to claim or renew the lease is dated by the wall clock.
pub proof fn law_writes_are_dated_by_the_wall_clock<M, K>(
    election: LeaderElection,
    observed: &mut Option<Observation>,
    event: LeaseEvent<M, K>,
    clock: Instant,
    claimed: LeaseStep<M, K>,
    renewed: LeaseStep<M, K>,
)
    requires
        call_ensures(
            LeaderElection::try_acquire::<M, K>,
            (&election, observed, event, clock),
            claimed,
        ),
        call_ensures(LeaderElection::renew::<M, K>, (&election, event), renewed),
    ensures
        claimed@ matches LeaseStepView::Send(LeaseRequestView::Replace { lease, .. })
            ==> exists|now: Timestamp| #[trigger]
            read_from_wall_clock(now) && lease.spec->0.renew_time == Some(MicroTime(now)),
        claimed@ matches LeaseStepView::Send(LeaseRequestView::Create { spec, .. })
            ==> exists|now: Timestamp| #[trigger]
            read_from_wall_clock(now) && spec.renew_time == Some(MicroTime(now)),
        renewed@ matches LeaseStepView::Send(LeaseRequestView::Replace { lease, .. })
            ==> exists|now: Timestamp| #[trigger]
            read_from_wall_clock(now) && lease.spec->0.renew_time == Some(MicroTime(now)),
        exists|now: Timestamp|
            read_from_wall_clock(now) && claimed@ == #[trigger] election@.acquire_step(
                observation(*old(observed)),
                event@,
                clock@,
                now,
            ),
        exists|now: Timestamp|
            read_from_wall_clock(now) && renewed@ == #[trigger] election@.renew_step(event@, now),
        observation(*final(observed)) == election@.acquire_observed(
            observation(*old(observed)),
            event@,
            clock@,
        ),
{
}

/// What is read of the lease, and what comes of a write, is taken as it is; and
/// what is sent is what was decided.
pub proof fn law_requests_are_sent_as_decided<M, K>(
    name: String,
    spec: LeaseSpec,
    lease: Lease<M>,
    written: Result<(), ApiError<K>>,
    error: ApiError<K>,
)
    ensures
        (LeaseRequest::<M>::Get { name })@ == (LeaseRequestView::<M>::Get { name: name@ }),
        (LeaseRequest::<M>::Create { name, spec })@ == (LeaseRequestView::<M>::Create {
            name: name@,
            spec: spec@,
        }),
        (LeaseRequest::<M>::Replace { name, lease })@ == (LeaseRequestView::<M>::Replace {
            name: name@,
            lease: lease@,
        }),
        lease@.metadata == lease.metadata,
        lease@.spec is Some <==> lease.spec is Some,
        lease.spec matches Some(spec) ==> lease@.spec == Some(spec@),
        LeaseEvent::<M, K>::Fetched(Ok(Some(lease)))@ == LeaseEventView::<M, K>::Fetched(
            Ok(Some(lease@)),
        ),
        LeaseEvent::<M, K>::Fetched(Ok(None))@ == LeaseEventView::<M, K>::Fetched(Ok(None)),
        LeaseEvent::<M, K>::Fetched(Err(error))@ == LeaseEventView::<M, K>::Fetched(Err(error)),
        LeaseEvent::<M, K>::Written(written)@ == LeaseEventView::<M, K>::Written(written),
{
}

} // verus!
