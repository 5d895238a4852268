//! Which resources a controller watches, and how it keeps track of the errors
//! of each.

use vstd::hash_map::StringHashMap;
use vstd::prelude::*;

verus! {

/// A part of the cluster that requests about one kind of resource address.
#[derive(Debug, PartialEq, Eq)]
pub enum ApiScope {
    /// The whole cluster.
    All,
    /// The namespace with this name.
    Namespaced(String),
}

/// The mathematical value of an [`ApiScope`].
pub enum ApiScopeView {
    All,
    Namespaced(Seq<char>),
}

impl View for ApiScope {
    type V = ApiScopeView;

    open spec fn view(&self) -> ApiScopeView {
        match *self {
            ApiScope::All => ApiScopeView::All,
            ApiScope::Namespaced(namespace) => ApiScopeView::Namespaced(namespace@),
        }
    }
}

/// What happens to a controller that runs.
#[derive(Debug)]
pub enum RunEvent {
    /// The resource with this uid, in this namespace if it is in one, is to be
    /// reconciled.
    Triggered { uid: String, namespace: Option<String> },
    /// The resource with this uid was reconciled.
    Reconciled { uid: String },
    /// The reconciliation of the resource with this uid failed.
    Failed { uid: String },
}

/// What a controller does about it.
#[derive(Debug, PartialEq, Eq)]
pub enum RunStep {
    /// Reconcile the resource, with requests to this scope.
    Reconcile { api: ApiScope },
    /// Do with the resource what its reconciliation has decided.
    Proceed,
    /// Ask [`Context::on_error`](crate::Context::on_error) when to reconcile
    /// the resource again, given that it has failed this often before in a row.
    Backoff { consecutive_errors: u32 },
}

/// The mathematical value of a [`RunStep`].
pub enum RunStepView {
    Reconcile { api: ApiScopeView },
    Proceed,
    Backoff { consecutive_errors: u32 },
}

impl View for RunStep {
    type V = RunStepView;

    open spec fn view(&self) -> RunStepView {
        match *self {
            RunStep::Reconcile { api } => RunStepView::Reconcile { api: api@ },
            RunStep::Proceed => RunStepView::Proceed,
            RunStep::Backoff { consecutive_errors } => RunStepView::Backoff { consecutive_errors },
        }
    }
}

/// A controller of one kind of resource.
pub struct Controller {
    watched: ApiScope,
    namespaced: bool,
    backoffs: StringHashMap<u32>,
}

/// The mathematical value of a [`Controller`].
pub struct ControllerView {
    /// Where the controller watches for resources.
    pub watched: ApiScopeView,
    /// Whether the resources live in namespaces.
    pub namespaced: bool,
    /// For the uid of each resource whose last reconciliation failed, how many
    /// have failed in a row.
    pub backoffs: Map<Seq<char>, u32>,
}

impl View for Controller {
    type V = ControllerView;

    closed spec fn view(&self) -> ControllerView {
        ControllerView {
            watched: self.watched@,
            namespaced: self.namespaced,
            backoffs: self.backoffs@,
        }
    }
}

/// The number that follows `n`, unless `n` is the largest.
pub open spec fn counted(n: u32) -> u32 {
    if n == u32::MAX {
        u32::MAX
    } else {
        (n + 1) as u32
    }
}

impl ControllerView {
    /// How many reconciliations of the resource have failed in a row.
    pub open spec fn errors(self, uid: Seq<char>) -> u32 {
        if self.backoffs.contains_key(uid) {
            self.backoffs[uid]
        } else {
            0
        }
    }

    /// The scope of requests about a resource in this namespace.
    pub open spec fn api(self, namespace: Option<Seq<char>>) -> ApiScopeView {
        if self.namespaced {
            ApiScopeView::Namespaced(namespace->0)
        } else {
            ApiScopeView::All
        }
    }

    /// The controller once the resource was reconciled.
    pub open spec fn reconciled(self, uid: Seq<char>) -> ControllerView {
        ControllerView { backoffs: self.backoffs.remove(uid), ..self }
    }

    /// The controller once the reconciliation of the resource failed.
    pub open spec fn failed(self, uid: Seq<char>) -> ControllerView {
        ControllerView { backoffs: self.backoffs.insert(uid, counted(self.errors(uid))), ..self }
    }

    /// Whether the controller can handle an event: a resource that lives in a
    /// namespace has one.
    pub open spec fn handles(self, event: RunEvent) -> bool {
        event matches RunEvent::Triggered { namespace, .. } ==> self.namespaced ==> namespace
            is Some
    }

    /// The controller after an event.
    pub open spec fn after(self, event: RunEvent) -> ControllerView {
        match event {
            RunEvent::Triggered { .. } => self,
            RunEvent::Reconciled { uid } => self.reconciled(uid@),
            RunEvent::Failed { uid } => self.failed(uid@),
        }
    }

    /// What the controller does about an event.
    pub open spec fn step(self, event: RunEvent) -> RunStepView {
        match event {
            RunEvent::Triggered { namespace, .. } => RunStepView::Reconcile {
                api: self.api(
                    match namespace {
                        Some(namespace) => Some(namespace@),
                        None => None,
                    },
                ),
            },
            RunEvent::Reconciled { .. } => RunStepView::Proceed,
            RunEvent::Failed { uid } => RunStepView::Backoff { consecutive_errors: self.errors(uid@) },
        }
    }
}

impl Controller {
    /// A controller of the resources in one namespace.
    pub fn namespaced(namespace: &str) -> (controller: Controller)
        ensures
            controller@ == (ControllerView {
                watched: ApiScopeView::Namespaced(namespace@),
                namespaced: true,
                backoffs: Map::empty(),
            }),
    {
        Controller {
            watched: ApiScope::Namespaced(namespace.to_owned()),
            namespaced: true,
            backoffs: StringHashMap::new(),
        }
    }

    /// A controller of the resources in all namespaces.
    pub fn namespaced_all() -> (controller: Controller)
        ensures
            controller@ == (ControllerView {
                watched: ApiScopeView::All,
                namespaced: true,
                backoffs: Map::empty(),
            }),
    {
        Controller { watched: ApiScope::All, namespaced: true, backoffs: StringHashMap::new() }
    }

    /// A controller of resources that do not live in namespaces.
    pub fn cluster() -> (controller: Controller)
        ensures
            controller@ == (ControllerView {
                watched: ApiScopeView::All,
                namespaced: false,
                backoffs: Map::empty(),
            }),
    {
        Controller { watched: ApiScope::All, namespaced: false, backoffs: StringHashMap::new() }
    }

    /// Where the controller watches for resources.
    pub fn watched(&self) -> (scope: &ApiScope)
        ensures
            scope@ == self@.watched,
    {
        &self.watched
    }

    /// Whether the resources live in namespaces.
    pub fn is_namespaced(&self) -> (namespaced: bool)
        ensures
            namespaced == self@.namespaced,
    {
        self.namespaced
    }

    /// The scope of requests about a resource in this namespace: the
    /// namespace, if resources live in them, or else the whole cluster.
    pub fn make_api(&self, namespace: Option<String>) -> (api: ApiScope)
        requires
            self@.namespaced ==> namespace is Some,
        ensures
            api@ == self@.api(
                match namespace {
                    Some(namespace) => Some(namespace@),
                    None => None,
                },
            ),
    {
        if self.namespaced {
            ApiScope::Namespaced(namespace.unwrap())
        } else {
            ApiScope::All
        }
    }

    /// Decides what to do about an event while the controller runs.
    pub fn run(&mut self, event: RunEvent) -> (step: RunStep)
        requires
            old(self)@.handles(event),
        ensures
            step@ == old(self)@.step(event),
            final(self)@ == old(self)@.after(event),
    {
        match event {
            RunEvent::Triggered { namespace, .. } => RunStep::Reconcile {
                api: self.make_api(namespace),
            },
            RunEvent::Reconciled { uid } => {
                self.backoffs.remove(uid.as_str());
                RunStep::Proceed
            },
            RunEvent::Failed { uid } => {
                let consecutive_errors: u32 = match self.backoffs.get(uid.as_str()) {
                    Some(errors) => *errors,
                    None => 0,
                };
                self.backoffs.insert(uid, consecutive_errors.saturating_add(1));
                RunStep::Backoff { consecutive_errors }
            },
        }
    }
}

/// A controller after a sequence of events.
pub open spec fn after_all(controller: ControllerView, events: Seq<RunEvent>) -> ControllerView
    decreases events.len(),
{
    if events.len() == 0 {
        controller
    } else {
        after_all(controller, events.drop_last()).after(events.last())
    }
}

/// Whether an event is the end of a reconciliation of this resource.
pub open spec fn ends(event: RunEvent, uid: Seq<char>) -> bool {
    match event {
        RunEvent::Triggered { .. } => false,
        RunEvent::Reconciled { uid: of } => of@ == uid,
        RunEvent::Failed { uid: of } => of@ == uid,
    }
}

/// How many reconciliations of the resource have failed in these events since
/// the last that did not.
pub open spec fn failures_in_a_row(events: Seq<RunEvent>, uid: Seq<char>) -> nat
    decreases events.len(),
{
    if events.len() == 0 {
        0
    } else if !ends(events.last(), uid) {
        failures_in_a_row(events.drop_last(), uid)
    } else if events.last() is Failed {
        failures_in_a_row(events.drop_last(), uid) + 1
    } else {
        0
    }
}

/// The count of errors that a controller keeps of a resource is the number of
/// its failures since it was last reconciled (as far as a number can hold it),
/// whatever happens to other resources in between.
pub proof fn law_errors_count_failures_in_a_row(
    controller: ControllerView,
    events: Seq<RunEvent>,
    uid: Seq<char>,
)
    requires
        controller.errors(uid) == 0,
    ensures
        after_all(controller, events).errors(uid) == if failures_in_a_row(events, uid) <= u32::MAX {
            failures_in_a_row(events, uid) as int
        } else {
            u32::MAX as int
        },
    decreases events.len(),
{
    if events.len() > 0 {
        law_errors_count_failures_in_a_row(controller, events.drop_last(), uid);
    }
}

/// A resource that was reconciled starts over: its next error is treated as
/// the first.
pub proof fn law_success_resets_the_backoff(controller: ControllerView, uid: String)
    ensures
        controller.after(RunEvent::Reconciled { uid }).errors(uid@) == 0,
        controller.after(RunEvent::Reconciled { uid }).step(RunEvent::Failed { uid })
            == (RunStepView::Backoff { consecutive_errors: 0 }),
{
}

/// An error of one resource does not change how another is treated.
pub proof fn law_resources_back_off_apart(
    controller: ControllerView,
    event: RunEvent,
    other: Seq<char>,
)
    requires
        !ends(event, other),
    ensures
        controller.after(event).errors(other) == controller.errors(other),
{
}

/// Where a controller watches, and where its requests go, never changes while
/// it runs.
pub proof fn law_scope_is_fixed(controller: ControllerView, events: Seq<RunEvent>)
    ensures
        after_all(controller, events).watched == controller.watched,
        after_all(controller, events).namespaced == controller.namespaced,
    decreases events.len(),
{
    if events.len() > 0 {
        law_scope_is_fixed(controller, events.drop_last());
    }
}

/// How often a resource is said to have failed in a row, when it fails, is how
/// often it has failed since it was last reconciled, whatever happened to other
/// resources in between.
pub proof fn law_backoff_tells_failures_in_a_row(
    controller: ControllerView,
    events: Seq<RunEvent>,
    uid: String,
)
    requires
        controller.errors(uid@) == 0,
        failures_in_a_row(events, uid@) <= u32::MAX,
    ensures
        after_all(controller, events).step(RunEvent::Failed { uid })
            == (RunStepView::Backoff { consecutive_errors: failures_in_a_row(events, uid@) as u32 }),
{
    law_errors_count_failures_in_a_row(controller, events, uid@);
}

/// Each failure of a resource in a row is counted once more than the one
/// before, until the count is at its largest; and the count that is kept is
/// the one that the next failure is told.
pub proof fn law_each_failure_counts_one_more(controller: ControllerView, uid: String)
    ensures
        controller.step(RunEvent::Failed { uid }) == (RunStepView::Backoff {
            consecutive_errors: controller.errors(uid@),
        }),
        controller.errors(uid@) < 0xffff_ffff ==> controller.after(RunEvent::Failed { uid }).errors(
            uid@,
        ) == controller.errors(uid@) + 1,
        controller.errors(uid@) == 0xffff_ffff ==> controller.after(
            RunEvent::Failed { uid },
        ).errors(uid@) == 0xffff_ffff,
{
}

/// A resource is reconciled whenever that is asked for, with requests to its
/// own namespace if it lives in one, and else to the whole cluster. That it is
/// reconciled changes nothing that the controller keeps; once it was, the
/// controller does what the reconciliation has decided.
pub proof fn law_requests_go_where_the_resource_is(
    controller: ControllerView,
    uid: String,
    namespace: String,
)
    ensures
        ({
            let here = RunEvent::Triggered { uid, namespace: Some(namespace) };
            let nowhere = RunEvent::Triggered { uid, namespace: None };
            let cluster = RunStepView::Reconcile { api: ApiScopeView::All };
            &&& controller.namespaced ==> controller.step(here) == (RunStepView::Reconcile {
                api: ApiScopeView::Namespaced(namespace@),
            })
            &&& !controller.namespaced ==> controller.step(here) == cluster && controller.step(
                nowhere,
            ) == cluster
            &&& controller.after(here) == controller
            &&& controller.after(nowhere) == controller
            &&& controller.step(RunEvent::Reconciled { uid }) == RunStepView::Proceed
        }),
{
}

/// A controller of one namespace watches that namespace, one of all namespaces
/// and one of cluster resources the whole cluster. Whether its resources live in
/// namespaces, and so where requests about them go, is as it was made. None has
/// counted an error of any resource.
pub proof fn law_new_controllers_watch_their_scope(
    namespace: &str,
    one: Controller,
    all: Controller,
    cluster: Controller,
    uid: Seq<char>,
)
    requires
        call_ensures(Controller::namespaced, (namespace,), one),
        call_ensures(Controller::namespaced_all, (), all),
        call_ensures(Controller::cluster, (), cluster),
    ensures
        one@.watched == ApiScopeView::Namespaced(namespace@),
        all@.watched == ApiScopeView::All,
        cluster@.watched == ApiScopeView::All,
        one@.namespaced && all@.namespaced && !cluster@.namespaced,
        one@.errors(uid) == 0,
        all@.errors(uid) == 0,
        cluster@.errors(uid) == 0,
{
}

/// What a controller does, and keeps, while it runs: it reconciles what it is
/// asked to, starts over with what was reconciled, and says of what failed how
/// often it has failed before, which is then once more.
pub proof fn law_run_counts_failures(controller: &mut Controller, event: RunEvent, step: RunStep)
    requires
        old(controller)@.handles(event),
        call_ensures(Controller::run, (controller, event), step),
    ensures
        step@ == old(controller)@.step(event),
        final(controller)@ == old(controller)@.after(event),
        event is Triggered <==> step is Reconcile,
        event is Reconciled <==> step is Proceed,
        event matches RunEvent::Triggered { namespace: Some(namespace), .. } ==> match step {
            RunStep::Reconcile { api: ApiScope::Namespaced(api) } => old(controller)@.namespaced
                && api@ == namespace@,
            RunStep::Reconcile { api: ApiScope::All } => !old(controller)@.namespaced,
            _ => false,
        },
        event matches RunEvent::Failed { uid } ==> {
            &&& step == (RunStep::Backoff { consecutive_errors: old(controller)@.errors(uid@) })
            &&& old(controller)@.errors(uid@) < 0xffff_ffff ==> final(controller)@.errors(uid@)
                == old(controller)@.errors(uid@) + 1
        },
        event matches RunEvent::Reconciled { uid } ==> final(controller)@.errors(uid@) == 0,
{
}

/// A resource that has failed before has that count; one that has not, or that
/// was reconciled since, has none.
pub proof fn law_errors_are_those_kept(controller: ControllerView, uid: Seq<char>)
    ensures
        controller.backoffs.dom().contains(uid) ==> controller.errors(uid)
            == controller.backoffs[uid],
        !controller.backoffs.dom().contains(uid) ==> controller.errors(uid) == 0,
{
}

} // verus!
