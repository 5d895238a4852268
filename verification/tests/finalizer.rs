//! Reconciliation with finalizers, against an object that is patched by the
//! `json_patch` crate.

use std::str::FromStr;
use std::sync::Arc;

use json_patch::jsonptr::PointerBuf;
use json_patch::{AddOperation, RemoveOperation, TestOperation};
use k8s_controller::context::{
    backoff_action, error_action, error_delays, next_step, resync_action, success_action, Error,
    ReconcileEvent, ReconcileStep,
};
use k8s_controller::finalizer::{
    add_patch, position, remove_patch, FinalizerPath, ObjectMeta, PatchOperation, PatchValue,
};
use k8s_controller::time::Duration;
use k8s_controller::{Action, Context};
use serde_json::Value;

const FINALIZER: &str = "test.k8s-controller/finalizer";
/// A finalizer owned by some other controller.
const FOREIGN_FINALIZER: &str = "other.example/keep";

struct TestContext;

impl Context for TestContext {
    type Resource = &'static str;
    type Error = &'static str;
    type ApiError = &'static str;

    const FINALIZER_NAME: Option<&'static str> = Some(FINALIZER);
}

struct BareContext;

impl Context for BareContext {
    type Resource = &'static str;
    type Error = &'static str;
    type ApiError = &'static str;

    const FINALIZER_NAME: Option<&'static str> = None;
}

type Event = ReconcileEvent<&'static str, &'static str>;
type Step = ReconcileStep<&'static str, &'static str>;

fn value(value: &PatchValue) -> Value {
    match value {
        PatchValue::Null => Value::Null,
        PatchValue::Text(text) => Value::from(text.as_str()),
        PatchValue::List(list) => Value::from(list.clone()),
    }
}

fn pointer(path: &FinalizerPath) -> PointerBuf {
    PointerBuf::from_str(&path.pointer()).unwrap()
}

fn json(patch: &[PatchOperation]) -> json_patch::Patch {
    json_patch::Patch(
        patch
            .iter()
            .map(|operation| match operation {
                PatchOperation::Test { path, value: expected } => {
                    json_patch::PatchOperation::Test(TestOperation {
                        path: pointer(path),
                        value: value(expected),
                    })
                }
                PatchOperation::Add { path, value: added } => {
                    json_patch::PatchOperation::Add(AddOperation {
                        path: pointer(path),
                        value: value(added),
                    })
                }
                PatchOperation::Remove { path } => {
                    json_patch::PatchOperation::Remove(RemoveOperation { path: pointer(path) })
                }
            })
            .collect(),
    )
}

/// An object on an API server. An object without finalizers has a null in
/// their place, which is how a patch sees an absent field.
#[derive(Clone)]
struct Object {
    finalizers: Vec<String>,
    deleting: bool,
}

impl Object {
    fn new(finalizers: &[&str]) -> Self {
        Object { finalizers: finalizers.iter().map(|f| f.to_string()).collect(), deleting: false }
    }

    fn gone(&self) -> bool {
        self.deleting && self.finalizers.is_empty()
    }

    fn meta(&self) -> ObjectMeta {
        ObjectMeta {
            name: Some("cm".to_owned()),
            finalizers: self.finalizers.clone(),
            deleting: self.deleting,
        }
    }

    fn patch(&mut self, patch: &[PatchOperation]) -> Result<(), &'static str> {
        let list = if self.finalizers.is_empty() {
            Value::Null
        } else {
            Value::from(self.finalizers.clone())
        };
        let mut metadata = serde_json::Map::new();
        metadata.insert("finalizers".to_owned(), list);
        let mut document = serde_json::Map::new();
        document.insert("metadata".to_owned(), Value::Object(metadata));
        let mut document = Value::Object(document);
        json_patch::patch(&mut document, &json(patch)).map_err(|_| "patch refused")?;
        self.finalizers = match &document["metadata"]["finalizers"] {
            Value::Array(list) => list.iter().map(|f| f.as_str().unwrap().to_owned()).collect(),
            _ => Vec::new(),
        };
        Ok(())
    }
}

/// What a reconciliation did.
#[derive(Debug, PartialEq)]
struct Outcome {
    applied: u32,
    cleaned_up: u32,
    result: Result<Action, Error<&'static str, &'static str>>,
}

/// Runs one reconciliation of an object.
fn reconcile(object: &mut Object, cleanup: Result<Option<Action>, &'static str>) -> Outcome {
    let context = TestContext;
    let meta = object.meta();
    let (mut applied, mut cleaned_up) = (0, 0);
    let mut event = Event::Started;
    let result = loop {
        event = match context.reconcile(&meta, event) {
            ReconcileStep::AddFinalizer { name, patch } => {
                assert_eq!(name, "cm");
                ReconcileEvent::FinalizerAdded(object.patch(&patch))
            }
            ReconcileStep::RemoveFinalizer { name, patch } => {
                assert_eq!(name, "cm");
                ReconcileEvent::FinalizerRemoved(object.patch(&patch))
            }
            ReconcileStep::Apply => {
                applied += 1;
                ReconcileEvent::Applied(Ok(Some(Action::requeue(Duration::from_secs(1)))))
            }
            ReconcileStep::Cleanup => {
                cleaned_up += 1;
                ReconcileEvent::CleanedUp(cleanup)
            }
            ReconcileStep::Succeed(action) => break Ok(context.on_success(&"cm", action)),
            ReconcileStep::Done(result) => break result,
        };
    };
    Outcome { applied, cleaned_up, result }
}

fn noop() -> Outcome {
    Outcome { applied: 0, cleaned_up: 0, result: Ok(Action::await_change()) }
}

#[test]
fn cleanup_none_removes_finalizer_and_deletes() {
    let mut cm = Object::new(&[]);
    assert_eq!(reconcile(&mut cm, Ok(None)), noop());
    assert_eq!(cm.finalizers, [FINALIZER]);
    cm.deleting = true;
    let outcome = reconcile(&mut cm, Ok(None));
    assert_eq!(
        outcome.cleaned_up, 1,
        "cleanup should run exactly once when it returns Ok(None) immediately",
    );
    assert_eq!(outcome.result, Ok(Action::await_change()));
    assert!(cm.gone());
}

#[test]
fn cleanup_some_keeps_finalizer_until_none() {
    let requeue_count = 4;
    let mut cm = Object::new(&[]);
    reconcile(&mut cm, Ok(None));
    cm.deleting = true;
    let again = Action::requeue(Duration::from_millis(500));
    let mut cleanup_calls = 0;
    for _ in 0..requeue_count {
        let outcome = reconcile(&mut cm, Ok(Some(again)));
        cleanup_calls += outcome.cleaned_up;
        assert_eq!(outcome.result, Ok(again));
        assert!(
            cm.finalizers.iter().any(|f| f == FINALIZER),
            "finalizer must remain while cleanup returns Ok(Some(_))",
        );
    }
    cleanup_calls += reconcile(&mut cm, Ok(None)).cleaned_up;
    assert!(cm.gone());
    assert!(cleanup_calls > requeue_count);
}

#[test]
fn add_finalizer_appends_to_existing_list() {
    let mut cm = Object::new(&[FOREIGN_FINALIZER]);
    assert_eq!(reconcile(&mut cm, Ok(None)), noop());
    assert_eq!(
        cm.finalizers.first().map(String::as_str),
        Some(FOREIGN_FINALIZER),
        "ours should be appended after the existing finalizer",
    );
    assert_eq!(cm.finalizers, [FOREIGN_FINALIZER, FINALIZER]);
    let outcome = reconcile(&mut cm, Ok(None));
    assert_eq!(outcome.applied, 1);
    assert_eq!(
        outcome.cleaned_up, 0,
        "cleanup must not run while the object is not being deleted",
    );
}

#[test]
fn deleting_without_our_finalizer_is_noop() {
    let mut cm = Object::new(&[FOREIGN_FINALIZER]);
    reconcile(&mut cm, Ok(None));
    cm.deleting = true;
    assert_eq!(reconcile(&mut cm, Ok(None)).cleaned_up, 1);
    assert_eq!(cm.finalizers, [FOREIGN_FINALIZER]);
    for _ in 0..10 {
        assert_eq!(reconcile(&mut cm, Ok(None)), noop());
        assert_eq!(
            cm.finalizers,
            [FOREIGN_FINALIZER],
            "controller must not re-add our finalizer to a deleting object",
        );
        assert!(!cm.gone());
    }
}

#[test]
fn failed_cleanup_keeps_finalizer() {
    let mut cm = Object::new(&[FINALIZER]);
    cm.deleting = true;
    let outcome = reconcile(&mut cm, Err("busy"));
    assert_eq!(outcome.result, Err(Error::CleanupFailed("busy")));
    assert_eq!(cm.finalizers, [FINALIZER]);
}

#[test]
fn first_step_follows_finalizer_and_deletion() {
    let step = |object: &Object| TestContext.reconcile(&object.meta(), Event::Started);
    let mut cm = Object::new(&[FOREIGN_FINALIZER]);
    assert!(matches!(step(&cm), ReconcileStep::AddFinalizer { .. }));
    assert_eq!(step(&cm).label(false), "init");
    cm.deleting = true;
    assert!(matches!(step(&cm), ReconcileStep::Done(Ok(_))));
    assert_eq!(step(&cm).label(true), "delete");
    cm.finalizers.push(FINALIZER.to_owned());
    assert!(matches!(step(&cm), ReconcileStep::Cleanup));
    assert_eq!(step(&cm).label(true), "cleanup");
    cm.deleting = false;
    assert!(matches!(step(&cm), ReconcileStep::Apply));
    assert_eq!(step(&cm).label(false), "apply");
}

#[test]
fn without_a_finalizer_nothing_is_patched_or_cleaned_up() {
    let step = |object: &Object| BareContext.reconcile(&object.meta(), Event::Started);
    let mut cm = Object::new(&[FOREIGN_FINALIZER]);
    assert!(matches!(step(&cm), ReconcileStep::Apply));
    cm.deleting = true;
    match step(&cm) {
        ReconcileStep::Done(result) => assert_eq!(result, Ok(Action::await_change())),
        other => panic!("got {other:?}"),
    }
    let after = BareContext.reconcile(&cm.meta(), Event::CleanedUp(Ok(None)));
    assert!(matches!(after, ReconcileStep::Done(Ok(_))));
}

#[test]
fn objects_without_a_name_are_refused_where_a_patch_is_due() {
    let step = |finalizers: &[&str], deleting: bool, event: Event| {
        let object = Object { deleting, ..Object::new(finalizers) };
        TestContext.reconcile(&ObjectMeta { name: None, ..object.meta() }, event)
    };
    let refused = |step: Step| matches!(step, Step::Done(Err(Error::UnnamedObject)));
    assert!(refused(step(&[FOREIGN_FINALIZER], false, Event::Started)));
    assert!(refused(step(&[FOREIGN_FINALIZER, FINALIZER], true, Event::Started)));
    assert!(refused(step(&[FINALIZER], true, Event::CleanedUp(Ok(None)))));
    assert!(matches!(step(&[FINALIZER], false, Event::Started), Step::Apply));
    match step(&[FOREIGN_FINALIZER], true, Event::Started) {
        Step::Done(result) => assert_eq!(result, Ok(Action::await_change())),
        other => panic!("got {other:?}"),
    }
    let meta = ObjectMeta { name: None, ..Object::new(&[]).meta() };
    assert!(matches!(BareContext.reconcile(&meta, Event::Started), Step::Apply));
}

#[test]
fn errors_name_the_step_that_failed() {
    let meta = Object::new(&[FINALIZER]).meta();
    let fail = |event: Event| match next_step(Some(FINALIZER), &meta, event) {
        Step::Done(Err(e)) => e,
        other => panic!("expected an error, got {other:?}"),
    };
    assert_eq!(fail(Event::FinalizerAdded(Err("a"))), Error::AddFinalizer("a"));
    assert_eq!(fail(Event::FinalizerRemoved(Err("r"))), Error::RemoveFinalizer("r"));
    assert_eq!(fail(Event::Applied(Err("x"))), Error::ApplyFailed("x"));
    assert_eq!(fail(Event::CleanedUp(Err("y"))), Error::CleanupFailed("y"));
}

#[test]
fn stale_patches_are_refused() {
    // somebody else added our finalizer in the meantime
    let mut cm = Object::new(&[FOREIGN_FINALIZER, FINALIZER]);
    let stale = add_patch(&vec![FOREIGN_FINALIZER.to_owned()], FINALIZER);
    assert!(cm.patch(&stale).is_err());
    assert!(cm.patch(&add_patch(&Vec::new(), FINALIZER)).is_err());
    assert_eq!(cm.finalizers, [FOREIGN_FINALIZER, FINALIZER]);
    // another finalizer stands where ours was
    assert!(cm.patch(&remove_patch(0, FINALIZER)).is_err());
    assert!(cm.patch(&remove_patch(2, FINALIZER)).is_err());
    assert!(cm.patch(&remove_patch(1, FINALIZER)).is_ok());
    assert_eq!(cm.finalizers, [FOREIGN_FINALIZER]);
}

#[test]
fn removal_finds_a_finalizer_at_any_index() {
    let names: Vec<String> = (0..12).map(|i| format!("example.com/{i}")).collect();
    for i in 0..12 {
        let mut cm = Object { finalizers: names.clone(), deleting: true };
        cm.finalizers[i] = FINALIZER.to_owned();
        let mut expected = names.clone();
        expected.remove(i);
        assert_eq!(reconcile(&mut cm, Ok(None)).cleaned_up, 1);
        assert_eq!(cm.finalizers, expected);
    }
    assert_eq!(position(&names, "example.com/11"), Some(11));
    assert_eq!(position(&names, "example.com/12"), None);
    let twice = vec!["a".to_owned(), "b".to_owned(), "b".to_owned()];
    assert_eq!(position(&twice, "b"), Some(1));
}

#[test]
fn pointers_are_json_pointers() {
    assert_eq!(FinalizerPath::List.pointer(), "/metadata/finalizers");
    assert_eq!(FinalizerPath::End.pointer(), "/metadata/finalizers/-");
    for i in [0, 7, 10, 99, 100, 1234567890, usize::MAX] {
        assert_eq!(FinalizerPath::At(i).pointer(), format!("/metadata/finalizers/{i}"));
    }
}

#[test]
fn success_keeps_the_action_or_resyncs() {
    let action = Action::requeue(Duration::from_secs(5));
    assert_eq!(TestContext.on_success(&"cm", Some(action)), action);
    assert_eq!(success_action(Some(Action::await_change())), Action::await_change());
    let mut delays = Vec::new();
    for _ in 0..100 {
        let after = TestContext.on_success(&"cm", None).requeue_after().unwrap();
        assert!(after.as_secs() >= 2400 && after.as_secs() < 3600);
        assert_eq!(after.subsec_nanos(), 0);
        delays.push(after.as_secs());
    }
    assert!(delays.iter().any(|d| *d != delays[0]));
    assert_eq!(resync_action(2400), Action::requeue(Duration::from_secs(2400)));
}

#[test]
fn error_delays_double_up_to_a_limit() {
    assert_eq!(error_delays(0), (1_000, 2_000));
    assert_eq!(error_delays(1), (2_000, 4_000));
    assert_eq!(error_delays(2), (4_000, 8_000));
    assert_eq!(error_delays(6), (64_000, 128_000));
    assert_eq!(error_delays(7), (128_000, 256_000));
    assert_eq!(error_delays(8), (128_000, 256_000));
    assert_eq!(error_delays(u32::MAX), (128_000, 256_000));
}

#[test]
fn errors_back_off_at_random() {
    let error = Error::ApplyFailed("x");
    let mut delays = Vec::new();
    for n in 0..20 {
        let (low, high) = error_delays(n);
        for _ in 0..20 {
            let answer = Arc::new(TestContext).on_error(Arc::new("cm"), &error, n);
            let after = answer.requeue_after().unwrap();
            assert!(after.as_nanos() >= u128::from(low) * 1_000_000);
            assert!(after.as_nanos() < u128::from(high) * 1_000_000);
            delays.push(after.as_nanos());
        }
    }
    assert!(delays.iter().skip(380).any(|d| *d != delays[380]));
    assert!(error_action(3).requeue_after().unwrap().as_secs() >= 8);
    assert_eq!(backoff_action(1500), Action::requeue(Duration::from_millis(1500)));
}

#[test]
fn each_error_in_a_row_waits_longer() {
    for n in 0..7 {
        for m in n + 1..10 {
            let earlier = error_action(n).requeue_after().unwrap();
            let later = error_action(m).requeue_after().unwrap();
            assert!(earlier.as_nanos() < later.as_nanos());
        }
    }
    let longest = error_action(1000).requeue_after().unwrap();
    assert!(longest.as_secs() < 256);
    let shortest = error_action(0).requeue_after().unwrap();
    assert!(shortest.as_secs() >= 1);
}
