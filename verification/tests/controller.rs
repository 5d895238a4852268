//! Where a controller watches, and how it counts errors.

use k8s_controller::controller::{ApiScope, RunEvent, RunStep};
use k8s_controller::Controller;

fn failed(controller: &mut Controller, uid: &str) -> u32 {
    match controller.run(RunEvent::Failed { uid: uid.to_owned() }) {
        RunStep::Backoff { consecutive_errors } => consecutive_errors,
        other => panic!("expected a backoff, got {other:?}"),
    }
}

fn reconciled(controller: &mut Controller, uid: &str) {
    assert_eq!(controller.run(RunEvent::Reconciled { uid: uid.to_owned() }), RunStep::Proceed);
}

fn triggered(controller: &mut Controller, namespace: Option<&str>) -> RunStep {
    controller.run(RunEvent::Triggered {
        uid: "uid".to_owned(),
        namespace: namespace.map(str::to_owned),
    })
}

#[test]
fn scopes_of_the_three_kinds_of_controller() {
    let mut one = Controller::namespaced("mine");
    assert_eq!(*one.watched(), ApiScope::Namespaced("mine".to_owned()));
    let mut all = Controller::namespaced_all();
    assert_eq!(*all.watched(), ApiScope::All);
    for controller in [&mut one, &mut all] {
        assert_eq!(
            triggered(controller, Some("theirs")),
            RunStep::Reconcile { api: ApiScope::Namespaced("theirs".to_owned()) }
        );
    }
    let mut cluster = Controller::cluster();
    assert_eq!(*cluster.watched(), ApiScope::All);
    for namespace in [None, Some("ignored")] {
        assert_eq!(triggered(&mut cluster, namespace), RunStep::Reconcile { api: ApiScope::All });
    }
    assert_eq!(cluster.make_api(None), ApiScope::All);
}

#[test]
fn errors_count_up_and_reset() {
    let mut controller = Controller::cluster();
    for n in 0..10 {
        assert_eq!(failed(&mut controller, "a"), n);
    }
    reconciled(&mut controller, "a");
    assert_eq!(failed(&mut controller, "a"), 0);
    assert_eq!(failed(&mut controller, "a"), 1);
}

#[test]
fn resources_do_not_share_errors() {
    let mut controller = Controller::cluster();
    assert_eq!(failed(&mut controller, "a"), 0);
    assert_eq!(failed(&mut controller, "b"), 0);
    assert_eq!(failed(&mut controller, "a"), 1);
    reconciled(&mut controller, "b");
    reconciled(&mut controller, "never-seen");
    triggered(&mut controller, None);
    assert_eq!(failed(&mut controller, "a"), 2);
    assert_eq!(failed(&mut controller, "b"), 0);
}
