# k8s_controller

A lightweight framework for Kubernetes controllers, whose decisions are stated
as contracts and proved with [Verus](https://github.com/verus-lang/verus).

`src/` is the verified library. It sends no requests and sets no timers: every
operation that talks to the API server is a function from its state and an event
to the next step.

* `context`: the steps of a reconciliation, and when to look at a resource again
  after success or failure (`Context`).
* `finalizer`: the patches that add and remove a finalizer, and what they do.
* `controller`: which resources are watched, and how errors in a row are counted
  (`Controller`).
* `leader_election`, `lease`: lease-based leader election (`LeaderElection`).
* `exclusion`: why only one replica leads at a time.
* `action`, `time`: requeue actions, durations and clock readings.
* `outside`: the two trusted functions, a draw from a range with the `rand` crate
  and a reading of the wall clock with `jiff`, and how contracts speak of what
  came out of them.

`app/` runs these decisions against a cluster with `kube` and `tokio`: it sends
the requests, sleeps, reads the monotonic clock and logs. A controller implements
its `Context` trait for the data that it works on:

```rust
#[async_trait::async_trait]
impl Context for PodCounter {
    type Resource = Pod;
    type Error = kube::Error;

    const FINALIZER_NAME: Option<&'static str> = Some("example.com/pod-counter");

    async fn apply(&self, _client: Client, pod: &Pod) -> Result<Option<Action>, kube::Error> {
        self.pods.lock().unwrap().insert(pod.uid().unwrap());
        Ok(None)
    }

    async fn cleanup(&self, _client: Client, pod: &Pod) -> Result<Option<Action>, kube::Error> {
        self.pods.lock().unwrap().remove(&pod.uid().unwrap());
        Ok(None)
    }
}

let context = PodCounter::default();
let controller = Controller::namespaced_all(client, context.clone(), watcher::Config::default());
tokio::spawn(controller.run());
```

A resource keeps its finalizer until `cleanup` returns `Ok(None)`; with
`Ok(Some(action))` it is called again as the action says.
