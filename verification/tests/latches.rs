use tokio::sync::watch::Receiver;
use zksync_node::error::TaskInitError;
use zksync_node::node::{NodeContext, ZkSyncNode};
use zksync_node::resource::{Resource, ResourceProvider};
use zksync_node::signal::StopReceiver;
use zksync_node::task::{IntoZkSyncTask, TaskOutcome, ZkSyncTask};

#[derive(Debug)]
struct NoResources;

impl ResourceProvider<u8> for NoResources {
    fn get_resource(&self, _name: &str) -> Option<Resource<u8>> {
        None
    }
}

/// A task that keeps the observers it took while it was constructed.
struct Watcher {
    stop_at_creation: StopReceiver,
    wired_at_creation: Receiver<bool>,
}

/// The main work of a watcher: every observer it has got.
struct Watching {
    stop_at_creation: StopReceiver,
    wired_at_creation: Receiver<bool>,
    stop_at_run: StopReceiver,
}

impl ZkSyncTask for Watcher {
    type Running = Watching;
    type Hook = ();
    type HealthCheck = ();

    fn healtcheck(&mut self) -> Option<()> {
        None
    }

    fn after_node_shutdown(&self) -> Option<()> {
        None
    }

    fn run(self, stop_receiver: StopReceiver) -> Watching {
        Watching {
            stop_at_creation: self.stop_at_creation,
            wired_at_creation: self.wired_at_creation,
            stop_at_run: stop_receiver,
        }
    }
}

struct MakeWatcher;

impl IntoZkSyncTask<u8, NoResources> for MakeWatcher {
    type Task = Watcher;

    fn create(self, node: &mut NodeContext<u8, NoResources>) -> Result<Watcher, TaskInitError> {
        Ok(Watcher {
            stop_at_creation: node.stop_receiver(),
            wired_at_creation: node.wired_receiver(),
        })
    }
}

struct Refuse;

impl IntoZkSyncTask<u8, NoResources> for Refuse {
    type Task = Watcher;

    fn create(self, _node: &mut NodeContext<u8, NoResources>) -> Result<Watcher, TaskInitError> {
        Err(TaskInitError::Custom("refused".to_string()))
    }
}

#[test]
fn stop_receivers_of_one_node_are_on_one_channel() {
    let mut node = ZkSyncNode::new(NoResources).unwrap();
    let before_tasks = node.stop_receiver();
    node.add_task("one", MakeWatcher).add_task("two", MakeWatcher);
    let before_run = node.stop_receiver();
    let mut running = node.run().ok().unwrap();
    let while_wired = running.stop_receiver();
    let runs = running.spawn();
    let while_running = running.stop_receiver();

    let all = [
        &before_tasks.0,
        &before_run.0,
        &while_wired.0,
        &while_running.0,
        &runs[0].stop_at_creation.0,
        &runs[0].stop_at_run.0,
        &runs[1].stop_at_creation.0,
        &runs[1].stop_at_run.0,
    ];
    for receiver in all {
        assert!(receiver.same_channel(&before_tasks.0));
        assert!(!*receiver.borrow());
    }

    // One stop reaches them all.
    assert!(running.first_resolved(1, TaskOutcome::Completed).is_some());
    for receiver in all {
        assert!(*receiver.borrow());
        assert!(receiver.has_changed().unwrap());
    }
}

#[test]
fn stop_receivers_of_two_nodes_are_on_two_channels() {
    let first: ZkSyncNode<u8, NoResources, MakeWatcher> = ZkSyncNode::new(NoResources).unwrap();
    let second: ZkSyncNode<u8, NoResources, MakeWatcher> = ZkSyncNode::new(NoResources).unwrap();
    assert!(!first.stop_receiver().0.same_channel(&second.stop_receiver().0));
    assert!(first.stop_receiver().0.same_channel(&first.stop_receiver().0));
}

#[test]
fn wired_receivers_are_on_a_channel_of_their_own_and_see_the_wiring() {
    let mut node = ZkSyncNode::new(NoResources).unwrap();
    node.add_task("one", MakeWatcher).add_task("two", MakeWatcher);
    let mut running = node.run().ok().unwrap();
    let runs = running.spawn();
    assert!(runs[0]
        .wired_at_creation
        .same_channel(&runs[1].wired_at_creation));
    assert!(!runs[0]
        .wired_at_creation
        .same_channel(&runs[0].stop_at_creation.0));
    // Every constructor succeeded, so the wiring latch has fired and the stop latch has not.
    assert!(*runs[0].wired_at_creation.borrow());
    assert!(runs[1].wired_at_creation.has_changed().unwrap());
    assert!(!*runs[0].stop_at_creation.0.borrow());
}

#[test]
fn wiring_latch_stays_down_when_a_constructor_fails() {
    let mut node: ZkSyncNode<u8, NoResources, Refuse> = ZkSyncNode::new(NoResources).unwrap();
    node.add_task("never", Refuse);
    let wiring = node.create_tasks();
    let wired = wiring.context.wired_receiver();
    let stop = wiring.context.stop_receiver();
    assert!(wiring.start().is_err());
    assert!(!*wired.borrow());
    assert!(!*stop.0.borrow());
}
