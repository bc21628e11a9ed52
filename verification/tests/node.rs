use std::sync::atomic::{AtomicUsize, Ordering};
use std::sync::{Arc, Mutex};

use zksync_node::error::{InvalidEnvironment, RunError, TaskInitError};
use zksync_node::node::{NodeContext, ZkSyncNode};
use zksync_node::resource::{or_missing, Resource, ResourceProvider};
use zksync_node::running::{collect_tasks, Phase, RunningNode};
use zksync_node::signal::StopReceiver;
use zksync_node::task::{IntoZkSyncTask, TaskOutcome, ZkSyncTask};

/// Provides a pool under "pool", tagged with the type "Y", and counts how often it is asked.
#[derive(Debug)]
struct Provider {
    calls: Arc<AtomicUsize>,
}

impl ResourceProvider<Arc<String>> for Provider {
    fn get_resource(&self, name: &str) -> Option<Resource<Arc<String>>> {
        self.calls.fetch_add(1, Ordering::SeqCst);
        if name == "pool" {
            Some(Resource {
                type_tag: "Y".to_string(),
                value: Arc::new("connections".to_string()),
            })
        } else {
            None
        }
    }
}

/// What the test doubles write down, in the order in which it happened.
type Journal = Arc<Mutex<Vec<String>>>;

struct TestTask {
    name: &'static str,
    with_hook: bool,
    journal: Journal,
}

/// The main work of a test task: its name, and its observer of the stop latch.
struct TestRun {
    name: &'static str,
    stop_receiver: StopReceiver,
}

impl ZkSyncTask for TestTask {
    type Running = TestRun;
    type Hook = String;
    type HealthCheck = &'static str;

    fn healtcheck(&mut self) -> Option<&'static str> {
        Some(self.name)
    }

    fn after_node_shutdown(&self) -> Option<String> {
        if self.with_hook {
            Some(format!("hook of {}", self.name))
        } else {
            None
        }
    }

    fn run(self, stop_receiver: StopReceiver) -> TestRun {
        self.journal.lock().unwrap().push(format!("run {}", self.name));
        TestRun {
            name: self.name,
            stop_receiver,
        }
    }
}

enum Needs {
    Nothing,
    Resource(&'static str, &'static str),
    Failure(&'static str),
}

struct Constructor {
    name: &'static str,
    needs: Needs,
    with_hook: bool,
    journal: Journal,
    seen: Arc<Mutex<Vec<Arc<String>>>>,
}

impl IntoZkSyncTask<Arc<String>, Provider> for Constructor {
    type Task = TestTask;

    fn create(
        self,
        node: &mut NodeContext<Arc<String>, Provider>,
    ) -> Result<TestTask, TaskInitError> {
        self.journal
            .lock()
            .unwrap()
            .push(format!("create {}", self.name));
        match self.needs {
            Needs::Nothing => {}
            Needs::Resource(name, expected) => {
                let resource = or_missing(node.get_resource(name, expected), name)?;
                self.seen.lock().unwrap().push(resource);
            }
            Needs::Failure(message) => return Err(TaskInitError::Custom(message.to_string())),
        }
        Ok(TestTask {
            name: self.name,
            with_hook: self.with_hook,
            journal: self.journal,
        })
    }
}

struct Fixture {
    node: ZkSyncNode<Arc<String>, Provider, Constructor>,
    calls: Arc<AtomicUsize>,
    journal: Journal,
    seen: Arc<Mutex<Vec<Arc<String>>>>,
}

impl Fixture {
    fn new() -> Self {
        let calls = Arc::new(AtomicUsize::new(0));
        let node = ZkSyncNode::new(Provider {
            calls: calls.clone(),
        })
        .unwrap();
        Fixture {
            node,
            calls,
            journal: Arc::new(Mutex::new(Vec::new())),
            seen: Arc::new(Mutex::new(Vec::new())),
        }
    }

    fn add(&mut self, name: &'static str, needs: Needs, with_hook: bool) {
        let constructor = Constructor {
            name,
            needs,
            with_hook,
            journal: self.journal.clone(),
            seen: self.seen.clone(),
        };
        self.node.add_task(name, constructor);
    }
}

fn running_pair() -> (RunningNode<Arc<String>, Provider, TestTask>, Journal) {
    let mut fixture = Fixture::new();
    fixture.add("A", Needs::Nothing, true);
    fixture.add("B", Needs::Nothing, true);
    let journal = fixture.journal.clone();
    let running = match fixture.node.run() {
        Ok(running) => running,
        Err(e) => panic!("the node did not start: {:?}", e),
    };
    (running, journal)
}

fn hook_names(running: &mut RunningNode<Arc<String>, Provider, TestTask>) -> Vec<String> {
    running
        .take_hooks()
        .into_iter()
        .map(|hook| format!("{}:{}:{}", hook.index, hook.name, hook.hook))
        .collect()
}

#[test]
fn node_is_made_outside_an_executor() {
    let fixture = Fixture::new();
    assert_eq!(fixture.node.task_count(), 0);
}

#[test]
fn node_refuses_an_ambient_executor() {
    let runtime = tokio::runtime::Builder::new_current_thread()
        .build()
        .unwrap();
    let refused = runtime.block_on(async {
        ZkSyncNode::<Arc<String>, Provider, Constructor>::new(Provider {
            calls: Arc::new(AtomicUsize::new(0)),
        })
        .err()
    });
    assert_eq!(refused, Some(InvalidEnvironment));
    // Once the executor is left, a node can be made again.
    let accepted = ZkSyncNode::<Arc<String>, Provider, Constructor>::new(Provider {
        calls: Arc::new(AtomicUsize::new(0)),
    });
    assert!(accepted.is_ok());
}

#[test]
fn with_environment_goes_by_the_finding() {
    let refused = ZkSyncNode::<Arc<String>, Provider, Constructor>::with_environment(
        Provider {
            calls: Arc::new(AtomicUsize::new(0)),
        },
        true,
    );
    assert_eq!(refused.err(), Some(InvalidEnvironment));
    let accepted = ZkSyncNode::<Arc<String>, Provider, Constructor>::with_environment(
        Provider {
            calls: Arc::new(AtomicUsize::new(0)),
        },
        false,
    );
    assert!(accepted.is_ok());
}

#[test]
fn empty_node_has_no_tasks_to_run() {
    let fixture = Fixture::new();
    let res = fixture.node.run();
    assert_eq!(res.err(), Some(RunError::NoTasks));
    assert_eq!(fixture.calls.load(Ordering::SeqCst), 0);
}

#[test]
fn add_task_chains_and_keeps_registration_order() {
    let mut fixture = Fixture::new();
    let journal = fixture.journal.clone();
    let seen = fixture.seen.clone();
    let make = |name: &'static str| Constructor {
        name,
        needs: Needs::Nothing,
        with_hook: false,
        journal: journal.clone(),
        seen: seen.clone(),
    };
    fixture
        .node
        .add_task("first", make("first"))
        .add_task("second", make("second"))
        .add_task("third", make("third"));
    assert_eq!(fixture.node.task_count(), 3);
    let wiring = fixture.node.create_tasks();
    let names: Vec<&str> = wiring
        .outcomes
        .iter()
        .map(|(name, _)| name.as_str())
        .collect();
    assert_eq!(names, vec!["first", "second", "third"]);
    assert!(wiring.outcomes.iter().all(|(_, outcome)| outcome.is_ok()));
    assert_eq!(
        fixture.journal.lock().unwrap().clone(),
        vec!["create first", "create second", "create third"]
    );
}

#[test]
fn happy_path_runs_both_tasks_and_both_hooks_in_order() {
    let (mut running, journal) = running_pair();
    assert_eq!(running.current_phase(), Phase::Wired);
    assert_eq!(running.task_count(), 2);
    assert_eq!(
        journal.lock().unwrap().clone(),
        vec!["create A", "create B", "run A", "run B"]
    );

    let runs = running.spawn();
    assert_eq!(runs.len(), 2);
    assert_eq!(runs[0].name, "A");
    assert_eq!(runs[1].name, "B");
    assert_eq!(running.current_phase(), Phase::Running);
    assert!(!runs[1].stop_receiver.0.has_changed().unwrap());
    assert!(!*runs[1].stop_receiver.0.borrow());

    // "A" returns cleanly.
    let name = running.first_resolved(0, TaskOutcome::Completed);
    assert_eq!(name, Some("A".to_string()));
    assert_eq!(running.current_phase(), Phase::Draining);

    // "B" sees the stop signal, exactly once.
    let mut b = runs.into_iter().nth(1).unwrap();
    assert!(b.stop_receiver.0.has_changed().unwrap());
    assert!(*b.stop_receiver.0.borrow_and_update());
    assert!(!b.stop_receiver.0.has_changed().unwrap());

    assert!(running.drained());
    assert_eq!(running.current_phase(), Phase::Drained);
    assert_eq!(
        hook_names(&mut running),
        vec!["0:A:hook of A", "1:B:hook of B"]
    );
    assert_eq!(running.current_phase(), Phase::Finishing);
    assert_eq!(running.finish(), Some(Ok(())));
}

#[test]
fn first_task_failing_fails_the_node() {
    let (mut running, _journal) = running_pair();
    let runs = running.spawn();
    assert_eq!(
        running.first_resolved(0, TaskOutcome::Failed),
        Some("A".to_string())
    );
    assert!(runs[1].stop_receiver.0.has_changed().unwrap());
    assert!(running.drained());
    assert_eq!(hook_names(&mut running).len(), 2);
    assert_eq!(
        running.finish(),
        Some(Err(RunError::TaskFailed {
            name: "A".to_string()
        }))
    );
}

#[test]
fn panicking_task_fails_the_node_and_hooks_still_run() {
    let (mut running, _journal) = running_pair();
    let runs = running.spawn();
    assert_eq!(
        running.first_resolved(0, TaskOutcome::Panicked),
        Some("A".to_string())
    );
    assert!(*runs[1].stop_receiver.0.borrow());
    assert!(running.drained());
    assert_eq!(
        hook_names(&mut running),
        vec!["0:A:hook of A", "1:B:hook of B"]
    );
    assert_eq!(
        running.finish(),
        Some(Err(RunError::TaskFailed {
            name: "A".to_string()
        }))
    );
}

#[test]
fn second_task_resolving_first_is_the_one_reported() {
    let (mut running, _journal) = running_pair();
    let _runs = running.spawn();
    assert_eq!(
        running.first_resolved(1, TaskOutcome::Failed),
        Some("B".to_string())
    );
    assert!(running.drained());
    let _ = running.take_hooks();
    assert_eq!(
        running.finish(),
        Some(Err(RunError::TaskFailed {
            name: "B".to_string()
        }))
    );
}

#[test]
fn main_work_is_handed_out_once() {
    let (mut running, journal) = running_pair();
    assert_eq!(running.spawn().len(), 2);
    assert_eq!(running.spawn().len(), 0);
    assert_eq!(running.current_phase(), Phase::Running);
    let runs_started = journal
        .lock()
        .unwrap()
        .iter()
        .filter(|line| line.starts_with("run "))
        .count();
    assert_eq!(runs_started, 2);
}

#[test]
fn lifecycle_steps_are_refused_out_of_turn() {
    let (mut running, _journal) = running_pair();
    // Nothing resolves before the work is with the executor.
    assert_eq!(running.first_resolved(0, TaskOutcome::Completed), None);
    assert!(!running.drained());
    assert!(running.take_hooks().is_empty());
    assert_eq!(running.finish(), None);
    assert_eq!(running.current_phase(), Phase::Wired);

    let _runs = running.spawn();
    // No task stands at position 2.
    assert_eq!(running.first_resolved(2, TaskOutcome::Completed), None);
    assert!(running.take_hooks().is_empty());
    assert_eq!(running.current_phase(), Phase::Running);

    assert!(running.first_resolved(1, TaskOutcome::Completed).is_some());
    // Only the first resolution counts.
    assert_eq!(running.first_resolved(0, TaskOutcome::Failed), None);
    // No hook leaves before every task has resolved.
    assert!(running.take_hooks().is_empty());
    assert_eq!(running.finish(), None);

    assert!(running.drained());
    assert!(!running.drained());
    assert_eq!(running.finish(), None);
    assert_eq!(running.take_hooks().len(), 2);
    // Hooks are handed out once.
    assert!(running.take_hooks().is_empty());
    assert_eq!(running.finish(), Some(Ok(())));
}

#[test]
fn only_present_hooks_are_handed_out_in_registration_order() {
    let mut fixture = Fixture::new();
    fixture.add("A", Needs::Nothing, false);
    fixture.add("B", Needs::Nothing, true);
    fixture.add("C", Needs::Nothing, false);
    fixture.add("D", Needs::Nothing, true);
    let mut running = fixture.node.run().ok().unwrap();
    let _runs = running.spawn();
    assert!(running.first_resolved(3, TaskOutcome::Completed).is_some());
    assert!(running.drained());
    assert_eq!(
        hook_names(&mut running),
        vec!["1:B:hook of B", "3:D:hook of D"]
    );
}

#[test]
fn init_errors_are_aggregated() {
    let mut fixture = Fixture::new();
    fixture.add("first", Needs::Resource("db", "Y"), true);
    fixture.add("second", Needs::Nothing, true);
    fixture.add("third", Needs::Failure("bad config"), true);
    let journal = fixture.journal.clone();
    let wiring = fixture.node.create_tasks();
    assert_eq!(wiring.outcomes.len(), 3);
    assert_eq!(
        wiring.outcomes[0].1.as_ref().err(),
        Some(&TaskInitError::ResourceMissing {
            name: "db".to_string()
        })
    );
    assert!(wiring.outcomes[1].1.is_ok());
    assert_eq!(wiring.outcomes[1].0, "second");
    assert_eq!(
        wiring.outcomes[2].1.as_ref().err(),
        Some(&TaskInitError::Custom("bad config".to_string()))
    );
    let res = wiring.start();
    assert_eq!(
        res.err(),
        Some(RunError::InitializationFailed {
            names: vec!["first".to_string(), "third".to_string()]
        })
    );
    // Every constructor was attempted; no task was turned into running work.
    assert_eq!(
        journal.lock().unwrap().clone(),
        vec!["create first", "create second", "create third"]
    );
}

#[test]
fn run_reports_every_failed_constructor() {
    let mut fixture = Fixture::new();
    fixture.add("first", Needs::Failure("one"), false);
    fixture.add("second", Needs::Failure("two"), false);
    fixture.add("third", Needs::Nothing, false);
    let res = fixture.node.run();
    assert_eq!(
        res.err(),
        Some(RunError::InitializationFailed {
            names: vec!["first".to_string(), "second".to_string()]
        })
    );
}

#[test]
fn two_constructors_share_one_resource() {
    let mut fixture = Fixture::new();
    fixture.add("reader", Needs::Resource("pool", "Y"), false);
    fixture.add("writer", Needs::Resource("pool", "Y"), false);
    let calls = fixture.calls.clone();
    let seen = fixture.seen.clone();
    assert!(fixture.node.run().is_ok());
    assert_eq!(calls.load(Ordering::SeqCst), 1);
    let seen = seen.lock().unwrap();
    assert_eq!(seen.len(), 2);
    assert_eq!(seen[0], seen[1]);
    assert!(Arc::ptr_eq(&seen[0], &seen[1]));
}

#[test]
fn type_mismatch_fails_one_task_and_the_others_proceed() {
    let mut fixture = Fixture::new();
    fixture.add("T", Needs::Resource("pool", "X"), false);
    fixture.add("U", Needs::Resource("pool", "Y"), false);
    let wiring = fixture.node.create_tasks();
    assert_eq!(
        wiring.outcomes[0].1.as_ref().err(),
        Some(&TaskInitError::ResourceTypeMismatch {
            name: "pool".to_string(),
            expected: "X".to_string(),
        })
    );
    assert!(wiring.outcomes[1].1.is_ok());
    assert_eq!(
        fixture.journal.lock().unwrap().clone(),
        vec!["create T", "create U"]
    );
    assert_eq!(fixture.calls.load(Ordering::SeqCst), 1);
    assert_eq!(
        wiring.start().err(),
        Some(RunError::InitializationFailed {
            names: vec!["T".to_string()]
        })
    );
}

#[test]
fn node_serves_seeded_and_provided_resources() {
    let mut fixture = Fixture::new();
    let seeded = Arc::new("seeded".to_string());
    fixture.node.add_resource(
        "config",
        Resource {
            type_tag: "Y".to_string(),
            value: seeded.clone(),
        },
    );
    let got = fixture.node.get_resource("config", "Y").unwrap().unwrap();
    assert!(Arc::ptr_eq(&got, &seeded));
    assert_eq!(fixture.calls.load(Ordering::SeqCst), 0);
    assert!(fixture.node.get_resource("pool", "Y").unwrap().is_some());
    assert!(fixture.node.get_resource("pool", "Y").unwrap().is_some());
    assert_eq!(fixture.calls.load(Ordering::SeqCst), 1);
    assert_eq!(fixture.node.get_resource("db", "Y"), Ok(None));
}

#[test]
fn stop_receivers_taken_before_the_stop_all_see_it() {
    let (mut running, _journal) = running_pair();
    let outside_observer = running.stop_receiver();
    let runs = running.spawn();
    assert!(!outside_observer.0.has_changed().unwrap());
    assert!(running.first_resolved(0, TaskOutcome::Completed).is_some());
    assert!(outside_observer.0.has_changed().unwrap());
    for run in &runs {
        assert!(run.stop_receiver.0.has_changed().unwrap());
        assert!(*run.stop_receiver.0.borrow());
    }
}

#[test]
fn collect_tasks_sorts_outcomes() {
    let named = |name: &str, outcome: Result<u8, TaskInitError>| (name.to_string(), outcome);
    assert_eq!(
        collect_tasks(vec![
            named("a", Ok(1)),
            named("b", Ok(2)),
            named("c", Ok(3)),
        ]),
        Ok(vec![
            ("a".to_string(), 1),
            ("b".to_string(), 2),
            ("c".to_string(), 3),
        ])
    );
    assert_eq!(
        collect_tasks(vec![
            named("a", Ok(1)),
            named("b", Err(TaskInitError::Custom("x".to_string()))),
            named(
                "c",
                Err(TaskInitError::ResourceMissing {
                    name: "db".to_string()
                })
            ),
        ]),
        Err(RunError::InitializationFailed {
            names: vec!["b".to_string(), "c".to_string()]
        })
    );
    let nothing: Vec<(String, Result<u8, TaskInitError>)> = Vec::new();
    assert_eq!(collect_tasks(nothing), Err(RunError::NoTasks));
}

#[test]
fn task_outcomes_other_than_completion_are_failures() {
    assert!(!TaskOutcome::Completed.is_failure());
    assert!(TaskOutcome::Failed.is_failure());
    assert!(TaskOutcome::Panicked.is_failure());
}
