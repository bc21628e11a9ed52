//! What a node asks of the tasks it runs and of the constructors that make them.

use crate::error::TaskInitError;
use crate::node::NodeContext;
use crate::resource::ResourceProvider;
use crate::signal::StopReceiver;
use vstd::prelude::*;

verus! {

/// A task is some work that runs until it is done or told to stop.
///
/// The node never runs the work itself: `run` turns the task into the value
/// that an executor drives, and the node hands that value out exactly once.
pub trait ZkSyncTask: 'static + Send + Sync + Sized {
    /// The main work, ready to be driven by an executor.
    type Running;

    /// The action to perform once every task of the node has come to rest.
    type Hook;

    /// A probe that a health aggregator may poll.
    type HealthCheck;

    /// The health probe of the task, if it has one.
    fn healtcheck(&mut self) -> Option<Self::HealthCheck>;

    /// The hook to run after the node has shut down, if the task has one. It
    /// is asked for before `run` consumes the task.
    fn after_node_shutdown(&self) -> Option<Self::Hook>;

    /// Consumes the task and yields its main work. The work must watch
    /// `stop_receiver` and come to an end soon after it fires.
    fn run(self, stop_receiver: StopReceiver) -> Self::Running;
}

/// A one-shot constructor of a task.
///
/// At this step a task is only expected to gather the resources it needs
/// from the node.
pub trait IntoZkSyncTask<R, P: ResourceProvider<R>>: Sized {
    type Task: ZkSyncTask;

    fn create(self, node: &mut NodeContext<R, P>) -> Result<Self::Task, TaskInitError>;
}

/// How the main work of a task came to an end.
#[derive(Clone, Copy, Debug, PartialEq, Eq, Structural)]
pub enum TaskOutcome {
    /// The work returned cleanly.
    Completed,
    /// The work returned an error.
    Failed,
    /// The work terminated abnormally.
    Panicked,
}

impl TaskOutcome {
    /// Anything but a clean return makes the node fail.
    pub open spec fn spec_is_failure(self) -> bool {
        self != TaskOutcome::Completed
    }

    /// Whether this outcome makes the node fail.
    #[verifier::when_used_as_spec(spec_is_failure)]
    pub fn is_failure(self) -> (failure: bool)
        ensures
            failure == self.spec_is_failure(),
    {
        match self {
            TaskOutcome::Completed => false,
            TaskOutcome::Failed => true,
            TaskOutcome::Panicked => true,
        }
    }
}

/// The names of a list of tasks, each with what its constructor made of it.
pub open spec fn task_names<T>(outcomes: Seq<(String, Result<T, TaskInitError>)>) -> Seq<Seq<char>> {
    Seq::new(outcomes.len(), |i: int| outcomes[i].0@)
}

/// The names of the tasks whose constructor failed, in registration order.
pub open spec fn failed_names<T>(outcomes: Seq<(String, Result<T, TaskInitError>)>) -> Seq<
    Seq<char>,
>
    decreases outcomes.len(),
{
    if outcomes.len() == 0 {
        Seq::empty()
    } else {
        let earlier = failed_names(outcomes.drop_last());
        if outcomes.last().1 is Err {
            earlier.push(outcomes.last().0@)
        } else {
            earlier
        }
    }
}

/// How many constructors failed.
pub open spec fn failure_count<T>(outcomes: Seq<(String, Result<T, TaskInitError>)>) -> nat
    decreases outcomes.len(),
{
    if outcomes.len() == 0 {
        0
    } else {
        failure_count(outcomes.drop_last()) + if outcomes.last().1 is Err {
            1nat
        } else {
            0nat
        }
    }
}

/// With `k` failing constructors out of `n`, the list of failed names has `k`
/// entries, and every task whose constructor failed is named in it.
pub proof fn lemma_failed_names_complete<T>(outcomes: Seq<(String, Result<T, TaskInitError>)>)
    ensures
        failed_names(outcomes).len() == failure_count(outcomes),
        failure_count(outcomes) <= outcomes.len(),
        forall|i: int|
            0 <= i < outcomes.len() && (#[trigger] outcomes[i]).1 is Err ==> failed_names(
                outcomes,
            ).contains(outcomes[i].0@),
        failed_names(outcomes).len() == 0 <==> forall|i: int|
            0 <= i < outcomes.len() ==> (#[trigger] outcomes[i]).1 is Ok,
    decreases outcomes.len(),
{
    if outcomes.len() > 0 {
        let n = outcomes.len() - 1;
        let earlier = failed_names(outcomes.drop_last());
        lemma_failed_names_complete(outcomes.drop_last());
        let all = failed_names(outcomes);
        assert forall|i: int| 0 <= i < outcomes.len() && (#[trigger] outcomes[i]).1 is Err implies all.contains(
            outcomes[i].0@,
        ) by {
            if i < n {
                assert(outcomes.drop_last()[i].1 is Err);
                let k = choose|k: int| 0 <= k < earlier.len() && earlier[k] == outcomes[i].0@;
                assert(all[k] == outcomes[i].0@);
            } else {
                assert(all[all.len() - 1] == outcomes[i].0@);
            }
        }
        if all.len() == 0 {
            assert forall|i: int| 0 <= i < outcomes.len() implies (#[trigger] outcomes[i]).1 is Ok by {
                if i < n {
                    assert(outcomes.drop_last()[i].1 is Ok);
                }
            }
        }
        if forall|i: int| 0 <= i < outcomes.len() ==> (#[trigger] outcomes[i]).1 is Ok {
            assert(outcomes[n].1 is Ok);
            assert forall|i: int| 0 <= i < n implies (#[trigger] outcomes.drop_last()[i]).1 is Ok by {
                assert(outcomes[i].1 is Ok);
            }
        }
    }
}

/// `positions` picks `selected` out of `names`, going forward only.
pub open spec fn is_selection(
    selected: Seq<Seq<char>>,
    names: Seq<Seq<char>>,
    positions: Seq<int>,
) -> bool {
    &&& positions.len() == selected.len()
    &&& forall|k: int|
        0 <= k < positions.len() ==> 0 <= #[trigger] positions[k] && positions[k] < names.len()
            && selected[k] == names[positions[k]]
    &&& forall|j: int, k: int| 0 <= j < k < positions.len() ==> positions[j] < positions[k]
}

/// `selected` lists some of `names`, each at most once, in the order in which
/// `names` has them.
pub open spec fn in_registration_order(selected: Seq<Seq<char>>, names: Seq<Seq<char>>) -> bool {
    exists|positions: Seq<int>| is_selection(selected, names, positions)
}

/// The failed names come in registration order: each stands at a later
/// position among the tasks than the one before it, and at each of these
/// positions a constructor failed.
pub proof fn lemma_failed_names_ordered<T>(outcomes: Seq<(String, Result<T, TaskInitError>)>) -> (positions:
    Seq<int>)
    ensures
        is_selection(failed_names(outcomes), task_names(outcomes), positions),
        in_registration_order(failed_names(outcomes), task_names(outcomes)),
        forall|k: int|
            0 <= k < positions.len() ==> outcomes[#[trigger] positions[k]].1 is Err,
    decreases outcomes.len(),
{
    let positions = if outcomes.len() == 0 {
        Seq::empty()
    } else {
        let earlier = lemma_failed_names_ordered(outcomes.drop_last());
        if outcomes.last().1 is Err {
            earlier.push(outcomes.len() - 1)
        } else {
            earlier
        }
    };
    assert forall|k: int| 0 <= k < positions.len() implies 0 <= #[trigger] positions[k]
        && positions[k] < task_names(outcomes).len() && failed_names(outcomes)[k] == task_names(
        outcomes,
    )[positions[k]] && outcomes[positions[k]].1 is Err by {
        if outcomes.len() > 0 {
            let earlier_names = failed_names(outcomes.drop_last());
            if k < earlier_names.len() {
                assert(outcomes.drop_last()[positions[k]] == outcomes[positions[k]]);
                assert(task_names(outcomes.drop_last())[positions[k]] == task_names(
                    outcomes,
                )[positions[k]]);
            }
        }
    }
    assert(is_selection(failed_names(outcomes), task_names(outcomes), positions));
    positions
}

} // verus!
