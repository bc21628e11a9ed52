//! From created tasks to a finished run: the lifecycle of a node once its
//! constructors have been called.

use crate::error::{name_seq, RunError, TaskInitError};
use crate::node::NodeContext;
use crate::resource::ResourceProvider;
use crate::signal::{connected, fire, StopReceiver};
use tokio::sync::watch::Sender;
use crate::task::{failed_names, task_names, TaskOutcome, ZkSyncTask};
use vstd::prelude::*;

verus! {

/// Where a node stands between the creation of its tasks and the end of its run.
#[derive(Clone, Copy, Debug, PartialEq, Eq, Structural)]
pub enum Phase {
    /// Every task is created; their work has not been handed out yet.
    Wired,
    /// The work of every task is with the executor; none has resolved yet.
    Running,
    /// One task has resolved and the stop latch has been fired.
    Draining,
    /// Every task has resolved; the hooks have not been handed out yet.
    Drained,
    /// The hooks have been handed out; only the verdict is left.
    Finishing,
}

impl Phase {
    /// The position of a phase in the one order in which phases follow each other.
    pub open spec fn rank(self) -> nat {
        match self {
            Phase::Wired => 0,
            Phase::Running => 1,
            Phase::Draining => 2,
            Phase::Drained => 3,
            Phase::Finishing => 4,
        }
    }
}

/// The outcome of every constructor of a node, under the name of its task.
pub struct Wiring<R, P: ResourceProvider<R>, T> {
    pub context: NodeContext<R, P>,
    /// Each task by its name, in registration order, with what its constructor made of it.
    pub outcomes: Vec<(String, Result<T, TaskInitError>)>,
}

/// A hook to run after shutdown, with the task it belongs to.
pub struct ShutdownHook<H> {
    /// The position of the task among the registered tasks.
    pub index: usize,
    /// The name of the task.
    pub name: String,
    pub hook: H,
}

/// A node whose tasks are all created.
pub struct RunningNode<R, P: ResourceProvider<R>, T: ZkSyncTask> {
    context: NodeContext<R, P>,
    names: Vec<String>,
    runs: Vec<T::Running>,
    hooks: Vec<Option<T::Hook>>,
    phase: Phase,
    first: Option<usize>,
    failure: bool,
}

/// The positions below `n` at which a hook is present, in ascending order.
pub open spec fn hook_indices<H>(hooks: Seq<Option<H>>, n: int) -> Seq<int>
    decreases n,
{
    if n <= 0 {
        Seq::empty()
    } else {
        let earlier = hook_indices(hooks, n - 1);
        if hooks[n - 1] is Some {
            earlier.push(n - 1)
        } else {
            earlier
        }
    }
}

/// The hooks handed out are exactly the hooks that are present, each once,
/// in the registration order of their tasks.
pub proof fn lemma_hook_indices_ordered<H>(hooks: Seq<Option<H>>, n: int)
    requires
        0 <= n <= hooks.len(),
    ensures
        forall|k: int|
            0 <= k < hook_indices(hooks, n).len() ==> 0 <= #[trigger] hook_indices(hooks, n)[k] < n
                && hooks[hook_indices(hooks, n)[k]] is Some,
        forall|j: int, k: int|
            0 <= j < k < hook_indices(hooks, n).len() ==> hook_indices(hooks, n)[j] < hook_indices(
                hooks,
                n,
            )[k],
        forall|i: int|
            0 <= i < n && #[trigger] hooks[i] is Some ==> hook_indices(hooks, n).contains(i),
    decreases n,
{
    if n > 0 {
        lemma_hook_indices_ordered(hooks, n - 1);
        let earlier = hook_indices(hooks, n - 1);
        let all = hook_indices(hooks, n);
        assert forall|i: int| 0 <= i < n && #[trigger] hooks[i] is Some implies all.contains(i) by {
            if i < n - 1 {
                let k = choose|k: int| 0 <= k < earlier.len() && earlier[k] == i;
                assert(all[k] == i);
            } else {
                assert(all[all.len() - 1] == i);
            }
        }
    }
}

/// `handed` is the hook that `held` has at `position`, with that position
/// and the name that the task there goes by.
pub open spec fn is_hook_at<H>(
    held: Seq<Option<H>>,
    names: Seq<Seq<char>>,
    handed: ShutdownHook<H>,
    position: int,
) -> bool {
    &&& handed.index == position
    &&& 0 <= position
    &&& position < names.len()
    &&& position < held.len()
    &&& handed.name@ == names[position]
    &&& held[position] == Some(handed.hook)
}

/// `hooks` are the hooks present in `held`, each with the position and the
/// name of its task, in registration order.
pub open spec fn handed_out<H>(
    held: Seq<Option<H>>,
    names: Seq<Seq<char>>,
    hooks: Seq<ShutdownHook<H>>,
) -> bool {
    &&& hooks.len() == hook_indices(held, held.len() as int).len()
    &&& forall|k: int|
        0 <= k < hooks.len() ==> #[trigger] is_hook_at(
            held,
            names,
            hooks[k],
            hook_indices(held, held.len() as int)[k],
        )
}

/// Sorts the outcomes of the constructors.
///
/// If any constructor failed, the error lists every task whose constructor
/// did, in registration order. If there was no constructor at all, the error
/// is `NoTasks`. Otherwise every task is handed over under its name, in
/// registration order.
pub fn collect_tasks<T>(outcomes: Vec<(String, Result<T, TaskInitError>)>) -> (res: Result<
    Vec<(String, T)>,
    RunError,
>)
    ensures
        match res {
            Ok(tasks) => failed_names(outcomes@).len() == 0 && outcomes.len() > 0 && tasks.len()
                == outcomes.len() && forall|i: int|
                0 <= i < tasks.len() ==> outcomes[i] == ((#[trigger] tasks[i]).0, Ok::<
                    T,
                    TaskInitError,
                >(tasks[i].1)),
            Err(e) => if failed_names(outcomes@).len() > 0 {
                e.is_init_failure(failed_names(outcomes@))
            } else {
                outcomes.len() == 0 && e is NoTasks
            },
        },
{
    let ghost all = outcomes@;
    let mut outcomes = outcomes;
    let count = outcomes.len();
    let mut tasks: Vec<(String, T)> = Vec::new();
    let mut failed: Vec<String> = Vec::new();
    let mut i: usize = 0;
    assert(name_seq(failed@) =~= failed_names(all.take(0)));
    while i < count
        invariant
            count == all.len(),
            i <= count,
            outcomes@ == all.subrange(i as int, count as int),
            name_seq(failed@) == failed_names(all.take(i as int)),
            failed.len() == 0 ==> tasks.len() == i && forall|k: int|
                0 <= k < i ==> all[k] == ((#[trigger] tasks[k]).0, Ok::<T, TaskInitError>(
                    tasks[k].1,
                )),
        decreases count - i,
    {
        let (name, outcome) = outcomes.remove(0);
        proof {
            assert((name, outcome) == all[i as int]);
            assert(outcomes@ =~= all.subrange(i + 1, count as int));
            assert(all.take(i + 1).drop_last() =~= all.take(i as int));
            assert(all.take(i + 1).last() == all[i as int]);
        }
        match outcome {
            Ok(task) => {
                tasks.push((name, task));
            },
            Err(_) => {
                let ghost before = failed@;
                failed.push(name);
                assert(name_seq(failed@) =~= name_seq(before).push(name@));
            },
        }
        i += 1;
    }
    proof {
        assert(all.take(count as int) =~= all);
        assert(name_seq(failed@).len() == failed.len());
    }
    if failed.len() > 0 {
        Err(RunError::InitializationFailed { names: failed })
    } else if tasks.len() == 0 {
        Err(RunError::NoTasks)
    } else {
        Ok(tasks)
    }
}

impl<R, P: ResourceProvider<R>, T: ZkSyncTask> Wiring<R, P, T> {
    /// The names of the tasks, in registration order.
    pub open spec fn names(&self) -> Seq<Seq<char>> {
        task_names(self.outcomes@)
    }

    /// The names of the tasks whose constructor failed, in registration order.
    pub open spec fn failed(&self) -> Seq<Seq<char>> {
        failed_names(self.outcomes@)
    }

    /// Ends the wiring. If every constructor succeeded and there is at least
    /// one task, each task gives up its hook and then its main work, in
    /// registration order, and the wiring latch is fired.
    pub fn start(self) -> (res: Result<RunningNode<R, P, T>, RunError>)
        ensures
            match res {
                Ok(running) => self.failed().len() == 0 && self.outcomes.len() > 0 && running.wf()
                    && running.is_wired() && running.names() == self.names()
                    && running.stop_sender() == self.context.stop_sender(),
                Err(e) => if self.failed().len() > 0 {
                    e.is_init_failure(self.failed())
                } else {
                    self.outcomes.len() == 0 && e is NoTasks
                },
            },
    {
        let context = self.context;
        let mut tasks = match collect_tasks(self.outcomes) {
            Ok(tasks) => tasks,
            Err(e) => {
                return Err(e);
            },
        };
        let ghost created = tasks@;
        let count = tasks.len();
        let mut names: Vec<String> = Vec::new();
        let mut runs: Vec<T::Running> = Vec::new();
        let mut hooks: Vec<Option<T::Hook>> = Vec::new();
        while tasks.len() > 0
            invariant
                count == created.len(),
                names.len() == runs.len(),
                runs.len() == hooks.len(),
                runs.len() + tasks.len() == count,
                tasks@ == created.subrange(names.len() as int, count as int),
                forall|k: int| 0 <= k < names.len() ==> (#[trigger] names[k]) == created[k].0,
            decreases tasks.len(),
        {
            let (name, task) = tasks.remove(0);
            let hook = task.after_node_shutdown();
            let running = task.run(context.stop_receiver());
            names.push(name);
            hooks.push(hook);
            runs.push(running);
        }
        fire(&context.wired_sender);
        assert(name_seq(names@) =~= task_names(self.outcomes@));
        Ok(
            RunningNode {
                context,
                names,
                runs,
                hooks,
                phase: Phase::Wired,
                first: None,
                failure: false,
            },
        )
    }
}

impl<R, P: ResourceProvider<R>, T: ZkSyncTask> RunningNode<R, P, T> {
    /// The bookkeeping agrees with the phase: the main work of the tasks is
    /// held exactly until it is handed out, the hooks exactly until they are,
    /// and a first task is recorded exactly from draining on.
    pub closed spec fn wf(&self) -> bool {
        &&& self.names.len() > 0
        &&& self.runs.len() == if self.phase == Phase::Wired {
            self.names.len()
        } else {
            0
        }
        &&& self.hooks.len() == if self.phase == Phase::Finishing {
            0
        } else {
            self.names.len()
        }
        &&& self.first is Some <==> self.phase.rank() >= 2
        &&& self.first is Some ==> self.first.unwrap() < self.names.len()
        &&& self.failure ==> self.first is Some
    }

    /// The names of the tasks, in registration order.
    pub closed spec fn names(&self) -> Seq<Seq<char>> {
        name_seq(self.names@)
    }

    /// The sender of the stop latch.
    pub closed spec fn stop_sender(&self) -> Sender<bool> {
        self.context.stop_sender()
    }

    /// The phase of the run.
    pub closed spec fn phase(&self) -> Phase {
        self.phase
    }

    /// The main work that is still held, in registration order.
    pub closed spec fn runs(&self) -> Seq<T::Running> {
        self.runs@
    }

    /// The hooks that are still held, by the position of their task.
    pub closed spec fn hooks(&self) -> Seq<Option<T::Hook>> {
        self.hooks@
    }

    /// The position of the task that resolved first, once one has.
    pub closed spec fn first(&self) -> Option<usize> {
        self.first
    }

    /// Whether the task that resolved first ended badly.
    pub closed spec fn failure(&self) -> bool {
        self.failure
    }

    /// Nothing has happened since the tasks were created: the work of every
    /// task and an answer on its hook are held.
    pub open spec fn is_wired(&self) -> bool {
        &&& self.phase() == Phase::Wired
        &&& self.runs().len() == self.names().len()
        &&& self.hooks().len() == self.names().len()
        &&& self.first() is None
        &&& !self.failure()
    }

    /// What handing out the main work does: a node in `Wired` gives up the
    /// work of every task, in registration order, and is `Running`; any other
    /// node gives up nothing and stays as it is.
    pub open spec fn spawned(self, post: Self, runs: Seq<T::Running>) -> bool {
        &&& post.runs().len() == 0
        &&& if self.phase() == Phase::Wired {
            &&& runs == self.runs()
            &&& runs.len() == self.names().len()
            &&& post.phase() == Phase::Running
            &&& post.names() == self.names()
            &&& post.stop_sender() == self.stop_sender()
            &&& post.hooks() == self.hooks()
            &&& post.first() == self.first()
            &&& post.failure() == self.failure()
        } else {
            runs.len() == 0 && post == self
        }
    }

    /// What the first resolution of a task does: a node in `Running` records
    /// the task at `index`, if it has one, and whether it ended badly, is
    /// `Draining`, and answers with the name of the task; any other node
    /// answers nothing and stays as it is.
    pub open spec fn resolved_first(
        self,
        post: Self,
        index: usize,
        outcome: TaskOutcome,
        name: Option<String>,
    ) -> bool {
        &&& name is Some <==> self.phase() == Phase::Running && index < self.names().len()
        &&& match name {
            Some(task_name) => {
                &&& task_name@ == self.names()[index as int]
                &&& post.phase() == Phase::Draining
                &&& post.first() == Some(index)
                &&& post.failure() == outcome.is_failure()
                &&& post.names() == self.names()
                &&& post.stop_sender() == self.stop_sender()
                &&& post.hooks() == self.hooks()
                &&& post.runs() == self.runs()
            },
            None => post == self,
        }
    }

    /// What the end of draining does: a node in `Draining` is `Drained`, with
    /// everything else as it was; any other node refuses and stays as it is.
    pub open spec fn has_drained(self, post: Self, accepted: bool) -> bool {
        &&& accepted == (self.phase() == Phase::Draining)
        &&& if accepted {
            &&& post.phase() == Phase::Drained
            &&& post.first() == self.first()
            &&& post.failure() == self.failure()
            &&& post.names() == self.names()
            &&& post.stop_sender() == self.stop_sender()
            &&& post.hooks() == self.hooks()
            &&& post.runs() == self.runs()
        } else {
            post == self
        }
    }

    /// What handing out the hooks does: a node in `Drained` gives up every
    /// hook it holds, in registration order, and is `Finishing`; any other
    /// node gives up nothing and stays as it is.
    pub open spec fn hooks_taken(self, post: Self, hooks: Seq<ShutdownHook<T::Hook>>) -> bool {
        if self.phase() == Phase::Drained {
            &&& handed_out(self.hooks(), self.names(), hooks)
            &&& post.phase() == Phase::Finishing
            &&& post.hooks().len() == 0
            &&& post.runs() == self.runs()
            &&& post.first() == self.first()
            &&& post.failure() == self.failure()
            &&& post.names() == self.names()
            &&& post.stop_sender() == self.stop_sender()
        } else {
            hooks.len() == 0 && post == self
        }
    }

    /// The verdict of a node: none before `Finishing`; then the failure of
    /// the task that resolved first, if it ended badly, and success otherwise.
    pub open spec fn is_verdict(self, verdict: Option<Result<(), RunError>>) -> bool {
        &&& verdict is Some <==> self.phase() == Phase::Finishing
        &&& match verdict {
            Some(Ok(())) => !self.failure(),
            Some(Err(e)) => self.failure() && self.first() is Some && e.is_task_failure(
                self.names()[self.first().unwrap() as int],
            ),
            None => true,
        }
    }

    /// The main work of a task leaves the node at most once: after one
    /// handing out, another hands out nothing.
    pub proof fn lemma_spawned_once(
        self,
        then: Self,
        last: Self,
        first_runs: Seq<T::Running>,
        second_runs: Seq<T::Running>,
    )
        requires
            self.wf(),
            self.spawned(then, first_runs),
            then.spawned(last, second_runs),
        ensures
            second_runs.len() == 0,
            last == then,
    {
    }

    /// The stop latch is fired at most once: once a first resolution has been
    /// taken, the next is refused.
    pub proof fn lemma_first_resolved_once(
        self,
        then: Self,
        last: Self,
        index: usize,
        outcome: TaskOutcome,
        name: Option<String>,
        next_index: usize,
        next_outcome: TaskOutcome,
        next_name: Option<String>,
    )
        requires
            self.wf(),
            self.resolved_first(then, index, outcome, name),
            then.resolved_first(last, next_index, next_outcome, next_name),
            name is Some,
        ensures
            next_name is None,
            last == then,
    {
    }

    /// Hooks leave the node only once every task has resolved, each at most
    /// once, and in the registration order of their tasks; every hook that
    /// the node held is among them.
    pub proof fn lemma_hooks_in_registration_order(
        self,
        post: Self,
        hooks: Seq<ShutdownHook<T::Hook>>,
    )
        requires
            self.wf(),
            self.hooks_taken(post, hooks),
        ensures
            hooks.len() > 0 ==> self.phase() == Phase::Drained,
            forall|j: int, k: int|
                0 <= j < k < hooks.len() ==> (#[trigger] hooks[j]).index < (#[trigger] hooks[k]).index,
            self.phase() == Phase::Drained ==> forall|i: int|
                0 <= i < self.hooks().len() && #[trigger] self.hooks()[i] is Some ==> exists|k: int|
                    0 <= k < hooks.len() && (#[trigger] hooks[k]).index == i,
            post.hooks().len() == 0 || post == self,
    {
        if self.phase() == Phase::Drained {
            let held = self.hooks();
            let present = hook_indices(held, held.len() as int);
            lemma_hook_indices_ordered(held, held.len() as int);
            assert forall|j: int, k: int| 0 <= j < k < hooks.len() implies (#[trigger] hooks[j]).index
                < (#[trigger] hooks[k]).index by {
                assert(is_hook_at(held, self.names(), hooks[j], present[j]));
                assert(is_hook_at(held, self.names(), hooks[k], present[k]));
            }
            assert forall|i: int| 0 <= i < held.len() && #[trigger] held[i] is Some implies exists|
                k: int,
            |
                0 <= k < hooks.len() && (#[trigger] hooks[k]).index == i by {
                assert(present.contains(i));
                let k = choose|k: int| 0 <= k < present.len() && present[k] == i;
                assert(is_hook_at(held, self.names(), hooks[k], present[k]));
            }
        }
    }

    /// A verdict is reached only through every phase in turn: the phase of a
    /// node never goes back.
    pub proof fn lemma_phase_never_goes_back(
        self,
        post: Self,
        runs: Seq<T::Running>,
        index: usize,
        outcome: TaskOutcome,
        name: Option<String>,
        accepted: bool,
        hooks: Seq<ShutdownHook<T::Hook>>,
    )
        requires
            self.wf(),
            self.spawned(post, runs) || self.resolved_first(post, index, outcome, name)
                || self.has_drained(post, accepted) || self.hooks_taken(post, hooks),
        ensures
            self.phase().rank() <= post.phase().rank() <= self.phase().rank() + 1,
            post.names() == self.names(),
            post.stop_sender() == self.stop_sender(),
            self.first() is Some ==> post.first() == self.first() && post.failure()
                == self.failure(),
    {
    }

    /// The phase of the run.
    pub fn current_phase(&self) -> (phase: Phase)
        ensures
            phase == self.phase(),
    {
        self.phase
    }

    /// How many tasks the node has.
    pub fn task_count(&self) -> (n: usize)
        ensures
            n == self.names().len(),
    {
        self.names.len()
    }

    /// A fresh observer of the stop latch: a new receiver on the channel of
    /// the node's stop sender, which the first resolution of a task fires.
    pub fn stop_receiver(&self) -> (stop_receiver: StopReceiver)
        ensures
            connected(stop_receiver.0, self.stop_sender()),
    {
        self.context.stop_receiver()
    }

    /// Hands out the main work of every task, in registration order, to be
    /// given to the executor. It is handed out once: a node that is past
    /// `Wired` hands out nothing and stays as it is.
    pub fn spawn(&mut self) -> (runs: Vec<T::Running>)
        requires
            old(self).wf(),
        ensures
            final(self).wf(),
            old(self).spawned(*final(self), runs@),
    {
        let mut runs: Vec<T::Running> = Vec::new();
        if self.phase == Phase::Wired {
            std::mem::swap(&mut self.runs, &mut runs);
            self.phase = Phase::Running;
        }
        runs
    }

    /// Records which task resolved first, and how, and fires the stop latch.
    ///
    /// Only a node in `Running` takes this, and only for a task it has: it
    /// then moves to `Draining` and answers with the name of the task. Any
    /// other call answers `None` and changes nothing, so the latch is fired
    /// at most once.
    pub fn first_resolved(&mut self, index: usize, outcome: TaskOutcome) -> (name: Option<String>)
        requires
            old(self).wf(),
        ensures
            final(self).wf(),
            old(self).resolved_first(*final(self), index, outcome, name),
    {
        if self.phase == Phase::Running && index < self.names.len() {
            self.first = Some(index);
            self.failure = outcome.is_failure();
            self.phase = Phase::Draining;
            fire(&self.context.stop_sender);
            Some(self.names[index].clone())
        } else {
            None
        }
    }

    /// Records that every remaining task has resolved. Only a node in
    /// `Draining` takes this; it then moves to `Drained`.
    pub fn drained(&mut self) -> (accepted: bool)
        requires
            old(self).wf(),
        ensures
            final(self).wf(),
            old(self).has_drained(*final(self), accepted),
    {
        if self.phase == Phase::Draining {
            self.phase = Phase::Drained;
            true
        } else {
            false
        }
    }

    /// Hands out the hooks of the tasks that have one, in registration
    /// order, to be run one after the other.
    ///
    /// No hook leaves the node before every task has resolved: only a node in
    /// `Drained` hands them out, once, and moves to `Finishing`. Any other
    /// call hands out nothing and changes nothing.
    #[verifier::loop_isolation(false)]
    pub fn take_hooks(&mut self) -> (hooks: Vec<ShutdownHook<T::Hook>>)
        requires
            old(self).wf(),
        ensures
            final(self).wf(),
            old(self).hooks_taken(*final(self), hooks@),
    {
        let mut hooks: Vec<ShutdownHook<T::Hook>> = Vec::new();
        if self.phase != Phase::Drained {
            return hooks;
        }
        let mut held: Vec<Option<T::Hook>> = Vec::new();
        std::mem::swap(&mut self.hooks, &mut held);
        self.phase = Phase::Finishing;
        let ghost all = held@;
        let count = held.len();
        let mut i: usize = 0;
        while i < count
            invariant
                count == all.len(),
                count == self.names.len(),
                i <= count,
                held@ == all.subrange(i as int, count as int),
                hooks.len() == hook_indices(all, i as int).len(),
                forall|k: int|
                    0 <= k < hooks.len() ==> {
                        &&& (#[trigger] hooks[k]).index == hook_indices(all, i as int)[k]
                        &&& 0 <= hooks[k].index < i
                        &&& hooks[k].name@ == self.names[hooks[k].index as int]@
                        &&& all[hooks[k].index as int] == Some(hooks[k].hook)
                    },
            decreases count - i,
        {
            let entry = held.remove(0);
            proof {
                assert(entry == all[i as int]);
                assert(held@ =~= all.subrange(i + 1, count as int));
            }
            match entry {
                Some(hook) => {
                    hooks.push(ShutdownHook { index: i, name: self.names[i].clone(), hook });
                },
                None => {},
            }
            i += 1;
        }
        proof {
            assert(all == old(self).hooks());
            assert forall|k: int| 0 <= k < hooks.len() implies #[trigger] is_hook_at(
                all,
                old(self).names(),
                hooks@[k],
                hook_indices(all, all.len() as int)[k],
            ) by {
                assert(hooks[k].index == hook_indices(all, count as int)[k]);
            }
        }
        hooks
    }

    /// The verdict of the run, once the hooks have been handed out: the
    /// failure of the task that resolved first, or success. Before that
    /// there is no verdict.
    pub fn finish(&self) -> (verdict: Option<Result<(), RunError>>)
        requires
            self.wf(),
        ensures
            self.is_verdict(verdict),
    {
        if self.phase != Phase::Finishing {
            return None;
        }
        if self.failure {
            match self.first {
                Some(index) => Some(Err(RunError::TaskFailed { name: self.names[index].clone() })),
                None => Some(Ok(())),
            }
        } else {
            Some(Ok(()))
        }
    }
}

} // verus!
