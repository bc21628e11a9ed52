//! The node: registration of resources and task constructors.

use crate::error::{name_seq, InvalidEnvironment, RunError, TaskInitError};
use crate::resource::{Resource, ResourceProvider, ResourceRegistry};
use crate::signal::{ambient_executor_detected, connected, new_latch, subscribe, StopReceiver};
use crate::running::{RunningNode, Wiring};
use crate::task::{
    in_registration_order, lemma_failed_names_complete, lemma_failed_names_ordered, IntoZkSyncTask,
};
use tokio::sync::watch::{Receiver, Sender};
use vstd::prelude::*;

verus! {

/// What a task constructor sees of the node: the resources, and the two latches.
pub struct NodeContext<R, P: ResourceProvider<R>> {
    pub(crate) resource_provider: P,
    pub(crate) resources: ResourceRegistry<R>,
    pub(crate) wired_sender: Sender<bool>,
    pub(crate) stop_sender: Sender<bool>,
}

impl<R, P: ResourceProvider<R>> NodeContext<R, P> {
    /// The resource cache.
    pub closed spec fn resources(&self) -> ResourceRegistry<R> {
        self.resources
    }

    /// The sender of the stop latch.
    pub closed spec fn stop_sender(&self) -> Sender<bool> {
        self.stop_sender
    }

    /// The sender of the wiring latch.
    pub closed spec fn wired_sender(&self) -> Sender<bool> {
        self.wired_sender
    }

    /// A context around `resource_provider` with nothing cached.
    pub(crate) fn new(resource_provider: P) -> (context: Self)
        ensures
            context.resources()@ == Map::<Seq<char>, Resource<R>>::empty(),
            context.resources().queries() == Seq::<Seq<char>>::empty(),
    {
        NodeContext {
            resource_provider,
            resources: ResourceRegistry::new(),
            wired_sender: new_latch(),
            stop_sender: new_latch(),
        }
    }

    /// Stores `resource` under `name` without asking the provider.
    pub fn add_resource(&mut self, name: &str, resource: Resource<R>)
        ensures
            final(self).resources()@ == old(self).resources()@.insert(name@, resource),
            final(self).resources().queries() == old(self).resources().queries(),
            final(self).stop_sender() == old(self).stop_sender(),
            final(self).wired_sender() == old(self).wired_sender(),
    {
        self.resources.insert(name, resource);
    }

    /// Retrieves the resource `name` as a value of the type `expected_type`,
    /// from the cache or else from the provider.
    pub fn get_resource(&mut self, name: &str, expected_type: &str) -> (res: Result<
        Option<R>,
        TaskInitError,
    >) where R: Clone
        ensures
            ResourceRegistry::get_post(
                old(self).resources(),
                final(self).resources(),
                name@,
                expected_type@,
                res,
            ),
            final(self).stop_sender() == old(self).stop_sender(),
            final(self).wired_sender() == old(self).wired_sender(),
    {
        self.resources.get(&self.resource_provider, name, expected_type)
    }

    /// A fresh observer of the stop latch: a new receiver on the channel of
    /// the node's stop sender.
    pub fn stop_receiver(&self) -> (stop_receiver: StopReceiver)
        ensures
            connected(stop_receiver.0, self.stop_sender()),
    {
        StopReceiver(subscribe(&self.stop_sender))
    }

    /// A fresh observer of the wiring latch, which fires once every
    /// constructor has returned successfully: a new receiver on the channel
    /// of the node's wiring sender.
    pub fn wired_receiver(&self) -> (wired_receiver: Receiver<bool>)
        ensures
            connected(wired_receiver, self.wired_sender()),
    {
        subscribe(&self.wired_sender)
    }
}

/// "Manager" of the node: collects the resources and the task constructors,
/// then creates the tasks and hands them over to be run.
pub struct ZkSyncNode<R, P: ResourceProvider<R>, C: IntoZkSyncTask<R, P>> {
    context: NodeContext<R, P>,
    task_constructors: Vec<(String, C)>,
}

impl<R, P: ResourceProvider<R>, C: IntoZkSyncTask<R, P>> ZkSyncNode<R, P, C> {
    /// The names of the registered tasks, in registration order.
    pub closed spec fn task_names(&self) -> Seq<Seq<char>> {
        Seq::new(self.task_constructors@.len(), |i: int| self.task_constructors@[i].0@)
    }

    /// The registered constructors, in registration order.
    pub closed spec fn task_constructors(&self) -> Seq<C> {
        Seq::new(self.task_constructors@.len(), |i: int| self.task_constructors@[i].1)
    }

    /// The resource cache.
    pub closed spec fn resources(&self) -> ResourceRegistry<R> {
        self.context.resources()
    }

    /// The sender of the stop latch.
    pub closed spec fn stop_sender(&self) -> Sender<bool> {
        self.context.stop_sender()
    }

    /// A node with no tasks and no cached resources, unless an executor is
    /// already active on this thread: a node is driven by an executor of its
    /// own and refuses to be nested.
    pub fn new(resource_provider: P) -> (res: Result<Self, InvalidEnvironment>)
        ensures
            res is Ok ==> res.unwrap().is_fresh(),
    {
        let ambient_executor = ambient_executor_detected();
        Self::with_environment(resource_provider, ambient_executor)
    }

    /// A node that has just been made: nothing registered, nothing cached, nobody asked.
    pub open spec fn is_fresh(&self) -> bool {
        &&& self.task_names() == Seq::<Seq<char>>::empty()
        &&& self.task_constructors() == Seq::<C>::empty()
        &&& self.resources()@ == Map::<Seq<char>, Resource<R>>::empty()
        &&& self.resources().queries() == Seq::<Seq<char>>::empty()
    }

    /// As `new`, with the finding about the surroundings given: the node is
    /// refused exactly when an ambient executor was found.
    pub fn with_environment(resource_provider: P, ambient_executor: bool) -> (res: Result<
        Self,
        InvalidEnvironment,
    >)
        ensures
            res is Err <==> ambient_executor,
            res is Ok ==> res.unwrap().is_fresh(),
    {
        if ambient_executor {
            return Err(InvalidEnvironment);
        }
        let node = ZkSyncNode {
            context: NodeContext::new(resource_provider),
            task_constructors: Vec::new(),
        };
        assert(node.task_names() =~= Seq::<Seq<char>>::empty());
        assert(node.task_constructors() =~= Seq::<C>::empty());
        Ok(node)
    }

    /// Stores `resource` under `name` without asking the provider.
    pub fn add_resource(&mut self, name: &str, resource: Resource<R>)
        ensures
            final(self).resources()@ == old(self).resources()@.insert(name@, resource),
            final(self).resources().queries() == old(self).resources().queries(),
            final(self).task_names() == old(self).task_names(),
            final(self).task_constructors() == old(self).task_constructors(),
            final(self).stop_sender() == old(self).stop_sender(),
    {
        self.context.add_resource(name, resource);
    }

    /// Retrieves the resource `name` as a value of the type `expected_type`,
    /// from the cache or else from the provider.
    pub fn get_resource(&mut self, name: &str, expected_type: &str) -> (res: Result<
        Option<R>,
        TaskInitError,
    >) where R: Clone
        ensures
            ResourceRegistry::get_post(
                old(self).resources(),
                final(self).resources(),
                name@,
                expected_type@,
                res,
            ),
            final(self).task_names() == old(self).task_names(),
            final(self).task_constructors() == old(self).task_constructors(),
            final(self).stop_sender() == old(self).stop_sender(),
    {
        self.context.get_resource(name, expected_type)
    }

    /// Registers a task. The task is not created here: the constructor is
    /// kept, after those registered before it, until the node is run.
    pub fn add_task(&mut self, name: &str, task_constructor: C) -> (node: &mut Self)
        ensures
            node.task_names() == old(self).task_names().push(name@),
            node.task_constructors() == old(self).task_constructors().push(task_constructor),
            node.resources() == old(self).resources(),
            node.stop_sender() == old(self).stop_sender(),
            *final(self) == *final(node),
    {
        self.task_constructors.push((name.to_owned(), task_constructor));
        assert(self.task_names() =~= old(self).task_names().push(name@));
        assert(self.task_constructors() =~= old(self).task_constructors().push(task_constructor));
        self
    }

    /// How many tasks are registered.
    pub fn task_count(&self) -> (n: usize)
        ensures
            n == self.task_names().len(),
    {
        self.task_constructors.len()
    }

    /// A fresh observer of the stop latch: a new receiver on the channel of
    /// the node's stop sender.
    pub fn stop_receiver(&self) -> (stop_receiver: StopReceiver)
        ensures
            connected(stop_receiver.0, self.stop_sender()),
    {
        self.context.stop_receiver()
    }

    /// Calls every registered constructor, in registration order, each with
    /// the node's context. A failure stops nothing: every constructor is
    /// attempted and every outcome is kept, under the name of its task.
    pub fn create_tasks(self) -> (wiring: Wiring<R, P, C::Task>)
        ensures
            wiring.names() == self.task_names(),
            wiring.outcomes@.len() == self.task_names().len(),
    {
        let mut context = self.context;
        let mut constructors = self.task_constructors;
        let ghost registered = constructors@;
        let count = constructors.len();
        let mut outcomes: Vec<(String, Result<C::Task, TaskInitError>)> = Vec::new();
        while constructors.len() > 0
            invariant
                count == registered.len(),
                outcomes.len() + constructors.len() == count,
                constructors@ == registered.subrange(outcomes.len() as int, count as int),
                forall|k: int| 0 <= k < outcomes.len() ==> (#[trigger] outcomes[k]).0 == registered[k].0,
            decreases constructors.len(),
        {
            let (name, task_constructor) = constructors.remove(0);
            let outcome = task_constructor.create(&mut context);
            outcomes.push((name, outcome));
        }
        let wiring = Wiring { context, outcomes };
        assert(wiring.names() =~= self.task_names());
        wiring
    }

    /// Creates every task and, if all constructors succeeded, prepares the
    /// tasks for running. With nothing registered the answer is `NoTasks`;
    /// any failing constructor makes it `InitializationFailed`.
    pub fn run(self) -> (res: Result<RunningNode<R, P, C::Task>, RunError>)
        ensures
            self.task_names().len() == 0 ==> res == Err::<RunningNode<R, P, C::Task>, RunError>(
                RunError::NoTasks,
            ),
            match res {
                Ok(running) => running.wf() && running.is_wired() && running.names()
                    == self.task_names(),
                Err(RunError::NoTasks) => self.task_names().len() == 0,
                Err(RunError::InitializationFailed { names }) => 0 < names.len()
                    <= self.task_names().len() && in_registration_order(
                    name_seq(names@),
                    self.task_names(),
                ),
                Err(RunError::TaskFailed { .. }) => false,
            },
    {
        let wiring = self.create_tasks();
        proof {
            lemma_failed_names_complete(wiring.outcomes@);
            lemma_failed_names_ordered(wiring.outcomes@);
        }
        wiring.start()
    }
}

} // verus!
