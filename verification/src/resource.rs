//! The resource registry: a cache from names to type-tagged resources, filled
//! on demand from a provider.

use crate::error::TaskInitError;
use vstd::prelude::*;

verus! {

/// A shareable value together with the name of its concrete type.
///
/// The payload `R` is opaque to the registry; the tag is what retrieval checks.
pub struct Resource<R> {
    pub type_tag: String,
    pub value: R,
}

/// Where a node gets the resources that its tasks ask for.
///
/// A provider answers with the resource, or with `None` when it has nothing
/// under that name and the node may go on without it.
pub trait ResourceProvider<R>: 'static + Send + Sync + std::fmt::Debug {
    fn get_resource(&self, name: &str) -> Option<Resource<R>>;
}

/// A resource under its name.
struct Entry<R> {
    name: String,
    resource: Resource<R>,
}

/// The resources that tasks have asked for so far, by name.
pub struct ResourceRegistry<R> {
    entries: Vec<Entry<R>>,
    queried: Ghost<Seq<Seq<char>>>,
}

/// What a retrieval of `resource` under `name` as type `expected` yields.
pub open spec fn interpreted<R: Clone>(
    resource: Resource<R>,
    name: Seq<char>,
    expected: Seq<char>,
    res: Result<R, TaskInitError>,
) -> bool {
    match res {
        Ok(value) => resource.type_tag@ == expected && cloned(resource.value, value),
        Err(e) => resource.type_tag@ != expected && e.is_type_mismatch(name, expected),
    }
}

/// Checks the type tag of `resource` and hands out a clone of its payload.
pub fn interpret<R: Clone>(resource: &Resource<R>, name: &str, expected_type: &str) -> (res: Result<
    R,
    TaskInitError,
>)
    ensures
        interpreted(*resource, name@, expected_type@, res),
{
    let expected: String = expected_type.to_owned();
    if resource.type_tag == expected {
        Ok(resource.value.clone())
    } else {
        Err(TaskInitError::ResourceTypeMismatch { name: name.to_owned(), expected })
    }
}

/// Turns the absence of a resource into an error, for a caller to whom the
/// resource `name` is indispensable; everything else passes through.
pub fn or_missing<R>(found: Result<Option<R>, TaskInitError>, name: &str) -> (res: Result<
    R,
    TaskInitError,
>)
    ensures
        match found {
            Ok(Some(value)) => res == Ok::<R, TaskInitError>(value),
            Ok(None) => match res {
                Ok(_) => false,
                Err(e) => e.is_missing(name@),
            },
            Err(e) => res == Err::<R, TaskInitError>(e),
        },
{
    match found {
        Ok(Some(value)) => Ok(value),
        Ok(None) => Err(TaskInitError::ResourceMissing { name: name.to_owned() }),
        Err(e) => Err(e),
    }
}

impl<R> ResourceRegistry<R> {
    /// No name is stored twice.
    #[verifier::type_invariant]
    closed spec fn distinct_names(&self) -> bool {
        forall|i: int, j: int|
            0 <= i < j < self.entries.len() ==> self.entries[i].name@ != self.entries[j].name@
    }

    /// Some resource is stored under `name`.
    pub closed spec fn contains(&self, name: Seq<char>) -> bool {
        exists|i: int| 0 <= i < self.entries.len() && #[trigger] self.entries[i].name@ == name
    }

    /// The resource stored under `name`.
    pub closed spec fn resource(&self, name: Seq<char>) -> Resource<R> {
        self.entries[choose|i: int|
            0 <= i < self.entries.len() && #[trigger] self.entries[i].name@ == name].resource
    }

    /// The cache as a map from names to resources.
    pub open spec fn view(&self) -> Map<Seq<char>, Resource<R>> {
        Map::new(|name: Seq<char>| self.contains(name), |name: Seq<char>| self.resource(name))
    }

    /// The names that were handed to a provider, oldest first.
    pub closed spec fn queries(&self) -> Seq<Seq<char>> {
        self.queried@
    }

    /// An empty registry that has asked nothing yet.
    pub fn new() -> (registry: Self)
        ensures
            registry@ == Map::<Seq<char>, Resource<R>>::empty(),
            registry.queries() == Seq::<Seq<char>>::empty(),
    {
        let registry = ResourceRegistry { entries: Vec::new(), queried: Ghost(Seq::empty()) };
        assert(registry@ =~= Map::<Seq<char>, Resource<R>>::empty());
        registry
    }

    /// The position of `name` in the cache.
    fn find(&self, name: &String) -> (found: Option<usize>)
        ensures
            match found {
                Some(i) => i < self.entries.len() && self.entries[i as int].name@ == name@
                    && self@.contains_key(name@) && self@[name@] == self.entries[i as int].resource,
                None => !self@.contains_key(name@),
            },
    {
        proof {
            use_type_invariant(self);
        }
        let mut i: usize = 0;
        while i < self.entries.len()
            invariant
                self.distinct_names(),
                i <= self.entries.len(),
                forall|k: int| 0 <= k < i ==> self.entries[k].name@ != name@,
            decreases self.entries.len() - i,
        {
            if self.entries[i].name == *name {
                proof {
                    self.lemma_resource_at(name@);
                }
                return Some(i);
            }
            i += 1;
        }
        None
    }

    /// Whether a resource is cached under `name`.
    pub fn is_cached(&self, name: &str) -> (cached: bool)
        ensures
            cached == self@.contains_key(name@),
    {
        let owned: String = name.to_owned();
        self.find(&owned).is_some()
    }

    /// How many resources are cached.
    pub fn len(&self) -> (n: usize)
        ensures
            n == self@.dom().len(),
            self@.dom().finite(),
    {
        proof {
            use_type_invariant(self);
            self.lemma_dom_len(self.entries.len() as int);
            assert(self.names_upto(self.entries.len() as int) =~= self@.dom());
        }
        self.entries.len()
    }

    /// The names stored at the first `n` positions.
    closed spec fn names_upto(&self, n: int) -> Set<Seq<char>> {
        Set::new(
            |name: Seq<char>| exists|i: int| 0 <= i < n && #[trigger] self.entries[i].name@ == name,
        )
    }

    proof fn lemma_dom_len(&self, n: int)
        requires
            self.distinct_names(),
            0 <= n <= self.entries.len(),
        ensures
            self.names_upto(n).finite(),
            self.names_upto(n).len() == n,
        decreases n,
    {
        if n == 0 {
            assert(self.names_upto(0) =~= Set::<Seq<char>>::empty());
        } else {
            self.lemma_dom_len(n - 1);
            assert(self.names_upto(n) =~= self.names_upto(n - 1).insert(self.entries[n - 1].name@));
            assert(!self.names_upto(n - 1).contains(self.entries[n - 1].name@));
        }
    }

    /// Stores `resource` under `name`, in place of whatever was there.
    pub fn insert(&mut self, name: &str, resource: Resource<R>)
        ensures
            final(self)@ == old(self)@.insert(name@, resource),
            final(self).queries() == old(self).queries(),
    {
        proof {
            use_type_invariant(&*self);
        }
        let owned: String = name.to_owned();
        match self.find(&owned) {
            Some(i) => {
                let mut entries: Vec<Entry<R>> = Vec::new();
                std::mem::swap(&mut self.entries, &mut entries);
                entries.set(i, Entry { name: owned, resource });
                std::mem::swap(&mut self.entries, &mut entries);
                proof {
                    let after = *self;
                    assert forall|n: Seq<char>| #[trigger]
                        after.contains(n) == (old(self).contains(n) || n == name@) by {
                        if old(self).contains(n) {
                            let k = choose|k: int|
                                0 <= k < old(self).entries.len() && #[trigger] old(
                                    self,
                                ).entries[k].name@ == n;
                            assert(after.entries[k].name@ == n);
                        }
                        if after.contains(n) {
                            let k = choose|k: int|
                                0 <= k < after.entries.len() && #[trigger] after.entries[k].name@
                                    == n;
                            assert(old(self).entries[k].name@ == n);
                        }
                        if n == name@ {
                            assert(after.entries[i as int].name@ == n);
                        }
                    }
                    assert forall|n: Seq<char>| after.contains(n) implies #[trigger] after.resource(n)
                        == old(self)@.insert(name@, resource)[n] by {
                        after.lemma_resource_at(n);
                        if n != name@ {
                            old(self).lemma_resource_at(n);
                        }
                    }
                    assert(after@ =~= old(self)@.insert(name@, resource));
                }
            },
            None => {
                let mut entries: Vec<Entry<R>> = Vec::new();
                std::mem::swap(&mut self.entries, &mut entries);
                entries.push(Entry { name: owned, resource });
                std::mem::swap(&mut self.entries, &mut entries);
                proof {
                    let after = *self;
                    let last = after.entries.len() - 1;
                    assert(after.entries[last].name@ == name@);
                    assert forall|n: Seq<char>| #[trigger]
                        after.contains(n) == (old(self).contains(n) || n == name@) by {
                        if old(self).contains(n) {
                            let k = choose|k: int|
                                0 <= k < old(self).entries.len() && #[trigger] old(
                                    self,
                                ).entries[k].name@ == n;
                            assert(after.entries[k].name@ == n);
                        }
                    }
                    assert forall|n: Seq<char>| after.contains(n) implies #[trigger] after.resource(n)
                        == old(self)@.insert(name@, resource)[n] by {
                        after.lemma_resource_at(n);
                        if n != name@ {
                            old(self).lemma_resource_at(n);
                        }
                    }
                    assert(after@ =~= old(self)@.insert(name@, resource));
                }
            },
        }
    }

    /// Under a stored name, `resource` is what stands at the one position of that name.
    proof fn lemma_resource_at(&self, name: Seq<char>)
        requires
            self.distinct_names(),
            self.contains(name),
        ensures
            exists|i: int|
                0 <= i < self.entries.len() && #[trigger] self.entries[i].name@ == name
                    && self.resource(name) == self.entries[i].resource && forall|j: int|
                    0 <= j < self.entries.len() && self.entries[j].name@ == name ==> j == i,
    {
        let i = choose|i: int| 0 <= i < self.entries.len() && #[trigger] self.entries[i].name@ == name;
        assert(self.entries[i].name@ == name);
        assert forall|j: int| 0 <= j < self.entries.len() && self.entries[j].name@
            == name implies j == i by {
            if j < i {
                assert(self.entries[j].name@ != self.entries[i].name@);
            } else if i < j {
                assert(self.entries[i].name@ != self.entries[j].name@);
            }
        }
    }
}

impl<R: Clone> ResourceRegistry<R> {
    /// What a retrieval leaves behind once the provider has answered `provided`
    /// for a name that was not cached: an answer is cached under the name and
    /// then interpreted, the absence of one changes nothing.
    pub open spec fn resolved(
        pre: Self,
        post: Self,
        name: Seq<char>,
        expected: Seq<char>,
        provided: Option<Resource<R>>,
        res: Result<Option<R>, TaskInitError>,
    ) -> bool {
        &&& post.queries() == pre.queries()
        &&& match provided {
            None => post@ == pre@ && res == Ok::<Option<R>, TaskInitError>(None),
            Some(resource) => post@ == pre@.insert(name, resource) && match res {
                Ok(Some(value)) => interpreted(resource, name, expected, Ok(value)),
                Ok(None) => false,
                Err(e) => interpreted(resource, name, expected, Err(e)),
            },
        }
    }

    /// What a retrieval of `name` as `expected` may do to a registry.
    ///
    /// A cached name is answered from the cache and nobody is asked. Otherwise
    /// the provider is asked once, for exactly that name, and whatever it
    /// hands over is cached. The result is always the interpretation of what
    /// the cache holds under the name afterwards.
    pub open spec fn get_post(
        pre: Self,
        post: Self,
        name: Seq<char>,
        expected: Seq<char>,
        res: Result<Option<R>, TaskInitError>,
    ) -> bool {
        &&& if pre@.contains_key(name) {
            post@ == pre@ && post.queries() == pre.queries()
        } else {
            post.queries() == pre.queries().push(name) && (post@ == pre@ || (post@.contains_key(
                name,
            ) && post@ == pre@.insert(name, post@[name])))
        }
        &&& match res {
            Ok(None) => !post@.contains_key(name),
            Ok(Some(value)) => post@.contains_key(name) && interpreted(
                post@[name],
                name,
                expected,
                Ok(value),
            ),
            Err(e) => post@.contains_key(name) && interpreted(post@[name], name, expected, Err(e)),
        }
    }

    /// Finishes a retrieval of an uncached `name` with the provider's answer.
    pub fn resolve(&mut self, name: &str, expected_type: &str, provided: Option<Resource<R>>) -> (res:
        Result<Option<R>, TaskInitError>)
        ensures
            Self::resolved(*old(self), *final(self), name@, expected_type@, provided, res),
    {
        match provided {
            None => Ok(None),
            Some(resource) => {
                let outcome = interpret(&resource, name, expected_type);
                self.insert(name, resource);
                match outcome {
                    Ok(value) => Ok(Some(value)),
                    Err(e) => Err(e),
                }
            },
        }
    }

    /// Retrieves the resource `name` as a value of the type `expected_type`.
    ///
    /// `Ok(None)` says that nobody has such a resource; whether that is fatal
    /// is the caller's decision. A resource of another type is an error.
    pub fn get<P: ResourceProvider<R>>(
        &mut self,
        provider: &P,
        name: &str,
        expected_type: &str,
    ) -> (res: Result<Option<R>, TaskInitError>)
        ensures
            Self::get_post(*old(self), *final(self), name@, expected_type@, res),
    {
        let owned: String = name.to_owned();
        match self.find(&owned) {
            Some(i) => {
                match interpret(&self.entries[i].resource, name, expected_type) {
                    Ok(value) => Ok(Some(value)),
                    Err(e) => Err(e),
                }
            },
            None => {
                assert(!self@.contains_key(name@));
                let provided = provider.get_resource(name);
                proof {
                    use_type_invariant(&*self);
                }
                self.queried = Ghost(self.queried@.push(name@));
                let ghost asked = *self;
                proof {
                    assert(asked.entries == old(self).entries);
                    assert forall|n: Seq<char>| #[trigger]
                        asked.contains(n) == old(self).contains(n) by {}
                    assert forall|n: Seq<char>| #[trigger]
                        asked.resource(n) == old(self).resource(n) by {}
                    assert(asked@ =~= old(self)@);
                }
                let res = self.resolve(name, expected_type, provided);
                proof {
                    if provided.is_some() {
                        let cached = provided.unwrap();
                        assert(asked@.insert(name@, cached).contains_key(name@));
                        assert(asked@.insert(name@, cached)[name@] == cached);
                    }
                }
                res
            },
        }
    }

    /// A retrieval that found or cached a resource settles the name: the next
    /// retrieval of it asks no provider, leaves the cache as it is, and
    /// interprets the very same stored resource.
    pub proof fn lemma_second_get_is_cached(
        r0: Self,
        r1: Self,
        r2: Self,
        name: Seq<char>,
        first_type: Seq<char>,
        second_type: Seq<char>,
        first: Result<Option<R>, TaskInitError>,
        second: Result<Option<R>, TaskInitError>,
    )
        requires
            Self::get_post(r0, r1, name, first_type, first),
            Self::get_post(r1, r2, name, second_type, second),
            first != Ok::<Option<R>, TaskInitError>(None),
        ensures
            r2.queries() == r1.queries(),
            r2@ == r1@,
            second != Ok::<Option<R>, TaskInitError>(None),
            first_type == second_type ==> (first is Ok <==> second is Ok),
            first is Ok && second is Ok ==> cloned(r1@[name].value, first.unwrap().unwrap())
                && cloned(r1@[name].value, second.unwrap().unwrap()),
    {
    }

    /// Retrievals of other names never disturb what is cached under a name.
    pub proof fn lemma_get_keeps_other_names(
        pre: Self,
        post: Self,
        name: Seq<char>,
        expected: Seq<char>,
        res: Result<Option<R>, TaskInitError>,
        other: Seq<char>,
    )
        requires
            Self::get_post(pre, post, name, expected, res),
            pre@.contains_key(other),
        ensures
            post@.contains_key(other),
            post@[other] == pre@[other],
    {
    }
}

} // verus!
