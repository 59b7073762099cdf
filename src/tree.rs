//! The registry of named nodes, and the builder fields that refer to a node
//! either directly or by its name in the registry.
use vstd::prelude::*;
use crate::float::Float;
use crate::task::{cache_free, eval_spec, Arity, TaskSource};

verus! {

/// The names of `names`, as character sequences.
pub open spec fn keys_of(names: Seq<String>) -> Seq<Seq<char>> {
    names.map_values(|s: String| s@)
}

/// Named nodes, in the order they were registered.
pub struct TaskTree<T> {
    names: Vec<String>,
    tasks: Vec<TaskSource<T>>,
}

impl<T: Float> TaskTree<T> {
    /// The registered names, in registration order.
    pub closed spec fn keys(&self) -> Seq<Seq<char>> {
        keys_of(self.names@)
    }

    /// The node registered at position `i`.
    pub closed spec fn task_at(&self, i: int) -> TaskSource<T> {
        self.tasks@[i]
    }

    /// Names and nodes correspond one to one.
    pub closed spec fn wf(&self) -> bool {
        self.names.len() == self.tasks.len()
    }

    /// `name` is registered.
    pub open spec fn contains(&self, name: Seq<char>) -> bool {
        self.keys().contains(name)
    }

    /// Position `i` is where `name` is first registered.
    pub open spec fn is_first(&self, i: int, name: Seq<char>) -> bool {
        &&& 0 <= i < self.keys().len()
        &&& self.keys()[i] == name
        &&& forall|j: int| 0 <= j < i ==> self.keys()[j] != name
    }

    /// An empty registry.
    pub fn new() -> (r: TaskTree<T>)
        ensures
            r.wf(),
            r.keys() == Seq::<Seq<char>>::empty(),
    {
        let r = TaskTree { names: Vec::new(), tasks: Vec::new() };
        proof {
            assert(r.keys() =~= Seq::<Seq<char>>::empty());
        }
        r
    }

    /// Number of registered nodes.
    pub fn len(&self) -> (r: usize)
        requires
            self.wf(),
        ensures
            r == self.keys().len(),
    {
        self.names.len()
    }

    /// The first position at which `name` is registered.
    fn find(&self, name: &String) -> (r: Option<usize>)
        requires
            self.wf(),
        ensures
            match r {
                Some(i) => i < self.keys().len() && self.keys()[i as int] == name@ && forall|
                    j: int,
                | 0 <= j < i ==> self.keys()[j] != name@,
                None => !self.contains(name@),
            },
    {
        let mut i: usize = 0;
        while i < self.names.len()
            invariant
                self.wf(),
                i <= self.names.len(),
                forall|j: int| 0 <= j < i ==> self.keys()[j] != name@,
            decreases self.names.len() - i,
        {
            if self.names[i] == *name {
                return Some(i);
            }
            i = i + 1;
        }
        proof {
            if self.contains(name@) {
                let k = choose|k: int| 0 <= k < self.keys().len() && self.keys()[k] == name@;
                assert(self.keys()[k] == name@);
            }
        }
        None
    }

    /// Registers `task` under `name`, replacing a node already registered
    /// under that name.
    pub fn add_task(&mut self, name: &str, task: TaskSource<T>)
        requires
            old(self).wf(),
        ensures
            final(self).wf(),
            final(self).contains(name@),
            forall|n: Seq<char>| n != name@ ==> (final(self).contains(n) <==> old(self).contains(n)),
            !old(self).contains(name@) ==> final(self).keys() == old(self).keys().push(name@)
                && final(self).task_at(old(self).keys().len() as int) == task && forall|i: int|
                0 <= i < old(self).keys().len() ==> #[trigger] final(self).task_at(i) == old(
                    self,
                ).task_at(i),
    {
        let key = name.to_owned();
        match self.find(&key) {
            Some(i) => {
                self.tasks.set(i, task);
                proof {
                    assert(final(self).keys() == old(self).keys());
                }
            },
            None => {
                let ghost prev_tasks = self.tasks@;
                self.names.push(key);
                self.tasks.push(task);
                proof {
                    assert(self.tasks@ == prev_tasks.push(task));
                    assert(final(self).keys() =~= old(self).keys().push(name@));
                    assert(final(self).keys()[old(self).keys().len() as int] == name@);
                    assert forall|n: Seq<char>| n != name@ implies (final(self).contains(n)
                        <==> old(self).contains(n)) by {
                        if final(self).contains(n) {
                            let k = choose|k: int|
                                0 <= k < final(self).keys().len() && final(self).keys()[k] == n;
                            assert(old(self).keys()[k] == n);
                        }
                        if old(self).contains(n) {
                            let k = choose|k: int|
                                0 <= k < old(self).keys().len() && old(self).keys()[k] == n;
                            assert(final(self).keys()[k] == n);
                        }
                    }
                }
            },
        }
    }

    /// The node registered under `name`, if any.
    pub fn get(&self, name: &str) -> (r: Option<&TaskSource<T>>)
        requires
            self.wf(),
        ensures
            r is Some <==> self.contains(name@),
            match r {
                Some(t) => exists|i: int| self.is_first(i, name@) && *t == self.task_at(i),
                None => true,
            },
    {
        let key = name.to_owned();
        match self.find(&key) {
            Some(i) => {
                let t = &self.tasks[i];
                proof {
                    assert(self.is_first(i as int, name@) && *t == self.task_at(i as int));
                }
                Some(t)
            },
            None => None,
        }
    }

    /// Samples the node registered under `name`; zero when none is.
    pub fn sample_at(&mut self, name: &str, arity: Arity, x: T, y: T, z: T) -> (r: T)
        requires
            old(self).wf(),
        ensures
            final(self).wf(),
            final(self).keys() == old(self).keys(),
            !old(self).contains(name@) ==> r == crate::float::zero::<T>(),
            forall|i: int|
                0 <= i < old(self).keys().len() && old(self).keys()[i] == name@ && (forall|j: int|
                    0 <= j < i ==> old(self).keys()[j] != name@) && cache_free(
                    #[trigger] old(self).task_at(i),
                ) ==> r == eval_spec(old(self).task_at(i), arity, x, y, z),
    {
        let key = name.to_owned();
        match self.find(&key) {
            Some(i) => {
                let ghost before = *old(self);
                let mut t = self.tasks.remove(i);
                assert(t == before.task_at(i as int));
                let r = t.sample_at(arity, x, y, z);
                self.tasks.insert(i, t);
                proof {
                    assert forall|k: int|
                        0 <= k < before.keys().len() && before.keys()[k] == name@ && (forall|j: int|
                            0 <= j < k ==> before.keys()[j] != name@) && cache_free(
                            #[trigger] before.task_at(k),
                        ) implies r == eval_spec(before.task_at(k), arity, x, y, z) by {
                        if k != i as int {
                            if k < i as int {
                                assert(before.keys()[k] != name@);
                            } else {
                                assert(before.keys()[i as int] != name@);
                            }
                        }
                    }
                }
                r
            },
            None => T::from_u16(0),
        }
    }

    /// Samples the node registered under `name` at `x`; zero when none is.
    pub fn sample_1d(&mut self, name: &str, x: T) -> (r: T)
        requires
            old(self).wf(),
        ensures
            final(self).wf(),
            final(self).keys() == old(self).keys(),
            !old(self).contains(name@) ==> r == crate::float::zero::<T>(),
            forall|i: int|
                0 <= i < old(self).keys().len() && old(self).keys()[i] == name@ && (forall|j: int|
                    0 <= j < i ==> old(self).keys()[j] != name@) && cache_free(
                    #[trigger] old(self).task_at(i),
                ) ==> r == eval_spec(old(self).task_at(i), Arity::One, x, crate::float::zero::<T>(), crate::float::zero::<T>()),
    {
        let zero = T::from_u16(0);
        self.sample_at(name, Arity::One, x, zero, zero)
    }

    /// Samples the node registered under `name` at `(x, y)`; zero when none is.
    pub fn sample_2d(&mut self, name: &str, x: T, y: T) -> (r: T)
        requires
            old(self).wf(),
        ensures
            final(self).wf(),
            final(self).keys() == old(self).keys(),
            !old(self).contains(name@) ==> r == crate::float::zero::<T>(),
            forall|i: int|
                0 <= i < old(self).keys().len() && old(self).keys()[i] == name@ && (forall|j: int|
                    0 <= j < i ==> old(self).keys()[j] != name@) && cache_free(
                    #[trigger] old(self).task_at(i),
                ) ==> r == eval_spec(old(self).task_at(i), Arity::Two, x, y, crate::float::zero::<T>()),
    {
        self.sample_at(name, Arity::Two, x, y, T::from_u16(0))
    }

    /// Samples the node registered under `name` at `(x, y, z)`; zero when
    /// none is.
    pub fn sample_3d(&mut self, name: &str, x: T, y: T, z: T) -> (r: T)
        requires
            old(self).wf(),
        ensures
            final(self).wf(),
            final(self).keys() == old(self).keys(),
            !old(self).contains(name@) ==> r == crate::float::zero::<T>(),
            forall|i: int|
                0 <= i < old(self).keys().len() && old(self).keys()[i] == name@ && (forall|j: int|
                    0 <= j < i ==> old(self).keys()[j] != name@) && cache_free(
                    #[trigger] old(self).task_at(i),
                ) ==> r == eval_spec(old(self).task_at(i), Arity::Three, x, y, z),
    {
        self.sample_at(name, Arity::Three, x, y, z)
    }
}

/// `t2` holds everything `t1` holds, at the same positions, and maybe more
/// after it.
pub open spec fn extends<T: Float>(t2: TaskTree<T>, t1: TaskTree<T>) -> bool {
    &&& t1.keys().len() <= t2.keys().len()
    &&& forall|i: int| 0 <= i < t1.keys().len() ==> #[trigger] t2.keys()[i] == t1.keys()[i]
    &&& forall|i: int| 0 <= i < t1.keys().len() ==> #[trigger] t2.task_at(i) == t1.task_at(i)
}

/// The first registration of a name stays first as a registry grows.
pub proof fn lemma_first_extends<T: Float>(t2: TaskTree<T>, t1: TaskTree<T>, i: int, n: Seq<char>)
    requires
        extends(t2, t1),
        t1.is_first(i, n),
    ensures
        t2.is_first(i, n),
        t2.task_at(i) == t1.task_at(i),
{
    assert forall|j: int| 0 <= j < i implies t2.keys()[j] != n by {
        assert(t2.keys()[j] == t1.keys()[j]);
    }
}

/// `after` is `before` linked against `tree`: a name that `tree` holds has
/// become a copy of the node first registered under it; anything else is
/// unchanged.
pub open spec fn linked<T: Float>(before: NameOrSource<T>, after: NameOrSource<T>, tree: TaskTree<T>) -> bool {
    match before {
        NameOrSource::Named(n) => if tree.contains(n@) {
            after is Source && exists|i: int|
                tree.is_first(i, n@) && crate::task::same_node(after->Source_0, tree.task_at(i))
        } else {
            after == before
        },
        NameOrSource::Source(_) => after == before,
    }
}

/// A builder field: a node, or the name of one still to be looked up.
#[derive(Debug)]
pub enum NameOrSource<T> {
    Named(String),
    Source(TaskSource<T>),
}

impl<T: Float> NameOrSource<T> {
    /// Resolves a name registered in `tree` to a copy of its node; a node,
    /// or a name `tree` does not hold, is left as it is.
    pub fn link(self, tree: &TaskTree<T>) -> (r: NameOrSource<T>)
        requires
            tree.wf(),
        ensures
            linked(self, r, *tree),
    {
        match self {
            NameOrSource::Named(n) => match tree.get(n.as_str()) {
                Some(t) => NameOrSource::Source(t.duplicate()),
                None => NameOrSource::Named(n),
            },
            NameOrSource::Source(t) => NameOrSource::Source(t),
        }
    }
}

} // verus!
