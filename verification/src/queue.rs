//! The pending queue: names of the segments that were sealed and still
//! await postprocessing, oldest first.

use vstd::prelude::*;
use vstd::string::StringExecFns;

verus! {

/// The names that a sequence of strings spells.
pub open spec fn names_of(items: Seq<String>) -> Seq<Seq<char>> {
    Seq::new(items.len(), |i: int| items[i]@)
}

/// What is left of a queue after its first `k` entries are removed; a `k`
/// beyond the queue's length removes all of it.
pub open spec fn without_prefix(queue: Seq<Seq<char>>, k: nat) -> Seq<Seq<char>> {
    if k <= queue.len() {
        queue.skip(k as int)
    } else {
        Seq::empty()
    }
}

/// An ordered queue of segment names in which no name stands twice.
#[derive(Debug)]
pub struct PendingQueue {
    items: Vec<String>,
}

impl View for PendingQueue {
    type V = Seq<Seq<char>>;

    closed spec fn view(&self) -> Seq<Seq<char>> {
        names_of(self.items@)
    }
}

impl PendingQueue {
    /// The queue's invariant: no name stands in it twice. Every queue that
    /// this module hands out satisfies it.
    pub open spec fn wf(self) -> bool {
        self@.no_duplicates()
    }

    /// An empty queue.
    pub fn new() -> (queue: PendingQueue)
        ensures
            queue@ == Seq::<Seq<char>>::empty(),
            queue.wf(),
    {
        let queue = PendingQueue { items: Vec::new() };
        assert(queue@ =~= Seq::<Seq<char>>::empty());
        queue
    }

    /// The number of pending segments.
    pub fn len(&self) -> (n: usize)
        ensures
            n == self@.len(),
    {
        self.items.len()
    }

    /// Whether `name` is pending.
    pub fn contains(&self, name: &str) -> (found: bool)
        ensures
            found == self@.contains(name@),
    {
        let wanted = String::from_str(name);
        let mut i: usize = 0;
        while i < self.items.len()
            invariant
                i <= self.items.len(),
                wanted@ == name@,
                forall|j: int| 0 <= j < i ==> self@[j] != name@,
            decreases self.items.len() - i,
        {
            if self.items[i] == wanted {
                assert(self@[i as int] == name@);
                return true;
            }
            i = i + 1;
        }
        false
    }

    /// Appends `name` at the tail unless it is pending already, and tells
    /// whether it was appended.
    pub fn append(&mut self, name: String) -> (appended: bool)
        requires
            old(self).wf(),
        ensures
            appended == !old(self)@.contains(name@),
            final(self)@ == if appended {
                old(self)@.push(name@)
            } else {
                old(self)@
            },
            final(self).wf(),
    {
        if self.contains(name.as_str()) {
            return false;
        }
        let ghost before = self@;
        let ghost added = name@;
        self.items.push(name);
        proof {
            assert(self@ =~= before.push(added));
            assert forall|i: int, j: int|
                0 <= i < self@.len() && 0 <= j < self@.len() && i != j implies self@[i]
                != self@[j] by {
                if i < before.len() && j < before.len() {
                    assert(before[i] != before[j]);
                } else if i < before.len() {
                    assert(before.contains(before[i]));
                } else {
                    assert(before.contains(before[j]));
                }
            }
        }
        true
    }

    /// The pending names as they stand, oldest first. The queue is not
    /// changed.
    pub fn snapshot(&self) -> (names: Vec<String>)
        ensures
            names_of(names@) == self@,
    {
        let mut names: Vec<String> = Vec::new();
        let mut i: usize = 0;
        while i < self.items.len()
            invariant
                i <= self.items.len(),
                names@.len() == i,
                forall|j: int| 0 <= j < i ==> names@[j]@ == self.items@[j]@,
            decreases self.items.len() - i,
        {
            names.push(self.items[i].clone());
            i = i + 1;
        }
        assert(names_of(names@) =~= self@);
        names
    }

    /// Removes the first `k` entries, or all of them if there are fewer, and
    /// returns how many were removed. Entries behind them stay, in order.
    pub fn remove_prefix(&mut self, k: usize) -> (removed: usize)
        requires
            old(self).wf(),
        ensures
            removed == if k <= old(self)@.len() {
                k as int
            } else {
                old(self)@.len() as int
            },
            final(self)@ == without_prefix(old(self)@, k as nat),
            final(self).wf(),
    {
        let ghost before = self@;
        let n = if k <= self.items.len() {
            k
        } else {
            self.items.len()
        };
        let rest = self.items.split_off(n);
        self.items = rest;
        proof {
            assert(self@ =~= before.skip(n as int));
            assert(self@ =~= without_prefix(before, k as nat));
            assert forall|i: int, j: int|
                0 <= i < self@.len() && 0 <= j < self@.len() && i != j implies self@[i]
                != self@[j] by {
                assert(before[i + n] != before[j + n]);
            }
        }
        n
    }
}

} // verus!
