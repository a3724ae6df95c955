//! The node queue: an arena of nodes linked by index, with a stub node at the
//! front and the payloads in the nodes after it.
use vstd::prelude::*;

verus! {

/// The contents after pushing `v` onto contents `q`.
pub open spec fn pushed<T>(q: Seq<T>, v: T) -> Seq<T> {
    q.push(v)
}

/// What a pop returns on contents `q`: the front value, if there is one.
pub open spec fn popped<T>(q: Seq<T>) -> Option<T> {
    if q.len() == 0 {
        None
    } else {
        Some(q[0])
    }
}

/// The contents after a pop on contents `q`.
pub open spec fn after_pop<T>(q: Seq<T>) -> Seq<T> {
    if q.len() == 0 {
        q
    } else {
        q.drop_first()
    }
}

/// The outcome of running `ops` one after another on contents `q`, where
/// `Some(v)` pushes `v` and `None` pops: the contents at the end, and the
/// values that the pops returned, in order.
pub open spec fn run<T>(q: Seq<T>, ops: Seq<Option<T>>) -> (Seq<T>, Seq<T>)
    decreases ops.len(),
{
    if ops.len() == 0 {
        (q, Seq::empty())
    } else {
        let q1 = match ops[0] {
            Some(v) => pushed(q, v),
            None => after_pop(q),
        };
        let out = match ops[0] {
            Some(v) => Seq::empty(),
            None => match popped(q) {
                Some(x) => seq![x],
                None => Seq::empty(),
            },
        };
        let rest = run(q1, ops.drop_first());
        (rest.0, out + rest.1)
    }
}

/// The values that `ops` pushes, in order.
pub open spec fn pushes<T>(ops: Seq<Option<T>>) -> Seq<T>
    decreases ops.len(),
{
    if ops.len() == 0 {
        Seq::empty()
    } else {
        match ops[0] {
            Some(v) => seq![v] + pushes(ops.drop_first()),
            None => pushes(ops.drop_first()),
        }
    }
}

/// FIFO order: over any run of pushes and pops, the values popped followed by
/// the values left are the values that were there followed by the values
/// pushed, in the order pushed.
pub proof fn lemma_fifo<T>(q: Seq<T>, ops: Seq<Option<T>>)
    ensures
        run(q, ops).1 + run(q, ops).0 == q + pushes(ops),
    decreases ops.len(),
{
    if ops.len() > 0 {
        let rest = ops.drop_first();
        match ops[0] {
            Some(v) => {
                lemma_fifo(pushed(q, v), rest);
                assert(q + pushes(ops) =~= pushed(q, v) + pushes(rest));
                assert(run(q, ops).1 =~= run(pushed(q, v), rest).1);
            },
            None => {
                lemma_fifo(after_pop(q), rest);
                if q.len() > 0 {
                    assert(q =~= seq![q[0]] + q.drop_first());
                    assert(q + pushes(ops) =~= seq![q[0]] + (after_pop(q) + pushes(rest)));
                    assert(run(q, ops).1 + run(q, ops).0 =~= seq![q[0]] + (run(after_pop(q), rest).1
                        + run(after_pop(q), rest).0));
                } else {
                    assert(run(q, ops).1 =~= run(after_pop(q), rest).1);
                }
            },
        }
    } else {
        assert(run(q, ops).1 + run(q, ops).0 =~= q + pushes(ops));
    }
}

/// No value is lost or duplicated: over any run of pushes and pops, the
/// values popped and the values left together are, as a multiset, the values
/// that were there and the values pushed.
pub proof fn lemma_no_loss<T>(q: Seq<T>, ops: Seq<Option<T>>)
    ensures
        run(q, ops).1.to_multiset().add(run(q, ops).0.to_multiset()) == q.to_multiset().add(
            pushes(ops).to_multiset(),
        ),
{
    lemma_fifo(q, ops);
    vstd::seq_lib::lemma_multiset_commutative(run(q, ops).1, run(q, ops).0);
    vstd::seq_lib::lemma_multiset_commutative(q, pushes(ops));
}

/// Pops on an empty queue return nothing and leave it empty, however many
/// there are.
pub proof fn lemma_pops_on_empty<T>(ops: Seq<Option<T>>)
    requires
        forall|i: int| 0 <= i < ops.len() ==> #[trigger] ops[i] is None,
    ensures
        run(Seq::<T>::empty(), ops) == (Seq::<T>::empty(), Seq::<T>::empty()),
    decreases ops.len(),
{
    if ops.len() > 0 {
        let rest = ops.drop_first();
        assert forall|i: int| 0 <= i < rest.len() implies #[trigger] rest[i] is None by {
            assert(rest[i] == ops[i + 1]);
        }
        lemma_pops_on_empty(rest);
        assert(after_pop(Seq::<T>::empty()) == Seq::<T>::empty());
        assert(run(Seq::<T>::empty(), ops).1 =~= Seq::<T>::empty());
    }
}

/// An unbounded FIFO queue.
///
/// Node `i` of the arena holds `slots[i]` as its payload slot and `links[i]`
/// as its link to the next node. The nodes reachable from `front` form the
/// chain `chain@`, which ends at `back`. The first node of the chain is the
/// stub and holds no payload; every later node holds one. Nodes that a `pop`
/// has advanced past are kept on `free` and reused by later pushes.
pub struct AsyncQueue<T> {
    slots: Vec<Option<T>>,
    links: Vec<Option<usize>>,
    front: usize,
    back: usize,
    free: Vec<usize>,
    chain: Ghost<Seq<usize>>,
}

impl<T> View for AsyncQueue<T> {
    type V = Seq<T>;

    /// The payloads from the node after the stub to the back, in order.
    closed spec fn view(&self) -> Seq<T> {
        Seq::new((self.chain@.len() - 1) as nat, |i: int| self.slots@[self.chain@[i + 1] as int]->Some_0)
    }
}

impl<T> AsyncQueue<T> {
    /// The chain is connected from `front` to `back`, its nodes are distinct,
    /// the stub is empty and every node after it holds a payload; free nodes
    /// are distinct and off the chain.
    pub closed spec fn wf(&self) -> bool {
        let c = self.chain@;
        let n = self.slots@.len();
        &&& self.links@.len() == n
        &&& c.len() >= 1
        &&& c[0] == self.front
        &&& c.last() == self.back
        &&& c.no_duplicates()
        &&& self.free@.no_duplicates()
        &&& forall|i: int| 0 <= i < c.len() ==> #[trigger] c[i] < n
        &&& forall|j: int| 0 <= j < self.free@.len() ==> #[trigger] self.free@[j] < n
        &&& forall|i: int, j: int|
            0 <= i < c.len() && 0 <= j < self.free@.len() ==> #[trigger] c[i] != #[trigger] self.free@[j]
        &&& forall|i: int|
            0 <= i < c.len() - 1 ==> #[trigger] self.links@[c[i] as int] == Some(c[i + 1])
        &&& self.links@[self.back as int] is None
        &&& self.slots@[self.front as int] is None
        &&& forall|i: int| 1 <= i < c.len() ==> #[trigger] self.slots@[c[i] as int] is Some
    }

    /// Creates an empty queue: one stub node, which is both front and back.
    pub fn new() -> (q: Self)
        ensures
            q.wf(),
            q@ == Seq::<T>::empty(),
    {
        let mut slots: Vec<Option<T>> = Vec::new();
        slots.push(None);
        let mut links: Vec<Option<usize>> = Vec::new();
        links.push(None);
        let chain: Ghost<Seq<usize>> = Ghost(Seq::empty().push(0usize));
        let q = AsyncQueue { slots, links, front: 0, back: 0, free: Vec::new(), chain };
        assert(q@ =~= Seq::<T>::empty());
        q
    }

    /// Appends `elem` at the back: a node holding it, with no successor, is
    /// taken from the free nodes or added to the arena, then linked after the
    /// old back node and made the new back.
    pub fn push(&mut self, elem: T)
        requires
            old(self).wf(),
        ensures
            final(self).wf(),
            final(self)@ == pushed(old(self)@, elem),
    {
        let ghost c0 = self.chain@;
        let ghost old_view = self@;
        let idx: usize = match self.free.pop() {
            Some(i) => {
                self.slots.set(i, Some(elem));
                self.links.set(i, None);
                i
            },
            None => {
                let i: usize = self.slots.len();
                self.slots.push(Some(elem));
                self.links.push(None);
                i
            },
        };
        assert(!c0.contains(idx));
        let prev: usize = self.back;
        self.links.set(prev, Some(idx));
        self.back = idx;
        self.chain = Ghost(c0.push(idx));
        assert forall|i: int| 0 <= i < self.chain@.len() - 1 implies #[trigger] self.links@[self.chain@[i] as int]
            == Some(self.chain@[i + 1]) by {
            if i < c0.len() - 1 {
                assert(c0[i] != prev);
            }
        }
        assert(self@ =~= old_view.push(elem));
    }

    /// Removes and returns the payload after the stub, or `None` when the
    /// chain holds the stub alone. The node that held the payload becomes the
    /// new stub and the old stub goes to the free nodes.
    pub fn pop(&mut self) -> (r: Option<T>)
        requires
            old(self).wf(),
        ensures
            final(self).wf(),
            r == popped(old(self)@),
            final(self)@ == after_pop(old(self)@),
    {
        let ghost c0 = self.chain@;
        let ghost old_view = self@;
        let prev_head: usize = self.front;
        match self.links[prev_head] {
            None => {
                assert(c0.len() == 1);
                None
            },
            Some(next) => {
                assert(c0.len() > 1);
                assert(next == c0[1]);
                let mut taken: Option<T> = None;
                self.slots.set_and_swap(next, &mut taken);
                self.front = next;
                self.links.set(prev_head, None);
                self.free.push(prev_head);
                self.chain = Ghost(c0.drop_first());
                assert forall|i: int| 1 <= i < self.chain@.len() implies #[trigger] self.slots@[self.chain@[i] as int] is Some by {
                    assert(c0[i + 1] != next);
                }
                assert(self@ =~= old_view.drop_first());
                taken
            },
        }
    }
}

} // verus!
