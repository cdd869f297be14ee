//! The record store: at most one bill per name, last write wins.
use vstd::prelude::*;

verus! {

/// A named amount. The amount type is left to the caller.
#[derive(Debug)]
pub struct Bill<A> {
    pub name: String,
    pub amount: A,
}

/// All bills of one run, held in no particular order.
pub struct Bills<A> {
    inner: Vec<Bill<A>>,
    contents: Ghost<Map<Seq<char>, A>>,
}

impl<A> View for Bills<A> {
    type V = Map<Seq<char>, A>;

    /// The store as a mapping from bill name to amount.
    closed spec fn view(&self) -> Map<Seq<char>, A> {
        self.contents@
    }
}

impl<A> Bills<A> {
    /// Names are unique and the records are exactly the entries of the view.
    pub closed spec fn wf(&self) -> bool {
        &&& forall|i: int, j: int|
            0 <= i < j < self.inner@.len() ==> self.inner@[i].name@ != self.inner@[j].name@
        &&& forall|i: int|
            0 <= i < self.inner@.len() ==> {
                &&& #[trigger] self.contents@.contains_key(self.inner@[i].name@)
                &&& self.contents@[self.inner@[i].name@] == self.inner@[i].amount
            }
        &&& forall|k: Seq<char>|
            #[trigger] self.contents@.contains_key(k) ==> exists|i: int|
                0 <= i < self.inner@.len() && self.inner@[i].name@ == k
        &&& self.contents@.dom().finite()
        &&& self.contents@.dom().len() == self.inner@.len()
    }

    /// A well-formed store holds finitely many names.
    pub proof fn lemma_finite(&self)
        requires
            self.wf(),
        ensures
            self@.dom().finite(),
    {
    }

    /// An empty store.
    pub fn new() -> (r: Self)
        ensures
            r.wf(),
            r@ == Map::<Seq<char>, A>::empty(),
            r@.dom().finite(),
    {
        Bills { inner: Vec::new(), contents: Ghost(Map::empty()) }
    }

    /// Where the record named `name` is stored, if there is one.
    fn position(&self, name: &String) -> (r: Option<usize>)
        requires
            self.wf(),
        ensures
            match r {
                Some(i) => i < self.inner@.len() && self.inner@[i as int].name@ == name@,
                None => !self@.contains_key(name@),
            },
    {
        let mut i: usize = 0;
        while i < self.inner.len()
            invariant
                self.wf(),
                i <= self.inner@.len(),
                forall|j: int| 0 <= j < i ==> self.inner@[j].name@ != name@,
            decreases self.inner@.len() - i,
        {
            if self.inner[i].name == *name {
                return Some(i);
            }
            i = i + 1;
        }
        None
    }

    /// Takes the record at index `i` out of the store.
    fn take_at(&mut self, i: usize) -> (r: Bill<A>)
        requires
            old(self).wf(),
            i < old(self).inner@.len(),
        ensures
            final(self).wf(),
            r == old(self).inner@[i as int],
            old(self)@.contains_key(r.name@),
            old(self)@[r.name@] == r.amount,
            final(self)@ == old(self)@.remove(r.name@),
    {
        let ghost before = self.inner@;
        assert(self.contents@.contains_key(before[i as int].name@));
        let b = self.inner.remove(i);
        let ghost k = b.name@;
        self.contents = Ghost(self.contents@.remove(k));
        assert forall|j: int| 0 <= j < self.inner@.len() implies {
            &&& #[trigger] self.contents@.contains_key(self.inner@[j].name@)
            &&& self.contents@[self.inner@[j].name@] == self.inner@[j].amount
        } by {
            if j < i {
                assert(self.inner@[j] == before[j]);
            } else {
                assert(self.inner@[j] == before[j + 1]);
            }
        }
        assert forall|k2: Seq<char>| #[trigger] self.contents@.contains_key(k2) implies exists|j: int|
            0 <= j < self.inner@.len() && self.inner@[j].name@ == k2 by {
            let j = choose|j: int| 0 <= j < before.len() && before[j].name@ == k2;
            if j < i {
                assert(self.inner@[j] == before[j]);
            } else {
                assert(j != i);
                assert(self.inner@[j - 1] == before[j]);
            }
        }
        assert forall|a: int, c: int| 0 <= a < c < self.inner@.len() implies self.inner@[a].name@
            != self.inner@[c].name@ by {
            let a0 = if a < i { a } else { a + 1 };
            let c0 = if c < i { c } else { c + 1 };
            assert(self.inner@[a] == before[a0]);
            assert(self.inner@[c] == before[c0]);
        }
        b
    }

    /// Stores a record whose name is not yet present.
    fn put_new(&mut self, b: Bill<A>)
        requires
            old(self).wf(),
            !old(self)@.contains_key(b.name@),
        ensures
            final(self).wf(),
            final(self)@ == old(self)@.insert(b.name@, b.amount),
    {
        let ghost before = self.inner@;
        let ghost k = b.name@;
        let ghost v = b.amount;
        self.contents = Ghost(self.contents@.insert(k, v));
        self.inner.push(b);
        assert(self.inner@[before.len() as int].name@ == k);
        assert forall|j: int| 0 <= j < self.inner@.len() implies {
            &&& #[trigger] self.contents@.contains_key(self.inner@[j].name@)
            &&& self.contents@[self.inner@[j].name@] == self.inner@[j].amount
        } by {
            if j < before.len() {
                assert(self.inner@[j] == before[j]);
            }
        }
        assert forall|k2: Seq<char>| #[trigger] self.contents@.contains_key(k2) implies exists|j: int|
            0 <= j < self.inner@.len() && self.inner@[j].name@ == k2 by {
            if k2 != k {
                let j = choose|j: int| 0 <= j < before.len() && before[j].name@ == k2;
                assert(self.inner@[j] == before[j]);
            }
        }
    }

    /// Inserts `bill`, replacing any record with the same name.
    pub fn add(&mut self, bill: Bill<A>)
        requires
            old(self).wf(),
        ensures
            final(self).wf(),
            final(self)@.dom().finite(),
            final(self)@ == old(self)@.insert(bill.name@, bill.amount),
    {
        match self.position(&bill.name) {
            Some(i) => {
                let _ = self.take_at(i);
            },
            None => {},
        }
        self.put_new(bill);
    }
    /// Deletes the record named `name`; tells whether there was one.
    pub fn remove(&mut self, name: &str) -> (r: bool)
        requires
            old(self).wf(),
        ensures
            final(self).wf(),
            final(self)@.dom().finite(),
            r == old(self)@.contains_key(name@),
            final(self)@ == old(self)@.remove(name@),
            !r ==> final(self)@ == old(self)@,
            final(self)@.len() == old(self)@.len() - (if r { 1int } else { 0int }),
    {
        let key = name.to_owned();
        match self.position(&key) {
            Some(i) => {
                let _ = self.take_at(i);
                true
            },
            None => {
                assert(self@ =~= self@.remove(name@));
                false
            },
        }
    }

    /// Sets the amount of the record named `name`, if there is one, and tells
    /// whether there was; the store is left unchanged otherwise.
    pub fn update(&mut self, name: &str, amount: A) -> (r: bool)
        requires
            old(self).wf(),
        ensures
            final(self).wf(),
            final(self)@.dom().finite(),
            r == old(self)@.contains_key(name@),
            r ==> final(self)@ == old(self)@.insert(name@, amount),
            !r ==> final(self)@ == old(self)@,
    {
        let key = name.to_owned();
        match self.position(&key) {
            Some(i) => {
                let mut b = self.take_at(i);
                b.amount = amount;
                self.put_new(b);
                assert(self@ =~= old(self)@.insert(name@, amount));
                true
            },
            None => false,
        }
    }

    /// The number of records.
    pub fn len(&self) -> (r: usize)
        requires
            self.wf(),
        ensures
            r == self@.len(),
    {
        self.inner.len()
    }

    /// Every record once, in unspecified order.
    pub fn get_all(&self) -> (r: Vec<&Bill<A>>)
        requires
            self.wf(),
        ensures
            r@.len() == self@.len(),
            forall|i: int|
                0 <= i < r@.len() ==> {
                    &&& #[trigger] self@.contains_key(r@[i].name@)
                    &&& self@[r@[i].name@] == r@[i].amount
                },
            forall|i: int, j: int| 0 <= i < j < r@.len() ==> r@[i].name@ != r@[j].name@,
    {
        let mut bills: Vec<&Bill<A>> = Vec::new();
        let mut i: usize = 0;
        while i < self.inner.len()
            invariant
                self.wf(),
                i <= self.inner@.len(),
                bills@.len() == i,
                forall|j: int| 0 <= j < i ==> *bills@[j] == self.inner@[j],
            decreases self.inner@.len() - i,
        {
            bills.push(&self.inner[i]);
            i = i + 1;
        }
        assert forall|a: int| 0 <= a < bills@.len() implies {
            &&& #[trigger] self@.contains_key(bills@[a].name@)
            &&& self@[bills@[a].name@] == bills@[a].amount
        } by {
            assert(*bills@[a] == self.inner@[a]);
            assert(self.contents@.contains_key(self.inner@[a].name@));
        }
        assert forall|a: int, c: int| 0 <= a < c < bills@.len() implies bills@[a].name@
            != bills@[c].name@ by {
            assert(*bills@[a] == self.inner@[a]);
            assert(*bills@[c] == self.inner@[c]);
        }
        bills
    }
}

/// One change to a store.
pub enum Op<A> {
    Add { name: String, amount: A },
    Remove { name: String },
    Update { name: String, amount: A },
}

/// What one change does to a mapping from name to amount: an add writes over
/// any earlier amount, an update writes only over an existing one.
pub open spec fn apply_op<A>(m: Map<Seq<char>, A>, op: Op<A>) -> Map<Seq<char>, A> {
    match op {
        Op::Add { name, amount } => m.insert(name@, amount),
        Op::Remove { name } => m.remove(name@),
        Op::Update { name, amount } => if m.contains_key(name@) {
            m.insert(name@, amount)
        } else {
            m
        },
    }
}

/// The mapping after the changes `ops`, applied in order from `m`.
pub open spec fn apply_ops<A>(m: Map<Seq<char>, A>, ops: Seq<Op<A>>) -> Map<Seq<char>, A>
    decreases ops.len(),
{
    if ops.len() == 0 {
        m
    } else {
        apply_ops(apply_op(m, ops[0]), ops.drop_first())
    }
}

impl<A> Bills<A> {
    /// Performs one change.
    pub fn apply(&mut self, op: Op<A>)
        requires
            old(self).wf(),
        ensures
            final(self).wf(),
            final(self)@.dom().finite(),
            final(self)@ == apply_op(old(self)@, op),
    {
        match op {
            Op::Add { name, amount } => self.add(Bill { name, amount }),
            Op::Remove { name } => {
                let _ = self.remove(name.as_str());
            },
            Op::Update { name, amount } => {
                let _ = self.update(name.as_str(), amount);
            },
        }
    }

    /// Performs the changes `ops` in order: the store ends as the reference
    /// mapping with the same changes applied does.
    pub fn replay(&mut self, ops: Vec<Op<A>>)
        requires
            old(self).wf(),
        ensures
            final(self).wf(),
            final(self)@.dom().finite(),
            final(self)@ == apply_ops(old(self)@, ops@),
    {
        let mut rest = ops;
        while rest.len() > 0
            invariant
                self.wf(),
                apply_ops(self@, rest@) == apply_ops(old(self)@, ops@),
            decreases rest@.len(),
        {
            let ghost before = rest@;
            let op = rest.remove(0);
            assert(rest@ =~= before.drop_first());
            self.apply(op);
        }
    }
}

} // verus!
