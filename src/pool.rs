use vstd::prelude::*;

verus! {

/// `i` is the lowest slot that is not lent out.
pub open spec fn is_first_free(lent: Seq<bool>, i: int) -> bool {
    &&& 0 <= i < lent.len()
    &&& !lent[i]
    &&& forall|j: int| 0 <= j < i ==> lent[j]
}

/// Every slot is lent out.
pub open spec fn all_lent(lent: Seq<bool>) -> bool {
    forall|j: int| 0 <= j < lent.len() ==> lent[j]
}

/// No slot is lent out.
pub open spec fn none_lent(lent: Seq<bool>) -> bool {
    forall|j: int| 0 <= j < lent.len() ==> !lent[j]
}

/// The outcome of one attempt to obtain a connection.
#[derive(Debug, Clone, Copy, PartialEq, Eq, Structural)]
pub enum AcquireStep {
    /// The connection in this slot now belongs to the caller alone.
    Granted(usize),
    /// Every connection is in use: wait for a release, then try again.
    Wait,
    /// Every connection is in use and the caller has waited long enough.
    Exhausted,
}

/// Which of a pool's connections are lent out. Each slot stands for one
/// pooled connection; a slot that is lent belongs to exactly one caller
/// until it is released.
pub struct LeaseTable {
    lent: Vec<bool>,
}

impl View for LeaseTable {
    type V = Seq<bool>;

    /// Slot by slot, whether the connection is lent out.
    closed spec fn view(&self) -> Seq<bool> {
        self.lent@
    }
}

impl LeaseTable {
    /// A table of `size` connections, none of them lent.
    pub fn new(size: usize) -> (r: LeaseTable)
        requires
            size >= 1,
        ensures
            r@.len() == size,
            none_lent(r@),
    {
        let mut lent: Vec<bool> = Vec::new();
        let mut i: usize = 0;
        while i < size
            invariant
                i <= size,
                lent@.len() == i,
                none_lent(lent@),
            decreases size - i,
        {
            lent.push(false);
            i = i + 1;
        }
        LeaseTable { lent }
    }

    /// The number of connections.
    pub fn capacity(&self) -> (r: usize)
        ensures
            r == self@.len(),
    {
        self.lent.len()
    }

    /// Whether the connection in `slot` is lent out.
    pub fn is_lent(&self, slot: usize) -> (r: bool)
        ensures
            r == (slot < self@.len() && self@[slot as int]),
    {
        slot < self.lent.len() && self.lent[slot]
    }

    /// The number of connections lent out.
    pub fn in_use(&self) -> (r: usize)
        ensures
            r == self@.filter(|b: bool| b).len(),
    {
        let mut n: usize = 0;
        let mut i: usize = 0;
        while i < self.lent.len()
            invariant
                i <= self@.len(),
                n == self@.subrange(0, i as int).filter(|b: bool| b).len(),
                n <= i,
            decreases self@.len() - i,
        {
            proof {
                let s = self@.subrange(0, i as int + 1);
                assert(s.drop_last() =~= self@.subrange(0, i as int));
                reveal(Seq::filter);
            }
            if self.lent[i] {
                n = n + 1;
            }
            i = i + 1;
        }
        assert(self@.subrange(0, self@.len() as int) =~= self@);
        n
    }

    /// Lends out the lowest free connection, or reports that all are lent.
    pub fn try_acquire(&mut self) -> (r: Option<usize>)
        ensures
            final(self)@.len() == old(self)@.len(),
            r is None <==> all_lent(old(self)@),
            r is None ==> final(self)@ == old(self)@,
            r matches Some(i) ==> is_first_free(old(self)@, i as int)
                && final(self)@ == old(self)@.update(i as int, true),
    {
        let mut i: usize = 0;
        while i < self.lent.len()
            invariant
                i <= self@.len(),
                self@ == old(self)@,
                forall|j: int| 0 <= j < i ==> self@[j],
            decreases self@.len() - i,
        {
            if !self.lent[i] {
                self.lent.set(i, true);
                return Some(i);
            }
            i = i + 1;
        }
        None
    }

    /// One attempt by a caller that has waited `waited_ms` of its
    /// `timeout_ms`: a free connection is granted at once; otherwise the
    /// caller waits, until the time is up.
    pub fn acquire_step(&mut self, waited_ms: u64, timeout_ms: u64) -> (r: AcquireStep)
        ensures
            final(self)@.len() == old(self)@.len(),
            r is Wait <==> all_lent(old(self)@) && waited_ms < timeout_ms,
            r is Exhausted <==> all_lent(old(self)@) && waited_ms >= timeout_ms,
            !(r is Granted) ==> final(self)@ == old(self)@,
            r matches AcquireStep::Granted(i) ==> is_first_free(old(self)@, i as int)
                && final(self)@ == old(self)@.update(i as int, true),
    {
        match self.try_acquire() {
            Some(i) => AcquireStep::Granted(i),
            None => if waited_ms >= timeout_ms {
                AcquireStep::Exhausted
            } else {
                AcquireStep::Wait
            },
        }
    }

    /// Gives the connection in `slot` back. Returns whether it was lent;
    /// a slot that was not lent is left alone.
    pub fn release(&mut self, slot: usize) -> (r: bool)
        ensures
            r == (slot < old(self)@.len() && old(self)@[slot as int]),
            r ==> final(self)@ == old(self)@.update(slot as int, false),
            !r ==> final(self)@ == old(self)@,
    {
        if slot < self.lent.len() && self.lent[slot] {
            self.lent.set(slot, false);
            true
        } else {
            false
        }
    }

    /// Takes every connection back.
    pub fn release_all(&mut self)
        ensures
            final(self)@.len() == old(self)@.len(),
            none_lent(final(self)@),
    {
        let mut i: usize = 0;
        while i < self.lent.len()
            invariant
                i <= self@.len(),
                self@.len() == old(self)@.len(),
                forall|j: int| 0 <= j < i ==> !self@[j],
            decreases self@.len() - i,
        {
            self.lent.set(i, false);
            i = i + 1;
        }
    }
}

/// A connection that is lent to one caller is never granted to another
/// while it is held: whatever slot an acquisition picks was free.
pub proof fn lemma_no_connection_shared(lent: Seq<bool>, held: int, granted: int)
    requires
        0 <= held < lent.len(),
        lent[held],
        is_first_free(lent, granted),
    ensures
        granted != held,
{
}

/// Two acquisitions with no release between them get different
/// connections.
pub proof fn lemma_successive_grants_differ(lent: Seq<bool>, first: int, second: int)
    requires
        is_first_free(lent, first),
        is_first_free(lent.update(first, true), second),
    ensures
        first != second,
{
}

} // verus!
