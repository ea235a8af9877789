//! The set of connected clients, each known by a connection id, in the
//! order in which they connected.

use vstd::prelude::*;

verus! {

/// A payload to be sent to one connection.
pub type Delivery = (u64, String);

pub struct Registry {
    conns: Vec<u64>,
}

impl View for Registry {
    type V = Seq<u64>;

    closed spec fn view(&self) -> Seq<u64> {
        self.conns@
    }
}

impl Registry {
    /// No connection is listed twice.
    pub open spec fn wf(&self) -> bool {
        self@.no_duplicates()
    }

    pub fn new() -> (r: Registry)
        ensures
            r.wf(),
            r@ == Seq::<u64>::empty(),
    {
        Registry { conns: Vec::new() }
    }

    pub fn contains(&self, id: u64) -> (r: bool)
        ensures
            r == self@.contains(id),
    {
        let mut i: usize = 0;
        while i < self.conns.len()
            invariant
                0 <= i <= self.conns@.len(),
                forall|j: int| 0 <= j < i ==> self.conns@[j] != id,
            decreases self.conns.len() - i,
        {
            if self.conns[i] == id {
                return true;
            }
            i = i + 1;
        }
        false
    }

    pub fn len(&self) -> (r: usize)
        ensures
            r == self@.len(),
    {
        self.conns.len()
    }

    /// Adds a connection; one that is already registered stays where it is.
    pub fn register(&mut self, id: u64)
        requires
            old(self).wf(),
        ensures
            final(self).wf(),
            old(self)@.contains(id) ==> final(self)@ == old(self)@,
            !old(self)@.contains(id) ==> final(self)@ == old(self)@.push(id),
    {
        if !self.contains(id) {
            self.conns.push(id);
        }
    }

    /// Removes a connection; removing one that is not registered changes
    /// nothing.
    pub fn unregister(&mut self, id: u64)
        requires
            old(self).wf(),
        ensures
            final(self).wf(),
            !final(self)@.contains(id),
            !old(self)@.contains(id) ==> final(self)@ == old(self)@,
            old(self)@.contains(id) ==> exists|i: int|
                0 <= i < old(self)@.len() && old(self)@[i] == id && final(self)@ == old(
                    self,
                )@.remove(i),
    {
        let mut i: usize = 0;
        while i < self.conns.len()
            invariant
                0 <= i <= self.conns@.len(),
                self.conns@ == old(self).conns@,
                self.conns@.no_duplicates(),
                forall|j: int| 0 <= j < i ==> self.conns@[j] != id,
            decreases self.conns.len() - i,
        {
            if self.conns[i] == id {
                let ghost before = self.conns@;
                self.conns.remove(i);
                proof {
                    assert forall|a: int, b: int|
                        0 <= a < b < self.conns@.len() implies self.conns@[a]
                        != self.conns@[b] by {
                        let a0 = if a < i { a } else { a + 1 };
                        let b0 = if b < i { b } else { b + 1 };
                        assert(self.conns@[a] == before[a0]);
                        assert(self.conns@[b] == before[b0]);
                    }
                    assert forall|k: int| 0 <= k < self.conns@.len() implies self.conns@[k]
                        != id by {
                        let k0 = if k < i { k } else { k + 1 };
                        assert(self.conns@[k] == before[k0]);
                        assert(before[i as int] == id);
                    }
                }
                return;
            }
            i = i + 1;
        }
    }

    /// One delivery of `payload` to each registered connection, the sender
    /// included, in the order of registration.
    pub fn broadcast(&self, payload: &String) -> (r: Vec<Delivery>)
        ensures
            r@.len() == self@.len(),
            forall|i: int|
                #![trigger r@[i]]
                0 <= i < r@.len() ==> r@[i].0 == self@[i] && r@[i].1@ == payload@,
    {
        let mut out: Vec<Delivery> = Vec::new();
        let mut i: usize = 0;
        while i < self.conns.len()
            invariant
                0 <= i <= self.conns@.len(),
                out@.len() == i,
                forall|j: int|
                    0 <= j < i ==> out@[j].0 == self.conns@[j] && out@[j].1@ == payload@,
            decreases self.conns.len() - i,
        {
            let p = payload.clone();
            out.push((self.conns[i], p));
            assert(out@[i as int].1@ == payload@);
            i = i + 1;
        }
        out
    }

    /// One delivery of `payload` to the connection `to` alone.
    pub fn unicast(&self, to: u64, payload: String) -> (r: Vec<Delivery>)
        ensures
            r@.len() == 1,
            r@[0].0 == to,
            r@[0].1@ == payload@,
    {
        vec![(to, payload)]
    }

    /// Drops the connections that a send failed to reach; the others stay,
    /// in their order.
    pub fn remove_failed(&mut self, failed: &Vec<u64>)
        requires
            old(self).wf(),
        ensures
            final(self).wf(),
            forall|c: u64|
                #[trigger] final(self)@.contains(c) <==> old(self)@.contains(c)
                    && !failed@.contains(c),
    {
        let mut k: usize = 0;
        while k < failed.len()
            invariant
                0 <= k <= failed@.len(),
                self.wf(),
                forall|c: u64|
                    #[trigger] self@.contains(c) <==> old(self)@.contains(c) && !failed@.subrange(
                        0,
                        k as int,
                    ).contains(c),
            decreases failed.len() - k,
        {
            let ghost before = self@;
            self.unregister(failed[k]);
            proof {
                assert forall|c: u64| #[trigger] self@.contains(c) <==> before.contains(c) && c
                    != failed@[k as int] by {
                    if before.contains(c) && c != failed@[k as int] {
                        let j = choose|j: int| 0 <= j < before.len() && before[j] == c;
                        if before.contains(failed@[k as int]) {
                            let i = choose|i: int|
                                0 <= i < before.len() && before[i] == failed@[k as int]
                                    && self@ == before.remove(i);
                            let j2 = if j < i { j } else { j - 1 };
                            assert(self@[j2] == c);
                        } else {
                            assert(self@[j] == c);
                        }
                    }
                    if self@.contains(c) && before.contains(failed@[k as int]) {
                        let i = choose|i: int|
                            0 <= i < before.len() && before[i] == failed@[k as int] && self@
                                == before.remove(i);
                        let j = choose|j: int| 0 <= j < self@.len() && self@[j] == c;
                        let j0 = if j < i { j } else { j + 1 };
                        assert(before[j0] == c);
                    }
                }
                let pk = failed@.subrange(0, k as int);
                let pk1 = failed@.subrange(0, k + 1);
                assert(pk1 =~= pk.push(failed@[k as int]));
                assert forall|c: u64| #[trigger] pk1.contains(c) <==> pk.contains(c) || c
                    == failed@[k as int] by {
                    if pk.contains(c) {
                        let j = choose|j: int| 0 <= j < pk.len() && pk[j] == c;
                        assert(pk1[j] == c);
                    }
                    if c == failed@[k as int] {
                        assert(pk1[k as int] == c);
                    }
                    if pk1.contains(c) && c != failed@[k as int] {
                        let j = choose|j: int| 0 <= j < pk1.len() && pk1[j] == c;
                        assert(pk[j] == c);
                    }
                }
                assert forall|c: u64| #[trigger] self@.contains(c) <==> old(self)@.contains(c)
                    && !pk1.contains(c) by {
                    assert(before.contains(c) <==> old(self)@.contains(c) && !pk.contains(c));
                }
            }
            k = k + 1;
        }
        assert(failed@.subrange(0, failed@.len() as int) =~= failed@);
    }
}

} // verus!
