use vstd::prelude::*;

verus! {

/// Hands out connection identities, each one once.
pub struct Acceptor {
    next: u64,
}

impl View for Acceptor {
    type V = nat;

    /// How many identities have been handed out.
    closed spec fn view(&self) -> nat {
        self.next as nat
    }
}

impl Acceptor {
    /// The identities handed out so far: they are handed out in rising
    /// order, from zero.
    pub open spec fn issued(&self) -> Set<u64> {
        Set::new(|identity: u64| (identity as nat) < self@)
    }

    /// An acceptor that has handed out nothing.
    pub fn new() -> (acceptor: Acceptor)
        ensures
            acceptor@ == 0,
    {
        Acceptor { next: 0 }
    }

    /// An identity for a newly accepted connection: one that was never handed
    /// out before. The largest `u64` is kept back, so that the count of
    /// identities handed out always fits; once all others are out the answer
    /// is `None` and nothing changes.
    pub fn issue(&mut self) -> (identity: Option<u64>)
        ensures
            identity is None <==> old(self)@ == u64::MAX,
            match identity {
                Some(id) => {
                    &&& id == old(self)@
                    &&& final(self)@ == old(self)@ + 1
                    &&& !old(self).issued().contains(id)
                    &&& final(self).issued() == old(self).issued().insert(id)
                },
                None => final(self)@ == old(self)@,
            },
    {
        if self.next == u64::MAX {
            None
        } else {
            let id = self.next;
            self.next = id + 1;
            assert(self.issued() =~= old(self).issued().insert(id));
            Some(id)
        }
    }
}

} // verus!
