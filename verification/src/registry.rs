use crate::queue::offer;
use std::collections::HashMap;
use tokio::sync::mpsc::UnboundedSender;
use vstd::prelude::*;
use vstd::std_specs::hash::spec_hash_map_iter;
use vstd::std_specs::iter::IteratorSpec;

verus! {

broadcast use vstd::std_specs::hash::group_hash_axioms;

/// What became of one attempt to hand a line to a registered queue.
#[derive(Clone, Copy, Debug, PartialEq, Eq, Structural)]
pub struct Delivery {
    /// The identity whose queue was offered the line.
    pub to: u64,
    /// Whether the queue took the line; `false` when its consuming end was
    /// already gone.
    pub accepted: bool,
}

/// The identities that a fan-out report names, in the order of the attempts.
pub open spec fn targets(report: Seq<Delivery>) -> Seq<u64> {
    report.map_values(|d: Delivery| d.to)
}

/// The identities of `keys` other than `sender`, in the order of `keys`.
spec fn others(keys: Seq<u64>, sender: u64) -> Seq<u64>
    decreases keys.len(),
{
    if keys.len() == 0 {
        Seq::empty()
    } else if keys.last() != sender {
        others(keys.drop_last(), sender).push(keys.last())
    } else {
        others(keys.drop_last(), sender)
    }
}

/// Leaving one identity out of a list without repetition gives a list
/// without repetition that holds exactly the other identities.
proof fn lemma_others(keys: Seq<u64>, sender: u64)
    requires
        keys.no_duplicates(),
    ensures
        others(keys, sender).no_duplicates(),
        others(keys, sender).to_set() == keys.to_set().remove(sender),
    decreases keys.len(),
{
    if keys.len() == 0 {
        assert(others(keys, sender).to_set() =~= keys.to_set().remove(sender));
    } else {
        let front = keys.drop_last();
        let last = keys.last();
        lemma_others(front, sender);
        let rest = others(front, sender);
        assert(keys =~= front.push(last));
        assert(!front.contains(last)) by {
            if front.contains(last) {
                let i = choose|i: int| 0 <= i < front.len() && front[i] == last;
                assert(keys[i] == keys[keys.len() - 1]);
            }
        }
        assert(!rest.contains(last)) by {
            assert(!rest.to_set().contains(last));
        }
        assert forall|k: u64| keys.to_set().contains(k) <==> (front.to_set().contains(k) || k
            == last) by {
            if front.contains(k) {
                let i = choose|i: int| 0 <= i < front.len() && front[i] == k;
                assert(keys[i] == k);
            }
            if k == last {
                assert(keys[keys.len() - 1] == k);
            }
            if keys.contains(k) {
                let i = choose|i: int| 0 <= i < keys.len() && keys[i] == k;
                if i < front.len() {
                    assert(front[i] == k);
                }
            }
        }
        if last != sender {
            let all = rest.push(last);
            assert forall|k: u64| all.to_set().contains(k) <==> (rest.to_set().contains(k) || k
                == last) by {
                if rest.contains(k) {
                    let i = choose|i: int| 0 <= i < rest.len() && rest[i] == k;
                    assert(all[i] == k);
                }
                if k == last {
                    assert(all[all.len() - 1] == k);
                }
                if all.contains(k) {
                    let i = choose|i: int| 0 <= i < all.len() && all[i] == k;
                    if i < rest.len() {
                        assert(rest[i] == k);
                    }
                }
            }
            assert(all.to_set() =~= keys.to_set().remove(sender));
        } else {
            assert(rest.to_set() =~= keys.to_set().remove(sender));
        }
    }
}

/// The identities that a walk over the table yields, in the order of the walk.
spec fn walk(entries: Seq<(&u64, &UnboundedSender<String>)>) -> Seq<u64> {
    entries.map_values(|e: (&u64, &UnboundedSender<String>)| *e.0)
}

/// A walk over the table yields every registered identity once.
proof fn lemma_walk(m: &HashMap<u64, UnboundedSender<String>>)
    requires
        spec_hash_map_iter(m).remaining().no_duplicates(),
    ensures
        walk(spec_hash_map_iter(m).remaining()).no_duplicates(),
        walk(spec_hash_map_iter(m).remaining()).to_set() == m@.dom(),
{
    let v = spec_hash_map_iter(m).remaining();
    let keys = walk(v);
    assert forall|i: int, j: int| 0 <= i < keys.len() && 0 <= j < keys.len() && i != j implies keys[i]
        != keys[j] by {
        assert(m@.contains_key(*v[i].0) && m@[*v[i].0] == *v[i].1);
        assert(m@.contains_key(*v[j].0) && m@[*v[j].0] == *v[j].1);
        if keys[i] == keys[j] {
            assert(v[i] == v[j]);
        }
    }
    assert forall|k: u64| keys.to_set().contains(k) <==> m@.dom().contains(k) by {
        if keys.contains(k) {
            let i = choose|i: int| 0 <= i < keys.len() && keys[i] == k;
            assert(m@.contains_key(*v[i].0));
        }
        if m@.contains_key(k) {
            assert(v.contains((&k, &m@[k])));
            let i = choose|i: int| 0 <= i < v.len() && v[i] == (&k, &m@[k]);
            assert(keys[i] == k);
        }
    }
    assert(keys.to_set() =~= m@.dom());
}

/// The table of live connections: identity to the producing end of that
/// connection's delivery queue.
pub struct Shared {
    peers: HashMap<u64, UnboundedSender<String>>,
}

impl View for Shared {
    type V = Map<u64, UnboundedSender<String>>;

    closed spec fn view(&self) -> Map<u64, UnboundedSender<String>> {
        self.peers@
    }
}

impl Shared {
    /// An empty registry.
    pub fn new() -> (shared: Shared)
        ensures
            shared@ == Map::<u64, UnboundedSender<String>>::empty(),
    {
        Shared { peers: HashMap::new() }
    }

    /// How many identities are registered.
    pub fn len(&self) -> (n: usize)
        ensures
            n == self@.len(),
    {
        self.peers.len()
    }

    /// Whether `identity` is registered.
    pub fn contains(&self, identity: u64) -> (found: bool)
        ensures
            found == self@.contains_key(identity),
    {
        self.peers.contains_key(&identity)
    }

    /// Enters `queue` under `identity`. A queue that was registered under the
    /// same identity before is replaced.
    pub fn register(&mut self, identity: u64, queue: UnboundedSender<String>)
        ensures
            final(self)@ == old(self)@.insert(identity, queue),
    {
        self.peers.insert(identity, queue);
    }

    /// Takes the entry of `identity` out; where there is none, nothing
    /// changes.
    pub fn remove(&mut self, identity: u64)
        ensures
            final(self)@ == old(self)@.remove(identity),
    {
        self.peers.remove(&identity);
    }

    /// Offers `message` to the queue of every registered identity but
    /// `sender`, once each. A queue that refuses the line is passed over:
    /// the report says so and the fan-out goes on.
    pub fn broadcast(&self, sender: u64, message: &str) -> (report: Vec<Delivery>)
        ensures
            targets(report@).no_duplicates(),
            targets(report@).to_set() == self@.dom().remove(sender),
            report@.len() == self@.dom().remove(sender).len(),
    {
        let mut report: Vec<Delivery> = Vec::new();
        let ghost entries = spec_hash_map_iter(&self.peers).remaining();
        assert(targets(report@) =~= others(walk(entries.take(0)), sender));
        for entry in it: self.peers.iter()
            invariant
                it.seq() == entries,
                entries.no_duplicates(),
                targets(report@) == others(walk(entries.take(it.index())), sender),
        {
            let ghost before = walk(entries.take(it.index()));
            let ghost upto = walk(entries.take(it.index() + 1));
            let (id, queue) = entry;
            proof {
                assert(upto.drop_last() =~= before);
                assert(upto.last() == *id);
            }
            if *id != sender {
                let accepted = offer(queue, message);
                report.push(Delivery { to: *id, accepted });
                assert(targets(report@) =~= others(before, sender).push(*id));
            }
        }
        proof {
            assert(entries.take(entries.len() as int) =~= entries);
            lemma_walk(&self.peers);
            lemma_others(walk(entries), sender);
            targets(report@).unique_seq_to_set();
        }
        report
    }
}

} // verus!
