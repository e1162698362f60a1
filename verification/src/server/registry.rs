//! The clients connected to the chat server, and who receives a broadcast.
use vstd::prelude::*;
use std::collections::HashSet;
use vstd::std_specs::hash::into_iter_hash_keys;

verus! {

broadcast use vstd::std_specs::hash::group_hash_axioms;

/// The identifiers of the connected clients.
pub struct Clients {
    ids: HashSet<u64>,
}

impl View for Clients {
    type V = Set<u64>;

    closed spec fn view(&self) -> Set<u64> {
        self.ids@
    }
}

impl Clients {
    /// No client connected yet.
    pub fn new() -> (r: Clients)
        ensures
            r@ == Set::<u64>::empty(),
    {
        Clients { ids: HashSet::new() }
    }

    /// Whether `id` is connected.
    pub fn contains(&self, id: u64) -> (r: bool)
        ensures
            r == self@.contains(id),
    {
        self.ids.contains(&id)
    }

    /// How many clients are connected.
    pub fn len(&self) -> (r: usize)
        ensures
            r == self@.len(),
    {
        self.ids.len()
    }

    /// Takes in a newly connected client; a client that is already held stays held once.
    pub fn accomodate(&mut self, id: u64)
        ensures
            final(self)@ == old(self)@.insert(id),
    {
        self.ids.insert(id);
    }

    /// Lets a client go; other clients stay.
    pub fn remove(&mut self, id: u64)
        ensures
            final(self)@ == old(self)@.remove(id),
    {
        self.ids.remove(&id);
    }

    /// The clients that a message from `sender` goes to: every connected client but the
    /// sender, each once.
    pub fn broadcast_targets(&self, sender: u64) -> (r: Vec<u64>)
        ensures
            r@.to_set() == self@.remove(sender),
            r@.no_duplicates(),
    {
        let mut r: Vec<u64> = Vec::new();
        let iter = self.ids.iter();
        let ghost keys: Seq<u64> = into_iter_hash_keys(iter);
        proof {
            assert(keys.to_set() == self.ids@);
            assert(keys.no_duplicates());
        }
        for id in it: iter
            invariant
                keys.no_duplicates(),
                keys.to_set() == self.ids@,
                it.seq().map_values(|q: &u64| *q) == keys,
                r@.no_duplicates(),
                forall|x: u64| r@.contains(x) <==> keys.subrange(0, it.index()).contains(x) && x != sender,
        {
            let ghost before = r@;
            let ghost k = it.index();
            proof {
                assert(*id == keys[k]);
            }
            if *id != sender {
                proof {
                    if before.contains(*id) {
                        let j = choose|j: int| 0 <= j < k && keys.subrange(0, k)[j] == *id;
                        assert(keys[j] == keys[k]);
                    }
                }
                r.push(*id);
                proof {
                    assert forall|a: int, b: int| 0 <= a < b < r@.len() implies r@[a] != r@[b] by {
                        if b == r@.len() - 1 {
                            assert(before.contains(r@[a]));
                        } else {
                            assert(r@[a] == before[a] && r@[b] == before[b]);
                        }
                    }
                    assert forall|x: u64| r@.contains(x) <==> before.contains(x) || x == *id by {
                        assert(r@ == before.push(*id));
                        if x == *id {
                            assert(r@[before.len() as int] == x);
                        }
                        if before.contains(x) {
                            let j = choose|j: int| 0 <= j < before.len() && before[j] == x;
                            assert(r@[j] == x);
                        }
                        if r@.contains(x) && x != *id {
                            let j = choose|j: int| 0 <= j < r@.len() && r@[j] == x;
                            assert(before[j] == x);
                        }
                    }
                }
            }
            proof {
                let s0 = keys.subrange(0, k);
                assert(keys.subrange(0, k + 1) =~= s0.push(keys[k]));
                assert forall|x: u64| keys.subrange(0, k + 1).contains(x) <==> s0.contains(x) || x == keys[k] by {
                    if x == keys[k] {
                        assert(keys.subrange(0, k + 1)[k] == x);
                    }
                    if s0.contains(x) {
                        let j = choose|j: int| 0 <= j < s0.len() && s0[j] == x;
                        assert(keys.subrange(0, k + 1)[j] == x);
                    }
                }
                assert forall|x: u64| r@.contains(x) <==> keys.subrange(0, k + 1).contains(x) && x != sender by {
                    assert(before.contains(x) <==> s0.contains(x) && x != sender);
                }
            }
        }
        proof {
            assert(keys.subrange(0, keys.len() as int) =~= keys);
            assert forall|x: u64| r@.to_set().contains(x) <==> self.ids@.remove(sender).contains(x) by {
                assert(keys.to_set().contains(x) <==> keys.contains(x));
            }
            assert(r@.to_set() =~= self.ids@.remove(sender));
        }
        r
    }

    /// Lets go every client to which a send failed.
    pub fn remove_failed(&mut self, failed: &Vec<u64>)
        ensures
            final(self)@ == old(self)@.difference(failed@.to_set()),
    {
        let mut i: usize = 0;
        while i < failed.len()
            invariant
                i <= failed@.len(),
                self@ == old(self)@.difference(failed@.subrange(0, i as int).to_set()),
            decreases failed@.len() - i,
        {
            self.remove(failed[i]);
            proof {
                let s0 = failed@.subrange(0, i as int);
                assert(failed@.subrange(0, i + 1) =~= s0.push(failed@[i as int]));
                s0.lemma_push_to_set_commute(failed@[i as int]);
                assert(self@ =~= old(self)@.difference(failed@.subrange(0, i + 1).to_set()));
            }
            i = i + 1;
        }
        proof {
            assert(failed@.subrange(0, i as int) =~= failed@);
        }
    }
}

/// A client that joined and was not let go receives every message that another client
/// broadcasts, and a sender never receives its own message.
pub proof fn law_broadcast_reaches_others(connected: Set<u64>, joined: u64, sender: u64, targets: Set<u64>)
    requires
        targets == connected.insert(joined).remove(sender),
    ensures
        joined != sender ==> targets.contains(joined),
        !targets.contains(sender),
{
}

} // verus!
