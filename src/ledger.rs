use vstd::prelude::*;

verus! {

/// Per-bidder cumulative net contributions, keyed by bidder address.
///
/// Entries are kept in a vector with unique keys; the view is the map from
/// each address (as characters) to the amount recorded for it.
pub struct Bids {
    entries: Vec<(String, u128)>,
    model: Ghost<Map<Seq<char>, u128>>,
}

/// Position of `addr` among `entries`, if it has one.
fn position(entries: &Vec<(String, u128)>, addr: &String) -> (r: Option<usize>)
    ensures
        match r {
            Some(i) => i < entries@.len() && entries@[i as int].0@ == addr@,
            None => forall|j: int| 0 <= j < entries@.len() ==> entries@[j].0@ != addr@,
        },
{
    let mut i: usize = 0;
    while i < entries.len()
        invariant
            i <= entries@.len(),
            forall|j: int| 0 <= j < i ==> entries@[j].0@ != addr@,
        decreases entries@.len() - i,
    {
        if entries[i].0 == *addr {
            return Some(i);
        }
        i = i + 1;
    }
    None
}

/// `entries` has unique keys and holds exactly the pairs of `m`.
spec fn models(entries: Seq<(String, u128)>, m: Map<Seq<char>, u128>) -> bool {
    &&& forall|i: int, j: int| 0 <= i < j < entries.len() ==> entries[i].0@ != entries[j].0@
    &&& forall|i: int|
        0 <= i < entries.len() ==> {
            &&& #[trigger] m.contains_key(entries[i].0@)
            &&& m[entries[i].0@] == entries[i].1
        }
    &&& forall|k: Seq<char>|
        #[trigger] m.contains_key(k) ==> exists|i: int|
            0 <= i < entries.len() && #[trigger] entries[i].0@ == k
}

impl View for Bids {
    type V = Map<Seq<char>, u128>;

    closed spec fn view(&self) -> Map<Seq<char>, u128> {
        self.model@
    }
}

impl Bids {
    #[verifier::type_invariant]
    spec fn well_formed(self) -> bool {
        models(self.entries@, self.model@)
    }

    /// An empty ledger.
    pub fn new() -> (r: Bids)
        ensures
            r@ == Map::<Seq<char>, u128>::empty(),
    {
        Bids { entries: Vec::new(), model: Ghost(Map::empty()) }
    }

    /// The amount recorded for `addr`, if any.
    pub fn get(&self, addr: &String) -> (r: Option<u128>)
        ensures
            r == (if self@.contains_key(addr@) {
                Some(self@[addr@])
            } else {
                None::<u128>
            }),
    {
        proof {
            use_type_invariant(self);
        }
        match position(&self.entries, addr) {
            Some(i) => Some(self.entries[i].1),
            None => None,
        }
    }

    /// Records `amount` for `addr`, replacing what was there.
    pub fn set(&mut self, addr: &String, amount: u128)
        ensures
            final(self)@ == old(self)@.insert(addr@, amount),
    {
        proof {
            use_type_invariant(&*self);
        }
        // work on the fields outside `self`, whose invariant must hold throughout
        let mut taken = Bids::new();
        std::mem::swap(self, &mut taken);
        assert(taken.entries@ == old(self).entries@ && taken.model@ == old(self).model@);
        let Bids { mut entries, model } = taken;
        let ghost old_entries = entries@;
        let ghost new_model = model@.insert(addr@, amount);
        match position(&entries, addr) {
            Some(i) => {
                entries.set(i, (addr.clone(), amount));
                proof {
                    assert forall|k: Seq<char>| #[trigger] new_model.contains_key(k) implies exists|j: int|
                        0 <= j < entries@.len() && #[trigger] entries@[j].0@ == k by {
                        if k != addr@ {
                            let j = choose|j: int| 0 <= j < old_entries.len() && old_entries[j].0@ == k;
                            assert(entries@[j].0@ == k);
                        } else {
                            assert(entries@[i as int].0@ == k);
                        }
                    }
                }
            },
            None => {
                entries.push((addr.clone(), amount));
                proof {
                    assert forall|k: Seq<char>| #[trigger] new_model.contains_key(k) implies exists|j: int|
                        0 <= j < entries@.len() && #[trigger] entries@[j].0@ == k by {
                        if k != addr@ {
                            let j = choose|j: int| 0 <= j < old_entries.len() && old_entries[j].0@ == k;
                            assert(entries@[j].0@ == k);
                        } else {
                            assert(entries@[old_entries.len() as int].0@ == k);
                        }
                    }
                }
            },
        }
        assert forall|i: int| 0 <= i < entries@.len() implies {
            &&& #[trigger] new_model.contains_key(entries@[i].0@)
            &&& new_model[entries@[i].0@] == entries@[i].1
        } by {
            if entries@[i].0@ != addr@ {
                assert(entries@[i] == old_entries[i]);
                assert(model@.contains_key(old_entries[i].0@));
            }
        }
        assert(models(entries@, new_model));
        *self = Bids { entries, model: Ghost(new_model) };
    }

    /// Removes the entry of `addr`, if there is one.
    pub fn remove(&mut self, addr: &String)
        ensures
            final(self)@ == old(self)@.remove(addr@),
    {
        proof {
            use_type_invariant(&*self);
        }
        // work on the fields outside `self`, whose invariant must hold throughout
        let mut taken = Bids::new();
        std::mem::swap(self, &mut taken);
        assert(taken.entries@ == old(self).entries@ && taken.model@ == old(self).model@);
        let Bids { mut entries, model } = taken;
        let ghost old_entries = entries@;
        let ghost new_model = model@.remove(addr@);
        if let Some(i) = position(&entries, addr) {
            let ghost last = (old_entries.len() - 1) as int;
            entries.swap_remove(i);
            // where each remaining entry came from
            let ghost origin = |j: int| if j == i as int { last } else { j };
            assert forall|j: int| 0 <= j < entries@.len() implies entries@[j] == old_entries[
                origin(j)] && origin(j) != i as int by {}
            assert forall|k: Seq<char>| #[trigger] new_model.contains_key(k) implies exists|j: int|
                0 <= j < entries@.len() && #[trigger] entries@[j].0@ == k by {
                let j = choose|j: int| 0 <= j < old_entries.len() && old_entries[j].0@ == k;
                if j == last {
                    assert(entries@[i as int].0@ == k);
                } else {
                    assert(entries@[j].0@ == k);
                }
            }
            assert forall|a: int, b: int| 0 <= a < b < entries@.len() implies entries@[a].0@
                != entries@[b].0@ by {
                assert(origin(a) != origin(b));
            }
            assert forall|j: int| 0 <= j < entries@.len() implies {
                &&& #[trigger] new_model.contains_key(entries@[j].0@)
                &&& new_model[entries@[j].0@] == entries@[j].1
            } by {
                assert(model@.contains_key(old_entries[origin(j)].0@));
                assert(old_entries[origin(j)].0@ != old_entries[i as int].0@);
            }
        } else {
            assert(new_model =~= model@);
        }
        assert(models(entries@, new_model));
        *self = Bids { entries, model: Ghost(new_model) };
    }
}

} // verus!
