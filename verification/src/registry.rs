//! The recipients of the mints that wait for their randomness.

use crate::address::Address;
use crate::uint::U256;
use vstd::prelude::*;

verus! {

/// One pending request: the nonce that the oracle gave it, and the address
/// that the mint goes to.
#[derive(Clone, Copy, Debug)]
struct Entry {
    nonce: U256,
    recipient: Address,
}

/// Whether `entries` holds `nonce` at index `i`.
spec fn holds_at(entries: Seq<Entry>, i: int, nonce: U256) -> bool {
    0 <= i < entries.len() && entries[i].nonce == nonce
}

/// Whether no nonce stands at two places of `entries`.
spec fn distinct_nonces(entries: Seq<Entry>) -> bool {
    forall|i: int, j: int|
        0 <= i < j < entries.len() ==> (#[trigger] entries[i]).nonce != (#[trigger] entries[j]).nonce
}

/// The association that `entries` stands for.
spec fn association(entries: Seq<Entry>) -> Map<U256, Address> {
    Map::new(
        |nonce: U256| exists|i: int| holds_at(entries, i, nonce),
        |nonce: U256| entries[choose|i: int| holds_at(entries, i, nonce)].recipient,
    )
}

/// With distinct nonces, each entry is what the association says of its
/// nonce.
proof fn lemma_entry_is_associated(entries: Seq<Entry>, i: int)
    requires
        distinct_nonces(entries),
        0 <= i < entries.len(),
    ensures
        association(entries).dom().contains(entries[i].nonce),
        association(entries)[entries[i].nonce] == entries[i].recipient,
{
    let nonce = entries[i].nonce;
    assert(holds_at(entries, i, nonce));
    let j = choose|j: int| holds_at(entries, j, nonce);
    assert(j == i) by {
        if j < i {
            assert(entries[j].nonce != entries[i].nonce);
        } else if i < j {
            assert(entries[i].nonce != entries[j].nonce);
        }
    }
}

/// The association from nonce to recipient. A nonce has at most one
/// recipient.
pub struct AddressRegistry {
    entries: Vec<Entry>,
}

impl View for AddressRegistry {
    type V = Map<U256, Address>;

    closed spec fn view(&self) -> Map<U256, Address> {
        association(self.entries@)
    }
}

impl AddressRegistry {
    /// The invariant of the registry: no nonce is stored twice.
    pub closed spec fn wf(self) -> bool {
        distinct_nonces(self.entries@)
    }

    /// The recipient that `get` gives for `nonce`: the stored one, or the
    /// zero address where there is none.
    pub open spec fn recipient_of(self, nonce: U256) -> Address {
        if self@.dom().contains(nonce) {
            self@[nonce]
        } else {
            Address::zero_address()
        }
    }

    /// A registry without entries.
    pub fn new() -> (r: AddressRegistry)
        ensures
            r.wf(),
            r@ == Map::<U256, Address>::empty(),
    {
        let r = AddressRegistry { entries: Vec::new() };
        assert(r@ =~= Map::<U256, Address>::empty());
        r
    }

    /// The index at which `nonce` is stored, if it is.
    fn position(&self, nonce: U256) -> (r: Option<usize>)
        requires
            self.wf(),
        ensures
            match r {
                Some(i) => holds_at(self.entries@, i as int, nonce),
                None => forall|i: int| !holds_at(self.entries@, i, nonce),
            },
    {
        let mut i: usize = 0;
        while i < self.entries.len()
            invariant
                0 <= i <= self.entries@.len(),
                forall|j: int| 0 <= j < i ==> !holds_at(self.entries@, j, nonce),
            decreases self.entries@.len() - i,
        {
            if self.entries[i].nonce == nonce {
                return Some(i);
            }
            i += 1;
        }
        None
    }

    /// The recipient stored for `nonce`, if there is one.
    pub fn find(&self, nonce: U256) -> (r: Option<Address>)
        requires
            self.wf(),
        ensures
            self@.dom().contains(nonce) ==> r == Some(self@[nonce]),
            !self@.dom().contains(nonce) ==> r.is_none(),
    {
        match self.position(nonce) {
            Some(i) => {
                proof {
                    lemma_entry_is_associated(self.entries@, i as int);
                }
                Some(self.entries[i].recipient)
            },
            None => None,
        }
    }

    /// The recipient stored for `nonce`, or the zero address where there is
    /// none.
    pub fn get(&self, nonce: U256) -> (r: Address)
        requires
            self.wf(),
        ensures
            r == self.recipient_of(nonce),
    {
        match self.find(nonce) {
            Some(recipient) => recipient,
            None => Address::zero(),
        }
    }

    /// Stores `recipient` for `nonce`, in place of what was stored for it
    /// before, if anything.
    pub fn put(&mut self, nonce: U256, recipient: Address)
        requires
            old(self).wf(),
        ensures
            final(self).wf(),
            final(self)@ == old(self)@.insert(nonce, recipient),
    {
        let entry = Entry { nonce, recipient };
        let ghost before = self.entries@;
        match self.position(nonce) {
            Some(i) => {
                self.entries.set(i, entry);
                proof {
                    let after = self.entries@;
                    assert(distinct_nonces(after)) by {
                        assert forall|a: int, b: int| 0 <= a < b < after.len() implies (
                        #[trigger] after[a]).nonce != (#[trigger] after[b]).nonce by {
                            assert(before[a].nonce != before[b].nonce);
                        }
                    }
                    assert forall|k: U256|
                        association(after).dom().contains(k) <==> association(before).insert(
                            nonce,
                            recipient,
                        ).dom().contains(k) by {
                        if association(after).dom().contains(k) {
                            let j = choose|j: int| holds_at(after, j, k);
                            assert(holds_at(before, j, k));
                        }
                        if association(before).dom().contains(k) {
                            let j = choose|j: int| holds_at(before, j, k);
                            assert(holds_at(after, j, k));
                        }
                        if k == nonce {
                            assert(holds_at(after, i as int, k));
                        }
                    }
                    assert forall|k: U256| association(after).dom().contains(k) implies association(
                        after,
                    )[k] == association(before).insert(nonce, recipient)[k] by {
                        let j = choose|j: int| holds_at(after, j, k);
                        lemma_entry_is_associated(after, j);
                        if k != nonce {
                            assert(holds_at(before, j, k));
                            lemma_entry_is_associated(before, j);
                        } else {
                            lemma_entry_is_associated(after, i as int);
                        }
                    }
                    assert(association(after) =~= association(before).insert(nonce, recipient));
                }
            },
            None => {
                self.entries.push(entry);
                proof {
                    let after = self.entries@;
                    let last = before.len() as int;
                    assert(distinct_nonces(after)) by {
                        assert forall|a: int, b: int| 0 <= a < b < after.len() implies (
                        #[trigger] after[a]).nonce != (#[trigger] after[b]).nonce by {
                            if b < last {
                                assert(before[a].nonce != before[b].nonce);
                            } else {
                                assert(!holds_at(before, a, nonce));
                            }
                        }
                    }
                    assert forall|k: U256|
                        association(after).dom().contains(k) <==> association(before).insert(
                            nonce,
                            recipient,
                        ).dom().contains(k) by {
                        if association(after).dom().contains(k) {
                            let j = choose|j: int| holds_at(after, j, k);
                            if j < last {
                                assert(holds_at(before, j, k));
                            }
                        }
                        if association(before).dom().contains(k) {
                            let j = choose|j: int| holds_at(before, j, k);
                            assert(holds_at(after, j, k));
                        }
                        if k == nonce {
                            assert(holds_at(after, last, k));
                        }
                    }
                    assert forall|k: U256| association(after).dom().contains(k) implies association(
                        after,
                    )[k] == association(before).insert(nonce, recipient)[k] by {
                        let j = choose|j: int| holds_at(after, j, k);
                        lemma_entry_is_associated(after, j);
                        if k != nonce {
                            assert(holds_at(before, j, k));
                            lemma_entry_is_associated(before, j);
                        } else {
                            lemma_entry_is_associated(after, last);
                        }
                    }
                    assert(association(after) =~= association(before).insert(nonce, recipient));
                }
            },
        }
    }
}

} // verus!
