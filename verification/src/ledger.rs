//! The ledger: one account per address, found by the address alone.

use vstd::prelude::*;
use crate::identity::Identity;
use crate::identity::lemma_identity_by_view;
use crate::laws_keyspace::anchored;
use crate::records::Account;
use crate::records::AccountView;
use crate::records::Outcome;
use crate::records::State;
use crate::errors::AccessRequestError;
use crate::errors::Verdict;

verus! {

/// An occupied slot: an address and the account that lives there.
struct Slot {
    address: Identity,
    account: Account,
}

/// Whether the slot at index `i` has the given address.
spec fn holds(slots: Seq<Slot>, address: Seq<u8>, i: int) -> bool {
    0 <= i < slots.len() && slots[i].address@ == address
}

/// Whether no address occurs twice among the slots.
spec fn distinct(slots: Seq<Slot>) -> bool {
    forall|i: int, j: int| 0 <= i < j < slots.len() ==> slots[i].address@ != slots[j].address@
}

/// The mapping from address to account that a list of slots stands for.
spec fn contents(slots: Seq<Slot>) -> Map<Seq<u8>, AccountView> {
    Map::new(
        |address: Seq<u8>| exists|i: int| holds(slots, address, i),
        |address: Seq<u8>| slots[choose|i: int| holds(slots, address, i)].account@,
    )
}

/// Each slot is found under its address.
proof fn lemma_contents_at(slots: Seq<Slot>, i: int)
    requires
        distinct(slots),
        0 <= i < slots.len(),
    ensures
        contents(slots).contains_key(slots[i].address@),
        contents(slots)[slots[i].address@] == slots[i].account@,
{
    let address = slots[i].address@;
    assert(holds(slots, address, i));
    let j = choose|j: int| holds(slots, address, j);
    assert(i == j);
}

/// Pushing a slot with a free address inserts its account.
proof fn lemma_contents_push(slots: Seq<Slot>, slot: Slot)
    requires
        distinct(slots),
        !contents(slots).contains_key(slot.address@),
    ensures
        distinct(slots.push(slot)),
        contents(slots.push(slot)) == contents(slots).insert(slot.address@, slot.account@),
{
    let after = slots.push(slot);
    assert forall|i: int, j: int| 0 <= i < j < after.len() implies after[i].address@
        != after[j].address@ by {
        if j == slots.len() {
            assert(holds(slots, slots[i].address@, i));
        }
    }
    let left = contents(after);
    let right = contents(slots).insert(slot.address@, slot.account@);
    assert forall|address: Seq<u8>| left.contains_key(address) == right.contains_key(address) by {
        if left.contains_key(address) {
            let i = choose|i: int| holds(after, address, i);
            if i < slots.len() {
                assert(holds(slots, address, i));
            }
        }
        if right.contains_key(address) {
            if address == slot.address@ {
                assert(holds(after, address, slots.len() as int));
            } else {
                let i = choose|i: int| holds(slots, address, i);
                assert(holds(after, address, i));
            }
        }
    }
    assert forall|address: Seq<u8>| left.contains_key(address) implies left[address]
        == right[address] by {
        let i = choose|i: int| holds(after, address, i);
        lemma_contents_at(after, i);
        if i < slots.len() {
            lemma_contents_at(slots, i);
        }
    }
    assert(left =~= right);
}

/// Replacing the account of a slot replaces it under its address.
proof fn lemma_contents_update(slots: Seq<Slot>, i: int, account: Account)
    requires
        distinct(slots),
        0 <= i < slots.len(),
    ensures
        distinct(slots.update(i, Slot { address: slots[i].address, account })),
        contents(slots.update(i, Slot { address: slots[i].address, account })) == contents(
            slots,
        ).insert(slots[i].address@, account@),
{
    let after = slots.update(i, Slot { address: slots[i].address, account });
    assert forall|k: int| 0 <= k < slots.len() implies #[trigger] after[k].address@
        == slots[k].address@ by {}
    let left = contents(after);
    let right = contents(slots).insert(slots[i].address@, account@);
    assert forall|address: Seq<u8>| left.contains_key(address) == right.contains_key(address) by {
        if left.contains_key(address) {
            let k = choose|k: int| holds(after, address, k);
            assert(holds(slots, address, k));
        }
        if right.contains_key(address) {
            if address == slots[i].address@ {
                assert(holds(after, address, i));
            } else {
                let k = choose|k: int| holds(slots, address, k);
                assert(holds(after, address, k));
            }
        }
    }
    assert forall|address: Seq<u8>| left.contains_key(address) implies left[address]
        == right[address] by {
        let k = choose|k: int| holds(after, address, k);
        lemma_contents_at(after, k);
        lemma_contents_at(slots, k);
    }
    assert(left =~= right);
}

/// Distinct slots stand for as many accounts as there are slots.
proof fn lemma_contents_len(slots: Seq<Slot>)
    requires
        distinct(slots),
    ensures
        contents(slots).dom().finite(),
        contents(slots).dom().len() == slots.len(),
    decreases slots.len(),
{
    if slots.len() == 0 {
        assert(contents(slots).dom() =~= Set::<Seq<u8>>::empty());
    } else {
        let front = slots.drop_last();
        let last = slots.last();
        assert(distinct(front));
        lemma_contents_len(front);
        assert(!contents(front).contains_key(last.address@)) by {
            if contents(front).contains_key(last.address@) {
                let i = choose|i: int| holds(front, last.address@, i);
                assert(slots[i].address@ == slots[slots.len() - 1].address@);
            }
        }
        lemma_contents_push(front, last);
        assert(front.push(last) =~= slots);
        assert(contents(slots).dom() =~= contents(front).dom().insert(last.address@));
    }
}

/// The state of the program: its own identity and the accounts it owns.
pub struct Ledger {
    program: Identity,
    slots: Vec<Slot>,
}

impl View for Ledger {
    type V = Map<Seq<u8>, AccountView>;

    closed spec fn view(&self) -> Map<Seq<u8>, AccountView> {
        contents(self.slots@)
    }
}

impl Ledger {
    #[verifier::type_invariant]
    spec fn well_formed(self) -> bool {
        distinct(self.slots@)
    }

    /// The identity under which every address of the ledger is derived.
    pub closed spec fn program_id(&self) -> Identity {
        self.program
    }

    /// An empty ledger for the program. It is anchored, and stays so under
    /// the operations that derive their keys themselves.
    pub fn new(program: Identity) -> (ledger: Ledger)
        ensures
            ledger@ == Map::<Seq<u8>, AccountView>::empty(),
            ledger.program_id() == program,
            anchored(ledger@, program@),
    {
        let ledger = Ledger { program, slots: Vec::new() };
        assert(ledger@ =~= Map::<Seq<u8>, AccountView>::empty());
        ledger
    }

    /// The identity of the program.
    pub fn program(&self) -> (program: Identity)
        ensures
            program == self.program_id(),
    {
        self.program
    }

    /// The number of accounts.
    pub fn len(&self) -> (n: usize)
        ensures
            self@.dom().finite(),
            n == self@.dom().len(),
    {
        proof {
            use_type_invariant(self);
            lemma_contents_len(self.slots@);
        }
        self.slots.len()
    }

    fn find(&self, address: &Identity) -> (found: Option<usize>)
        ensures
            match found {
                Some(i) => holds(self.slots@, address@, i as int),
                None => forall|i: int| !holds(self.slots@, address@, i),
            },
    {
        let mut i: usize = 0;
        while i < self.slots.len()
            invariant
                i <= self.slots.len(),
                forall|k: int| 0 <= k < i ==> !holds(self.slots@, address@, k),
            decreases self.slots.len() - i,
        {
            if self.slots[i].address.same(address) {
                return Some(i);
            }
            i = i + 1;
        }
        None
    }

    /// Whether an account lives at the address.
    pub fn contains(&self, address: &Identity) -> (occupied: bool)
        ensures
            occupied == self@.contains_key(address@),
    {
        self.find(address).is_some()
    }

    /// The account at the address, if there is one.
    pub fn get(&self, address: &Identity) -> (found: Option<&Account>)
        ensures
            match found {
                Some(account) => self@.contains_key(address@) && account@ == self@[address@],
                None => !self@.contains_key(address@),
            },
    {
        proof {
            use_type_invariant(self);
        }
        match self.find(address) {
            Some(i) => {
                proof {
                    lemma_contents_at(self.slots@, i as int);
                }
                Some(&self.slots[i].account)
            },
            None => None,
        }
    }

    /// Writes the account at the address, over whatever lived there.
    pub fn put(&mut self, address: Identity, account: Account)
        ensures
            final(self)@ == old(self)@.insert(address@, account@),
            final(self).program_id() == old(self).program_id(),
    {
        proof {
            use_type_invariant(&*self);
        }
        let found = self.find(&address);
        let mut slots: Vec<Slot> = Vec::new();
        std::mem::swap(&mut slots, &mut self.slots);
        match found {
            Some(i) => {
                proof {
                    lemma_contents_update(slots@, i as int, account);
                    lemma_identity_by_view(slots@[i as int].address, address);
                }
                slots.set(i, Slot { address, account });
            },
            None => {
                proof {
                    lemma_contents_push(slots@, Slot { address, account });
                }
                slots.push(Slot { address, account });
            },
        }
        self.slots = slots;
    }
}

/// Whether a call ended as its outcome says: on success with the next state,
/// on failure with that error and nothing changed.
pub open spec fn settles(
    outcome: Outcome,
    pre: State,
    result: Verdict,
    post: State,
) -> bool {
    match outcome {
        Ok(next) => result is Ok && post == next,
        Err(e) => result == Err::<(), AccessRequestError>(e) && post == pre,
    }
}

} // verus!
