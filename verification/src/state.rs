//! The persisted state that the custody operations read and mutate: vault
//! records (one per owner, immutable once created) and the balances of the
//! ledger's accounts, keyed by address. Absent accounts hold zero.

use vstd::prelude::*;
use crate::bytes::bytes_eq;
use crate::bytes::copy_bytes;

verus! {

/// The vault record: binds a derived custody address to its owning identity.
/// `signer` is the owner identity; `bump` is the disambiguator that the
/// custody address was derived with, persisted so that withdrawal can
/// reconstruct the exact authorization proof.
pub struct Vault {
    pub bump: u8,
    pub signer: Vec<u8>,
}

/// One vault record, stored at its derived address.
pub struct RecordSlot {
    pub address: Vec<u8>,
    pub vault: Vault,
}

/// The balance of one account, stored at its address.
pub struct BalanceSlot {
    pub address: Vec<u8>,
    pub lamports: u64,
}

/// The ledger state the custody operations touch: every vault record and
/// every account balance, each keyed by a unique address.
pub struct Ledger {
    pub records: Vec<RecordSlot>,
    pub balances: Vec<BalanceSlot>,
}

impl Ledger {
    /// Well-formedness: addresses key both tables uniquely.
    pub open spec fn wf(self) -> bool {
        &&& forall|i: int, j: int|
            0 <= i < j < self.records@.len() ==> self.records@[i].address@
                != self.records@[j].address@
        &&& forall|i: int, j: int|
            0 <= i < j < self.balances@.len() ==> self.balances@[i].address@
                != self.balances@[j].address@
    }

    /// A vault record exists at this address.
    pub open spec fn has_record(self, addr: Seq<u8>) -> bool {
        exists|i: int| 0 <= i < self.records@.len() && self.records@[i].address@ == addr
    }

    /// The index of the record stored at this address.
    pub open spec fn record_index(self, addr: Seq<u8>) -> int {
        choose|i: int| 0 <= i < self.records@.len() && self.records@[i].address@ == addr
    }

    /// The owner identity bound by the record at this address.
    pub open spec fn record_owner(self, addr: Seq<u8>) -> Seq<u8> {
        self.records@[self.record_index(addr)].vault.signer@
    }

    /// The disambiguator persisted in the record at this address.
    pub open spec fn record_bump(self, addr: Seq<u8>) -> u8 {
        self.records@[self.record_index(addr)].vault.bump
    }

    /// A balance slot exists at this address.
    pub open spec fn has_balance_slot(self, addr: Seq<u8>) -> bool {
        exists|i: int| 0 <= i < self.balances@.len() && self.balances@[i].address@ == addr
    }

    /// The index of the balance slot at this address.
    pub open spec fn balance_index(self, addr: Seq<u8>) -> int {
        choose|i: int| 0 <= i < self.balances@.len() && self.balances@[i].address@ == addr
    }

    /// The balance held at this address; an account that was never funded
    /// holds zero.
    pub open spec fn balance_of(self, addr: Seq<u8>) -> u64 {
        if self.has_balance_slot(addr) {
            self.balances@[self.balance_index(addr)].lamports
        } else {
            0
        }
    }

    /// In a well-formed ledger a record index that matches an address is the
    /// record index of that address.
    pub proof fn lemma_record_index_is(self, addr: Seq<u8>, i: int)
        requires
            self.wf(),
            0 <= i < self.records@.len(),
            self.records@[i].address@ == addr,
        ensures
            self.has_record(addr),
            self.record_index(addr) == i,
    {
        assert(self.has_record(addr));
        let j = self.record_index(addr);
        assert(0 <= j < self.records@.len() && self.records@[j].address@ == addr);
    }

    /// In a well-formed ledger a balance index that matches an address is the
    /// balance index of that address.
    pub proof fn lemma_balance_index_is(self, addr: Seq<u8>, i: int)
        requires
            self.wf(),
            0 <= i < self.balances@.len(),
            self.balances@[i].address@ == addr,
        ensures
            self.has_balance_slot(addr),
            self.balance_index(addr) == i,
            self.balance_of(addr) == self.balances@[i].lamports,
    {
        assert(self.has_balance_slot(addr));
        let j = self.balance_index(addr);
        assert(0 <= j < self.balances@.len() && self.balances@[j].address@ == addr);
    }

    /// An empty ledger: no records, every balance zero.
    pub fn new() -> (r: Ledger)
        ensures
            r.wf(),
            forall|a: Seq<u8>| !r.has_record(a),
            forall|a: Seq<u8>| r.balance_of(a) == 0,
    {
        Ledger { records: Vec::new(), balances: Vec::new() }
    }

    /// The index of the record at this address, if one exists.
    fn find_record_index(&self, addr: &Vec<u8>) -> (r: Option<usize>)
        ensures
            (match r {
                Some(i) => i < self.records@.len() && self.records@[i as int].address@ == addr@,
                None => !self.has_record(addr@),
            }),
    {
        let mut i: usize = 0;
        while i < self.records.len()
            invariant
                i <= self.records@.len(),
                forall|k: int| 0 <= k < i ==> self.records@[k].address@ != addr@,
            decreases self.records@.len() - i,
        {
            if bytes_eq(&self.records[i].address, addr) {
                return Some(i);
            }
            i += 1;
        }
        None
    }

    /// The index of the balance slot at this address, if one exists.
    fn find_balance_index(&self, addr: &Vec<u8>) -> (r: Option<usize>)
        ensures
            (match r {
                Some(i) => i < self.balances@.len() && self.balances@[i as int].address@ == addr@,
                None => !self.has_balance_slot(addr@),
            }),
    {
        let mut i: usize = 0;
        while i < self.balances.len()
            invariant
                i <= self.balances@.len(),
                forall|k: int| 0 <= k < i ==> self.balances@[k].address@ != addr@,
            decreases self.balances@.len() - i,
        {
            if bytes_eq(&self.balances[i].address, addr) {
                return Some(i);
            }
            i += 1;
        }
        None
    }

    /// Whether a vault record exists at this address.
    pub fn record_exists(&self, addr: &Vec<u8>) -> (r: bool)
        requires
            self.wf(),
        ensures
            r == self.has_record(addr@),
    {
        match self.find_record_index(addr) {
            Some(i) => {
                proof {
                    self.lemma_record_index_is(addr@, i as int);
                }
                true
            },
            None => false,
        }
    }

    /// The record at this address, as (disambiguator, owner identity).
    pub fn get_record(&self, addr: &Vec<u8>) -> (r: Option<(u8, Vec<u8>)>)
        requires
            self.wf(),
        ensures
            (match r {
                Some((bump, owner)) => self.has_record(addr@) && bump == self.record_bump(addr@)
                    && owner@ == self.record_owner(addr@),
                None => !self.has_record(addr@),
            }),
    {
        match self.find_record_index(addr) {
            Some(i) => {
                proof {
                    self.lemma_record_index_is(addr@, i as int);
                }
                Some((self.records[i].vault.bump, copy_bytes(&self.records[i].vault.signer)))
            },
            None => None,
        }
    }

    /// The balance held at this address.
    pub fn get_balance(&self, addr: &Vec<u8>) -> (r: u64)
        requires
            self.wf(),
        ensures
            r == self.balance_of(addr@),
    {
        match self.find_balance_index(addr) {
            Some(i) => {
                proof {
                    self.lemma_balance_index_is(addr@, i as int);
                }
                self.balances[i].lamports
            },
            None => 0,
        }
    }

    /// Sets the balance at an address, creating the slot if the account was
    /// never funded. Every other address keeps its balance, and the records
    /// are untouched.
    fn set_balance(&mut self, addr: &Vec<u8>, value: u64)
        requires
            old(self).wf(),
        ensures
            final(self).wf(),
            final(self).records == old(self).records,
            final(self).balance_of(addr@) == value,
            forall|a: Seq<u8>|
                a != addr@ ==> final(self).balance_of(a) == old(self).balance_of(a),
    {
        match self.find_balance_index(addr) {
            Some(i) => {
                proof {
                    self.lemma_balance_index_is(addr@, i as int);
                }
                self.balances[i].lamports = value;
                proof {
                    assert(final(self).balances@[i as int].address@ == addr@);
                    final(self).lemma_balance_index_is(addr@, i as int);
                    assert forall|a: Seq<u8>| a != addr@ implies final(self).balance_of(a) == old(self).balance_of(a) by {
                        assert(forall|k: int|
                            0 <= k < final(self).balances@.len() ==> final(self).balances@[k].address@
                                == old(self).balances@[k].address@);
                        if old(self).has_balance_slot(a) {
                            let k = old(self).balance_index(a);
                            assert(final(self).balances@[k].address@ == a);
                            final(self).lemma_balance_index_is(a, k);
                            assert(k != i as int);
                        } else {
                            assert(!final(self).has_balance_slot(a));
                        }
                    }
                }
            },
            None => {
                let slot = BalanceSlot { address: copy_bytes(addr), lamports: value };
                self.balances.push(slot);
                proof {
                    let n = old(self).balances@.len() as int;
                    assert(final(self).balances@ == old(self).balances@.push(slot));
                    assert(final(self).balances@[n].address@ == addr@);
                    assert(final(self).wf());
                    final(self).lemma_balance_index_is(addr@, n);
                    assert forall|a: Seq<u8>| a != addr@ implies final(self).balance_of(a) == old(self).balance_of(a) by {
                        if old(self).has_balance_slot(a) {
                            let k = old(self).balance_index(a);
                            assert(final(self).balances@[k].address@ == a);
                            final(self).lemma_balance_index_is(a, k);
                        } else {
                            assert(!final(self).has_balance_slot(a));
                        }
                    }
                }
            },
        }
    }

    /// Credits an address with freshly arriving funds: the inflow a funder
    /// brings from outside the custody system.
    pub fn credit(&mut self, addr: &Vec<u8>, amount: u64)
        requires
            old(self).wf(),
            old(self).balance_of(addr@) + amount <= u64::MAX,
        ensures
            final(self).wf(),
            final(self).records == old(self).records,
            final(self).balance_of(addr@) == old(self).balance_of(addr@) + amount,
            forall|a: Seq<u8>|
                a != addr@ ==> final(self).balance_of(a) == old(self).balance_of(a),
    {
        let b = self.get_balance(addr);
        self.set_balance(addr, b + amount);
    }

    /// Adds a vault record at a fresh address. Every other record and every
    /// balance keeps its value.
    pub(crate) fn add_record(&mut self, addr: &Vec<u8>, bump: u8, owner: &Vec<u8>)
        requires
            old(self).wf(),
            !old(self).has_record(addr@),
        ensures
            final(self).wf(),
            final(self).balances == old(self).balances,
            final(self).has_record(addr@),
            final(self).record_owner(addr@) == owner@,
            final(self).record_bump(addr@) == bump,
            forall|a: Seq<u8>|
                a != addr@ ==> final(self).has_record(a) == old(self).has_record(a),
            forall|a: Seq<u8>|
                a != addr@ && old(self).has_record(a) ==> final(self).record_owner(a) == old(self).record_owner(a) && final(self).record_bump(a) == old(self).record_bump(a),
    {
        let slot = RecordSlot {
            address: copy_bytes(addr),
            vault: Vault { bump, signer: copy_bytes(owner) },
        };
        self.records.push(slot);
        proof {
            let n = old(self).records@.len() as int;
            assert(final(self).records@ == old(self).records@.push(slot));
            assert(final(self).records@[n].address@ == addr@);
            assert(final(self).wf());
            final(self).lemma_record_index_is(addr@, n);
            assert forall|a: Seq<u8>| a != addr@ implies final(self).has_record(a) == old(self).has_record(a) by {
                if old(self).has_record(a) {
                    let k = old(self).record_index(a);
                    assert(final(self).records@[k].address@ == a);
                } else {
                    assert(!final(self).has_record(a));
                }
            }
            assert forall|a: Seq<u8>| a != addr@ && old(self).has_record(a) implies final(self).record_owner(a) == old(self).record_owner(a) && final(self).record_bump(a) == old(self).record_bump(a) by {
                let k = old(self).record_index(a);
                assert(old(self).records@[k].address@ == a);
                assert(final(self).records@[k].address@ == a);
                final(self).lemma_record_index_is(a, k);
            }
        }
    }

    /// The external transfer primitive, modeled exactly: moves `amount` from
    /// one address to another atomically. A transfer to the same address
    /// leaves every balance as it was.
    pub(crate) fn transfer_exact(&mut self, from: &Vec<u8>, to: &Vec<u8>, amount: u64)
        requires
            old(self).wf(),
            amount <= old(self).balance_of(from@),
            from@ != to@ ==> old(self).balance_of(to@) + amount <= u64::MAX,
        ensures
            final(self).wf(),
            final(self).records == old(self).records,
            from@ == to@ ==> forall|a: Seq<u8>|
                final(self).balance_of(a) == old(self).balance_of(a),
            from@ != to@ ==> final(self).balance_of(from@) == old(self).balance_of(from@) - amount
                && final(self).balance_of(to@) == old(self).balance_of(to@) + amount,
            forall|a: Seq<u8>|
                a != from@ && a != to@ ==> final(self).balance_of(a) == old(self).balance_of(a),
    {
        if bytes_eq(from, to) {
            return ;
        }
        let bf = self.get_balance(from);
        let bt = self.get_balance(to);
        self.set_balance(from, bf - amount);
        self.set_balance(to, bt + amount);
    }
}

} // verus!
