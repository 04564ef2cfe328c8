use vstd::prelude::*;

use crate::types::bytes32_eq;

verus! {

/// The balance held by one address.
#[derive(Clone, Copy, Debug)]
pub struct AccountBalance {
    pub address: [u8; 32],
    pub balance: u64,
}

/// A mapping from address to balance, owned by whoever passes it in.
/// Each address has at most one entry; an address without one holds zero.
#[derive(Clone, Debug)]
pub struct Accounts {
    pub entries: Vec<AccountBalance>,
}

/// Whether entry `i` of `s` belongs to address `a`.
pub open spec fn entry_for(s: Seq<AccountBalance>, i: int, a: Seq<u8>) -> bool {
    0 <= i < s.len() && s[i].address@ == a
}

impl Accounts {
    /// No two entries share an address.
    pub open spec fn wf(&self) -> bool {
        forall|i: int, j: int|
            0 <= i < self.entries@.len() && 0 <= j < self.entries@.len() && i != j
                ==> self.entries@[i].address@ != self.entries@[j].address@
    }

    /// The balance of address `a`.
    pub open spec fn balance_of(&self, a: Seq<u8>) -> nat {
        if exists|i: int| entry_for(self.entries@, i, a) {
            self.entries@[choose|i: int| entry_for(self.entries@, i, a)].balance as nat
        } else {
            0
        }
    }

    /// The balance of the address of entry `i` is that entry's balance.
    pub proof fn lemma_balance_at(&self, i: int)
        requires
            self.wf(),
            0 <= i < self.entries@.len(),
        ensures
            self.balance_of(self.entries@[i].address@) == self.entries@[i].balance,
    {
        let a = self.entries@[i].address@;
        assert(entry_for(self.entries@, i, a));
    }

    /// An empty ledger: every address holds zero.
    pub fn new() -> (r: Accounts)
        ensures
            r.wf(),
            forall|a: Seq<u8>| r.balance_of(a) == 0,
    {
        Accounts { entries: Vec::new() }
    }

    /// The index of the entry of `address`, if there is one.
    fn position(&self, address: &[u8; 32]) -> (r: Option<usize>)
        ensures
            r matches Some(i) ==> entry_for(self.entries@, i as int, address@),
            r is None ==> forall|i: int| !entry_for(self.entries@, i, address@),
    {
        let mut i: usize = 0;
        while i < self.entries.len()
            invariant
                i <= self.entries@.len(),
                forall|j: int| 0 <= j < i ==> !entry_for(self.entries@, j, address@),
            decreases self.entries@.len() - i,
        {
            if bytes32_eq(&self.entries[i].address, address) {
                return Some(i);
            }
            i = i + 1;
        }
        None
    }

    /// The balance of `address`.
    pub fn balance(&self, address: &[u8; 32]) -> (r: u64)
        requires
            self.wf(),
        ensures
            r == self.balance_of(address@),
    {
        match self.position(address) {
            Some(i) => {
                proof {
                    self.lemma_balance_at(i as int);
                }
                self.entries[i].balance
            },
            None => 0,
        }
    }

    /// Adds `amount` to the balance of `address`. Fails, changing nothing, where
    /// the new balance would not fit in a `u64`.
    pub fn credit(&mut self, address: &[u8; 32], amount: u64) -> (r: bool)
        requires
            old(self).wf(),
        ensures
            final(self).wf(),
            r == (old(self).balance_of(address@) + amount <= u64::MAX),
            r ==> final(self).balance_of(address@) == old(self).balance_of(address@) + amount,
            r ==> forall|a: Seq<u8>|
                a != address@ ==> #[trigger] final(self).balance_of(a) == old(self).balance_of(a),
            !r ==> *final(self) == *old(self),
    {
        let ghost pre = *self;
        match self.position(address) {
            Some(k) => {
                proof {
                    pre.lemma_balance_at(k as int);
                }
                let cur = self.entries[k].balance;
                if cur > u64::MAX - amount {
                    return false;
                }
                let e = AccountBalance { address: self.entries[k].address, balance: cur + amount };
                self.entries.set(k, e);
                proof {
                    assert(self.entries@[k as int].address@ == pre.entries@[k as int].address@);
                    self.lemma_balance_at(k as int);
                    assert forall|a: Seq<u8>| a != address@ implies #[trigger] self.balance_of(a)
                        == pre.balance_of(a) by {
                        if exists|i: int| entry_for(pre.entries@, i, a) {
                            let i = choose|i: int| entry_for(pre.entries@, i, a);
                            assert(entry_for(self.entries@, i, a));
                            pre.lemma_balance_at(i);
                            self.lemma_balance_at(i);
                        } else {
                            assert forall|i: int| !entry_for(self.entries@, i, a) by {
                                assert(!entry_for(pre.entries@, i, a));
                            }
                        }
                    }
                }
                true
            },
            None => {
                self.entries.push(AccountBalance { address: *address, balance: amount });
                proof {
                    let n = pre.entries@.len() as int;
                    assert(self.entries@[n].address@ == address@);
                    assert forall|i: int, j: int|
                        0 <= i < self.entries@.len() && 0 <= j < self.entries@.len() && i != j
                            implies self.entries@[i].address@ != self.entries@[j].address@ by {
                        if i < n && j < n {
                        } else if i == n {
                            assert(!entry_for(pre.entries@, j, address@));
                        } else {
                            assert(!entry_for(pre.entries@, i, address@));
                        }
                    }
                    self.lemma_balance_at(n);
                    assert forall|a: Seq<u8>| a != address@ implies #[trigger] self.balance_of(a)
                        == pre.balance_of(a) by {
                        if exists|i: int| entry_for(pre.entries@, i, a) {
                            let i = choose|i: int| entry_for(pre.entries@, i, a);
                            assert(entry_for(self.entries@, i, a));
                            pre.lemma_balance_at(i);
                            self.lemma_balance_at(i);
                        } else {
                            assert forall|i: int| !entry_for(self.entries@, i, a) by {
                                if i < n {
                                    assert(!entry_for(pre.entries@, i, a));
                                }
                            }
                        }
                    }
                }
                true
            },
        }
    }
}

} // verus!
