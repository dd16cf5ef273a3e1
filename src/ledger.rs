use vstd::prelude::*;
use crate::key::Pubkey;
use crate::records::{Account, account_wf};

verus! {

/// Why an operation was rejected. A rejected operation changes nothing.
#[derive(Clone, Copy, Debug, PartialEq, Eq, Structural)]
pub enum ProgramError {
    /// A record was to be created at an address that is already occupied.
    AccountInUse,
    /// A supplied address is not the one derived from the record's seeds.
    SeedsMismatch,
    /// No address could be derived from the record's seeds.
    AddressDerivationFailed,
    /// No record is held at a supplied address.
    AccountNotFound,
    /// The record at a supplied address is of another kind.
    AccountKindMismatch,
    /// The signer is not the record's authority.
    AuthorityMismatch,
    /// A fixed-capacity list or text field would overflow.
    CapacityExceeded,
    /// A list position names no entry.
    IndexOutOfBounds,
    /// A counter would pass its largest value.
    CounterOverflow,
    /// A messaging rule was broken.
    Message(MessageError),
}

#[derive(Clone, Copy, Debug, PartialEq, Eq, Structural)]
pub enum MessageError {
    /// An append was asked for where the sender already owns the entry
    /// last touched: the message should have been sent as an update.
    SendAsUpdate,
}

/// The storage of a program: records held at derived addresses, each address
/// holding at most one record.
pub struct Ledger {
    pub(crate) program_id: Pubkey,
    pub(crate) keys: Vec<Pubkey>,
    pub(crate) accounts: Vec<Account>,
}

/// The position of an address among the ledger's keys.
pub open spec fn position_of(keys: Seq<Pubkey>, a: Seq<u8>) -> int {
    choose|i: int| 0 <= i < keys.len() && keys[i]@ == a
}

impl Ledger {
    pub closed spec fn wf(&self) -> bool {
        &&& self.keys@.len() == self.accounts@.len()
        &&& forall|i: int, j: int|
            0 <= i < self.keys@.len() && 0 <= j < self.keys@.len() && i != j
                ==> self.keys@[i]@ != self.keys@[j]@
        &&& forall|i: int| 0 <= i < self.accounts@.len() ==> account_wf(#[trigger] self.accounts@[i])
    }

    /// Every stored record keeps its capacity limits.
    pub proof fn lemma_records_wf(&self, a: Seq<u8>)
        requires
            self.wf(),
            self@.dom().contains(a),
        ensures
            account_wf(self@[a]),
    {
    }

    /// The program whose records the ledger holds; every address is derived under it.
    pub closed spec fn id(&self) -> Pubkey {
        self.program_id
    }

    pub fn program_id(&self) -> (r: Pubkey)
        ensures
            r == self.id(),
    {
        self.program_id
    }

    /// The records by address.
    pub closed spec fn view(&self) -> Map<Seq<u8>, Account> {
        Map::new(
            |a: Seq<u8>| exists|i: int| 0 <= i < self.keys@.len() && self.keys@[i]@ == a,
            |a: Seq<u8>| self.accounts@[position_of(self.keys@, a)],
        )
    }

    proof fn lemma_at(&self, i: int)
        requires
            self.wf(),
            0 <= i < self.keys@.len(),
        ensures
            self@.dom().contains(self.keys@[i]@),
            self@[self.keys@[i]@] == self.accounts@[i],
    {
        let a = self.keys@[i]@;
        assert(self@.dom().contains(a));
        let j = position_of(self.keys@, a);
        assert(self.keys@[j]@ == a);
    }

    /// A ledger that holds no record.
    pub fn new(program_id: Pubkey) -> (r: Ledger)
        ensures
            r.wf(),
            r.id() == program_id,
            r@ == Map::<Seq<u8>, Account>::empty(),
    {
        let r = Ledger { program_id, keys: Vec::new(), accounts: Vec::new() };
        assert(r@ =~= Map::<Seq<u8>, Account>::empty());
        r
    }

    /// The record held at an address, if any.
    pub fn get(&self, address: &Pubkey) -> (r: Option<&Account>)
        requires
            self.wf(),
        ensures
            match r {
                Some(acct) => self@.dom().contains(address@) && self@[address@] == *acct,
                None => !self@.dom().contains(address@),
            },
    {
        match self.find(address) {
            Some(i) => Some(&self.accounts[i]),
            None => None,
        }
    }

    pub(crate) fn find(&self, address: &Pubkey) -> (r: Option<usize>)
        requires
            self.wf(),
        ensures
            match r {
                Some(i) => i < self.keys@.len() && self.keys@[i as int]@ == address@
                    && self@.dom().contains(address@) && self@[address@] == self.accounts@[i as int],
                None => !self@.dom().contains(address@),
            },
    {
        let mut i: usize = 0;
        while i < self.keys.len()
            invariant
                self.wf(),
                i <= self.keys@.len(),
                forall|j: int| 0 <= j < i ==> self.keys@[j]@ != address@,
            decreases self.keys@.len() - i,
        {
            if self.keys[i] == *address {
                proof {
                    self.lemma_at(i as int);
                }
                return Some(i);
            }
            i = i + 1;
        }
        None
    }

    pub(crate) fn account_at(&self, i: usize) -> (r: &Account)
        requires
            self.wf(),
            i < self.keys@.len(),
        ensures
            *r == self.accounts@[i as int],
    {
        &self.accounts[i]
    }

    /// Stores a record at a free address.
    pub(crate) fn create(&mut self, address: Pubkey, account: Account)
        requires
            old(self).wf(),
            !old(self)@.dom().contains(address@),
            account_wf(account),
        ensures
            final(self).wf(),
            final(self).id() == old(self).id(),
            final(self)@ == old(self)@.insert(address@, account),
    {
        let ghost before = *self;
        self.keys.push(address);
        self.accounts.push(account);
        proof {
            assert forall|a: Seq<u8>| #[trigger] self@.dom().contains(a) implies before@.insert(
                address@,
                account,
            ).dom().contains(a) && self@[a] == before@.insert(address@, account)[a] by {
                let i = choose|i: int| 0 <= i < self.keys@.len() && self.keys@[i]@ == a;
                self.lemma_at(i);
                if i < before.keys@.len() {
                    before.lemma_at(i);
                }
            }
            assert forall|a: Seq<u8>| #[trigger] before@.insert(address@, account).dom().contains(a)
                implies self@.dom().contains(a) by {
                if a != address@ {
                    let i = choose|i: int| 0 <= i < before.keys@.len() && before.keys@[i]@ == a;
                    assert(self.keys@[i]@ == a);
                } else {
                    assert(self.keys@[self.keys@.len() - 1]@ == a);
                }
            }
            assert(self@ =~= before@.insert(address@, account));
        }
    }

    /// Replaces the record at a position.
    pub(crate) fn replace(&mut self, i: usize, account: Account) -> (prev: Account)
        requires
            old(self).wf(),
            i < old(self).keys@.len(),
            account_wf(account),
        ensures
            final(self).wf(),
            final(self).id() == old(self).id(),
            final(self).keys@ == old(self).keys@,
            final(self)@ == old(self)@.insert(old(self).keys@[i as int]@, account),
            prev == old(self).accounts@[i as int],
    {
        let ghost before = *self;
        let ghost k = self.keys@[i as int]@;
        let mut prev = account;
        std::mem::swap(&mut self.accounts[i], &mut prev);
        proof {
            assert forall|a: Seq<u8>| #[trigger] self@.dom().contains(a) implies before@.insert(
                k,
                account,
            ).dom().contains(a) && self@[a] == before@.insert(k, account)[a] by {
                let j = choose|j: int| 0 <= j < self.keys@.len() && self.keys@[j]@ == a;
                self.lemma_at(j);
                before.lemma_at(j);
            }
            assert forall|a: Seq<u8>| #[trigger] before@.insert(k, account).dom().contains(a)
                implies self@.dom().contains(a) by {
                if a != k {
                    let j = choose|j: int| 0 <= j < before.keys@.len() && before.keys@[j]@ == a;
                    assert(self.keys@[j]@ == a);
                } else {
                    assert(self.keys@[i as int]@ == a);
                }
            }
            assert(self@ =~= before@.insert(k, account));
        }
        prev
    }
}

} // verus!
