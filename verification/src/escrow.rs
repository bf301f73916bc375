use vstd::prelude::*;
use std::collections::HashMap;
use crate::errors::Error;

verus! {

broadcast use vstd::std_specs::hash::group_hash_axioms;

/// Identity of an account, as the surrounding ledger authenticates it.
pub type AccountId = u64;

/// Currency held for one account: the freely spendable part and the part
/// locked behind reservations.
#[derive(Clone, Copy, Debug, PartialEq, Eq, Structural)]
pub struct AccountBalance {
    pub free: u64,
    pub reserved: u64,
}

/// The escrow view of the currency ledger: per account, how much currency is
/// spendable and how much is held in reservation. Reserving moves currency
/// from the spendable part to the reserved part; releasing moves it back.
/// Nothing here creates or destroys currency except an explicit deposit.
pub struct Escrow {
    accounts: HashMap<AccountId, AccountBalance>,
}

impl Escrow {
    /// The spendable currency of `who`; absent accounts hold nothing.
    pub closed spec fn free_of(&self, who: AccountId) -> u64 {
        if self.accounts@.contains_key(who) {
            self.accounts@[who].free
        } else {
            0
        }
    }

    /// The currency held in reservation against `who`.
    pub closed spec fn reserved_of(&self, who: AccountId) -> u64 {
        if self.accounts@.contains_key(who) {
            self.accounts@[who].reserved
        } else {
            0
        }
    }

    /// Each account's total fits the currency type, so moving currency
    /// between the spendable and the reserved part can never overflow.
    pub closed spec fn wf(&self) -> bool {
        forall|a: AccountId| #[trigger]
            self.accounts@.contains_key(a) ==> self.accounts@[a].free + self.accounts@[a].reserved
                <= u64::MAX
    }

    /// An empty ledger: every account holds nothing.
    pub fn new() -> (r: Escrow)
        ensures
            r.wf(),
            forall|a: AccountId| #[trigger] r.free_of(a) == 0,
            forall|a: AccountId| #[trigger] r.reserved_of(a) == 0,
    {
        Escrow { accounts: HashMap::new() }
    }

    /// The current balance record of `who`, or an empty one.
    fn balance_of(&self, who: AccountId) -> (r: AccountBalance)
        ensures
            r.free == self.free_of(who),
            r.reserved == self.reserved_of(who),
    {
        match self.accounts.get(&who) {
            Some(b) => *b,
            None => AccountBalance { free: 0, reserved: 0 },
        }
    }

    /// Endow `who` with `amount` more spendable currency. Refused, with
    /// nothing changed, exactly when the account's total would overflow.
    pub fn deposit(&mut self, who: AccountId, amount: u64) -> (ok: bool)
        requires
            old(self).wf(),
        ensures
            final(self).wf(),
            ok == (old(self).free_of(who) + old(self).reserved_of(who) + amount <= u64::MAX),
            ok ==> final(self).free_of(who) == old(self).free_of(who) + amount,
            ok ==> final(self).reserved_of(who) == old(self).reserved_of(who),
            !ok ==> *final(self) == *old(self),
            forall|a: AccountId| a != who ==> #[trigger] final(self).free_of(a) == old(self).free_of(a),
            forall|a: AccountId| a != who ==> #[trigger] final(self).reserved_of(a) == old(self).reserved_of(a),
    {
        let cur = self.balance_of(who);
        if amount <= u64::MAX - cur.free - cur.reserved {
            let updated = AccountBalance { free: cur.free + amount, reserved: cur.reserved };
            self.accounts.insert(who, updated);
            true
        } else {
            false
        }
    }

    /// Lock `amount` of `who`'s spendable currency behind a reservation.
    /// Fails with `InsufficientBalance`, and changes nothing, exactly when
    /// the spendable part is short of `amount`.
    pub fn reserve(&mut self, who: AccountId, amount: u64) -> (r: Result<(), Error>)
        requires
            old(self).wf(),
        ensures
            final(self).wf(),
            match r {
                Ok(()) => {
                    &&& old(self).free_of(who) >= amount
                    &&& final(self).free_of(who) == old(self).free_of(who) - amount
                    &&& final(self).reserved_of(who) == old(self).reserved_of(who) + amount
                },
                Err(e) => {
                    &&& e == Error::InsufficientBalance
                    &&& old(self).free_of(who) < amount
                    &&& *final(self) == *old(self)
                },
            },
            forall|a: AccountId| a != who ==> #[trigger] final(self).free_of(a) == old(self).free_of(a),
            forall|a: AccountId| a != who ==> #[trigger] final(self).reserved_of(a) == old(self).reserved_of(a),
    {
        let cur = self.balance_of(who);
        if cur.free >= amount {
            let updated = AccountBalance { free: cur.free - amount, reserved: cur.reserved + amount };
            self.accounts.insert(who, updated);
            Ok(())
        } else {
            Err(Error::InsufficientBalance)
        }
    }

    /// Release up to `amount` from `who`'s reservation back into the
    /// spendable part. Releasing more than is reserved releases what there
    /// is; the call never fails.
    pub fn unreserve(&mut self, who: AccountId, amount: u64)
        requires
            old(self).wf(),
        ensures
            final(self).wf(),
            ({
                let moved = if amount <= old(self).reserved_of(who) {
                    amount
                } else {
                    old(self).reserved_of(who)
                };
                &&& final(self).reserved_of(who) == old(self).reserved_of(who) - moved
                &&& final(self).free_of(who) == old(self).free_of(who) + moved
            }),
            forall|a: AccountId| a != who ==> #[trigger] final(self).free_of(a) == old(self).free_of(a),
            forall|a: AccountId| a != who ==> #[trigger] final(self).reserved_of(a) == old(self).reserved_of(a),
    {
        let cur = self.balance_of(who);
        let moved = if amount <= cur.reserved {
            amount
        } else {
            cur.reserved
        };
        let updated = AccountBalance { free: cur.free + moved, reserved: cur.reserved - moved };
        self.accounts.insert(who, updated);
    }

    /// The spendable currency of `who`.
    pub fn free_balance(&self, who: AccountId) -> (r: u64)
        ensures
            r == self.free_of(who),
    {
        let cur = self.balance_of(who);
        cur.free
    }

    /// The currency held in reservation against `who`.
    pub fn reserved_balance(&self, who: AccountId) -> (r: u64)
        ensures
            r == self.reserved_of(who),
    {
        let cur = self.balance_of(who);
        cur.reserved
    }
}

} // verus!
