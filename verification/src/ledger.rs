//! The currency ledger: free and reserved balances per account.
//!
//! The ledger backs the economics of the state machine. Minting reserves
//! a deposit from the minter's free balance; a purchase moves the price
//! from the buyer's free balance to the seller's, refusing transfers that
//! would leave the buyer below the existential deposit. Each operation
//! either applies in full or leaves the ledger unchanged.

use vstd::hash_map::HashMapWithView;
use vstd::prelude::*;

verus! {

broadcast use vstd::std_specs::hash::group_hash_axioms;

/// The balances of one account: currency free to spend, and currency
/// reserved against minted items.
#[derive(Clone, Copy, Debug, PartialEq, Eq)]
pub struct AccountData {
    pub free: u128,
    pub reserved: u128,
}

/// Balance storage for every account, plus the existential deposit: the
/// least total balance an account must keep for a transfer out of it to
/// be allowed.
pub struct Ledger {
    accounts: HashMapWithView<u64, AccountData>,
    existential_deposit: u128,
}

/// `post` is `pre` after `amount` moved from `who`'s free balance into
/// its reserve, everything else equal.
pub open spec fn reserve_applied(pre: Ledger, post: Ledger, who: u64, amount: u128) -> bool {
    &&& post.balances() == pre.balances().insert(
        who,
        (AccountData {
            free: (pre.free_of(who) - amount) as u128,
            reserved: (pre.reserved_of(who) + amount) as u128,
        }),
    )
    &&& post.ed() == pre.ed()
}

/// `post` is `pre` after `amount` moved from `from`'s free balance to
/// `to`'s, everything else equal.
pub open spec fn transfer_applied(pre: Ledger, post: Ledger, from: u64, to: u64, amount: u128) -> bool {
    &&& post.balances() == pre.balances().insert(
        from,
        (AccountData { free: (pre.free_of(from) - amount) as u128, reserved: pre.reserved_of(from) }),
    ).insert(
        to,
        (AccountData { free: (pre.free_of(to) + amount) as u128, reserved: pre.reserved_of(to) }),
    )
    &&& post.ed() == pre.ed()
}

impl Ledger {
    /// The balances table, as a map from account to its balances. An
    /// absent account holds nothing.
    pub closed spec fn balances(self) -> Map<u64, AccountData> {
        self.accounts@
    }

    /// The least total balance an account must keep to stay alive.
    pub closed spec fn ed(self) -> u128 {
        self.existential_deposit
    }

    /// The free balance of `who`; zero for an absent account.
    pub open spec fn free_of(self, who: u64) -> u128 {
        if self.balances().contains_key(who) {
            self.balances()[who].free
        } else {
            0
        }
    }

    /// The reserved balance of `who`; zero for an absent account.
    pub open spec fn reserved_of(self, who: u64) -> u128 {
        if self.balances().contains_key(who) {
            self.balances()[who].reserved
        } else {
            0
        }
    }

    /// Every account's total balance fits the currency type, so moving
    /// currency between free and reserved can never overflow.
    pub open spec fn wf(self) -> bool {
        forall|who: u64|
            #[trigger] self.balances().contains_key(who) ==> self.balances()[who].free
                + self.balances()[who].reserved <= u128::MAX
    }

    /// Whether a keep-alive transfer of `amount` from `from` to `to` is
    /// allowed: the sender can pay, keeps at least the existential
    /// deposit, and the recipient's total still fits the currency type.
    pub open spec fn can_transfer(self, from: u64, to: u64, amount: u128) -> bool {
        &&& self.free_of(from) >= amount
        &&& self.free_of(from) - amount + self.reserved_of(from) >= self.ed()
        &&& self.free_of(to) + self.reserved_of(to) + amount <= u128::MAX
    }

    /// In a well-formed ledger, any one account's total balance fits the
    /// currency type.
    pub proof fn lemma_total_bound(self, who: u64)
        requires
            self.wf(),
        ensures
            self.free_of(who) + self.reserved_of(who) <= u128::MAX,
    {
        if self.balances().contains_key(who) {
        }
    }

    /// An empty ledger with the given existential deposit.
    pub fn new(existential_deposit: u128) -> (r: Ledger)
        ensures
            r.balances() == Map::<u64, AccountData>::empty(),
            r.ed() == existential_deposit,
            r.wf(),
    {
        Ledger { accounts: HashMapWithView::new(), existential_deposit }
    }

    /// Endow `who` with a free balance, keeping its reservations.
    pub fn set_free_balance(&mut self, who: u64, amount: u128)
        requires
            old(self).wf(),
            amount + old(self).reserved_of(who) <= u128::MAX,
        ensures
            final(self).wf(),
            final(self).ed() == old(self).ed(),
            final(self).balances() == old(self).balances().insert(
                who,
                (AccountData { free: amount, reserved: old(self).reserved_of(who) }),
            ),
    {
        let reserved: u128 = self.reserved_balance(who);
        self.accounts.insert(who, AccountData { free: amount, reserved });
    }

    /// The free balance of `who`.
    pub fn free_balance(&self, who: u64) -> (r: u128)
        ensures
            r == self.free_of(who),
    {
        match self.accounts.get(&who) {
            Some(a) => a.free,
            None => 0,
        }
    }

    /// The reserved balance of `who`.
    pub fn reserved_balance(&self, who: u64) -> (r: u128)
        ensures
            r == self.reserved_of(who),
    {
        match self.accounts.get(&who) {
            Some(a) => a.reserved,
            None => 0,
        }
    }

    /// Move `amount` of `who`'s free balance into reserve. Succeeds
    /// exactly when the free balance covers the amount; on failure the
    /// ledger is unchanged.
    pub fn reserve(&mut self, who: u64, amount: u128) -> (r: Result<(), ()>)
        requires
            old(self).wf(),
        ensures
            final(self).wf(),
            final(self).ed() == old(self).ed(),
            r is Ok <==> old(self).free_of(who) >= amount,
            r is Ok ==> reserve_applied(*old(self), *final(self), who, amount),
            r is Err ==> *final(self) == *old(self),
    {
        let free: u128 = self.free_balance(who);
        let reserved: u128 = self.reserved_balance(who);
        if free < amount {
            return Err(());
        }
        proof {
            old(self).lemma_total_bound(who);
        }
        self.accounts.insert(who, AccountData { free: free - amount, reserved: reserved + amount });
        proof {
            assert forall|w: u64| #[trigger] self.balances().contains_key(w) implies self.balances()[w].free
                + self.balances()[w].reserved <= u128::MAX by {
                if w != who {
                    assert(old(self).balances().contains_key(w));
                }
            }
        }
        Ok(())
    }

    /// Move `amount` from `from`'s free balance to `to`'s, refusing the
    /// transfer when the sender cannot pay, would drop below the
    /// existential deposit, or the recipient's total would no longer fit
    /// the currency type. On failure the ledger is unchanged.
    pub fn transfer_keep_alive(&mut self, from: u64, to: u64, amount: u128) -> (r: Result<(), ()>)
        requires
            old(self).wf(),
            from != to,
        ensures
            final(self).wf(),
            final(self).ed() == old(self).ed(),
            r is Ok <==> old(self).can_transfer(from, to, amount),
            r is Ok ==> transfer_applied(*old(self), *final(self), from, to, amount),
            r is Err ==> *final(self) == *old(self),
    {
        proof {
            old(self).lemma_total_bound(from);
            old(self).lemma_total_bound(to);
        }
        let from_free: u128 = self.free_balance(from);
        let from_reserved: u128 = self.reserved_balance(from);
        let to_free: u128 = self.free_balance(to);
        let to_reserved: u128 = self.reserved_balance(to);
        if from_free < amount {
            return Err(());
        }
        let from_free_after: u128 = from_free - amount;
        if from_free_after + from_reserved < self.existential_deposit {
            return Err(());
        }
        if amount > u128::MAX - (to_free + to_reserved) {
            return Err(());
        }
        self.accounts.insert(from, AccountData { free: from_free_after, reserved: from_reserved });
        self.accounts.insert(to, AccountData { free: to_free + amount, reserved: to_reserved });
        proof {
            assert forall|w: u64| #[trigger] self.balances().contains_key(w) implies self.balances()[w].free
                + self.balances()[w].reserved <= u128::MAX by {
                if w != from && w != to {
                    assert(old(self).balances().contains_key(w));
                }
            }
        }
        Ok(())
    }
}

} // verus!
