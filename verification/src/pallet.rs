//! The state machine: the item registry, the ownership index, and the
//! five operation handlers.
//!
//! Identifiers are assigned from 1 upward, one per successful mint, so
//! the registry holds exactly the items with identifiers `1 ..= count`.
//! Every operation validates its preconditions before mutating anything:
//! a failed operation returns a named error and leaves the registry, the
//! ownership index, the identifier counter, and the ledger exactly as
//! they were.

use crate::ledger::reserve_applied;
use crate::ledger::transfer_applied;
use crate::ledger::Ledger;
use crate::randomness::bred_dna;
use crate::randomness::derived_dna;
use crate::randomness::mix_dna;
use crate::randomness::random_value;
use crate::types::Config;
use crate::types::Error;
use crate::types::Event;
use crate::types::Kitty;
use vstd::prelude::*;

verus! {

/// The whole state of the collectible registry and marketplace: the
/// deployment configuration, the item registry, the ownership index, and
/// the currency ledger. The item with identifier `id` sits at position
/// `id - 1` of both the registry and the ownership index.
pub struct Pallet {
    config: Config,
    registry: Vec<Kitty>,
    owners: Vec<u64>,
    ledger: Ledger,
}

impl Pallet {
    /// The items ever minted, in order of creation.
    pub closed spec fn spec_kitties(self) -> Seq<Kitty> {
        self.registry@
    }

    /// The owner of each item, indexed like the registry.
    pub closed spec fn spec_owners(self) -> Seq<u64> {
        self.owners@
    }

    /// The currency ledger.
    pub closed spec fn spec_ledger(self) -> Ledger {
        self.ledger
    }

    /// The deployment configuration.
    pub closed spec fn spec_config(self) -> Config {
        self.config
    }

    /// How many items have been minted; also the last assigned
    /// identifier, since identifiers start at 1 and increase by one per
    /// mint.
    pub open spec fn count(self) -> nat {
        self.spec_kitties().len()
    }

    /// Whether an item with this identifier exists.
    pub open spec fn has_kitty(self, kitty_id: u32) -> bool {
        1 <= kitty_id <= self.count()
    }

    /// Whether an owner is recorded for this identifier.
    pub open spec fn has_owner(self, kitty_id: u32) -> bool {
        1 <= kitty_id <= self.spec_owners().len()
    }

    /// The item with this identifier.
    pub open spec fn kitty_of(self, kitty_id: u32) -> Kitty
        recommends
            self.has_kitty(kitty_id),
    {
        self.spec_kitties()[kitty_id - 1]
    }

    /// The owner of the item with this identifier.
    pub open spec fn owner_of(self, kitty_id: u32) -> u64
        recommends
            self.has_kitty(kitty_id),
    {
        self.spec_owners()[kitty_id - 1]
    }

    /// Well-formedness: every item has exactly one owner record, the
    /// identifier counter still fits its type, and the ledger is
    /// well-formed.
    pub open spec fn wf(self) -> bool {
        &&& self.spec_owners().len() == self.spec_kitties().len()
        &&& self.spec_kitties().len() <= u32::MAX
        &&& self.spec_ledger().wf()
    }
}

/// Why a mint for `owner` fails, if it does: the identifier space is
/// exhausted, or the owner's free balance cannot cover the deposit.
pub open spec fn mint_err(pre: Pallet, owner: u64) -> Option<Error> {
    if pre.count() == u32::MAX {
        Some(Error::KittiesCountOverflow)
    } else if pre.spec_ledger().free_of(owner) < pre.spec_config().mint_deposit {
        Some(Error::NotEnoughBalance)
    } else {
        None
    }
}

/// `post` is `pre` after a successful mint: the fresh item, with genome
/// `dna`, no sale price, and identifier `id` one past every existing
/// one, is appended; `owner` owns it; the deposit moved into `owner`'s
/// reserve; nothing else changed.
pub open spec fn mint_applied(pre: Pallet, post: Pallet, owner: u64, dna: Seq<u8>, id: u32) -> bool {
    &&& id == pre.count() + 1
    &&& post.count() == pre.count() + 1
    &&& forall|k: u32|
        pre.has_kitty(k) ==> #[trigger] post.kitty_of(k) == pre.kitty_of(k) && post.owner_of(k)
            == pre.owner_of(k)
    &&& post.has_kitty(id)
    &&& post.kitty_of(id).dna@ == dna
    &&& post.kitty_of(id).price is None
    &&& post.owner_of(id) == owner
    &&& reserve_applied(pre.spec_ledger(), post.spec_ledger(), owner, pre.spec_config().mint_deposit)
    &&& post.spec_config() == pre.spec_config()
}

/// Why a breeding of `id1` and `id2` by `who` fails, if it does.
pub open spec fn breed_err(pre: Pallet, who: u64, id1: u32, id2: u32) -> Option<Error> {
    if id1 == id2 {
        Some(Error::SameParentIndex)
    } else if !pre.has_kitty(id1) || !pre.has_kitty(id2) {
        Some(Error::InvalidKittyIndex)
    } else {
        mint_err(pre, who)
    }
}

/// Why a listing of `kitty_id` by `who` fails, if it does.
pub open spec fn sell_err(pre: Pallet, who: u64, kitty_id: u32) -> Option<Error> {
    if !pre.has_kitty(kitty_id) {
        Some(Error::InvalidKittyIndex)
    } else if pre.owner_of(kitty_id) != who {
        Some(Error::NotOwner)
    } else {
        None
    }
}

/// Why a purchase of `kitty_id` by `buyer` fails, if it does. The checks
/// run in the order the operation makes them: own item, existence,
/// listing, free balance, and finally the ledger's transfer rules.
pub open spec fn buy_err(pre: Pallet, buyer: u64, kitty_id: u32) -> Option<Error> {
    if pre.has_kitty(kitty_id) && pre.owner_of(kitty_id) == buyer {
        Some(Error::BuyerIsKittyOwner)
    } else if !pre.has_kitty(kitty_id) {
        Some(Error::InvalidKittyIndex)
    } else if pre.kitty_of(kitty_id).price is None {
        Some(Error::KittyNotForSale)
    } else if pre.spec_ledger().free_of(buyer) < pre.kitty_of(kitty_id).price->0 {
        Some(Error::NotEnoughBalance)
    } else if !pre.spec_ledger().can_transfer(
        buyer,
        pre.owner_of(kitty_id),
        pre.kitty_of(kitty_id).price->0,
    ) {
        Some(Error::TransferFailed)
    } else {
        None
    }
}

/// Uniqueness of identifiers: the identifier a successful mint assigns
/// is strictly greater than every identifier already in the registry —
/// in particular it names no existing item, so no two items ever share
/// an identifier.
pub proof fn lemma_minted_id_fresh(pre: Pallet, post: Pallet, owner: u64, dna: Seq<u8>, id: u32)
    requires
        pre.wf(),
        mint_applied(pre, post, owner, dna, id),
    ensures
        !pre.has_kitty(id),
        forall|k: u32| pre.has_kitty(k) ==> k < id,
{
}

/// Ownership totality: in a well-formed state, an identifier names an
/// item exactly when an owner is recorded for it — every item has an
/// owner, and no owner is recorded for an item that does not exist.
pub proof fn lemma_ownership_total(s: Pallet)
    requires
        s.wf(),
    ensures
        forall|kitty_id: u32| s.has_kitty(kitty_id) <==> s.has_owner(kitty_id),
{
}

/// Sale preconditions: a purchase can only go through when the item
/// exists and is listed, the buyer is not its owner, and the buyer's
/// free balance covers the listed price.
pub proof fn lemma_sale_preconditions(pre: Pallet, buyer: u64, kitty_id: u32)
    requires
        pre.wf(),
        buy_err(pre, buyer, kitty_id) is None,
    ensures
        pre.has_kitty(kitty_id),
        pre.kitty_of(kitty_id).price is Some,
        pre.owner_of(kitty_id) != buyer,
        pre.spec_ledger().free_of(buyer) >= pre.kitty_of(kitty_id).price->0,
{
}

impl Pallet {
    /// A fresh state machine: no items, no balances.
    pub fn new(config: Config, existential_deposit: u128) -> (r: Pallet)
        ensures
            r.wf(),
            r.count() == 0,
            r.spec_config() == config,
            r.spec_ledger().balances() == Map::<u64, crate::ledger::AccountData>::empty(),
            r.spec_ledger().ed() == existential_deposit,
    {
        Pallet {
            config,
            registry: Vec::new(),
            owners: Vec::new(),
            ledger: Ledger::new(existential_deposit),
        }
    }

    /// Endow an account with a free balance, keeping its reservations.
    pub fn set_free_balance(&mut self, who: u64, amount: u128)
        requires
            old(self).wf(),
            amount + old(self).spec_ledger().reserved_of(who) <= u128::MAX,
        ensures
            final(self).wf(),
            final(self).spec_ledger().balances() == old(self).spec_ledger().balances().insert(
                who,
                (crate::ledger::AccountData {
                    free: amount,
                    reserved: old(self).spec_ledger().reserved_of(who),
                }),
            ),
            final(self).spec_ledger().ed() == old(self).spec_ledger().ed(),
            final(self).spec_kitties() == old(self).spec_kitties(),
            final(self).spec_owners() == old(self).spec_owners(),
            final(self).spec_config() == old(self).spec_config(),
    {
        self.ledger.set_free_balance(who, amount);
    }

    /// The free balance of an account.
    pub fn free_balance(&self, who: u64) -> (r: u128)
        ensures
            r == self.spec_ledger().free_of(who),
    {
        self.ledger.free_balance(who)
    }

    /// The reserved balance of an account.
    pub fn reserved_balance(&self, who: u64) -> (r: u128)
        ensures
            r == self.spec_ledger().reserved_of(who),
    {
        self.ledger.reserved_balance(who)
    }

    /// The last assigned identifier, or `None` before the first mint.
    pub fn kitties_count(&self) -> (r: Option<u32>)
        requires
            self.wf(),
        ensures
            r == (if self.count() == 0 {
                None
            } else {
                Some(self.count() as u32)
            }),
    {
        if self.registry.len() == 0 {
            None
        } else {
            Some(self.registry.len() as u32)
        }
    }

    /// The item with this identifier, if it exists.
    pub fn kitties(&self, kitty_id: u32) -> (r: Option<Kitty>)
        requires
            self.wf(),
        ensures
            r == (if self.has_kitty(kitty_id) {
                Some(self.kitty_of(kitty_id))
            } else {
                None::<Kitty>
            }),
    {
        if 1 <= kitty_id && kitty_id as usize <= self.registry.len() {
            Some(self.registry[(kitty_id - 1) as usize])
        } else {
            None
        }
    }

    /// The owner of the item with this identifier, if it exists.
    pub fn owner(&self, kitty_id: u32) -> (r: Option<u64>)
        requires
            self.wf(),
        ensures
            r == (if self.has_kitty(kitty_id) {
                Some(self.owner_of(kitty_id))
            } else {
                None::<u64>
            }),
    {
        if 1 <= kitty_id && kitty_id as usize <= self.owners.len() {
            Some(self.owners[(kitty_id - 1) as usize])
        } else {
            None
        }
    }

    /// Mint an item with the given genome for `owner`: assign the next
    /// identifier, reserve the deposit, and record the item and its
    /// owner. A failed deposit reservation leaves no trace anywhere.
    fn mint(&mut self, owner: u64, dna: [u8; 16]) -> (r: Result<u32, Error>)
        requires
            old(self).wf(),
        ensures
            final(self).wf(),
            match r {
                Ok(id) => mint_err(*old(self), owner) is None && mint_applied(
                    *old(self),
                    *final(self),
                    owner,
                    dna@,
                    id,
                ),
                Err(e) => Some(e) == mint_err(*old(self), owner) && *final(self) == *old(self),
            },
    {
        if self.registry.len() >= u32::MAX as usize {
            return Err(Error::KittiesCountOverflow);
        }
        let deposit: u128 = self.config.mint_deposit;
        let reserved = self.ledger.reserve(owner, deposit);
        if reserved.is_err() {
            return Err(Error::NotEnoughBalance);
        }
        let kitty_id: u32 = self.registry.len() as u32 + 1;
        self.registry.push(Kitty { dna, price: None });
        self.owners.push(owner);
        Ok(kitty_id)
    }

    /// Record `to` as the owner of an existing item.
    fn transfer_kitty_to(&mut self, kitty_id: u32, to: u64)
        requires
            old(self).wf(),
            old(self).has_kitty(kitty_id),
        ensures
            final(self).wf(),
            final(self).spec_owners() == old(self).spec_owners().update(kitty_id - 1, to),
            final(self).spec_kitties() == old(self).spec_kitties(),
            final(self).spec_ledger() == old(self).spec_ledger(),
            final(self).spec_config() == old(self).spec_config(),
    {
        let i: usize = (kitty_id - 1) as usize;
        self.owners[i] = to;
    }

    /// Create a fresh item for `who`, with a genome derived from the
    /// randomness seed and the operation nonce.
    pub fn create_kitty(&mut self, who: u64, seed: &[u8; 32], nonce: u32) -> (r: Result<
        Event,
        Error,
    >)
        requires
            old(self).wf(),
        ensures
            final(self).wf(),
            match r {
                Ok(ev) => {
                    &&& mint_err(*old(self), who) is None
                    &&& ev == Event::KittyCreated(who, ((old(self).count() + 1) as u32))
                    &&& mint_applied(
                        *old(self),
                        *final(self),
                        who,
                        derived_dna(seed@, who, nonce),
                        ((old(self).count() + 1) as u32),
                    )
                },
                Err(e) => Some(e) == mint_err(*old(self), who) && *final(self) == *old(self),
            },
    {
        let dna = random_value(who, seed, nonce);
        let kitty_id = match self.mint(who, dna) {
            Ok(id) => id,
            Err(e) => {
                return Err(e);
            },
        };
        Ok(Event::KittyCreated(who, kitty_id))
    }

    /// Hand an item the caller owns over to `new_owner`. A caller that
    /// does not own the item — in particular, any caller naming an item
    /// that does not exist — is refused, and nothing changes.
    pub fn transfer(&mut self, who: u64, new_owner: u64, kitty_id: u32) -> (r: Result<
        Event,
        Error,
    >)
        requires
            old(self).wf(),
        ensures
            final(self).wf(),
            match r {
                Ok(ev) => {
                    &&& old(self).has_kitty(kitty_id) && old(self).owner_of(kitty_id) == who
                    &&& ev == Event::KittyTransfered(who, new_owner, kitty_id)
                    &&& final(self).spec_owners() == old(self).spec_owners().update(
                        kitty_id - 1,
                        new_owner,
                    )
                    &&& final(self).owner_of(kitty_id) == new_owner
                    &&& final(self).spec_kitties() == old(self).spec_kitties()
                    &&& final(self).spec_ledger() == old(self).spec_ledger()
                    &&& final(self).spec_config() == old(self).spec_config()
                },
                Err(e) => {
                    &&& e == Error::NotOwner
                    &&& !(old(self).has_kitty(kitty_id) && old(self).owner_of(kitty_id) == who)
                    &&& *final(self) == *old(self)
                },
            },
    {
        let owned = match self.owner(kitty_id) {
            Some(o) => o == who,
            None => false,
        };
        if !owned {
            return Err(Error::NotOwner);
        }
        self.transfer_kitty_to(kitty_id, new_owner);
        Ok(Event::KittyTransfered(who, new_owner, kitty_id))
    }

    /// Breed a fresh item for `who` from two distinct existing parents.
    /// Each byte of the child genome takes its bits from the first
    /// parent where the derived selector bit is set and from the second
    /// parent where it is clear. The parents are never changed.
    pub fn breed(
        &mut self,
        who: u64,
        kitty_id_1: u32,
        kitty_id_2: u32,
        seed: &[u8; 32],
        nonce: u32,
    ) -> (r: Result<Event, Error>)
        requires
            old(self).wf(),
        ensures
            final(self).wf(),
            match r {
                Ok(ev) => {
                    &&& breed_err(*old(self), who, kitty_id_1, kitty_id_2) is None
                    &&& ev == Event::KittyCreated(who, ((old(self).count() + 1) as u32))
                    &&& mint_applied(
                        *old(self),
                        *final(self),
                        who,
                        bred_dna(
                            seed@,
                            who,
                            nonce,
                            old(self).kitty_of(kitty_id_1).dna@,
                            old(self).kitty_of(kitty_id_2).dna@,
                        ),
                        ((old(self).count() + 1) as u32),
                    )
                },
                Err(e) => Some(e) == breed_err(*old(self), who, kitty_id_1, kitty_id_2)
                    && *final(self) == *old(self),
            },
    {
        if kitty_id_1 == kitty_id_2 {
            return Err(Error::SameParentIndex);
        }
        let kitty1 = match self.kitties(kitty_id_1) {
            Some(k) => k,
            None => {
                return Err(Error::InvalidKittyIndex);
            },
        };
        let kitty2 = match self.kitties(kitty_id_2) {
            Some(k) => k,
            None => {
                return Err(Error::InvalidKittyIndex);
            },
        };
        let selector = random_value(who, seed, nonce);
        let new_dna = mix_dna(&selector, &kitty1.dna, &kitty2.dna);
        let kitty_id = match self.mint(who, new_dna) {
            Ok(id) => id,
            Err(e) => {
                return Err(e);
            },
        };
        Ok(Event::KittyCreated(who, kitty_id))
    }

    /// List an item the caller owns at a price, or delist it with
    /// `None`. The genome is untouched.
    pub fn sell_kitty(&mut self, who: u64, kitty_id: u32, price: Option<u128>) -> (r: Result<
        Event,
        Error,
    >)
        requires
            old(self).wf(),
        ensures
            final(self).wf(),
            match r {
                Ok(ev) => {
                    &&& sell_err(*old(self), who, kitty_id) is None
                    &&& ev == Event::PriceUpdateForSale(who, kitty_id, price)
                    &&& final(self).spec_kitties() == old(self).spec_kitties().update(
                        kitty_id - 1,
                        (Kitty { dna: old(self).kitty_of(kitty_id).dna, price }),
                    )
                    &&& final(self).kitty_of(kitty_id).price == price
                    &&& final(self).spec_owners() == old(self).spec_owners()
                    &&& final(self).spec_ledger() == old(self).spec_ledger()
                    &&& final(self).spec_config() == old(self).spec_config()
                },
                Err(e) => Some(e) == sell_err(*old(self), who, kitty_id)
                    && *final(self) == *old(self),
            },
    {
        let kitty = match self.kitties(kitty_id) {
            Some(k) => k,
            None => {
                return Err(Error::InvalidKittyIndex);
            },
        };
        let owned = match self.owner(kitty_id) {
            Some(o) => o == who,
            None => false,
        };
        if !owned {
            return Err(Error::NotOwner);
        }
        let i: usize = (kitty_id - 1) as usize;
        self.registry[i] = Kitty { dna: kitty.dna, price };
        Ok(Event::PriceUpdateForSale(who, kitty_id, price))
    }

    /// Buy a listed item from its owner. The price moves from the
    /// buyer's free balance to the seller's, the buyer becomes the
    /// owner, and the listing is cleared, so the item cannot be bought
    /// again until the new owner relists it.
    pub fn buy_kitty(&mut self, buyer: u64, kitty_id: u32) -> (r: Result<Event, Error>)
        requires
            old(self).wf(),
        ensures
            final(self).wf(),
            match r {
                Ok(ev) => {
                    &&& buy_err(*old(self), buyer, kitty_id) is None
                    &&& ev == Event::Bought(
                        buyer,
                        old(self).owner_of(kitty_id),
                        kitty_id,
                        old(self).kitty_of(kitty_id).price->0,
                    )
                    &&& final(self).spec_owners() == old(self).spec_owners().update(
                        kitty_id - 1,
                        buyer,
                    )
                    &&& final(self).spec_kitties() == old(self).spec_kitties().update(
                        kitty_id - 1,
                        (Kitty { dna: old(self).kitty_of(kitty_id).dna, price: None }),
                    )
                    &&& final(self).owner_of(kitty_id) == buyer
                    &&& final(self).kitty_of(kitty_id).price is None
                    &&& transfer_applied(
                        old(self).spec_ledger(),
                        final(self).spec_ledger(),
                        buyer,
                        old(self).owner_of(kitty_id),
                        old(self).kitty_of(kitty_id).price->0,
                    )
                    &&& final(self).spec_config() == old(self).spec_config()
                },
                Err(e) => Some(e) == buy_err(*old(self), buyer, kitty_id)
                    && *final(self) == *old(self),
            },
    {
        let owns_it = match self.owner(kitty_id) {
            Some(o) => o == buyer,
            None => false,
        };
        if owns_it {
            return Err(Error::BuyerIsKittyOwner);
        }
        let kitty = match self.kitties(kitty_id) {
            Some(k) => k,
            None => {
                return Err(Error::InvalidKittyIndex);
            },
        };
        let sale_price = match kitty.price {
            Some(p) => p,
            None => {
                return Err(Error::KittyNotForSale);
            },
        };
        if self.ledger.free_balance(buyer) < sale_price {
            return Err(Error::NotEnoughBalance);
        }
        let seller = match self.owner(kitty_id) {
            Some(o) => o,
            None => {
                return Err(Error::OwnerNotExist);
            },
        };
        let paid = self.ledger.transfer_keep_alive(buyer, seller, sale_price);
        if paid.is_err() {
            return Err(Error::TransferFailed);
        }
        self.transfer_kitty_to(kitty_id, buyer);
        let i: usize = (kitty_id - 1) as usize;
        self.registry[i] = Kitty { dna: kitty.dna, price: None };
        Ok(Event::Bought(buyer, seller, kitty_id, sale_price))
    }
}

} // verus!
