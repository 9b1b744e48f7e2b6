//! The data model: items, configuration, events, and error kinds.

use vstd::prelude::*;

verus! {

/// Fixed deployment parameters of the state machine.
pub struct Config {
    /// Amount of currency reserved from a caller's free balance each time
    /// an item is minted.
    pub mint_deposit: u128,
}

/// A collectible item: an immutable genome assigned at creation, and an
/// optional sale price set by the current owner. A price of `None` means
/// the item is not for sale.
#[derive(Clone, Copy, Debug, PartialEq, Eq)]
pub struct Kitty {
    pub dna: [u8; 16],
    pub price: Option<u128>,
}

/// The named failure kinds. Every operation either fully succeeds or
/// returns one of these and leaves the whole state unchanged.
#[derive(Clone, Copy, Debug, PartialEq, Eq)]
pub enum Error {
    /// Assigning one more identifier would pass the largest representable one.
    KittiesCountOverflow,
    /// The caller does not own the item it tried to transfer or list.
    NotOwner,
    /// The item has no recorded owner.
    OwnerNotExist,
    /// Both breeding parents are the same item.
    SameParentIndex,
    /// The identifier names no existing item.
    InvalidKittyIndex,
    /// The identifier names no existing item (kept for compatibility;
    /// no operation reports it).
    KittyNotExist,
    /// A buyer tried to purchase an item it already owns.
    BuyerIsKittyOwner,
    /// The item is not listed for sale.
    KittyNotForSale,
    /// The caller's free balance cannot cover the deposit or the price.
    NotEnoughBalance,
    /// The escrowed currency transfer was refused by the ledger.
    TransferFailed,
}

/// The event a successful operation reports back to the embedding
/// environment.
#[derive(Clone, Copy, Debug, PartialEq, Eq)]
pub enum Event {
    /// A new item was minted: (owner, item id).
    KittyCreated(u64, u32),
    /// An item changed hands: (previous owner, new owner, item id).
    KittyTransfered(u64, u64, u32),
    /// An item was listed or delisted: (owner, item id, price).
    PriceUpdateForSale(u64, u32, Option<u128>),
    /// An item was bought: (buyer, seller, item id, price paid).
    Bought(u64, u64, u32, u128),
}

} // verus!
