//! What an operation reports to outside observers when it commits.

use vstd::prelude::*;
use crate::identity::Pubkey;
use crate::records::Rarity;

verus! {

/// A certificate was created.
#[derive(Clone, Debug, PartialEq, Eq)]
pub struct StreetwearTokenized {
    pub mint: Pubkey,
    pub owner: Pubkey,
    pub brand: String,
    pub model: String,
    pub rarity: Rarity,
}

/// A certificate was listed for sale.
#[derive(Clone, Copy, Debug, PartialEq, Eq)]
pub struct NftListed {
    pub mint: Pubkey,
    pub seller: Pubkey,
    pub price: u64,
}

/// A listed certificate was sold.
#[derive(Clone, Copy, Debug, PartialEq, Eq)]
pub struct NftSold {
    pub mint: Pubkey,
    pub seller: Pubkey,
    pub buyer: Pubkey,
    pub price: u64,
}

/// A listing was withdrawn by its seller.
#[derive(Clone, Copy, Debug, PartialEq, Eq)]
pub struct ListingCancelled {
    pub mint: Pubkey,
    pub seller: Pubkey,
}

} // verus!
