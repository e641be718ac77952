//! The persisted records and the holdings that the operations move.

use vstd::prelude::*;
use crate::identity::Pubkey;

verus! {

/// How rare an item is.
#[derive(Clone, Copy, Debug, PartialEq, Eq, Structural)]
pub enum Rarity {
    Common,
    Uncommon,
    Rare,
    Epic,
    Legendary,
}

/// The state of an escrow. `Listed` is the initial state; `Sold` and
/// `Cancelled` are terminal.
#[derive(Clone, Copy, Debug, PartialEq, Eq, Structural)]
pub enum EscrowState {
    Listed,
    Sold,
    Cancelled,
}

impl EscrowState {
    /// A terminal state has no outgoing transition.
    pub open spec fn is_terminal(self) -> bool {
        self != EscrowState::Listed
    }

    /// The transitions of the state machine: from `Listed` to `Sold` or to
    /// `Cancelled`, and no other.
    pub open spec fn steps_to(self, next: EscrowState) -> bool {
        self == EscrowState::Listed && next != EscrowState::Listed
    }

    /// Whether the state is terminal.
    pub fn terminal(&self) -> (r: bool)
        ensures
            r == self.is_terminal(),
    {
        match self {
            EscrowState::Listed => false,
            EscrowState::Sold => true,
            EscrowState::Cancelled => true,
        }
    }
}

/// The record of one certificate: who owns it, what it certifies, and
/// whether it is listed for sale.
#[derive(Clone, Debug, PartialEq, Eq)]
pub struct StreetwearAsset {
    pub owner: Pubkey,
    pub mint: Pubkey,
    pub name: String,
    pub symbol: String,
    pub uri: String,
    pub brand: String,
    pub model: String,
    pub size: String,
    pub condition: String,
    pub year: u16,
    pub rarity: Rarity,
    pub is_listed: bool,
    pub bump: u8,
}

/// The record of one listing of a certificate by its seller.
#[derive(Clone, Copy, Debug, PartialEq, Eq)]
pub struct EscrowAccount {
    pub seller: Pubkey,
    pub nft_mint: Pubkey,
    pub price: u64,
    pub state: EscrowState,
    pub bump: u8,
}

/// A wallet and the currency it holds.
#[derive(Clone, Copy, Debug, PartialEq, Eq)]
pub struct SystemAccount {
    pub key: Pubkey,
    pub lamports: u64,
}

/// The holding of one owner in one certificate.
#[derive(Clone, Copy, Debug, PartialEq, Eq)]
pub struct TokenAccount {
    pub mint: Pubkey,
    pub owner: Pubkey,
    pub amount: u64,
}

/// The listing flag of an asset agrees with an escrow of the same
/// certificate: the asset is listed exactly when the escrow is in the
/// listed state, and a listed escrow names the asset's owner as seller.
pub open spec fn flag_tracks_escrow(asset: StreetwearAsset, escrow: EscrowAccount) -> bool {
    &&& asset.is_listed == (escrow.state == EscrowState::Listed)
    &&& escrow.state == EscrowState::Listed ==> escrow.seller == asset.owner
}

} // verus!
