//! The escrow ledger: listing a certificate for sale, buying a listed
//! certificate, and withdrawing a listing.
//!
//! An escrow starts in the listed state and leaves it once, by a sale or by
//! a cancellation. An escrow slot that was ever filled is never filled again.

use vstd::prelude::*;
use crate::errors::StreetwearError;
use crate::events::{ListingCancelled, NftListed, NftSold};
use crate::identity::Pubkey;
use crate::records::{EscrowAccount, EscrowState, StreetwearAsset, SystemAccount, TokenAccount};
use crate::swap::{swap, swap_failure};

verus! {

/// What a listing works on: the seller, the certificate, the asset record,
/// and the escrow slot of this seller and certificate with its addressing
/// proof. The slot holds `None` while it is vacant.
#[derive(Clone, Debug, PartialEq, Eq)]
pub struct ListNft {
    pub seller: Pubkey,
    pub escrow_account: Option<EscrowAccount>,
    pub nft_mint: Pubkey,
    pub asset_account: StreetwearAsset,
    pub bump: u8,
}

/// What a sale works on: the wallets of buyer and seller, the escrow and
/// asset records, the certificate, and the holdings of both parties in it.
/// The buyer's holding is `None` where the buyer has none.
#[derive(Clone, Debug, PartialEq, Eq)]
pub struct BuyNft {
    pub buyer: SystemAccount,
    pub seller: SystemAccount,
    pub escrow_account: EscrowAccount,
    pub nft_mint: Pubkey,
    pub asset_account: StreetwearAsset,
    pub seller_token_account: TokenAccount,
    pub buyer_token_account: Option<TokenAccount>,
}

/// What a cancellation works on: the caller, the escrow and asset records,
/// and the certificate.
#[derive(Clone, Debug, PartialEq, Eq)]
pub struct CancelListing {
    pub seller: Pubkey,
    pub escrow_account: EscrowAccount,
    pub nft_mint: Pubkey,
    pub asset_account: StreetwearAsset,
}

impl ListNft {
    /// The asset record is that of this certificate and names the seller as
    /// its owner.
    pub open spec fn seller_owns(self) -> bool {
        self.asset_account.owner == self.seller && self.asset_account.mint == self.nft_mint
    }

    /// Why a listing at `price` is refused, if it is. The first of these
    /// that applies: the seller does not own the certificate, the asset is
    /// already listed, the price is zero, the escrow slot is occupied.
    pub open spec fn failure(self, price: u64) -> Option<StreetwearError> {
        if !self.seller_owns() {
            Some(StreetwearError::NotOwner)
        } else if self.asset_account.is_listed {
            Some(StreetwearError::AlreadyListed)
        } else if price == 0 {
            Some(StreetwearError::InvalidPrice)
        } else if self.escrow_account is Some {
            Some(StreetwearError::AddressCollision)
        } else {
            None
        }
    }

    /// The escrow record that a listing at `price` creates.
    pub open spec fn new_escrow(self, price: u64) -> EscrowAccount {
        EscrowAccount {
            seller: self.seller,
            nft_mint: self.nft_mint,
            price,
            state: EscrowState::Listed,
            bump: self.bump,
        }
    }

    /// The context after a listing at `price` has committed.
    pub open spec fn listed(self, price: u64) -> ListNft {
        ListNft {
            escrow_account: Some(self.new_escrow(price)),
            asset_account: StreetwearAsset { is_listed: true, ..self.asset_account },
            ..self
        }
    }

    /// The context after the call, committed or refused.
    pub open spec fn after(self, price: u64) -> ListNft {
        if self.failure(price) is None {
            self.listed(price)
        } else {
            self
        }
    }
}

impl BuyNft {
    /// The escrow is in the listed state, the asset is flagged as listed,
    /// and both records are those of this certificate.
    pub open spec fn is_listed(self) -> bool {
        &&& self.escrow_account.state == EscrowState::Listed
        &&& self.asset_account.is_listed
        &&& self.escrow_account.nft_mint == self.nft_mint
        &&& self.asset_account.mint == self.nft_mint
    }

    /// The seller's wallet is the one that both records name, and the
    /// seller's holding is that wallet's holding in this certificate.
    pub open spec fn seller_owns(self) -> bool {
        &&& self.escrow_account.seller == self.seller.key
        &&& self.asset_account.owner == self.seller.key
        &&& self.seller_token_account.owner == self.seller.key
        &&& self.seller_token_account.mint == self.nft_mint
    }

    /// Why the sale is refused, if it is. The first of these that applies:
    /// the certificate is not listed, the seller does not own it, the swap
    /// cannot run.
    pub open spec fn failure(self) -> Option<StreetwearError> {
        if !self.is_listed() {
            Some(StreetwearError::NotListed)
        } else if !self.seller_owns() {
            Some(StreetwearError::NotOwner)
        } else {
            swap_failure(
                self.buyer,
                self.seller,
                self.seller_token_account,
                self.buyer_token_account,
                self.escrow_account.price,
            )
        }
    }

    /// The context after the sale has committed: the price has moved from
    /// buyer to seller, one unit of the certificate from seller to buyer,
    /// the escrow is sold, and the asset is unlisted and owned by the buyer.
    pub open spec fn settled(self) -> BuyNft {
        BuyNft {
            buyer: SystemAccount {
                lamports: (self.buyer.lamports - self.escrow_account.price) as u64,
                ..self.buyer
            },
            seller: SystemAccount {
                lamports: (self.seller.lamports + self.escrow_account.price) as u64,
                ..self.seller
            },
            escrow_account: EscrowAccount { state: EscrowState::Sold, ..self.escrow_account },
            asset_account: StreetwearAsset {
                owner: self.buyer.key,
                is_listed: false,
                ..self.asset_account
            },
            seller_token_account: TokenAccount {
                amount: (self.seller_token_account.amount - 1) as u64,
                ..self.seller_token_account
            },
            buyer_token_account: Some(
                TokenAccount {
                    amount: (self.buyer_token_account->Some_0.amount + 1) as u64,
                    ..self.buyer_token_account->Some_0
                },
            ),
            ..self
        }
    }

    /// The context after the call, committed or refused.
    pub open spec fn after(self) -> BuyNft {
        if self.failure() is None {
            self.settled()
        } else {
            self
        }
    }

    /// The event that the sale reports.
    pub open spec fn sold_event(self) -> NftSold {
        NftSold {
            mint: self.nft_mint,
            seller: self.seller.key,
            buyer: self.buyer.key,
            price: self.escrow_account.price,
        }
    }
}

impl CancelListing {
    /// The escrow is in the listed state, the asset is flagged as listed,
    /// and both records are those of this certificate.
    pub open spec fn is_listed(self) -> bool {
        &&& self.escrow_account.state == EscrowState::Listed
        &&& self.asset_account.is_listed
        &&& self.escrow_account.nft_mint == self.nft_mint
        &&& self.asset_account.mint == self.nft_mint
    }

    /// The caller is the seller of the escrow and the owner of the asset.
    pub open spec fn seller_owns(self) -> bool {
        self.escrow_account.seller == self.seller && self.asset_account.owner == self.seller
    }

    /// Why the cancellation is refused, if it is: the certificate is not
    /// listed, or else the caller is not its seller.
    pub open spec fn failure(self) -> Option<StreetwearError> {
        if !self.is_listed() {
            Some(StreetwearError::NotListed)
        } else if !self.seller_owns() {
            Some(StreetwearError::NotOwner)
        } else {
            None
        }
    }

    /// The context after the cancellation has committed.
    pub open spec fn cancelled(self) -> CancelListing {
        CancelListing {
            escrow_account: EscrowAccount { state: EscrowState::Cancelled, ..self.escrow_account },
            asset_account: StreetwearAsset { is_listed: false, ..self.asset_account },
            ..self
        }
    }

    /// The context after the call, committed or refused.
    pub open spec fn after(self) -> CancelListing {
        if self.failure() is None {
            self.cancelled()
        } else {
            self
        }
    }
}

/// Lists the certificate for sale at `price`: fills the escrow slot with a
/// listed escrow and flags the asset as listed. A refused listing changes
/// nothing.
pub fn list_nft(ctx: &mut ListNft, price: u64) -> (result: Result<NftListed, StreetwearError>)
    ensures
        *final(ctx) == old(ctx).after(price),
        match result {
            Ok(event) => {
                &&& old(ctx).failure(price) is None
                &&& *final(ctx) == old(ctx).listed(price)
                &&& event == (NftListed { mint: old(ctx).nft_mint, seller: old(ctx).seller, price })
            },
            Err(e) => old(ctx).failure(price) == Some(e) && *final(ctx) == *old(ctx),
        },
{
    if !(ctx.asset_account.owner == ctx.seller) || !(ctx.asset_account.mint == ctx.nft_mint) {
        return Err(StreetwearError::NotOwner);
    }
    if ctx.asset_account.is_listed {
        return Err(StreetwearError::AlreadyListed);
    }
    if price == 0 {
        return Err(StreetwearError::InvalidPrice);
    }
    if ctx.escrow_account.is_some() {
        return Err(StreetwearError::AddressCollision);
    }
    ctx.escrow_account = Some(
        EscrowAccount {
            seller: ctx.seller,
            nft_mint: ctx.nft_mint,
            price,
            state: EscrowState::Listed,
            bump: ctx.bump,
        },
    );
    ctx.asset_account.is_listed = true;
    Ok(NftListed { mint: ctx.nft_mint, seller: ctx.seller, price })
}

/// Sells the listed certificate to the buyer: moves the price from buyer to
/// seller and one unit of the certificate from seller to buyer, marks the
/// escrow sold, and hands the asset to the buyer, unlisted. A refused sale,
/// whichever check or leg refused it, changes nothing.
pub fn buy_nft(ctx: &mut BuyNft) -> (result: Result<NftSold, StreetwearError>)
    ensures
        *final(ctx) == old(ctx).after(),
        match result {
            Ok(event) => {
                &&& old(ctx).failure() is None
                &&& *final(ctx) == old(ctx).settled()
                &&& event == old(ctx).sold_event()
                &&& final(ctx).seller.lamports == old(ctx).seller.lamports + old(ctx).escrow_account.price
                &&& final(ctx).buyer.lamports == old(ctx).buyer.lamports - old(ctx).escrow_account.price
                &&& final(ctx).seller_token_account.amount == old(ctx).seller_token_account.amount - 1
                &&& final(ctx).buyer_token_account->Some_0.amount
                    == old(ctx).buyer_token_account->Some_0.amount + 1
                &&& final(ctx).escrow_account.state == EscrowState::Sold
                &&& final(ctx).asset_account.owner == old(ctx).buyer.key
                &&& !final(ctx).asset_account.is_listed
            },
            Err(e) => old(ctx).failure() == Some(e) && *final(ctx) == *old(ctx),
        },
{
    let listed: bool = match ctx.escrow_account.state {
        EscrowState::Listed => true,
        _ => false,
    };
    if !listed || !ctx.asset_account.is_listed || !(ctx.escrow_account.nft_mint == ctx.nft_mint)
        || !(ctx.asset_account.mint == ctx.nft_mint) {
        return Err(StreetwearError::NotListed);
    }
    if !(ctx.escrow_account.seller == ctx.seller.key) || !(ctx.asset_account.owner
        == ctx.seller.key) || !(ctx.seller_token_account.owner == ctx.seller.key) || !(
    ctx.seller_token_account.mint == ctx.nft_mint) {
        return Err(StreetwearError::NotOwner);
    }
    let price: u64 = ctx.escrow_account.price;
    let mut buyer: SystemAccount = ctx.buyer;
    let mut seller: SystemAccount = ctx.seller;
    let mut seller_holding: TokenAccount = ctx.seller_token_account;
    let mut buyer_holding: Option<TokenAccount> = ctx.buyer_token_account;
    match swap(&mut buyer, &mut seller, &mut seller_holding, &mut buyer_holding, price) {
        Ok(_) => {},
        Err(e) => {
            return Err(e);
        },
    }
    ctx.buyer = buyer;
    ctx.seller = seller;
    ctx.seller_token_account = seller_holding;
    ctx.buyer_token_account = buyer_holding;
    ctx.escrow_account.state = EscrowState::Sold;
    ctx.asset_account.is_listed = false;
    ctx.asset_account.owner = ctx.buyer.key;
    Ok(NftSold { mint: ctx.nft_mint, seller: ctx.seller.key, buyer: ctx.buyer.key, price })
}

/// Withdraws the listing: marks the escrow cancelled and unflags the asset.
/// A refused cancellation changes nothing.
pub fn cancel_listing(ctx: &mut CancelListing) -> (result: Result<ListingCancelled, StreetwearError>)
    ensures
        *final(ctx) == old(ctx).after(),
        match result {
            Ok(event) => {
                &&& old(ctx).failure() is None
                &&& *final(ctx) == old(ctx).cancelled()
                &&& event == (ListingCancelled { mint: old(ctx).nft_mint, seller: old(ctx).seller })
            },
            Err(e) => old(ctx).failure() == Some(e) && *final(ctx) == *old(ctx),
        },
{
    let listed: bool = match ctx.escrow_account.state {
        EscrowState::Listed => true,
        _ => false,
    };
    if !listed || !ctx.asset_account.is_listed || !(ctx.escrow_account.nft_mint == ctx.nft_mint)
        || !(ctx.asset_account.mint == ctx.nft_mint) {
        return Err(StreetwearError::NotListed);
    }
    if !(ctx.escrow_account.seller == ctx.seller) || !(ctx.asset_account.owner == ctx.seller) {
        return Err(StreetwearError::NotOwner);
    }
    ctx.escrow_account.state = EscrowState::Cancelled;
    ctx.asset_account.is_listed = false;
    Ok(ListingCancelled { mint: ctx.nft_mint, seller: ctx.seller })
}

} // verus!
