//! What holds of the operations taken together, over every context.

use vstd::prelude::*;
use crate::addressing::{asset_namespace, escrow_namespace, record_seeds};
use crate::errors::StreetwearError;
use crate::escrow::{BuyNft, CancelListing, ListNft};
use crate::identity::Pubkey;
use crate::records::{flag_tracks_escrow, EscrowState};
use crate::registry::{description_failure, TokenizeStreetwear, CURRENT_YEAR, MIN_YEAR};

verus! {

/// A registration goes through exactly when the year lies in the accepted
/// range, brand and model are not empty, and both slots are vacant; it then
/// leaves the owner with exactly one unit of the certificate.
pub proof fn law_valid_registration_commits(
    ctx: TokenizeStreetwear,
    brand: Seq<char>,
    model: Seq<char>,
    year: u16,
)
    ensures
        ctx.failure(brand, model, year) is None <==> {
            &&& MIN_YEAR <= year <= CURRENT_YEAR
            &&& brand.len() > 0
            &&& model.len() > 0
            &&& ctx.vacant()
        },
        ctx.minted().amount == 1,
        ctx.minted().owner == ctx.owner,
        ctx.minted().mint == ctx.mint,
{
}

/// Each defect of a description is reported under its own error, and an
/// occupied slot is reported only for a description without defect.
pub proof fn law_registration_errors(
    ctx: TokenizeStreetwear,
    brand: Seq<char>,
    model: Seq<char>,
    year: u16,
)
    ensures
        ctx.failure(brand, model, year) == Some(StreetwearError::InvalidYear) <==> (year < MIN_YEAR
            || year > CURRENT_YEAR),
        ctx.failure(brand, model, year) == Some(StreetwearError::InvalidBrand) <==> (MIN_YEAR
            <= year <= CURRENT_YEAR && brand.len() == 0),
        ctx.failure(brand, model, year) == Some(StreetwearError::InvalidModel) <==> (MIN_YEAR
            <= year <= CURRENT_YEAR && brand.len() > 0 && model.len() == 0),
        ctx.failure(brand, model, year) == Some(StreetwearError::AddressCollision) <==> (
        description_failure(brand, model, year) is None && !ctx.vacant()),
{
}

/// Listing an asset that is already listed is refused as such, whatever the
/// price, when the caller owns it; nothing changes.
pub proof fn law_listed_asset_is_not_listed_again(ctx: ListNft, price: u64)
    requires
        ctx.seller_owns(),
        ctx.asset_account.is_listed,
    ensures
        ctx.failure(price) == Some(StreetwearError::AlreadyListed),
        ctx.after(price) == ctx,
{
}

/// Of two listings of one certificate by one seller, run one after the
/// other on the same slot and asset record, the second is refused.
pub proof fn law_second_listing_is_refused(first: ListNft, second: ListNft, p: u64, q: u64)
    requires
        first.failure(p) is None,
        second.escrow_account == first.after(p).escrow_account || second.asset_account
            == first.after(p).asset_account,
    ensures
        second.failure(q) is Some,
        second.after(q) == second,
{
}

/// A listing by the owner of an unlisted asset at price zero is refused as
/// an invalid price.
pub proof fn law_zero_price_is_refused(ctx: ListNft)
    requires
        ctx.seller_owns(),
        !ctx.asset_account.is_listed,
    ensures
        ctx.failure(0) == Some(StreetwearError::InvalidPrice),
        ctx.after(0) == ctx,
{
}

/// A sale that goes through moves exactly the price from buyer to seller
/// and exactly one unit of the certificate from seller to buyer: the sums
/// of both are kept. It leaves the escrow sold and the asset unlisted in
/// the buyer's hands.
pub proof fn law_sale_moves_price_and_certificate(ctx: BuyNft)
    requires
        ctx.failure() is None,
    ensures
        ctx.after().seller.lamports == ctx.seller.lamports + ctx.escrow_account.price,
        ctx.after().buyer.lamports == ctx.buyer.lamports - ctx.escrow_account.price,
        ctx.after().seller_token_account.amount == ctx.seller_token_account.amount - 1,
        ctx.after().buyer_token_account->Some_0.amount == ctx.buyer_token_account->Some_0.amount
            + 1,
        ctx.after().buyer.lamports + ctx.after().seller.lamports == ctx.buyer.lamports
            + ctx.seller.lamports,
        ctx.after().escrow_account.state == EscrowState::Sold,
        ctx.after().escrow_account.price == ctx.escrow_account.price,
        ctx.after().asset_account.owner == ctx.buyer.key,
        !ctx.after().asset_account.is_listed,
{
}

/// A sale on a listed escrow, between two distinct parties of whom the
/// seller owns the certificate, is refused for insufficient funds when the
/// buyer holds less than the price; no balance, holding or record changes.
pub proof fn law_short_buyer_changes_nothing(ctx: BuyNft)
    requires
        ctx.is_listed(),
        ctx.seller_owns(),
        ctx.buyer.key != ctx.seller.key,
        ctx.buyer.lamports < ctx.escrow_account.price,
    ensures
        ctx.failure() == Some(StreetwearError::InsufficientFunds),
        ctx.after() == ctx,
{
}

/// A sale is all or nothing: the context after it is either the settled
/// one or the one before.
pub proof fn law_sale_is_all_or_nothing(ctx: BuyNft)
    ensures
        ctx.after() == ctx || (ctx.failure() is None && ctx.after() == ctx.settled()),
        ctx.failure() is Some ==> ctx.after() == ctx,
{
}

/// A sale on an escrow in a terminal state is refused as not listed and
/// changes nothing.
pub proof fn law_terminal_escrow_refuses_sale(ctx: BuyNft)
    requires
        ctx.escrow_account.state.is_terminal(),
    ensures
        ctx.failure() == Some(StreetwearError::NotListed),
        ctx.after() == ctx,
{
}

/// A cancellation on an escrow in a terminal state is refused as not listed
/// and changes nothing.
pub proof fn law_terminal_escrow_refuses_cancellation(ctx: CancelListing)
    requires
        ctx.escrow_account.state.is_terminal(),
    ensures
        ctx.failure() == Some(StreetwearError::NotListed),
        ctx.after() == ctx,
{
}

/// Of two sales of one escrow run one after the other, at most the first
/// goes through: a sale that sees the escrow, or the asset, as a committed
/// sale left it is refused as not listed and moves nothing.
pub proof fn law_second_sale_is_refused(first: BuyNft, second: BuyNft)
    requires
        first.failure() is None,
        second.escrow_account == first.after().escrow_account || second.asset_account
            == first.after().asset_account,
    ensures
        second.failure() == Some(StreetwearError::NotListed),
        second.after() == second,
{
}

/// A sale or a cancellation that sees the escrow as a committed
/// cancellation left it is refused as not listed.
pub proof fn law_cancelled_escrow_stays_cancelled(
    first: CancelListing,
    sale: BuyNft,
    again: CancelListing,
)
    requires
        first.failure() is None,
        sale.escrow_account == first.after().escrow_account,
        again.escrow_account == first.after().escrow_account,
    ensures
        sale.failure() == Some(StreetwearError::NotListed),
        again.failure() == Some(StreetwearError::NotListed),
{
}

/// The state of an escrow moves only along the transitions of the state
/// machine: a sale or a cancellation leaves it as it was or takes it from
/// listed to a terminal state, and a listing creates it listed.
pub proof fn law_escrow_state_moves_forward(sale: BuyNft, cancel: CancelListing, list: ListNft, price: u64)
    ensures
        sale.after().escrow_account.state == sale.escrow_account.state
            || sale.escrow_account.state.steps_to(sale.after().escrow_account.state),
        cancel.after().escrow_account.state == cancel.escrow_account.state
            || cancel.escrow_account.state.steps_to(cancel.after().escrow_account.state),
        list.failure(price) is None ==> list.after(price).escrow_account->Some_0.state
            == EscrowState::Listed,
        list.failure(price) is Some ==> list.after(price).escrow_account == list.escrow_account,
{
}

/// The listing flag follows the escrow: a committed listing makes flag and
/// escrow agree, and a sale or a cancellation keeps them in agreement.
pub proof fn law_flag_follows_escrow(sale: BuyNft, cancel: CancelListing, list: ListNft, price: u64)
    ensures
        list.failure(price) is None ==> flag_tracks_escrow(
            list.after(price).asset_account,
            list.after(price).escrow_account->Some_0,
        ),
        flag_tracks_escrow(sale.asset_account, sale.escrow_account) ==> flag_tracks_escrow(
            sale.after().asset_account,
            sale.after().escrow_account,
        ),
        flag_tracks_escrow(cancel.asset_account, cancel.escrow_account) ==> flag_tracks_escrow(
            cancel.after().asset_account,
            cancel.after().escrow_account,
        ),
{
}

/// The owner of an asset changes only by a committed sale, and then to the
/// buyer; the certificate that a record belongs to never changes.
pub proof fn law_owner_changes_only_by_sale(sale: BuyNft, cancel: CancelListing, list: ListNft, price: u64)
    ensures
        list.after(price).asset_account.owner == list.asset_account.owner,
        cancel.after().asset_account.owner == cancel.asset_account.owner,
        sale.after().asset_account.owner == if sale.failure() is None {
            sale.buyer.key
        } else {
            sale.asset_account.owner
        },
        list.after(price).asset_account.mint == list.asset_account.mint,
        cancel.after().asset_account.mint == cancel.asset_account.mint,
        sale.after().asset_account.mint == sale.asset_account.mint,
        sale.after().escrow_account.nft_mint == sale.escrow_account.nft_mint,
        cancel.after().escrow_account.nft_mint == cancel.escrow_account.nft_mint,
{
}

/// Records are told apart by their seeds: the two namespaces differ, and
/// two records with the same seeds share namespace, holder and certificate.
pub proof fn law_seeds_tell_records_apart(
    namespace: Seq<u8>,
    holder: Pubkey,
    mint: Pubkey,
    other_namespace: Seq<u8>,
    other_holder: Pubkey,
    other_mint: Pubkey,
)
    ensures
        asset_namespace() != escrow_namespace(),
        record_seeds(namespace, holder, mint) == record_seeds(
            other_namespace,
            other_holder,
            other_mint,
        ) <==> namespace == other_namespace && holder == other_holder && mint == other_mint,
{
    assert(asset_namespace().len() != escrow_namespace().len());
    let seeds = record_seeds(namespace, holder, mint);
    let other = record_seeds(other_namespace, other_holder, other_mint);
    if seeds == other {
        assert(seeds[0] == other[0]);
        assert(seeds[1] == other[1]);
        assert(seeds[2] == other[2]);
        assert(holder.bytes =~= other_holder.bytes);
        assert(mint.bytes =~= other_mint.bytes);
    }
}

} // verus!
