//! The certificate registry: validates the description of an item, creates
//! its asset record, and mints the one unit of its certificate.

use vstd::prelude::*;
use crate::errors::StreetwearError;
use crate::events::StreetwearTokenized;
use crate::identity::Pubkey;
use crate::records::{Rarity, StreetwearAsset, TokenAccount};

verus! {

/// The earliest year an item can be dated to.
pub const MIN_YEAR: u16 = 1990;

/// The current year, the latest an item can be dated to.
pub const CURRENT_YEAR: u16 = 2024;

/// What a registration works on: the owner, the fresh certificate identity,
/// the owner's holding slot for that certificate, and the asset slot of this
/// owner and certificate with its addressing proof. A slot holds `None`
/// while it is vacant.
#[derive(Clone, Debug, PartialEq, Eq)]
pub struct TokenizeStreetwear {
    pub owner: Pubkey,
    pub mint: Pubkey,
    pub token_account: Option<TokenAccount>,
    pub asset_account: Option<StreetwearAsset>,
    pub bump: u8,
}

/// Why a description is refused, if it is. The first of these that applies:
/// the year is out of range, the brand is empty, the model is empty.
pub open spec fn description_failure(brand: Seq<char>, model: Seq<char>, year: u16) -> Option<
    StreetwearError,
> {
    if year < MIN_YEAR || year > CURRENT_YEAR {
        Some(StreetwearError::InvalidYear)
    } else if brand.len() == 0 {
        Some(StreetwearError::InvalidBrand)
    } else if model.len() == 0 {
        Some(StreetwearError::InvalidModel)
    } else {
        None
    }
}

impl TokenizeStreetwear {
    /// Both slots are vacant.
    pub open spec fn vacant(self) -> bool {
        self.asset_account is None && self.token_account is None
    }

    /// Why a registration is refused, if it is: the description is refused,
    /// or else a slot is occupied.
    pub open spec fn failure(self, brand: Seq<char>, model: Seq<char>, year: u16) -> Option<
        StreetwearError,
    > {
        match description_failure(brand, model, year) {
            Some(e) => Some(e),
            None => if self.vacant() {
                None
            } else {
                Some(StreetwearError::AddressCollision)
            },
        }
    }

    /// The holding that a registration creates: one unit of the certificate,
    /// held by the owner.
    pub open spec fn minted(self) -> TokenAccount {
        TokenAccount { mint: self.mint, owner: self.owner, amount: 1 }
    }
}

/// Checks the description of an item: the year lies between `MIN_YEAR` and
/// `CURRENT_YEAR`, both included, and brand and model are not empty.
pub fn validate_description(brand: &String, model: &String, year: u16) -> (result: Result<
    (),
    StreetwearError,
>)
    ensures
        match result {
            Ok(_) => description_failure(brand@, model@, year) is None,
            Err(e) => description_failure(brand@, model@, year) == Some(e),
        },
{
    if year < MIN_YEAR || year > CURRENT_YEAR {
        return Err(StreetwearError::InvalidYear);
    }
    if brand.as_str().is_empty() {
        return Err(StreetwearError::InvalidBrand);
    }
    if model.as_str().is_empty() {
        return Err(StreetwearError::InvalidModel);
    }
    Ok(())
}

/// Registers an item: fills the asset slot with a record of the given
/// description, owned by the caller and not listed, and fills the holding
/// slot with one unit of the certificate. A refused registration changes
/// nothing.
pub fn tokenize_streetwear(
    ctx: &mut TokenizeStreetwear,
    name: String,
    symbol: String,
    uri: String,
    brand: String,
    model: String,
    size: String,
    condition: String,
    year: u16,
    rarity: Rarity,
) -> (result: Result<StreetwearTokenized, StreetwearError>)
    ensures
        match result {
            Ok(event) => {
                &&& old(ctx).failure(brand@, model@, year) is None
                &&& *final(ctx) == (TokenizeStreetwear {
                    token_account: Some(old(ctx).minted()),
                    asset_account: Some(
                        StreetwearAsset {
                            owner: old(ctx).owner,
                            mint: old(ctx).mint,
                            name,
                            symbol,
                            uri,
                            brand,
                            model,
                            size,
                            condition,
                            year,
                            rarity,
                            is_listed: false,
                            bump: old(ctx).bump,
                        },
                    ),
                    ..*old(ctx)
                })
                &&& event == (StreetwearTokenized {
                    mint: old(ctx).mint,
                    owner: old(ctx).owner,
                    brand,
                    model,
                    rarity,
                })
            },
            Err(e) => old(ctx).failure(brand@, model@, year) == Some(e) && *final(ctx) == *old(ctx),
        },
{
    match validate_description(&brand, &model, year) {
        Ok(_) => {},
        Err(e) => {
            return Err(e);
        },
    }
    if ctx.asset_account.is_some() || ctx.token_account.is_some() {
        return Err(StreetwearError::AddressCollision);
    }
    let event = StreetwearTokenized {
        mint: ctx.mint,
        owner: ctx.owner,
        brand: brand.clone(),
        model: model.clone(),
        rarity,
    };
    ctx.asset_account = Some(
        StreetwearAsset {
            owner: ctx.owner,
            mint: ctx.mint,
            name,
            symbol,
            uri,
            brand,
            model,
            size,
            condition,
            year,
            rarity,
            is_listed: false,
            bump: ctx.bump,
        },
    );
    ctx.token_account = Some(TokenAccount { mint: ctx.mint, owner: ctx.owner, amount: 1 });
    Ok(event)
}

} // verus!
