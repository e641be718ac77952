//! The paired transfer of a sale: the price in currency from buyer to
//! seller, then one unit of the certificate from seller to buyer. Both legs
//! commit together or neither does.

use vstd::prelude::*;
use crate::errors::StreetwearError;
use crate::identity::Pubkey;
use crate::records::{SystemAccount, TokenAccount};

verus! {

/// Why the currency leg cannot run, if it cannot: payer and payee are one
/// wallet, the payer holds less than the amount, or the payee's balance
/// cannot take it.
pub open spec fn currency_leg_failure(
    from: SystemAccount,
    to: SystemAccount,
    amount: u64,
) -> Option<StreetwearError> {
    if from.key == to.key {
        Some(StreetwearError::AddressCollision)
    } else if from.lamports < amount {
        Some(StreetwearError::InsufficientFunds)
    } else if to.lamports + amount > u64::MAX {
        Some(StreetwearError::MissingDestination)
    } else {
        None
    }
}

/// Whether `to` is a holding of `receiver` in the certificate of `from` that
/// can take one more unit.
pub open spec fn destination_accepts(
    from: TokenAccount,
    to: Option<TokenAccount>,
    receiver: Pubkey,
) -> bool {
    match to {
        Some(holding) => holding.mint == from.mint && holding.owner == receiver && holding.amount
            < u64::MAX,
        None => false,
    }
}

/// Why the certificate leg cannot run, if it cannot: the receiver is the
/// holder, the holder has no unit, or the destination does not accept one.
pub open spec fn certificate_leg_failure(
    from: TokenAccount,
    to: Option<TokenAccount>,
    receiver: Pubkey,
) -> Option<StreetwearError> {
    if from.owner == receiver {
        Some(StreetwearError::AddressCollision)
    } else if from.amount < 1 {
        Some(StreetwearError::InsufficientFunds)
    } else if !destination_accepts(from, to, receiver) {
        Some(StreetwearError::MissingDestination)
    } else {
        None
    }
}

/// Why the swap cannot run, if it cannot: the failure of the currency leg,
/// or else that of the certificate leg.
pub open spec fn swap_failure(
    buyer: SystemAccount,
    seller: SystemAccount,
    seller_holding: TokenAccount,
    buyer_holding: Option<TokenAccount>,
    price: u64,
) -> Option<StreetwearError> {
    match currency_leg_failure(buyer, seller, price) {
        Some(e) => Some(e),
        None => certificate_leg_failure(seller_holding, buyer_holding, buyer.key),
    }
}

/// Moves `amount` of currency from `from` to `to`, or reports why it cannot
/// and changes neither wallet.
pub fn transfer_currency(from: &mut SystemAccount, to: &mut SystemAccount, amount: u64) -> (result:
    Result<(), StreetwearError>)
    ensures
        match result {
            Ok(_) => {
                &&& currency_leg_failure(*old(from), *old(to), amount) is None
                &&& final(from).key == old(from).key
                &&& final(to).key == old(to).key
                &&& final(from).lamports == old(from).lamports - amount
                &&& final(to).lamports == old(to).lamports + amount
            },
            Err(e) => {
                &&& currency_leg_failure(*old(from), *old(to), amount) == Some(e)
                &&& *final(from) == *old(from)
                &&& *final(to) == *old(to)
            },
        },
{
    if from.key == to.key {
        return Err(StreetwearError::AddressCollision);
    }
    if from.lamports < amount {
        return Err(StreetwearError::InsufficientFunds);
    }
    if to.lamports > u64::MAX - amount {
        return Err(StreetwearError::MissingDestination);
    }
    from.lamports = from.lamports - amount;
    to.lamports = to.lamports + amount;
    Ok(())
}

/// Moves one unit of the certificate from `from` to the holding in `to`,
/// which must be `receiver`'s, or reports why it cannot and changes neither
/// holding.
pub fn transfer_certificate(
    from: &mut TokenAccount,
    to: &mut Option<TokenAccount>,
    receiver: Pubkey,
) -> (result: Result<(), StreetwearError>)
    ensures
        match result {
            Ok(_) => {
                &&& certificate_leg_failure(*old(from), *old(to), receiver) is None
                &&& *final(from) == (TokenAccount { amount: (old(from).amount - 1) as u64, ..*old(from) })
                &&& *final(to) == Some(
                    TokenAccount {
                        amount: (old(to)->Some_0.amount + 1) as u64,
                        ..old(to)->Some_0
                    },
                )
            },
            Err(e) => {
                &&& certificate_leg_failure(*old(from), *old(to), receiver) == Some(e)
                &&& *final(from) == *old(from)
                &&& *final(to) == *old(to)
            },
        },
{
    if from.owner == receiver {
        return Err(StreetwearError::AddressCollision);
    }
    if from.amount < 1 {
        return Err(StreetwearError::InsufficientFunds);
    }
    let holding: TokenAccount = match *to {
        Some(holding) => holding,
        None => {
            return Err(StreetwearError::MissingDestination);
        },
    };
    if !(holding.mint == from.mint) || !(holding.owner == receiver) || holding.amount == u64::MAX {
        return Err(StreetwearError::MissingDestination);
    }
    from.amount = from.amount - 1;
    *to = Some(TokenAccount { mint: holding.mint, owner: holding.owner, amount: holding.amount + 1 });
    Ok(())
}

/// Runs both legs of a sale as one unit: the currency leg first, the
/// certificate leg only if the currency leg went through. If either leg
/// fails, all four holdings are as they were before the call.
pub fn swap(
    buyer: &mut SystemAccount,
    seller: &mut SystemAccount,
    seller_holding: &mut TokenAccount,
    buyer_holding: &mut Option<TokenAccount>,
    price: u64,
) -> (result: Result<(), StreetwearError>)
    ensures
        match result {
            Ok(_) => {
                &&& swap_failure(*old(buyer), *old(seller), *old(seller_holding), *old(buyer_holding), price) is None
                &&& *final(buyer) == (SystemAccount { lamports: (old(buyer).lamports - price) as u64, ..*old(buyer) })
                &&& *final(seller) == (SystemAccount { lamports: (old(seller).lamports + price) as u64, ..*old(seller) })
                &&& *final(seller_holding) == (TokenAccount {
                    amount: (old(seller_holding).amount - 1) as u64,
                    ..*old(seller_holding)
                })
                &&& *final(buyer_holding) == Some(
                    TokenAccount {
                        amount: (old(buyer_holding)->Some_0.amount + 1) as u64,
                        ..old(buyer_holding)->Some_0
                    },
                )
            },
            Err(e) => {
                &&& swap_failure(*old(buyer), *old(seller), *old(seller_holding), *old(buyer_holding), price) == Some(e)
                &&& *final(buyer) == *old(buyer)
                &&& *final(seller) == *old(seller)
                &&& *final(seller_holding) == *old(seller_holding)
                &&& *final(buyer_holding) == *old(buyer_holding)
            },
        },
{
    let mut paying: SystemAccount = *buyer;
    let mut paid: SystemAccount = *seller;
    match transfer_currency(&mut paying, &mut paid, price) {
        Ok(_) => {},
        Err(e) => {
            return Err(e);
        },
    }
    match transfer_certificate(seller_holding, buyer_holding, paying.key) {
        Ok(_) => {},
        Err(e) => {
            return Err(e);
        },
    }
    *buyer = paying;
    *seller = paid;
    Ok(())
}

} // verus!
