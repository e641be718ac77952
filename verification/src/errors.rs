//! The failures that an operation can report.

use vstd::prelude::*;

verus! {

/// The number that the first error variant is reported under; each later
/// variant takes the next number.
pub const ERROR_CODE_OFFSET: u32 = 6000;

/// Why an operation was refused. A refused operation has changed nothing.
#[derive(Clone, Copy, Debug, PartialEq, Eq, Structural)]
pub enum StreetwearError {
    /// The asset already has an active listing.
    AlreadyListed,
    /// The escrow is not in the listed state, or the asset is not listed in it.
    NotListed,
    /// The rarity level is not a known one.
    InvalidRarity,
    /// The source of a transfer holds less than the amount to move.
    InsufficientFunds,
    /// The condition is not a known one.
    InvalidCondition,
    /// The year lies outside the accepted range.
    InvalidYear,
    /// The brand is empty.
    InvalidBrand,
    /// The model is empty.
    InvalidModel,
    /// The price is zero.
    InvalidPrice,
    /// The caller is not the owner that the records name.
    NotOwner,
    /// The destination of a transfer is absent, is not the receiver's holding,
    /// or cannot take the amount.
    MissingDestination,
    /// A storage location that had to be vacant, or distinct from another, is not.
    AddressCollision,
}

impl StreetwearError {
    /// The position of the variant in the declaration.
    pub open spec fn index(self) -> nat {
        match self {
            StreetwearError::AlreadyListed => 0,
            StreetwearError::NotListed => 1,
            StreetwearError::InvalidRarity => 2,
            StreetwearError::InsufficientFunds => 3,
            StreetwearError::InvalidCondition => 4,
            StreetwearError::InvalidYear => 5,
            StreetwearError::InvalidBrand => 6,
            StreetwearError::InvalidModel => 7,
            StreetwearError::InvalidPrice => 8,
            StreetwearError::NotOwner => 9,
            StreetwearError::MissingDestination => 10,
            StreetwearError::AddressCollision => 11,
        }
    }

    /// The text that describes the error.
    pub open spec fn message_text(self) -> Seq<char> {
        match self {
            StreetwearError::AlreadyListed => "Asset is already listed"@,
            StreetwearError::NotListed => "Asset is not listed"@,
            StreetwearError::InvalidRarity => "Invalid rarity level"@,
            StreetwearError::InsufficientFunds => "Insufficient funds"@,
            StreetwearError::InvalidCondition => "Invalid condition"@,
            StreetwearError::InvalidYear => "Year must be between 1990 and current year"@,
            StreetwearError::InvalidBrand => "Brand cannot be empty"@,
            StreetwearError::InvalidModel => "Model cannot be empty"@,
            StreetwearError::InvalidPrice => "Price must be greater than 0"@,
            StreetwearError::NotOwner => "Caller is not the owner"@,
            StreetwearError::MissingDestination => "Destination holding is missing"@,
            StreetwearError::AddressCollision => "Address is already in use"@,
        }
    }

    /// The structured code of the error: the offset plus the variant's position.
    pub fn code(&self) -> (code: u32)
        ensures
            code == ERROR_CODE_OFFSET + self.index(),
    {
        let position: u32 = match self {
            StreetwearError::AlreadyListed => 0,
            StreetwearError::NotListed => 1,
            StreetwearError::InvalidRarity => 2,
            StreetwearError::InsufficientFunds => 3,
            StreetwearError::InvalidCondition => 4,
            StreetwearError::InvalidYear => 5,
            StreetwearError::InvalidBrand => 6,
            StreetwearError::InvalidModel => 7,
            StreetwearError::InvalidPrice => 8,
            StreetwearError::NotOwner => 9,
            StreetwearError::MissingDestination => 10,
            StreetwearError::AddressCollision => 11,
        };
        ERROR_CODE_OFFSET + position
    }

    /// The message of the error, for display beside its code.
    pub fn message(&self) -> (text: String)
        ensures
            text@ == self.message_text(),
    {
        let text: &str = match self {
            StreetwearError::AlreadyListed => "Asset is already listed",
            StreetwearError::NotListed => "Asset is not listed",
            StreetwearError::InvalidRarity => "Invalid rarity level",
            StreetwearError::InsufficientFunds => "Insufficient funds",
            StreetwearError::InvalidCondition => "Invalid condition",
            StreetwearError::InvalidYear => "Year must be between 1990 and current year",
            StreetwearError::InvalidBrand => "Brand cannot be empty",
            StreetwearError::InvalidModel => "Model cannot be empty",
            StreetwearError::InvalidPrice => "Price must be greater than 0",
            StreetwearError::NotOwner => "Caller is not the owner",
            StreetwearError::MissingDestination => "Destination holding is missing",
            StreetwearError::AddressCollision => "Address is already in use",
        };
        text.to_owned()
    }
}

} // verus!
