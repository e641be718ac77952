//! Certificates of authenticity for streetwear items and the escrow
//! marketplace that trades them.
//!
//! Every operation works on a context of plain records: the records it reads,
//! the storage slots it fills and the holdings it moves. An operation either
//! commits all of its changes or leaves the context exactly as it found it.

pub mod addressing;
pub mod errors;
pub mod escrow;
pub mod events;
pub mod identity;
pub mod laws;
pub mod layout;
pub mod records;
pub mod registry;
pub mod swap;

pub use errors::StreetwearError;
pub use events::{ListingCancelled, NftListed, NftSold, StreetwearTokenized};
pub use identity::Pubkey;
pub use records::{EscrowAccount, EscrowState, Rarity, StreetwearAsset, SystemAccount, TokenAccount};
pub use escrow::{buy_nft, cancel_listing, list_nft, BuyNft, CancelListing, ListNft};
pub use registry::{tokenize_streetwear, validate_description, TokenizeStreetwear, CURRENT_YEAR, MIN_YEAR};
pub use addressing::{asset_address, asset_is_at, escrow_address, escrow_is_at, is_location};
pub use layout::{decode_asset, decode_escrow, encode_asset, encode_escrow, ESCROW_RECORD_LEN};
