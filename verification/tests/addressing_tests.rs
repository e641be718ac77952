use streetwear_tokenizer::{
    asset_address, asset_is_at, escrow_address, escrow_is_at, is_location, EscrowAccount,
    EscrowState, Pubkey, Rarity, StreetwearAsset,
};

fn party(tag: u8) -> Pubkey {
    Pubkey::new_from_array([tag; 32])
}

fn derived(namespace: &[u8], program: u8, holder: u8, mint: u8) -> (Pubkey, u8) {
    let program_id = anchor_lang::prelude::Pubkey::new_from_array([program; 32]);
    let (address, bump) = anchor_lang::prelude::Pubkey::find_program_address(
        &[namespace, &[holder; 32], &[mint; 32]],
        &program_id,
    );
    (Pubkey::new_from_array(address.to_bytes()), bump)
}

fn record(owner: u8, mint: u8, bump: u8) -> StreetwearAsset {
    StreetwearAsset {
        owner: party(owner),
        mint: party(mint),
        name: "Superstar".to_string(),
        symbol: "SST".to_string(),
        uri: "https://example.org/sst.json".to_string(),
        brand: "Adidas".to_string(),
        model: "Superstar 80s".to_string(),
        size: "EU 43".to_string(),
        condition: "New".to_string(),
        year: 2008,
        rarity: Rarity::Common,
        is_listed: false,
        bump,
    }
}

#[test]
fn asset_address_is_the_derivation_in_the_asset_namespace() {
    let found = asset_address(&party(9), &party(1), &party(2));
    assert_eq!(found, Some(derived(b"asset", 9, 1, 2)));
}

#[test]
fn escrow_address_is_the_derivation_in_the_escrow_namespace() {
    let found = escrow_address(&party(9), &party(1), &party(2));
    assert_eq!(found, Some(derived(b"escrow", 9, 1, 2)));
}

#[test]
fn addresses_differ_from_their_inputs_and_between_namespaces() {
    let (asset, _) = asset_address(&party(9), &party(1), &party(2)).unwrap();
    let (escrow, _) = escrow_address(&party(9), &party(1), &party(2)).unwrap();
    assert_ne!(asset, escrow);
    assert_ne!(asset, party(9));
    assert_ne!(asset, party(1));
    assert_ne!(asset, party(2));
    let (swapped, _) = asset_address(&party(9), &party(2), &party(1)).unwrap();
    assert_ne!(asset, swapped);
    let (other_program, _) = asset_address(&party(8), &party(1), &party(2)).unwrap();
    assert_ne!(asset, other_program);
}

#[test]
fn independent_callers_agree_on_the_address() {
    assert_eq!(
        asset_address(&party(9), &party(1), &party(2)),
        asset_address(&party(9), &party(1), &party(2))
    );
    assert_eq!(
        escrow_address(&party(9), &party(4), &party(5)),
        escrow_address(&party(9), &party(4), &party(5))
    );
}

#[test]
fn is_location_compares_address_and_proof() {
    let found = Some((party(3), 250));
    assert!(is_location(found, &party(3), 250));
    assert!(!is_location(found, &party(3), 251));
    assert!(!is_location(found, &party(4), 250));
    assert!(!is_location(None, &party(3), 250));
}

#[test]
fn asset_is_at_its_derived_address_only() {
    let (address, bump) = derived(b"asset", 9, 1, 2);
    assert!(asset_is_at(&party(9), &record(1, 2, bump), &address));
    assert!(!asset_is_at(&party(9), &record(1, 2, bump.wrapping_add(1)), &address));
    assert!(!asset_is_at(&party(9), &record(3, 2, bump), &address));
    assert!(!asset_is_at(&party(9), &record(1, 2, bump), &party(1)));
}

#[test]
fn escrow_is_at_its_derived_address_only() {
    let (address, bump) = derived(b"escrow", 9, 1, 2);
    let escrow = EscrowAccount {
        seller: party(1),
        nft_mint: party(2),
        price: 10,
        state: EscrowState::Listed,
        bump,
    };
    assert!(escrow_is_at(&party(9), &escrow, &address));
    let (asset_place, _) = derived(b"asset", 9, 1, 2);
    assert!(!escrow_is_at(&party(9), &escrow, &asset_place));
    assert!(!escrow_is_at(&party(7), &escrow, &address));
}
