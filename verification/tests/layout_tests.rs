use streetwear_tokenizer::{
    decode_escrow, encode_escrow, EscrowAccount, EscrowState, Pubkey, ESCROW_RECORD_LEN,
};

fn sample(state: EscrowState) -> EscrowAccount {
    EscrowAccount {
        seller: Pubkey::new_from_array([0xAA; 32]),
        nft_mint: Pubkey::new_from_array([0xBB; 32]),
        price: 0x0102_0304_0506_0708,
        state,
        bump: 0xFE,
    }
}

fn sample_bytes(tag: u8) -> Vec<u8> {
    let mut bytes = vec![0xAA; 32];
    bytes.extend_from_slice(&[0xBB; 32]);
    bytes.extend_from_slice(&[0x08, 0x07, 0x06, 0x05, 0x04, 0x03, 0x02, 0x01]);
    bytes.push(tag);
    bytes.push(0xFE);
    bytes
}

#[test]
fn encode_escrow_lays_fields_out_in_order() {
    assert_eq!(ESCROW_RECORD_LEN, 74);
    assert_eq!(encode_escrow(&sample(EscrowState::Listed)), sample_bytes(0));
    assert_eq!(encode_escrow(&sample(EscrowState::Sold)), sample_bytes(1));
    assert_eq!(encode_escrow(&sample(EscrowState::Cancelled)), sample_bytes(2));
}

#[test]
fn decode_escrow_reads_fields_back() {
    assert_eq!(decode_escrow(&sample_bytes(0)), Some(sample(EscrowState::Listed)));
    assert_eq!(decode_escrow(&sample_bytes(1)), Some(sample(EscrowState::Sold)));
    assert_eq!(decode_escrow(&sample_bytes(2)), Some(sample(EscrowState::Cancelled)));
}

#[test]
fn decode_escrow_refuses_unknown_state_and_wrong_length() {
    assert_eq!(decode_escrow(&sample_bytes(3)), None);
    assert_eq!(decode_escrow(&sample_bytes(255)), None);
    let mut short = sample_bytes(0);
    short.pop();
    assert_eq!(decode_escrow(&short), None);
    let mut long = sample_bytes(0);
    long.push(0);
    assert_eq!(decode_escrow(&long), None);
    assert_eq!(decode_escrow(&[]), None);
}

#[test]
fn escrow_layout_round_trips() {
    let records = [
        EscrowAccount {
            seller: Pubkey::new_from_array([0; 32]),
            nft_mint: Pubkey::new_from_array([255; 32]),
            price: u64::MAX,
            state: EscrowState::Sold,
            bump: 0,
        },
        EscrowAccount {
            seller: Pubkey::new_from_array([3; 32]),
            nft_mint: Pubkey::new_from_array([4; 32]),
            price: 1,
            state: EscrowState::Listed,
            bump: 255,
        },
    ];
    for record in records {
        assert_eq!(decode_escrow(&encode_escrow(&record)), Some(record));
    }
}

#[test]
fn encode_asset_lays_fields_out_in_order() {
    let asset = streetwear_tokenizer::StreetwearAsset {
        owner: Pubkey::new_from_array([0x11; 32]),
        mint: Pubkey::new_from_array([0x22; 32]),
        name: "AB".to_string(),
        symbol: "".to_string(),
        uri: "u".to_string(),
        brand: "Nike".to_string(),
        model: "é".to_string(),
        size: "9".to_string(),
        condition: "ok".to_string(),
        year: 0x07E0,
        rarity: streetwear_tokenizer::Rarity::Epic,
        is_listed: true,
        bump: 0xFD,
    };
    let mut expected = vec![0x11; 32];
    expected.extend_from_slice(&[0x22; 32]);
    expected.extend_from_slice(&[2, 0, 0, 0, b'A', b'B']);
    expected.extend_from_slice(&[0, 0, 0, 0]);
    expected.extend_from_slice(&[1, 0, 0, 0, b'u']);
    expected.extend_from_slice(&[4, 0, 0, 0, b'N', b'i', b'k', b'e']);
    expected.extend_from_slice(&[2, 0, 0, 0, 0xC3, 0xA9]);
    expected.extend_from_slice(&[1, 0, 0, 0, b'9']);
    expected.extend_from_slice(&[2, 0, 0, 0, b'o', b'k']);
    expected.extend_from_slice(&[0xE0, 0x07]);
    expected.extend_from_slice(&[3, 1, 0xFD]);
    assert_eq!(streetwear_tokenizer::encode_asset(&asset), Some(expected));
}

#[test]
fn encode_asset_tags_rarity_and_flag() {
    let mut asset = streetwear_tokenizer::StreetwearAsset {
        owner: Pubkey::new_from_array([0; 32]),
        mint: Pubkey::new_from_array([0; 32]),
        name: String::new(),
        symbol: String::new(),
        uri: String::new(),
        brand: String::new(),
        model: String::new(),
        size: String::new(),
        condition: String::new(),
        year: 1990,
        rarity: streetwear_tokenizer::Rarity::Common,
        is_listed: false,
        bump: 7,
    };
    let bytes = streetwear_tokenizer::encode_asset(&asset).unwrap();
    assert_eq!(bytes.len(), 64 + 7 * 4 + 2 + 3);
    assert_eq!(&bytes[92..], &[0xC6, 0x07, 0, 0, 7]);
    asset.rarity = streetwear_tokenizer::Rarity::Legendary;
    asset.is_listed = true;
    let bytes = streetwear_tokenizer::encode_asset(&asset).unwrap();
    assert_eq!(&bytes[92..], &[0xC6, 0x07, 4, 1, 7]);
}

fn described() -> streetwear_tokenizer::StreetwearAsset {
    streetwear_tokenizer::StreetwearAsset {
        owner: Pubkey::new_from_array([0x31; 32]),
        mint: Pubkey::new_from_array([0x32; 32]),
        name: "Yeezy Boost 350".to_string(),
        symbol: "YZY".to_string(),
        uri: "https://example.org/yzy.json".to_string(),
        brand: "Adidas".to_string(),
        model: "Boost 350 “Zebra”".to_string(),
        size: "EU 44½".to_string(),
        condition: "".to_string(),
        year: 2017,
        rarity: streetwear_tokenizer::Rarity::Rare,
        is_listed: false,
        bump: 252,
    }
}

#[test]
fn asset_layout_round_trips() {
    let asset = described();
    let bytes = streetwear_tokenizer::encode_asset(&asset).unwrap();
    assert_eq!(streetwear_tokenizer::decode_asset(&bytes), Some(asset));
}

#[test]
fn decode_asset_reads_fields_in_order() {
    let mut bytes = vec![0x11; 32];
    bytes.extend_from_slice(&[0x22; 32]);
    bytes.extend_from_slice(&[1, 0, 0, 0, b'n']);
    bytes.extend_from_slice(&[1, 0, 0, 0, b's']);
    bytes.extend_from_slice(&[1, 0, 0, 0, b'u']);
    bytes.extend_from_slice(&[1, 0, 0, 0, b'b']);
    bytes.extend_from_slice(&[2, 0, 0, 0, 0xC3, 0xA9]);
    bytes.extend_from_slice(&[0, 0, 0, 0]);
    bytes.extend_from_slice(&[1, 0, 0, 0, b'c']);
    bytes.extend_from_slice(&[0xE8, 0x07, 4, 1, 9]);
    let asset = streetwear_tokenizer::decode_asset(&bytes).unwrap();
    assert_eq!(asset.owner, Pubkey::new_from_array([0x11; 32]));
    assert_eq!(asset.mint, Pubkey::new_from_array([0x22; 32]));
    assert_eq!(asset.name, "n");
    assert_eq!(asset.symbol, "s");
    assert_eq!(asset.uri, "u");
    assert_eq!(asset.brand, "b");
    assert_eq!(asset.model, "é");
    assert_eq!(asset.size, "");
    assert_eq!(asset.condition, "c");
    assert_eq!(asset.year, 2024);
    assert_eq!(asset.rarity, streetwear_tokenizer::Rarity::Legendary);
    assert!(asset.is_listed);
    assert_eq!(asset.bump, 9);
}

#[test]
fn decode_asset_refuses_what_is_no_layout() {
    let good = streetwear_tokenizer::encode_asset(&described()).unwrap();
    let end = good.len();
    assert!(streetwear_tokenizer::decode_asset(&good).is_some());
    assert_eq!(streetwear_tokenizer::decode_asset(&good[..end - 1]), None);
    assert_eq!(streetwear_tokenizer::decode_asset(&good[..63]), None);
    assert_eq!(streetwear_tokenizer::decode_asset(&[]), None);
    let mut long = good.clone();
    long.push(0);
    assert_eq!(streetwear_tokenizer::decode_asset(&long), None);
    let mut rarity = good.clone();
    rarity[end - 3] = 5;
    assert_eq!(streetwear_tokenizer::decode_asset(&rarity), None);
    let mut flag = good.clone();
    flag[end - 2] = 2;
    assert_eq!(streetwear_tokenizer::decode_asset(&flag), None);
    let mut text = good.clone();
    text[68] = 0xFF;
    assert_eq!(streetwear_tokenizer::decode_asset(&text), None);
    let mut count = good.clone();
    count[67] = 0x7F;
    assert_eq!(streetwear_tokenizer::decode_asset(&count), None);
}
