use streetwear_tokenizer::{
    tokenize_streetwear, validate_description, Pubkey, Rarity, StreetwearAsset, StreetwearError,
    StreetwearTokenized, TokenAccount, TokenizeStreetwear, CURRENT_YEAR, MIN_YEAR,
};

fn key(tag: u8) -> Pubkey {
    Pubkey::new_from_array([tag; 32])
}

fn vacant_registration() -> TokenizeStreetwear {
    TokenizeStreetwear {
        owner: key(1),
        mint: key(2),
        token_account: None,
        asset_account: None,
        bump: 254,
    }
}

fn tokenize_with(
    ctx: &mut TokenizeStreetwear,
    brand: &str,
    model: &str,
    year: u16,
) -> Result<StreetwearTokenized, StreetwearError> {
    tokenize_streetwear(
        ctx,
        "Air Max 1".to_string(),
        "AM1".to_string(),
        "https://example.org/am1.json".to_string(),
        brand.to_string(),
        model.to_string(),
        "US 10".to_string(),
        "Deadstock".to_string(),
        year,
        Rarity::Epic,
    )
}

#[test]
fn tokenize_creates_unlisted_asset_and_one_unit() {
    let mut ctx = vacant_registration();
    let event = tokenize_with(&mut ctx, "Nike", "Air Max", 2015).unwrap();
    assert_eq!(
        ctx.asset_account,
        Some(StreetwearAsset {
            owner: key(1),
            mint: key(2),
            name: "Air Max 1".to_string(),
            symbol: "AM1".to_string(),
            uri: "https://example.org/am1.json".to_string(),
            brand: "Nike".to_string(),
            model: "Air Max".to_string(),
            size: "US 10".to_string(),
            condition: "Deadstock".to_string(),
            year: 2015,
            rarity: Rarity::Epic,
            is_listed: false,
            bump: 254,
        })
    );
    assert_eq!(ctx.token_account, Some(TokenAccount { mint: key(2), owner: key(1), amount: 1 }));
    assert_eq!(ctx.owner, key(1));
    assert_eq!(ctx.mint, key(2));
    assert_eq!(
        event,
        StreetwearTokenized {
            mint: key(2),
            owner: key(1),
            brand: "Nike".to_string(),
            model: "Air Max".to_string(),
            rarity: Rarity::Epic,
        }
    );
}

#[test]
fn tokenize_year_below_range_is_invalid() {
    let mut ctx = vacant_registration();
    assert_eq!(tokenize_with(&mut ctx, "Nike", "Air Max", 1989), Err(StreetwearError::InvalidYear));
    assert_eq!(ctx, vacant_registration());
}

#[test]
fn tokenize_year_above_range_is_invalid() {
    let mut ctx = vacant_registration();
    assert_eq!(tokenize_with(&mut ctx, "Nike", "Air Max", 2025), Err(StreetwearError::InvalidYear));
    assert_eq!(ctx, vacant_registration());
}

#[test]
fn tokenize_accepts_both_year_bounds() {
    assert_eq!(MIN_YEAR, 1990);
    assert_eq!(CURRENT_YEAR, 2024);
    let mut low = vacant_registration();
    assert!(tokenize_with(&mut low, "Nike", "Air Max", 1990).is_ok());
    assert_eq!(low.asset_account.unwrap().year, 1990);
    let mut high = vacant_registration();
    assert!(tokenize_with(&mut high, "Nike", "Air Max", 2024).is_ok());
    assert_eq!(high.asset_account.unwrap().year, 2024);
}

#[test]
fn tokenize_empty_brand_is_invalid() {
    let mut ctx = vacant_registration();
    assert_eq!(tokenize_with(&mut ctx, "", "Air Max", 2015), Err(StreetwearError::InvalidBrand));
    assert_eq!(ctx, vacant_registration());
}

#[test]
fn tokenize_empty_model_is_invalid() {
    let mut ctx = vacant_registration();
    assert_eq!(tokenize_with(&mut ctx, "Nike", "", 2015), Err(StreetwearError::InvalidModel));
    assert_eq!(ctx, vacant_registration());
}

#[test]
fn tokenize_reports_year_before_brand_before_model() {
    let mut ctx = vacant_registration();
    assert_eq!(tokenize_with(&mut ctx, "", "", 1989), Err(StreetwearError::InvalidYear));
    assert_eq!(tokenize_with(&mut ctx, "", "", 2000), Err(StreetwearError::InvalidBrand));
}

#[test]
fn tokenize_twice_collides() {
    let mut ctx = vacant_registration();
    assert!(tokenize_with(&mut ctx, "Nike", "Air Max", 2015).is_ok());
    let after_first = ctx.clone();
    assert_eq!(
        tokenize_with(&mut ctx, "Adidas", "Samba", 2020),
        Err(StreetwearError::AddressCollision)
    );
    assert_eq!(ctx, after_first);
}

#[test]
fn tokenize_occupied_holding_collides() {
    let mut ctx = vacant_registration();
    ctx.token_account = Some(TokenAccount { mint: key(2), owner: key(1), amount: 0 });
    let before = ctx.clone();
    assert_eq!(
        tokenize_with(&mut ctx, "Nike", "Air Max", 2015),
        Err(StreetwearError::AddressCollision)
    );
    assert_eq!(ctx, before);
}

#[test]
fn validate_description_accepts_and_refuses() {
    let brand = "Nike".to_string();
    let model = "Dunk".to_string();
    let empty = String::new();
    assert_eq!(validate_description(&brand, &model, 2001), Ok(()));
    assert_eq!(validate_description(&brand, &model, 0), Err(StreetwearError::InvalidYear));
    assert_eq!(validate_description(&brand, &model, u16::MAX), Err(StreetwearError::InvalidYear));
    assert_eq!(validate_description(&empty, &model, 2001), Err(StreetwearError::InvalidBrand));
    assert_eq!(validate_description(&brand, &empty, 2001), Err(StreetwearError::InvalidModel));
}

#[test]
fn error_codes_and_messages() {
    assert_eq!(StreetwearError::AlreadyListed.code(), 6000);
    assert_eq!(StreetwearError::NotListed.code(), 6001);
    assert_eq!(StreetwearError::InvalidRarity.code(), 6002);
    assert_eq!(StreetwearError::InsufficientFunds.code(), 6003);
    assert_eq!(StreetwearError::InvalidCondition.code(), 6004);
    assert_eq!(StreetwearError::InvalidYear.code(), 6005);
    assert_eq!(StreetwearError::InvalidBrand.code(), 6006);
    assert_eq!(StreetwearError::InvalidModel.code(), 6007);
    assert_eq!(StreetwearError::InvalidPrice.code(), 6008);
    assert_eq!(StreetwearError::NotOwner.code(), 6009);
    assert_eq!(StreetwearError::MissingDestination.code(), 6010);
    assert_eq!(StreetwearError::AddressCollision.code(), 6011);
    assert_eq!(StreetwearError::AlreadyListed.message(), "Asset is already listed");
    assert_eq!(StreetwearError::NotListed.message(), "Asset is not listed");
    assert_eq!(
        StreetwearError::InvalidYear.message(),
        "Year must be between 1990 and current year"
    );
    assert_eq!(StreetwearError::InvalidPrice.message(), "Price must be greater than 0");
}

#[test]
fn pubkey_equality_is_bytewise() {
    let mut bytes = [7u8; 32];
    let a = Pubkey::new_from_array(bytes);
    assert!(a.same(&Pubkey::new_from_array([7u8; 32])));
    assert_eq!(a.to_bytes(), [7u8; 32]);
    bytes[31] = 8;
    let b = Pubkey::new_from_array(bytes);
    assert!(!a.same(&b));
    assert!(a != b);
    assert!(a == a);
}
