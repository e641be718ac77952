//! The stored layouts of the records, field after field in the order of
//! their declaration. Integers are stored in little-endian order, a text as
//! the number of its UTF-8 bytes in four bytes followed by those bytes, and a
//! choice among variants as the position of the variant in one byte.

use vstd::prelude::*;
use vstd::bytes::{
    lemma_auto_spec_u16_to_from_le_bytes, lemma_auto_spec_u32_to_from_le_bytes,
    lemma_auto_spec_u64_to_from_le_bytes, spec_u16_to_le_bytes, spec_u32_to_le_bytes,
    spec_u64_from_le_bytes, spec_u64_to_le_bytes, u16_from_le_bytes, u16_to_le_bytes,
    u32_from_le_bytes, u32_to_le_bytes, u64_from_le_bytes, u64_to_le_bytes,
};
use vstd::slice::{slice_subrange, slice_to_vec};
use vstd::utf8::{
    decode_utf8, decode_utf8_encode_utf8, encode_utf8, encode_utf8_decode_utf8,
    encode_utf8_valid_utf8, valid_utf8,
};
use crate::identity::Pubkey;
use crate::records::{EscrowAccount, EscrowState, Rarity, StreetwearAsset};

verus! {

/// The number of bytes an escrow record takes: two identities of 32 bytes,
/// a price of 8, and one byte each for state and addressing proof.
pub const ESCROW_RECORD_LEN: usize = 74;

/// The byte that stands for a state: its position among the states.
pub open spec fn state_tag(state: EscrowState) -> u8 {
    match state {
        EscrowState::Listed => 0,
        EscrowState::Sold => 1,
        EscrowState::Cancelled => 2,
    }
}

/// The bytes of an escrow record: the seller, the certificate, the price in
/// little-endian order, the state's tag, the addressing proof.
pub open spec fn escrow_layout(escrow: EscrowAccount) -> Seq<u8> {
    escrow.seller@ + escrow.nft_mint@ + spec_u64_to_le_bytes(escrow.price) + seq![
        state_tag(escrow.state),
        escrow.bump,
    ]
}

/// Whether the bytes have the length of an escrow record and a known state
/// tag at the state's place.
pub open spec fn is_escrow_layout(bytes: Seq<u8>) -> bool {
    bytes.len() == ESCROW_RECORD_LEN && bytes[72] <= 2
}

/// Every escrow record is laid out in `ESCROW_RECORD_LEN` bytes with a
/// known state tag, and two records with the same bytes are the same record.
pub proof fn law_escrow_layout_is_faithful(a: EscrowAccount, b: EscrowAccount)
    ensures
        is_escrow_layout(escrow_layout(a)),
        escrow_layout(a) == escrow_layout(b) ==> a == b,
{
    lemma_auto_spec_u64_to_from_le_bytes();
    let la = escrow_layout(a);
    let lb = escrow_layout(b);
    assert(la.len() == 74);
    assert(la[72] == state_tag(a.state));
    if la == lb {
        assert(a.seller@ =~= la.subrange(0, 32));
        assert(b.seller@ =~= lb.subrange(0, 32));
        assert(a.nft_mint@ =~= la.subrange(32, 64));
        assert(b.nft_mint@ =~= lb.subrange(32, 64));
        assert(spec_u64_to_le_bytes(a.price) =~= la.subrange(64, 72));
        assert(spec_u64_to_le_bytes(b.price) =~= lb.subrange(64, 72));
        assert(a.price == spec_u64_from_le_bytes(spec_u64_to_le_bytes(a.price)));
        assert(b.price == spec_u64_from_le_bytes(spec_u64_to_le_bytes(b.price)));
        assert(la[72] == state_tag(a.state) && lb[72] == state_tag(b.state));
        assert(la[73] == a.bump && lb[73] == b.bump);
        assert(a.seller.bytes =~= b.seller.bytes);
        assert(a.nft_mint.bytes =~= b.nft_mint.bytes);
    }
}

/// Appends the bytes of an identity.
fn put_key(out: &mut Vec<u8>, key: &Pubkey)
    ensures
        final(out)@ == old(out)@ + key@,
{
    let ghost before = out@;
    let mut i: usize = 0;
    while i < 32
        invariant
            i <= 32,
            out@ == before + key@.subrange(0, i as int),
        decreases 32 - i,
    {
        out.push(key.bytes[i]);
        i += 1;
        proof {
            assert(out@ =~= before + key@.subrange(0, i as int));
        }
    }
    proof {
        assert(key@.subrange(0, 32) =~= key@);
    }
}

/// Reads the identity that starts at `start`.
fn take_key(bytes: &[u8], start: usize) -> (key: Pubkey)
    requires
        start + 32 <= bytes@.len(),
    ensures
        key@ == bytes@.subrange(start as int, start + 32),
{
    let mut raw: [u8; 32] = [0u8; 32];
    let len: usize = bytes.len();
    let mut i: usize = 0;
    while i < 32
        invariant
            i <= 32,
            len == bytes@.len(),
            start + 32 <= len,
            forall|j: int| 0 <= j < i ==> raw[j] == bytes@[start + j],
        decreases 32 - i,
    {
        raw[i] = bytes[start + i];
        i += 1;
    }
    let key = Pubkey { bytes: raw };
    proof {
        assert(key@ =~= bytes@.subrange(start as int, start + 32));
    }
    key
}

/// The bytes of the record, as stored.
pub fn encode_escrow(escrow: &EscrowAccount) -> (bytes: Vec<u8>)
    ensures
        bytes@ == escrow_layout(*escrow),
        bytes@.len() == ESCROW_RECORD_LEN,
{
    let mut bytes: Vec<u8> = Vec::new();
    put_key(&mut bytes, &escrow.seller);
    put_key(&mut bytes, &escrow.nft_mint);
    let price: Vec<u8> = u64_to_le_bytes(escrow.price);
    let mut i: usize = 0;
    while i < 8
        invariant
            i <= 8,
            price@.len() == 8,
            bytes@ == escrow.seller@ + escrow.nft_mint@ + price@.subrange(0, i as int),
        decreases 8 - i,
    {
        bytes.push(price[i]);
        i += 1;
        proof {
            assert(bytes@ =~= escrow.seller@ + escrow.nft_mint@ + price@.subrange(0, i as int));
        }
    }
    let tag: u8 = match escrow.state {
        EscrowState::Listed => 0,
        EscrowState::Sold => 1,
        EscrowState::Cancelled => 2,
    };
    bytes.push(tag);
    bytes.push(escrow.bump);
    proof {
        assert(price@.subrange(0, 8) =~= price@);
        assert(bytes@ =~= escrow_layout(*escrow));
    }
    bytes
}

/// The record that the bytes store: `Some` exactly when the bytes have the
/// length of a record and a known state tag, and then the one record that
/// is laid out as these bytes.
pub fn decode_escrow(bytes: &[u8]) -> (result: Option<EscrowAccount>)
    ensures
        result is Some <==> is_escrow_layout(bytes@),
        result is Some ==> escrow_layout(result->Some_0) == bytes@,
        forall|escrow: EscrowAccount| escrow_layout(escrow) == bytes@ ==> result == Some(escrow),
{
    proof {
        assert forall|escrow: EscrowAccount| escrow_layout(escrow) == bytes@ implies is_escrow_layout(
            bytes@,
        ) by {
            law_escrow_layout_is_faithful(escrow, escrow);
        }
    }
    if bytes.len() != ESCROW_RECORD_LEN {
        return None;
    }
    let state: EscrowState = match bytes[72] {
        0 => EscrowState::Listed,
        1 => EscrowState::Sold,
        2 => EscrowState::Cancelled,
        _ => {
            return None;
        },
    };
    let seller: Pubkey = take_key(bytes, 0);
    let nft_mint: Pubkey = take_key(bytes, 32);
    let price: u64 = u64_from_le_bytes(slice_subrange(bytes, 64, 72));
    let escrow = EscrowAccount { seller, nft_mint, price, state, bump: bytes[73] };
    proof {
        lemma_auto_spec_u64_to_from_le_bytes();
        assert(spec_u64_to_le_bytes(price) == bytes@.subrange(64, 72));
        assert(escrow_layout(escrow) =~= bytes@);
        assert forall|other: EscrowAccount| escrow_layout(other) == bytes@ implies other
            == escrow by {
            law_escrow_layout_is_faithful(other, escrow);
        }
    }
    Some(escrow)
}

/// The byte that stands for a rarity: its position among the rarities.
pub open spec fn rarity_tag(rarity: Rarity) -> u8 {
    match rarity {
        Rarity::Common => 0,
        Rarity::Uncommon => 1,
        Rarity::Rare => 2,
        Rarity::Epic => 3,
        Rarity::Legendary => 4,
    }
}

/// The byte that stands for a flag.
pub open spec fn flag_tag(flag: bool) -> u8 {
    if flag {
        1
    } else {
        0
    }
}

/// Whether the text can be stored: the number of its bytes fits in four
/// bytes.
pub open spec fn text_fits(text: Seq<char>) -> bool {
    encode_utf8(text).len() <= u32::MAX
}

/// The bytes of a text: the number of its UTF-8 bytes, then those bytes.
pub open spec fn text_layout(text: Seq<char>) -> Seq<u8> {
    spec_u32_to_le_bytes(encode_utf8(text).len() as u32) + encode_utf8(text)
}

/// Whether every text of the record can be stored.
pub open spec fn asset_fits(asset: StreetwearAsset) -> bool {
    &&& text_fits(asset.name@)
    &&& text_fits(asset.symbol@)
    &&& text_fits(asset.uri@)
    &&& text_fits(asset.brand@)
    &&& text_fits(asset.model@)
    &&& text_fits(asset.size@)
    &&& text_fits(asset.condition@)
}

/// The bytes of an asset record: owner, certificate, the seven texts of the
/// description, the year, the rarity's tag, the listing flag, the
/// addressing proof.
pub open spec fn asset_layout(asset: StreetwearAsset) -> Seq<u8> {
    asset.owner@ + asset.mint@ + text_layout(asset.name@) + text_layout(asset.symbol@)
        + text_layout(asset.uri@) + text_layout(asset.brand@) + text_layout(asset.model@)
        + text_layout(asset.size@) + text_layout(asset.condition@) + spec_u16_to_le_bytes(
        asset.year,
    ) + seq![rarity_tag(asset.rarity), flag_tag(asset.is_listed), asset.bump]
}

/// Appends the given bytes.
fn put_bytes(out: &mut Vec<u8>, bytes: &[u8])
    ensures
        final(out)@ == old(out)@ + bytes@,
{
    let ghost before = out@;
    let len: usize = bytes.len();
    let mut i: usize = 0;
    while i < len
        invariant
            i <= len,
            len == bytes@.len(),
            out@ == before + bytes@.subrange(0, i as int),
        decreases len - i,
    {
        out.push(bytes[i]);
        i += 1;
        proof {
            assert(out@ =~= before + bytes@.subrange(0, i as int));
        }
    }
    proof {
        assert(bytes@.subrange(0, len as int) =~= bytes@);
    }
}

/// Appends the layout of a text, if the text can be stored; reports whether
/// it could.
fn put_text(out: &mut Vec<u8>, text: &String) -> (stored: bool)
    ensures
        stored == text_fits(text@),
        final(out)@ == if stored {
            old(out)@ + text_layout(text@)
        } else {
            old(out)@
        },
{
    let raw: &[u8] = text.as_str().as_bytes();
    let len: usize = raw.len();
    if len > 0xFFFF_FFFFusize {
        return false;
    }
    let ghost before = out@;
    let prefix: Vec<u8> = u32_to_le_bytes(len as u32);
    put_bytes(out, prefix.as_slice());
    put_bytes(out, raw);
    proof {
        assert(out@ =~= before + text_layout(text@));
    }
    true
}

/// The bytes of the record, as stored, or `None` where a text of the record
/// is too long to be stored.
pub fn encode_asset(asset: &StreetwearAsset) -> (result: Option<Vec<u8>>)
    ensures
        result is Some <==> asset_fits(*asset),
        result is Some ==> result->Some_0@ == asset_layout(*asset),
{
    let mut bytes: Vec<u8> = Vec::new();
    put_key(&mut bytes, &asset.owner);
    put_key(&mut bytes, &asset.mint);
    if !put_text(&mut bytes, &asset.name) {
        return None;
    }
    if !put_text(&mut bytes, &asset.symbol) {
        return None;
    }
    if !put_text(&mut bytes, &asset.uri) {
        return None;
    }
    if !put_text(&mut bytes, &asset.brand) {
        return None;
    }
    if !put_text(&mut bytes, &asset.model) {
        return None;
    }
    if !put_text(&mut bytes, &asset.size) {
        return None;
    }
    if !put_text(&mut bytes, &asset.condition) {
        return None;
    }
    let year: Vec<u8> = u16_to_le_bytes(asset.year);
    put_bytes(&mut bytes, year.as_slice());
    let rarity: u8 = match asset.rarity {
        Rarity::Common => 0,
        Rarity::Uncommon => 1,
        Rarity::Rare => 2,
        Rarity::Epic => 3,
        Rarity::Legendary => 4,
    };
    bytes.push(rarity);
    bytes.push(if asset.is_listed { 1 } else { 0 });
    bytes.push(asset.bump);
    proof {
        assert(bytes@ =~= asset_layout(*asset));
    }
    Some(bytes)
}

/// The number of bytes that the layout of a text takes.
pub open spec fn text_len(text: Seq<char>) -> int {
    4 + encode_utf8(text).len() as int
}

/// Whether the layout of the text stands in the bytes at `pos`.
pub open spec fn text_at(bytes: Seq<u8>, pos: int, text: Seq<char>) -> bool {
    &&& text_fits(text)
    &&& 0 <= pos
    &&& pos + text_len(text) <= bytes.len()
    &&& bytes.subrange(pos, pos + text_len(text)) == text_layout(text)
}

/// Where the year of the record starts in its layout: behind the two
/// identities and the seven texts.
pub open spec fn texts_end(asset: StreetwearAsset) -> int {
    64 + text_len(asset.name@) + text_len(asset.symbol@) + text_len(asset.uri@) + text_len(
        asset.brand@,
    ) + text_len(asset.model@) + text_len(asset.size@) + text_len(asset.condition@)
}

/// Whether the fields of the record stand in the bytes, each at its place,
/// and nothing follows them.
pub open spec fn fields_at(bytes: Seq<u8>, asset: StreetwearAsset) -> bool {
    let name: int = 64;
    let symbol = name + text_len(asset.name@);
    let uri = symbol + text_len(asset.symbol@);
    let brand = uri + text_len(asset.uri@);
    let model = brand + text_len(asset.brand@);
    let size = model + text_len(asset.model@);
    let condition = size + text_len(asset.size@);
    let year = condition + text_len(asset.condition@);
    &&& bytes.len() == year + 5
    &&& bytes.subrange(0, 32) == asset.owner@
    &&& bytes.subrange(32, 64) == asset.mint@
    &&& text_at(bytes, name, asset.name@)
    &&& text_at(bytes, symbol, asset.symbol@)
    &&& text_at(bytes, uri, asset.uri@)
    &&& text_at(bytes, brand, asset.brand@)
    &&& text_at(bytes, model, asset.model@)
    &&& text_at(bytes, size, asset.size@)
    &&& text_at(bytes, condition, asset.condition@)
    &&& bytes.subrange(year, year + 2) == spec_u16_to_le_bytes(asset.year)
    &&& bytes[year + 2] == rarity_tag(asset.rarity)
    &&& bytes[year + 3] == flag_tag(asset.is_listed)
    &&& bytes[year + 4] == asset.bump
}

/// Two records with the same identities, texts, year, rarity, flag and
/// addressing proof.
pub open spec fn same_record(a: StreetwearAsset, b: StreetwearAsset) -> bool {
    &&& a.owner == b.owner
    &&& a.mint == b.mint
    &&& a.name@ == b.name@
    &&& a.symbol@ == b.symbol@
    &&& a.uri@ == b.uri@
    &&& a.brand@ == b.brand@
    &&& a.model@ == b.model@
    &&& a.size@ == b.size@
    &&& a.condition@ == b.condition@
    &&& a.year == b.year
    &&& a.rarity == b.rarity
    &&& a.is_listed == b.is_listed
    &&& a.bump == b.bump
}

/// A prefix of `whole` that is `head` followed by `part` holds `head` at
/// its start and `part` behind it.
proof fn lemma_split(whole: Seq<u8>, head: Seq<u8>, part: Seq<u8>, end: int)
    requires
        0 <= end <= whole.len(),
        whole.subrange(0, end) == head + part,
    ensures
        end == head.len() + part.len(),
        whole.subrange(0, head.len() as int) == head,
        whole.subrange(head.len() as int, end) == part,
{
    let prefix = whole.subrange(0, end);
    assert(prefix.len() == head.len() + part.len());
    assert(whole.subrange(0, head.len() as int) =~= prefix.subrange(0, head.len() as int));
    assert(prefix.subrange(0, head.len() as int) =~= head);
    assert(whole.subrange(head.len() as int, end) =~= prefix.subrange(head.len() as int, end));
    assert(prefix.subrange(head.len() as int, end) =~= part);
}

/// Where `whole` holds `head` at its start and `part` behind it, its prefix
/// up to the end of `part` is `head` followed by `part`.
proof fn lemma_join(whole: Seq<u8>, head: Seq<u8>, part: Seq<u8>, end: int)
    requires
        end == head.len() + part.len(),
        end <= whole.len(),
        whole.subrange(0, head.len() as int) == head,
        whole.subrange(head.len() as int, end) == part,
    ensures
        whole.subrange(0, end) == head + part,
{
    assert forall|i: int| 0 <= i < end implies whole.subrange(0, end)[i] == (head + part)[i] by {
        if i < head.len() {
            assert(whole.subrange(0, head.len() as int)[i] == whole[i]);
        } else {
            assert(whole.subrange(head.len() as int, end)[i - head.len()] == whole[i]);
        }
    }
    assert(whole.subrange(0, end) =~= head + part);
}

/// The layout of a record that can be stored holds its fields, each at its
/// place.
proof fn lemma_layout_holds_fields(asset: StreetwearAsset)
    requires
        asset_fits(asset),
    ensures
        fields_at(asset_layout(asset), asset),
{
    lemma_auto_spec_u16_to_from_le_bytes();
    lemma_auto_spec_u32_to_from_le_bytes();
    let whole = asset_layout(asset);
    let tail = seq![rarity_tag(asset.rarity), flag_tag(asset.is_listed), asset.bump];
    let s0 = asset.owner@ + asset.mint@;
    let s1 = s0 + text_layout(asset.name@);
    let s2 = s1 + text_layout(asset.symbol@);
    let s3 = s2 + text_layout(asset.uri@);
    let s4 = s3 + text_layout(asset.brand@);
    let s5 = s4 + text_layout(asset.model@);
    let s6 = s5 + text_layout(asset.size@);
    let s7 = s6 + text_layout(asset.condition@);
    let s8 = s7 + spec_u16_to_le_bytes(asset.year);
    assert(whole == s8 + tail);
    assert(whole.subrange(0, whole.len() as int) =~= whole);
    lemma_split(whole, s8, tail, whole.len() as int);
    lemma_split(whole, s7, spec_u16_to_le_bytes(asset.year), s8.len() as int);
    lemma_split(whole, s6, text_layout(asset.condition@), s7.len() as int);
    lemma_split(whole, s5, text_layout(asset.size@), s6.len() as int);
    lemma_split(whole, s4, text_layout(asset.model@), s5.len() as int);
    lemma_split(whole, s3, text_layout(asset.brand@), s4.len() as int);
    lemma_split(whole, s2, text_layout(asset.uri@), s3.len() as int);
    lemma_split(whole, s1, text_layout(asset.symbol@), s2.len() as int);
    lemma_split(whole, s0, text_layout(asset.name@), s1.len() as int);
    lemma_split(whole, asset.owner@, asset.mint@, s0.len() as int);
    assert(whole.subrange(s8.len() as int, whole.len() as int)[0] == whole[s8.len() as int]);
    assert(whole.subrange(s8.len() as int, whole.len() as int)[1] == whole[s8.len() as int + 1]);
    assert(whole.subrange(s8.len() as int, whole.len() as int)[2] == whole[s8.len() as int + 2]);
}

/// Bytes that hold the fields of a record, each at its place, are the
/// layout of the record.
proof fn lemma_fields_make_layout(bytes: Seq<u8>, asset: StreetwearAsset)
    requires
        fields_at(bytes, asset),
    ensures
        asset_fits(asset),
        asset_layout(asset) == bytes,
{
    lemma_auto_spec_u16_to_from_le_bytes();
    lemma_auto_spec_u32_to_from_le_bytes();
    let tail = seq![rarity_tag(asset.rarity), flag_tag(asset.is_listed), asset.bump];
    let s0 = asset.owner@ + asset.mint@;
    let s1 = s0 + text_layout(asset.name@);
    let s2 = s1 + text_layout(asset.symbol@);
    let s3 = s2 + text_layout(asset.uri@);
    let s4 = s3 + text_layout(asset.brand@);
    let s5 = s4 + text_layout(asset.model@);
    let s6 = s5 + text_layout(asset.size@);
    let s7 = s6 + text_layout(asset.condition@);
    let s8 = s7 + spec_u16_to_le_bytes(asset.year);
    lemma_join(bytes, asset.owner@, asset.mint@, 64);
    lemma_join(bytes, s0, text_layout(asset.name@), s0.len() + text_len(asset.name@));
    lemma_join(bytes, s1, text_layout(asset.symbol@), s1.len() + text_len(asset.symbol@));
    lemma_join(bytes, s2, text_layout(asset.uri@), s2.len() + text_len(asset.uri@));
    lemma_join(bytes, s3, text_layout(asset.brand@), s3.len() + text_len(asset.brand@));
    lemma_join(bytes, s4, text_layout(asset.model@), s4.len() + text_len(asset.model@));
    lemma_join(bytes, s5, text_layout(asset.size@), s5.len() + text_len(asset.size@));
    lemma_join(bytes, s6, text_layout(asset.condition@), s6.len() + text_len(asset.condition@));
    lemma_join(bytes, s7, spec_u16_to_le_bytes(asset.year), s7.len() as int + 2);
    assert(bytes.subrange(s8.len() as int, bytes.len() as int) =~= tail);
    lemma_join(bytes, s8, tail, bytes.len() as int);
    assert(bytes.subrange(0, bytes.len() as int) =~= bytes);
}

/// The bytes are the layout of a record that can be stored exactly when
/// its fields stand in them, each at its place.
pub proof fn law_asset_layout_places_fields(bytes: Seq<u8>, asset: StreetwearAsset)
    ensures
        (asset_fits(asset) && asset_layout(asset) == bytes) <==> fields_at(bytes, asset),
{
    if asset_fits(asset) && asset_layout(asset) == bytes {
        lemma_layout_holds_fields(asset);
    }
    if fields_at(bytes, asset) {
        lemma_fields_make_layout(bytes, asset);
    }
}

/// Calls `String::from_utf8` of std. Believed of it, as its documentation
/// says: it returns the text exactly when the bytes are valid UTF-8, and the
/// text is then the one that the bytes encode.
#[verifier::external_body]
fn text_from_utf8(bytes: Vec<u8>) -> (text: Option<String>)
    ensures
        text is Some <==> valid_utf8(bytes@),
        text is Some ==> text->Some_0@ == decode_utf8(bytes@),
{
    match String::from_utf8(bytes) {
        Ok(text) => Some(text),
        Err(_) => None,
    }
}

/// Reads the text whose layout stands at `pos`, and where that layout ends;
/// `None` where no text's layout stands there.
fn take_text(bytes: &[u8], pos: usize) -> (result: Option<(String, usize)>)
    requires
        pos <= bytes@.len(),
    ensures
        result is Some ==> text_at(bytes@, pos as int, result->Some_0.0@) && result->Some_0.1
            == pos + text_len(result->Some_0.0@),
        forall|text: Seq<char>| #[trigger]
            text_at(bytes@, pos as int, text) ==> result is Some && result->Some_0.0@ == text,
{
    proof {
        lemma_auto_spec_u32_to_from_le_bytes();
        assert forall|text: Seq<char>| #[trigger] text_at(bytes@, pos as int, text) implies {
            &&& pos + 4 <= bytes@.len()
            &&& bytes@.subrange(pos as int, pos + 4) == spec_u32_to_le_bytes(
                encode_utf8(text).len() as u32,
            )
            &&& bytes@.subrange(pos + 4, pos + text_len(text)) == encode_utf8(text)
            &&& valid_utf8(encode_utf8(text))
            &&& decode_utf8(encode_utf8(text)) == text
        } by {
            let whole = bytes@.subrange(pos as int, pos + text_len(text));
            assert(bytes@.subrange(pos as int, pos + 4) =~= whole.subrange(0, 4));
            assert(whole.subrange(0, 4) =~= spec_u32_to_le_bytes(encode_utf8(text).len() as u32));
            assert(bytes@.subrange(pos + 4, pos + text_len(text)) =~= whole.subrange(
                4,
                text_len(text),
            ));
            assert(whole.subrange(4, text_len(text)) =~= encode_utf8(text));
            encode_utf8_valid_utf8(text);
            encode_utf8_decode_utf8(text);
        }
    }
    let len: usize = bytes.len();
    if len - pos < 4 {
        return None;
    }
    let count: u32 = u32_from_le_bytes(slice_subrange(bytes, pos, pos + 4));
    if len - pos - 4 < count as usize {
        return None;
    }
    let end: usize = pos + 4 + count as usize;
    let raw: Vec<u8> = slice_to_vec(slice_subrange(bytes, pos + 4, end));
    match text_from_utf8(raw) {
        Some(text) => {
            proof {
                decode_utf8_encode_utf8(raw@);
                assert(bytes@.subrange(pos as int, end as int) =~= text_layout(text@));
            }
            Some((text, end))
        },
        None => None,
    }
}

/// The record that the bytes store: `Some` exactly when the bytes are the
/// layout of a record, and then a record with that layout. Every record
/// with that layout has the same fields.
pub fn decode_asset(bytes: &[u8]) -> (result: Option<StreetwearAsset>)
    ensures
        result is Some ==> asset_fits(result->Some_0) && asset_layout(result->Some_0) == bytes@,
        forall|asset: StreetwearAsset|
            asset_fits(asset) && #[trigger] asset_layout(asset) == bytes@ ==> result is Some
                && same_record(result->Some_0, asset),
{
    proof {
        lemma_auto_spec_u16_to_from_le_bytes();
        assert forall|asset: StreetwearAsset|
            asset_fits(asset) && #[trigger] asset_layout(asset) == bytes@ implies fields_at(
            bytes@,
            asset,
        ) by {
            law_asset_layout_places_fields(bytes@, asset);
        }
    }
    let len: usize = bytes.len();
    if len < 64 {
        return None;
    }
    let owner: Pubkey = take_key(bytes, 0);
    let mint: Pubkey = take_key(bytes, 32);
    let (name, at_symbol) = match take_text(bytes, 64) {
        Some(found) => found,
        None => {
            return None;
        },
    };
    let (symbol, at_uri) = match take_text(bytes, at_symbol) {
        Some(found) => found,
        None => {
            return None;
        },
    };
    let (uri, at_brand) = match take_text(bytes, at_uri) {
        Some(found) => found,
        None => {
            return None;
        },
    };
    let (brand, at_model) = match take_text(bytes, at_brand) {
        Some(found) => found,
        None => {
            return None;
        },
    };
    let (model, at_size) = match take_text(bytes, at_model) {
        Some(found) => found,
        None => {
            return None;
        },
    };
    let (size, at_condition) = match take_text(bytes, at_size) {
        Some(found) => found,
        None => {
            return None;
        },
    };
    let (condition, at_year) = match take_text(bytes, at_condition) {
        Some(found) => found,
        None => {
            return None;
        },
    };
    if len - at_year != 5 {
        return None;
    }
    let year: u16 = u16_from_le_bytes(slice_subrange(bytes, at_year, at_year + 2));
    let rarity: Rarity = match bytes[at_year + 2] {
        0 => Rarity::Common,
        1 => Rarity::Uncommon,
        2 => Rarity::Rare,
        3 => Rarity::Epic,
        4 => Rarity::Legendary,
        _ => {
            return None;
        },
    };
    let is_listed: bool = match bytes[at_year + 3] {
        0 => false,
        1 => true,
        _ => {
            return None;
        },
    };
    let asset = StreetwearAsset {
        owner,
        mint,
        name,
        symbol,
        uri,
        brand,
        model,
        size,
        condition,
        year,
        rarity,
        is_listed,
        bump: bytes[at_year + 4],
    };
    proof {
        assert(owner.bytes@ == bytes@.subrange(0, 32));
        assert(fields_at(bytes@, asset));
        law_asset_layout_places_fields(bytes@, asset);
        assert forall|other: StreetwearAsset|
            asset_fits(other) && #[trigger] asset_layout(other) == bytes@ implies same_record(
            asset,
            other,
        ) by {
            assert(fields_at(bytes@, other));
            assert(spec_u16_to_le_bytes(other.year) == spec_u16_to_le_bytes(year));
            assert(asset.owner.bytes =~= other.owner.bytes);
            assert(asset.mint.bytes =~= other.mint.bytes);
        }
    }
    Some(asset)
}

} // verus!
