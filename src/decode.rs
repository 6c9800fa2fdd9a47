use crate::address::Address;
use crate::errors::DecodeError;
use crate::text::{byte_len, trim_trailing_nul, utf8_len, without_trailing_nul};
use metaplex_token_metadata::state::Metadata;
use spl_token::solana_program::program_pack::Pack;
use vstd::prelude::*;

verus! {

/// Length in bytes of a token mint account.
pub const MINT_LEN: usize = 82;

/// The fields of a token mint that the pipeline reads.
#[derive(Debug, Clone, Copy, PartialEq, Eq, Structural)]
pub struct MintStruct {
    pub supply: u64,
    pub decimals: u8,
}

/// The little-endian integer held by the eight bytes of `d` from `at`.
pub open spec fn le_u64(d: Seq<u8>, at: int) -> int {
    d[at] as int + 0x100 * d[at + 1] + 0x1_0000 * d[at + 2] + 0x100_0000 * d[at + 3]
        + 0x1_0000_0000 * d[at + 4] + 0x100_0000_0000 * d[at + 5]
        + 0x1_0000_0000_0000 * d[at + 6] + 0x100_0000_0000_0000 * d[at + 7]
}

/// The four bytes of `d` from `at` are the tag of an optional key:
/// `[0, 0, 0, 0]` (absent) or `[1, 0, 0, 0]` (present).
pub open spec fn valid_key_tag(d: Seq<u8>, at: int) -> bool {
    &&& (d[at] == 0 || d[at] == 1)
    &&& d[at + 1] == 0
    &&& d[at + 2] == 0
    &&& d[at + 3] == 0
}

/// What a token mint account's data decodes to. The layout is an optional
/// mint authority (36 bytes), the supply (8 bytes, little endian), the
/// decimals (1 byte), the initialized flag (1 byte) and an optional freeze
/// authority (36 bytes). Only an initialized mint decodes.
pub open spec fn mint_layout(d: Seq<u8>) -> Option<MintStruct> {
    if d.len() == MINT_LEN && valid_key_tag(d, 0) && d[45] == 1 && valid_key_tag(d, 46) {
        Some(MintStruct { supply: le_u64(d, 36) as u64, decimals: d[44] })
    } else {
        None
    }
}

/// Relies on `spl_token::state::Mint::unpack` (through `Pack::unpack`): it
/// accepts exactly 82 bytes whose two key tags are well formed and whose
/// initialized flag is set, and reads the supply and the decimals from them.
#[verifier::external_body]
fn unpack_mint(data: &[u8]) -> (r: Option<MintStruct>)
    ensures
        r == mint_layout(data@),
{
    match spl_token::state::Mint::unpack(data) {
        Ok(m) => Some(MintStruct { supply: m.supply, decimals: m.decimals }),
        Err(_) => None,
    }
}

/// Decodes a token mint account's data.
pub fn decode_mint_account(data: &[u8]) -> (r: Result<MintStruct, DecodeError>)
    ensures
        r == match mint_layout(data@) {
            Some(m) => Ok::<MintStruct, DecodeError>(m),
            None => Err(DecodeError::DecodeMintFailed),
        },
        data@.len() < MINT_LEN ==> r == Err::<MintStruct, DecodeError>(
            DecodeError::DecodeMintFailed,
        ),
{
    match unpack_mint(data) {
        Some(m) => Ok(m),
        None => Err(DecodeError::DecodeMintFailed),
    }
}

/// The `n` low bytes of `x`, least significant first.
pub open spec fn le_bytes(x: nat, n: nat) -> Seq<u8>
    decreases n,
{
    if n == 0 {
        Seq::empty()
    } else {
        seq![(x % 256) as u8] + le_bytes(x / 256, (n - 1) as nat)
    }
}

/// The data of an initialized mint with no mint or freeze authority.
pub open spec fn mint_bytes(m: MintStruct) -> Seq<u8> {
    Seq::new(36, |i: int| 0u8) + le_bytes(m.supply as nat, 8) + seq![m.decimals, 1u8] + Seq::new(
        36,
        |i: int| 0u8,
    )
}

/// Decoding the data of a mint that was encoded gives the mint back.
pub proof fn lemma_mint_round_trip(m: MintStruct)
    ensures
        mint_layout(mint_bytes(m)) == Some(m),
{
    let d = mint_bytes(m);
    reveal_with_fuel(le_bytes, 9);
    let x = m.supply as nat;
    let b = le_bytes(x, 8);
    assert(b.len() == 8);
    assert(d.len() == MINT_LEN);
    assert forall|i: int| 0 <= i < 8 implies d[36 + i] == b[i] by {}
    assert(x / 256 / 256 / 256 / 256 / 256 / 256 / 256 / 256 == 0);
    assert(le_u64(d, 36) == x);
}

/// Encodes an initialized mint with no mint or freeze authority.
pub fn encode_mint_account(m: &MintStruct) -> (r: Vec<u8>)
    ensures
        r@ == mint_bytes(*m),
        mint_layout(r@) == Some(*m),
{
    let mut r: Vec<u8> = Vec::new();
    let mut i: usize = 0;
    while i < 36
        invariant
            i <= 36,
            r@ == Seq::new(i as nat, |j: int| 0u8),
        decreases 36 - i,
    {
        r.push(0);
        i = i + 1;
    }
    let mut v: u64 = m.supply;
    let mut k: usize = 0;
    while k < 8
        invariant
            k <= 8,
            r@.len() == 36 + k,
            r@.subrange(0, 36) == Seq::new(36, |j: int| 0u8),
            r@.subrange(36, 36 + k as int) + le_bytes(v as nat, (8 - k) as nat) == le_bytes(
                m.supply as nat,
                8,
            ),
        decreases 8 - k,
    {
        let ghost before = r@;
        r.push((v % 256) as u8);
        assert(r@.subrange(0, 36) =~= before.subrange(0, 36));
        assert(r@.subrange(36, 36 + k + 1) =~= before.subrange(36, 36 + k as int) + seq![
            (v % 256) as u8,
        ]);
        assert(le_bytes(v as nat, (8 - k) as nat) == seq![(v % 256) as u8] + le_bytes(
            (v / 256) as nat,
            (8 - k - 1) as nat,
        ));
        v = v / 256;
        k = k + 1;
    }
    r.push(m.decimals);
    r.push(1);
    i = 0;
    while i < 36
        invariant
            i <= 36,
            r@.len() == 46 + i,
            r@.subrange(0, 36) == Seq::new(36, |j: int| 0u8),
            r@.subrange(36, 44) == le_bytes(m.supply as nat, 8),
            r@.subrange(44, 46) == seq![m.decimals, 1u8],
            r@.subrange(46, 46 + i as int) == Seq::new(i as nat, |j: int| 0u8),
        decreases 36 - i,
    {
        let ghost before = r@;
        r.push(0);
        assert(r@.subrange(0, 36) =~= before.subrange(0, 36));
        assert(r@.subrange(36, 44) =~= before.subrange(36, 44));
        assert(r@.subrange(44, 46) =~= before.subrange(44, 46));
        assert(r@.subrange(46, 46 + i) =~= before.subrange(46, 46 + i as int));
        assert(r@.subrange(46, 46 + i + 1) =~= Seq::new((i + 1) as nat, |j: int| 0u8));
        i = i + 1;
    }
    assert(r@ =~= r@.subrange(0, 36) + r@.subrange(36, 44) + r@.subrange(44, 46) + r@.subrange(
        46,
        82,
    ));
    assert(r@ =~= mint_bytes(*m));
    proof {
        lemma_mint_round_trip(*m);
    }
    r
}

/// Longest name, in bytes, that a metadata record may hold.
pub const MAX_NAME_LENGTH: usize = 32;

/// Longest symbol, in bytes, that a metadata record may hold.
pub const MAX_SYMBOL_LENGTH: usize = 10;

/// Longest URI, in bytes, that a metadata record may hold.
pub const MAX_URI_LENGTH: usize = 200;

/// The bytes that every metadata record starts with: its kind (1 byte), its
/// update authority and its mint (32 bytes each), and the length of its name
/// (4 bytes).
pub const METADATA_HEADER_LEN: usize = 69;

/// The fields of a metadata record as they are stored: the strings keep
/// their padding.
pub struct MetadataFields {
    pub mint: Address,
    pub name: String,
    pub symbol: String,
    pub uri: String,
}

/// The fields of a metadata record that the pipeline reads.
#[derive(Debug)]
pub struct MetadataStruct {
    pub mint: Address,
    pub name: String,
    pub symbol: String,
    pub uri: String,
}

impl Clone for MetadataStruct {
    fn clone(&self) -> (r: Self)
        ensures
            r == *self,
    {
        MetadataStruct {
            mint: self.mint,
            name: self.name.clone(),
            symbol: self.symbol.clone(),
            uri: self.uri.clone(),
        }
    }
}

/// Mint, name, symbol and URI of a metadata record.
pub type MetadataView = (Seq<u8>, Seq<char>, Seq<char>, Seq<char>);

/// What borsh decodes from the start of `data` as a token metadata record:
/// its mint, name, symbol and URI, or `None` when the data does not hold one.
pub uninterp spec fn borsh_metadata(data: Seq<u8>) -> Option<(Seq<u8>, Seq<char>, Seq<char>, Seq<char>)>;

pub open spec fn fields_view(f: MetadataFields) -> MetadataView {
    (f.mint@, f.name@, f.symbol@, f.uri@)
}

pub open spec fn metadata_view(m: MetadataStruct) -> MetadataView {
    (m.mint@, m.name@, m.symbol@, m.uri@)
}

/// Relies on `solana_program::borsh::try_from_slice_unchecked` for the
/// `Metadata` record of `metaplex_token_metadata`: the fields decoded from the
/// start of the data. A record needs at least its kind, two keys and the
/// length of its name, so shorter data never decodes.
#[verifier::external_body]
fn unpack_metadata(data: &[u8]) -> (r: Option<MetadataFields>)
    ensures
        match r {
            Some(f) => borsh_metadata(data@) == Some(fields_view(f)),
            None => borsh_metadata(data@) is None,
        },
        data@.len() < METADATA_HEADER_LEN ==> r is None,
{
    match solana_program::borsh::try_from_slice_unchecked::<Metadata>(data) {
        Ok(m) => Some(MetadataFields {
            mint: m.mint.to_bytes(),
            name: m.data.name,
            symbol: m.data.symbol,
            uri: m.data.uri,
        }),
        Err(_) => None,
    }
}

/// The stored strings fit their fields.
pub open spec fn fields_fit(v: MetadataView) -> bool {
    &&& utf8_len(v.1) <= MAX_NAME_LENGTH
    &&& utf8_len(v.2) <= MAX_SYMBOL_LENGTH
    &&& utf8_len(v.3) <= MAX_URI_LENGTH
}

/// The record with the padding at the end of its strings removed.
pub open spec fn trimmed(v: MetadataView) -> MetadataView {
    (v.0, without_trailing_nul(v.1), without_trailing_nul(v.2), without_trailing_nul(v.3))
}

/// Checks the stored strings against their fields and removes their padding.
pub fn metadata_from_fields(f: MetadataFields) -> (r: Result<MetadataStruct, DecodeError>)
    ensures
        r is Ok <==> fields_fit(fields_view(f)),
        r matches Ok(m) ==> metadata_view(m) == trimmed(fields_view(f)),
        r matches Err(e) ==> e == DecodeError::DecodeMetadataDataFailed,
{
    if byte_len(&f.name) > MAX_NAME_LENGTH || byte_len(&f.symbol) > MAX_SYMBOL_LENGTH || byte_len(
        &f.uri,
    ) > MAX_URI_LENGTH {
        return Err(DecodeError::DecodeMetadataDataFailed);
    }
    Ok(
        MetadataStruct {
            mint: f.mint,
            name: trim_trailing_nul(f.name.as_str()),
            symbol: trim_trailing_nul(f.symbol.as_str()),
            uri: trim_trailing_nul(f.uri.as_str()),
        },
    )
}

/// What a metadata account's data decodes to: the record, if borsh reads one
/// and its strings fit their fields, with their padding removed.
pub open spec fn metadata_layout(data: Seq<u8>) -> Option<MetadataView> {
    match borsh_metadata(data) {
        Some(v) => if fields_fit(v) {
            Some(trimmed(v))
        } else {
            None
        },
        None => None,
    }
}

/// Decodes a token metadata account's data.
pub fn decode_metadata_account(data: &[u8]) -> (r: Result<MetadataStruct, DecodeError>)
    ensures
        r is Ok <==> metadata_layout(data@) is Some,
        r matches Ok(m) ==> metadata_layout(data@) == Some(metadata_view(m)),
        r matches Err(e) ==> e == DecodeError::DecodeMetadataDataFailed,
        data@.len() < METADATA_HEADER_LEN ==> r is Err,
{
    match unpack_metadata(data) {
        Some(f) => metadata_from_fields(f),
        None => Err(DecodeError::DecodeMetadataDataFailed),
    }
}

} // verus!
