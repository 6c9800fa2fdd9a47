use solana_program::pubkey::Pubkey;
use vstd::prelude::*;

verus! {

/// A 32-byte ledger address.
pub type Address = [u8; 32];

/// The derivation search found no off-curve address for the seeds.
#[derive(Debug, Clone, Copy, PartialEq, Eq, Structural)]
pub struct ResolutionExhausted;

/// The address of the token metadata program,
/// `metaqbxxUerdq28cj1RbAWkYQm3ybzjb6a8bt518x1s` in base58.
pub const TOKEN_METADATA_PROGRAM_ID: Address = [
    11, 112, 101, 177, 227, 209, 124, 69, 56, 157, 82, 127, 107, 4, 195, 205, 88, 184, 108, 115,
    26, 160, 253, 181, 73, 182, 209, 188, 3, 248, 41, 70,
];

/// The namespace tag of metadata addresses: the ASCII bytes of `metadata`.
pub const METADATA_PREFIX: [u8; 8] = [109, 101, 116, 97, 100, 97, 116, 97];

/// The program address and bump that the search over bump seeds 255, 254, ...
/// finds for `seeds` under `program_id`: the first whose hash is not a point of
/// the signing curve. `None` when no bump gives one.
pub uninterp spec fn found_program_address(seeds: Seq<Seq<u8>>, program_id: Seq<u8>) -> Option<
    (Seq<u8>, u8),
>;

/// The base58 text of a 32-byte address.
pub uninterp spec fn base58_text(bytes: Seq<u8>) -> Seq<char>;

/// Relies on `Pubkey::try_find_program_address`: it returns the first
/// off-curve program address and its bump, or `None`; the result depends on the
/// seeds and the program id alone.
#[verifier::external_body]
fn find_program_address(seeds: &Vec<Vec<u8>>, program_id: &Address) -> (r: Option<(Address, u8)>)
    ensures
        match r {
            Some((a, b)) => found_program_address(seeds.deep_view(), program_id@) == Some(
                (a@, b),
            ),
            None => found_program_address(seeds.deep_view(), program_id@) is None,
        },
{
    let refs: Vec<&[u8]> = seeds.iter().map(|s| s.as_slice()).collect();
    Pubkey::try_find_program_address(&refs, &Pubkey::new_from_array(*program_id)).map(
        |(k, b)| (k.to_bytes(), b),
    )
}

/// Relies on `Pubkey`'s `Display` (`to_string`): the base58 text of the bytes.
#[verifier::external_body]
pub(crate) fn address_text(a: &Address) -> (r: String)
    ensures
        r@ == base58_text(a@),
{
    Pubkey::new_from_array(*a).to_string()
}

/// The seeds of a derived address: the namespace tag, the authority and the
/// primary key, in that order.
pub open spec fn derivation_seeds(
    primary_key: Seq<u8>,
    namespace_tag: Seq<u8>,
    authority_id: Seq<u8>,
) -> Seq<Seq<u8>> {
    seq![namespace_tag, authority_id, primary_key]
}

/// The address derived from a primary key, a namespace tag and an authority.
pub open spec fn derived_address(
    primary_key: Seq<u8>,
    namespace_tag: Seq<u8>,
    authority_id: Seq<u8>,
) -> Option<Seq<u8>> {
    match found_program_address(
        derivation_seeds(primary_key, namespace_tag, authority_id),
        authority_id,
    ) {
        Some((a, _)) => Some(a),
        None => None,
    }
}

/// The address of the metadata record of a mint.
pub open spec fn metadata_address(mint: Seq<u8>) -> Option<Seq<u8>> {
    derived_address(mint, METADATA_PREFIX@, TOKEN_METADATA_PROGRAM_ID@)
}

fn bytes_of(s: &[u8]) -> (r: Vec<u8>)
    ensures
        r@ == s@,
{
    let mut r: Vec<u8> = Vec::new();
    let mut i: usize = 0;
    while i < s.len()
        invariant
            i <= s@.len(),
            r@ == s@.subrange(0, i as int),
        decreases s@.len() - i,
    {
        r.push(s[i]);
        i = i + 1;
    }
    assert(r@ =~= s@);
    r
}

/// Derives the address that belongs to `primary_key` in the namespace
/// `namespace_tag` of the program `authority_id`.
pub fn derive(primary_key: &Address, namespace_tag: &[u8], authority_id: &Address) -> (r: Result<
    Address,
    ResolutionExhausted,
>)
    ensures
        match r {
            Ok(a) => derived_address(primary_key@, namespace_tag@, authority_id@) == Some(a@),
            Err(_) => derived_address(primary_key@, namespace_tag@, authority_id@) is None,
        },
{
    let mut seeds: Vec<Vec<u8>> = Vec::new();
    seeds.push(bytes_of(namespace_tag));
    seeds.push(bytes_of(authority_id));
    seeds.push(bytes_of(primary_key));
    proof {
        assert(seeds.deep_view()[0] =~= namespace_tag@);
        assert(seeds.deep_view()[1] =~= authority_id@);
        assert(seeds.deep_view()[2] =~= primary_key@);
        assert(seeds.deep_view() =~= derivation_seeds(
            primary_key@,
            namespace_tag@,
            authority_id@,
        ));
    }
    match find_program_address(&seeds, authority_id) {
        Some((a, _)) => Ok(a),
        None => Err(ResolutionExhausted),
    }
}

/// The address of the metadata record that belongs to a mint.
pub fn get_metadata_pda(mint: &Address) -> (r: Result<Address, ResolutionExhausted>)
    ensures
        match r {
            Ok(a) => metadata_address(mint@) == Some(a@),
            Err(_) => metadata_address(mint@) is None,
        },
{
    let prefix = METADATA_PREFIX;
    let program = TOKEN_METADATA_PROGRAM_ID;
    derive(mint, &prefix, &program)
}

/// Two derivations from the same inputs give the same outcome.
pub proof fn lemma_derive_deterministic(
    primary_key: Address,
    namespace_tag: Seq<u8>,
    authority_id: Address,
    r1: Result<Address, ResolutionExhausted>,
    r2: Result<Address, ResolutionExhausted>,
)
    requires
        match r1 {
            Ok(a) => derived_address(primary_key@, namespace_tag, authority_id@) == Some(a@),
            Err(_) => derived_address(primary_key@, namespace_tag, authority_id@) is None,
        },
        match r2 {
            Ok(a) => derived_address(primary_key@, namespace_tag, authority_id@) == Some(a@),
            Err(_) => derived_address(primary_key@, namespace_tag, authority_id@) is None,
        },
    ensures
        r1 == r2,
{
    match (r1, r2) {
        (Ok(a), Ok(b)) => {
            assert(a@ == b@);
            assert forall|i: int| 0 <= i < 32 implies a[i] == b[i] by {
                assert(a[i] == a@[i] && b[i] == b@[i]);
            }
            assert(a =~= b);
        },
        (Err(x), Err(y)) => {
            assert(x == y);
        },
        _ => {},
    }
}

} // verus!
