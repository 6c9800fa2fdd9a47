use crate::address::Address;
use metaplex_token_metadata::state::{Key, Metadata, MAX_METADATA_LEN};
use metaplex_token_metadata::utils::try_from_slice_checked;
use vstd::prelude::*;

verus! {

/// Creators that a metadata record lists at most.
pub const MAX_CREATOR_LIMIT: usize = 5;

/// Bytes that one creator takes in a metadata record: its address, its
/// verified flag and its share.
pub const MAX_CREATOR_LEN: usize = 32 + 1 + 1;

/// Offset of the first creator's address in a metadata account: kind,
/// update authority, mint, the name, URI and symbol fields at their largest
/// with their length prefixes, the seller fee, the creators' option tag and
/// the creators' count.
pub const CREATORS_OFFSET: usize = 1 + 32 + 32 + 4 + 32 + 4 + 200 + 4 + 10 + 2 + 1 + 4;

/// Length of a metadata account.
pub const METADATA_ACCOUNT_LEN: usize = 679;

/// A creator listed in a metadata record.
#[derive(Debug, Clone, Copy)]
pub struct Creator {
    pub address: Address,
    pub verified: bool,
    pub share: u8,
}

/// Address, verified flag and share of a creator.
pub open spec fn creator_view(c: Creator) -> (Seq<u8>, bool, u8) {
    (c.address@, c.verified, c.share)
}

/// The creators of the metadata record that a metadata account holds, as
/// borsh decodes them: `None` when the account does not hold a record, `Some(None)`
/// when the record lists no creators.
pub uninterp spec fn checked_metadata_creators(data: Seq<u8>) -> Option<
    Option<Seq<(Seq<u8>, bool, u8)>>,
>;

/// Relies on `metaplex_token_metadata::utils::try_from_slice_checked` for
/// `Metadata` (what `Metadata::from_account_info` calls): it refuses data that
/// is not 679 bytes long or whose first byte names neither a metadata record
/// nor an uninitialized account, and otherwise decodes it with borsh. It reads
/// the first byte, so the data must not be empty.
#[verifier::external_body]
fn unpack_metadata_creators(data: &[u8]) -> (r: Option<Option<Vec<Creator>>>)
    requires
        data@.len() > 0,
    ensures
        match r {
            Some(Some(cs)) => checked_metadata_creators(data@) == Some(
                Some(cs@.map_values(|c: Creator| creator_view(c))),
            ),
            Some(None) => checked_metadata_creators(data@) == Some(
                None::<Seq<(Seq<u8>, bool, u8)>>,
            ),
            None => checked_metadata_creators(data@) is None,
        },
        r is Some ==> data@.len() == METADATA_ACCOUNT_LEN && (data@[0] == 4 || data@[0] == 0),
{
    match try_from_slice_checked::<Metadata>(data, Key::MetadataV1, MAX_METADATA_LEN) {
        Ok(m) => Some(m.data.creators.map(|cs| cs.iter().map(|c| Creator {
            address: c.address.to_bytes(),
            verified: c.verified,
            share: c.share,
        }).collect())),
        Err(_) => None,
    }
}

/// Offset, in a metadata account, of the address of the creator at `position`.
pub fn creator_offset(position: usize) -> (r: usize)
    requires
        position < MAX_CREATOR_LIMIT,
    ensures
        r == CREATORS_OFFSET + position * MAX_CREATOR_LEN,
{
    assert(CREATORS_OFFSET == 326 && MAX_CREATOR_LEN == 34);
    assert(position * MAX_CREATOR_LEN <= 4 * 34) by (nonlinear_arith)
        requires
            position < 5,
            MAX_CREATOR_LEN == 34,
    ;
    CREATORS_OFFSET + position * MAX_CREATOR_LEN
}

/// The metadata account lists `creator` at `position` and the creator has not
/// yet verified it.
pub open spec fn awaits_signature(data: Seq<u8>, position: int, creator: Seq<u8>) -> bool {
    &&& data.len() > 0
    &&& checked_metadata_creators(data) matches Some(Some(cs))
    &&& 0 <= position < cs.len()
    &&& cs[position].0 == creator
    &&& !cs[position].1
}

/// Whether the metadata account lists `creator` at `position` without its
/// verification. Data that does not decode, and a record with fewer creators,
/// give `false`.
pub fn needs_signature(data: &[u8], position: usize, creator: &Address) -> (r: bool)
    ensures
        r == awaits_signature(data@, position as int, creator@),
{
    if data.len() == 0 {
        return false;
    }
    match unpack_metadata_creators(data) {
        Some(Some(cs)) => {
            proof {
                assert(cs@.map_values(|c: Creator| creator_view(c)).len() == cs@.len());
            }
            if position < cs.len() {
                let c = cs[position];
                proof {
                    assert(cs@.map_values(|c: Creator| creator_view(c))[position as int]
                        == creator_view(c));
                }
                !c.verified && crate::spl::same_address(&c.address, creator)
            } else {
                false
            }
        },
        _ => false,
    }
}

/// The addresses of the accounts that await `creator`'s signature at
/// `position`, in their order.
pub open spec fn awaiting(accounts: Seq<(Address, Vec<u8>)>, position: int, creator: Seq<u8>) -> Seq<
    Address,
>
    decreases accounts.len(),
{
    if accounts.len() == 0 {
        Seq::empty()
    } else {
        let r = awaiting(accounts.drop_last(), position, creator);
        if awaits_signature(accounts.last().1@, position, creator) {
            r.push(accounts.last().0)
        } else {
            r
        }
    }
}

/// The addresses of the accounts that list `creator` at `position` without
/// its verification.
pub fn unsigned_at(accounts: &Vec<(Address, Vec<u8>)>, position: usize, creator: &Address) -> (r:
    Vec<Address>)
    ensures
        r@ == awaiting(accounts@, position as int, creator@),
{
    let mut r: Vec<Address> = Vec::new();
    let mut i: usize = 0;
    while i < accounts.len()
        invariant
            i <= accounts@.len(),
            r@ == awaiting(accounts@.subrange(0, i as int), position as int, creator@),
        decreases accounts@.len() - i,
    {
        let ghost prefix = accounts@.subrange(0, i + 1);
        assert(prefix.drop_last() =~= accounts@.subrange(0, i as int));
        assert(prefix.last() == accounts@[i as int]);
        let entry = &accounts[i];
        if needs_signature(entry.1.as_slice(), position, creator) {
            r.push(entry.0);
        }
        i = i + 1;
    }
    assert(accounts@.subrange(0, accounts@.len() as int) =~= accounts@);
    r
}

/// The accounts awaiting `creator`'s signature over scans of the positions
/// `0, 1, ...`: `scans[p]` holds the accounts found for position `p`.
pub open spec fn awaiting_all(scans: Seq<Vec<(Address, Vec<u8>)>>, creator: Seq<u8>) -> Seq<
    Address,
>
    decreases scans.len(),
{
    if scans.len() == 0 {
        Seq::empty()
    } else {
        awaiting_all(scans.drop_last(), creator) + awaiting(
            scans.last()@,
            scans.len() - 1,
            creator,
        )
    }
}

/// The metadata accounts that still await `creator`'s signature, from the
/// scans of each creator position in turn.
pub fn count_creators(scans: &Vec<Vec<(Address, Vec<u8>)>>, creator: &Address) -> (r: Vec<
    Address,
>)
    requires
        scans@.len() <= MAX_CREATOR_LIMIT,
    ensures
        r@ == awaiting_all(scans@, creator@),
{
    let mut r: Vec<Address> = Vec::new();
    let mut p: usize = 0;
    while p < scans.len()
        invariant
            p <= scans@.len(),
            r@ == awaiting_all(scans@.subrange(0, p as int), creator@),
        decreases scans@.len() - p,
    {
        let ghost prefix = scans@.subrange(0, p + 1);
        assert(prefix.drop_last() =~= scans@.subrange(0, p as int));
        assert(prefix.last() == scans@[p as int]);
        let mut found = unsigned_at(&scans[p], p, creator);
        r.append(&mut found);
        p = p + 1;
    }
    assert(scans@.subrange(0, scans@.len() as int) =~= scans@);
    r
}

} // verus!
