use crate::address::{address_text, base58_text, get_metadata_pda, metadata_address, Address};
use crate::decode::{
    decode_metadata_account, decode_mint_account, metadata_layout, metadata_view, mint_layout,
    MetadataStruct, MetadataView, MintStruct,
};
use crate::errors::DecodeError;
use crate::text::{trim_nul, without_nul_padding};
use vstd::prelude::*;

verus! {

/// The chain id that every token-list entry carries.
pub const CHAIN_ID: u8 = 101;

/// A mint account: its address and its decoded fields.
#[derive(Debug, Clone, Copy)]
pub struct MintInfo {
    pub mint_pubkey: Address,
    pub mint: MintStruct,
}

/// A metadata account: its address and its decoded fields.
#[derive(Debug)]
pub struct MetadataInfo {
    pub metadata_pubkey: Address,
    pub metadata: MetadataStruct,
}

impl Clone for MetadataInfo {
    fn clone(&self) -> (r: Self)
        ensures
            r == *self,
    {
        MetadataInfo { metadata_pubkey: self.metadata_pubkey, metadata: self.metadata.clone() }
    }
}

impl MetadataInfo {
    /// Decodes a metadata account's data into the record at `key`.
    pub fn try_from(key: Address, data: &[u8]) -> (r: Result<MetadataInfo, DecodeError>)
        ensures
            r is Ok <==> metadata_layout(data@) is Some,
            r matches Ok(i) ==> i.metadata_pubkey == key && metadata_layout(data@) == Some(
                metadata_view(i.metadata),
            ),
            r matches Err(e) ==> e == DecodeError::DecodeMetadataDataFailed,
    {
        match decode_metadata_account(data) {
            Ok(m) => Ok(MetadataInfo { metadata_pubkey: key, metadata: m }),
            Err(e) => Err(e),
        }
    }
}

/// A mint joined with its metadata record.
#[derive(Debug)]
pub struct AccountStruct {
    pub mint: MintInfo,
    pub metadata: MetadataInfo,
}

impl AccountStruct {
    pub fn new(mint: MintInfo, metadata: MetadataInfo) -> (r: AccountStruct)
        ensures
            r.mint == mint,
            r.metadata == metadata,
    {
        AccountStruct { mint, metadata }
    }
}

impl Clone for AccountStruct {
    fn clone(&self) -> (r: Self)
        ensures
            r == *self,
    {
        AccountStruct { mint: self.mint, metadata: self.metadata.clone() }
    }
}

/// An entry of the public token list.
#[derive(Debug)]
pub struct TokenListEntry {
    pub chain_id: u8,
    pub address: String,
    pub symbol: String,
    pub name: String,
    pub decimals: u8,
    pub logo_uri: String,
}

impl Clone for TokenListEntry {
    fn clone(&self) -> (r: Self)
        ensures
            r == *self,
    {
        TokenListEntry {
            chain_id: self.chain_id,
            address: self.address.clone(),
            symbol: self.symbol.clone(),
            name: self.name.clone(),
            decimals: self.decimals,
            logo_uri: self.logo_uri.clone(),
        }
    }
}

/// Ten to the power `n`.
pub open spec fn pow10(n: nat) -> int
    decreases n,
{
    if n == 0 {
        1
    } else {
        10 * pow10((n - 1) as nat)
    }
}

/// A mint counts as fungible when its supply exceeds one whole unit,
/// ten to the power of its decimals. This is a heuristic.
pub open spec fn fungible(m: MintStruct) -> bool {
    m.supply as int > pow10(m.decimals as nat)
}

proof fn lemma_pow10_grows(n: nat)
    ensures
        pow10(n) >= 1,
        n >= 20 ==> pow10(n) > u64::MAX,
    decreases n,
{
    if n > 0 {
        lemma_pow10_grows((n - 1) as nat);
        if n >= 20 {
            if n == 20 {
                reveal_with_fuel(pow10, 21);
            }
        }
    }
}

impl MintInfo {
    /// Whether the mint's supply exceeds ten to the power of its decimals.
    pub fn is_fungible(&self) -> (r: bool)
        ensures
            r == fungible(self.mint),
    {
        let d = self.mint.decimals;
        if d >= 20 {
            proof {
                lemma_pow10_grows(d as nat);
            }
            return false;
        }
        let mut p: u64 = 1;
        let mut i: u8 = 0;
        while i < d
            invariant
                i <= d < 20,
                p as int == pow10(i as nat),
            decreases d - i,
        {
            proof {
                lemma_pow10_upto19(i as nat);
            }
            p = p * 10;
            i = i + 1;
        }
        self.mint.supply > p
    }

    /// Decodes a mint account's data into the mint at `key`.
    pub fn try_from(key: Address, data: &[u8]) -> (r: Result<MintInfo, DecodeError>)
        ensures
            r == match mint_layout(data@) {
                Some(m) => Ok::<MintInfo, DecodeError>(MintInfo { mint_pubkey: key, mint: m }),
                None => Err(DecodeError::DecodeMintFailed),
            },
    {
        match decode_mint_account(data) {
            Ok(m) => Ok(MintInfo { mint_pubkey: key, mint: m }),
            Err(e) => Err(e),
        }
    }
}

proof fn lemma_pow10_upto19(n: nat)
    requires
        n < 19,
    ensures
        pow10(n) * 10 <= u64::MAX,
        pow10(n + 1) == 10 * pow10(n),
{
    lemma_pow10_monotone(n, 18);
    reveal_with_fuel(pow10, 19);
    assert(pow10(18) == 1_000_000_000_000_000_000);
    assert(pow10(n + 1) == 10 * pow10(n));
}

proof fn lemma_pow10_monotone(a: nat, b: nat)
    requires
        a <= b,
    ensures
        pow10(a) <= pow10(b),
    decreases b - a,
{
    if a < b {
        lemma_pow10_monotone(a, (b - 1) as nat);
        lemma_pow10_grows((b - 1) as nat);
    }
}

/// Whether two addresses are equal.
pub fn same_address(a: &Address, b: &Address) -> (r: bool)
    ensures
        r == (a@ == b@),
{
    let mut i: usize = 0;
    while i < 32
        invariant
            i <= 32,
            forall|j: int| 0 <= j < i ==> a@[j] == b@[j],
        decreases 32 - i,
    {
        if a[i] != b[i] {
            return false;
        }
        i = i + 1;
    }
    assert(a@ =~= b@);
    true
}

/// The mint that an account holds, when it decodes and is fungible.
pub open spec fn fungible_entry(a: (Address, Vec<u8>)) -> Option<MintInfo> {
    match mint_layout(a.1@) {
        Some(m) => if fungible(m) {
            Some(MintInfo { mint_pubkey: a.0, mint: m })
        } else {
            None
        },
        None => None,
    }
}

/// The fungible mints among the accounts, in their order.
pub open spec fn fungible_mints(s: Seq<(Address, Vec<u8>)>) -> Seq<MintInfo>
    decreases s.len(),
{
    if s.len() == 0 {
        Seq::empty()
    } else {
        let r = fungible_mints(s.drop_last());
        match fungible_entry(s.last()) {
            Some(m) => r.push(m),
            None => r,
        }
    }
}

/// Decodes each mint account and keeps the fungible ones. Accounts that do not
/// decode are dropped.
pub fn filter_mints(mint_accounts: &Vec<(Address, Vec<u8>)>) -> (r: Vec<MintInfo>)
    ensures
        r@ == fungible_mints(mint_accounts@),
{
    let mut r: Vec<MintInfo> = Vec::new();
    let mut i: usize = 0;
    while i < mint_accounts.len()
        invariant
            i <= mint_accounts@.len(),
            r@ == fungible_mints(mint_accounts@.subrange(0, i as int)),
        decreases mint_accounts@.len() - i,
    {
        let ghost prefix = mint_accounts@.subrange(0, i + 1);
        assert(prefix.drop_last() =~= mint_accounts@.subrange(0, i as int));
        assert(prefix.last() == mint_accounts@[i as int]);
        let entry = &mint_accounts[i];
        match MintInfo::try_from(entry.0, entry.1.as_slice()) {
            Ok(m) => {
                if m.is_fungible() {
                    r.push(m);
                }
            },
            Err(_) => {},
        }
        i = i + 1;
    }
    assert(mint_accounts@.subrange(0, mint_accounts@.len() as int) =~= mint_accounts@);
    r
}

/// A joined record: the mint, the metadata address and the metadata.
pub type JoinedView = (MintInfo, Seq<u8>, MetadataView);

pub open spec fn account_view(a: AccountStruct) -> JoinedView {
    (a.mint, a.metadata.metadata_pubkey@, metadata_view(a.metadata.metadata))
}

/// The metadata record belongs to the mint it is joined with.
pub open spec fn owned(j: JoinedView) -> bool {
    j.2.0 == j.0.mint_pubkey@
}

/// What joining a mint with the data read at its metadata address gives:
/// a record when the address derives, the account exists, its data decodes and
/// names the mint.
pub open spec fn joined(m: MintInfo, fetched: Option<Vec<u8>>) -> Option<JoinedView> {
    match metadata_address(m.mint_pubkey@) {
        Some(addr) => match fetched {
            Some(d) => match metadata_layout(d@) {
                Some(v) => if v.0 == m.mint_pubkey@ {
                    Some((m, addr, v))
                } else {
                    None
                },
                None => None,
            },
            None => None,
        },
        None => None,
    }
}

/// The records that joining each mint with its fetched metadata gives, in
/// the order of the mints.
pub open spec fn correlated(mints: Seq<MintInfo>, fetched: Seq<Option<Vec<u8>>>) -> Seq<
    JoinedView,
>
    decreases mints.len(),
{
    if mints.len() == 0 || fetched.len() == 0 {
        Seq::empty()
    } else {
        let r = correlated(mints.drop_last(), fetched.drop_last());
        match joined(mints.last(), fetched.last()) {
            Some(j) => r.push(j),
            None => r,
        }
    }
}

/// Joins each mint with the metadata account read at its derived address
/// (`fetched[i]` for `mints[i]`, `None` where there was none). A mint whose
/// address does not derive, whose account is missing or does not decode, or
/// whose metadata names another mint is dropped.
pub fn join_metadata(mints: &Vec<MintInfo>, fetched: &Vec<Option<Vec<u8>>>) -> (r: Vec<
    AccountStruct,
>)
    requires
        fetched@.len() == mints@.len(),
    ensures
        r@.map_values(|a: AccountStruct| account_view(a)) == correlated(mints@, fetched@),
{
    let mut r: Vec<AccountStruct> = Vec::new();
    let mut i: usize = 0;
    while i < mints.len()
        invariant
            i <= mints@.len(),
            fetched@.len() == mints@.len(),
            r@.map_values(|a: AccountStruct| account_view(a)) == correlated(
                mints@.subrange(0, i as int),
                fetched@.subrange(0, i as int),
            ),
        decreases mints@.len() - i,
    {
        let ghost ms = mints@.subrange(0, i + 1);
        let ghost fs = fetched@.subrange(0, i + 1);
        assert(ms.drop_last() =~= mints@.subrange(0, i as int));
        assert(fs.drop_last() =~= fetched@.subrange(0, i as int));
        assert(ms.last() == mints@[i as int]);
        assert(fs.last() == fetched@[i as int]);
        let ghost before = r@;
        let m = mints[i];
        match get_metadata_pda(&m.mint_pubkey) {
            Ok(addr) => match &fetched[i] {
                Some(d) => match MetadataInfo::try_from(addr, d.as_slice()) {
                    Ok(info) => {
                        if same_address(&info.metadata.mint, &m.mint_pubkey) {
                            let a = AccountStruct::new(m, info);
                            r.push(a);
                            assert(r@.map_values(|a: AccountStruct| account_view(a))
                                =~= before.map_values(|a: AccountStruct| account_view(a)).push(
                                account_view(a),
                            ));
                        }
                    },
                    Err(_) => {},
                },
                None => {},
            },
            Err(_) => {},
        }
        i = i + 1;
    }
    assert(mints@.subrange(0, mints@.len() as int) =~= mints@);
    assert(fetched@.subrange(0, fetched@.len() as int) =~= fetched@);
    r
}

/// Joining yields at most one record per mint, and each record's metadata
/// belongs to its mint.
pub proof fn lemma_correlated_bounded_and_owned(
    mints: Seq<MintInfo>,
    fetched: Seq<Option<Vec<u8>>>,
)
    ensures
        correlated(mints, fetched).len() <= mints.len(),
        forall|k: int|
            0 <= k < correlated(mints, fetched).len() ==> #[trigger] owned(
                correlated(mints, fetched)[k],
            ),
    decreases mints.len(),
{
    if mints.len() > 0 && fetched.len() > 0 {
        lemma_correlated_bounded_and_owned(mints.drop_last(), fetched.drop_last());
    }
}

/// Token-list entry, as a tuple of chain id, address, symbol, name, decimals
/// and logo URI.
pub type EntryView = (u8, Seq<char>, Seq<char>, Seq<char>, u8, Seq<char>);

pub open spec fn entry_view(e: TokenListEntry) -> EntryView {
    (e.chain_id, e.address@, e.symbol@, e.name@, e.decimals, e.logo_uri@)
}

/// The token-list entry of a joined record.
pub open spec fn entry_of(a: AccountStruct) -> EntryView {
    (
        CHAIN_ID,
        base58_text(a.mint.mint_pubkey@),
        without_nul_padding(a.metadata.metadata.symbol@),
        without_nul_padding(a.metadata.metadata.name@),
        a.mint.mint.decimals,
        without_nul_padding(a.metadata.metadata.uri@),
    )
}

impl TokenListEntry {
    /// An entry of the token list; NUL padding is removed from both ends of
    /// the symbol, the name and the logo URI.
    pub fn new(address: String, symbol: String, name: String, decimals: u8, logo_uri: String) -> (r:
        TokenListEntry)
        ensures
            entry_view(r) == (
                CHAIN_ID,
                address@,
                without_nul_padding(symbol@),
                without_nul_padding(name@),
                decimals,
                without_nul_padding(logo_uri@),
            ),
    {
        let symbol = trim_nul(symbol.as_str());
        let name = trim_nul(name.as_str());
        let logo_uri = trim_nul(logo_uri.as_str());
        TokenListEntry { chain_id: CHAIN_ID, address, symbol, name, decimals, logo_uri }
    }

    /// The token-list entry of a joined record.
    pub fn from_account(a: &AccountStruct) -> (r: TokenListEntry)
        ensures
            entry_view(r) == entry_of(*a),
    {
        let md = &a.metadata.metadata;
        TokenListEntry::new(
            address_text(&a.mint.mint_pubkey),
            md.symbol.clone(),
            md.name.clone(),
            a.mint.mint.decimals,
            md.uri.clone(),
        )
    }
}

/// The token-list entries of the joined records, one for each, in their order.
pub fn get_token_entry_vec(account_vec: &Vec<AccountStruct>) -> (r: Vec<TokenListEntry>)
    ensures
        r@.len() == account_vec@.len(),
        forall|k: int| 0 <= k < r@.len() ==> entry_view(#[trigger] r@[k]) == entry_of(account_vec@[k]),
{
    let mut r: Vec<TokenListEntry> = Vec::new();
    let mut i: usize = 0;
    while i < account_vec.len()
        invariant
            i <= account_vec@.len(),
            r@.len() == i,
            forall|k: int| 0 <= k < i ==> entry_view(#[trigger] r@[k]) == entry_of(account_vec@[k]),
        decreases account_vec@.len() - i,
    {
        r.push(TokenListEntry::from_account(&account_vec[i]));
        i = i + 1;
    }
    r
}

/// The entries that have a logo URI, in their order.
pub open spec fn with_uri(s: Seq<TokenListEntry>) -> Seq<TokenListEntry>
    decreases s.len(),
{
    if s.len() == 0 {
        Seq::empty()
    } else if s.last().logo_uri@.len() > 0 {
        with_uri(s.drop_last()).push(s.last())
    } else {
        with_uri(s.drop_last())
    }
}

/// The entries that have no logo URI, in their order.
pub open spec fn without_uri(s: Seq<TokenListEntry>) -> Seq<TokenListEntry>
    decreases s.len(),
{
    if s.len() == 0 {
        Seq::empty()
    } else if s.last().logo_uri@.len() == 0 {
        without_uri(s.drop_last()).push(s.last())
    } else {
        without_uri(s.drop_last())
    }
}

/// Splits the entries into those with a logo URI and those without one.
pub fn split_by_uri(token_entries: &Vec<TokenListEntry>) -> (r: (
    Vec<TokenListEntry>,
    Vec<TokenListEntry>,
))
    ensures
        r.0@ == with_uri(token_entries@),
        r.1@ == without_uri(token_entries@),
{
    let mut uri_list: Vec<TokenListEntry> = Vec::new();
    let mut no_uri_list: Vec<TokenListEntry> = Vec::new();
    let mut i: usize = 0;
    while i < token_entries.len()
        invariant
            i <= token_entries@.len(),
            uri_list@ == with_uri(token_entries@.subrange(0, i as int)),
            no_uri_list@ == without_uri(token_entries@.subrange(0, i as int)),
        decreases token_entries@.len() - i,
    {
        let ghost prefix = token_entries@.subrange(0, i + 1);
        assert(prefix.drop_last() =~= token_entries@.subrange(0, i as int));
        assert(prefix.last() == token_entries@[i as int]);
        let entry = &token_entries[i];
        if entry.logo_uri.as_str().is_empty() {
            no_uri_list.push(entry.clone());
        } else {
            uri_list.push(entry.clone());
        }
        i = i + 1;
    }
    assert(token_entries@.subrange(0, token_entries@.len() as int) =~= token_entries@);
    (uri_list, no_uri_list)
}

/// Splitting by logo URI puts each entry with an empty URI in the second part
/// only, each other entry in the first part only, and loses and adds nothing:
/// the two parts together hold the input.
pub proof fn lemma_split_partitions(s: Seq<TokenListEntry>)
    ensures
        forall|k: int|
            0 <= k < with_uri(s).len() ==> (#[trigger] with_uri(s)[k]).logo_uri@.len() > 0,
        forall|k: int|
            0 <= k < without_uri(s).len() ==> (#[trigger] without_uri(s)[k]).logo_uri@.len() == 0,
        with_uri(s).to_multiset().add(without_uri(s).to_multiset()) =~= s.to_multiset(),
    decreases s.len(),
{
    broadcast use vstd::seq_lib::group_to_multiset_ensures;

    if s.len() > 0 {
        lemma_split_partitions(s.drop_last());
        assert(s =~= s.drop_last().push(s.last()));
    }
}

/// The command that does nothing; it always succeeds.
pub fn do_stuff() -> (r: Result<(), ()>)
    ensures
        r is Ok,
{
    Ok(())
}

} // verus!
