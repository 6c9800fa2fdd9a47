use metabob::address::get_metadata_pda;
use metabob::creators::{count_creators, creator_offset, needs_signature, unsigned_at};
use metabob::decode::{encode_mint_account, MetadataStruct, MintStruct};
use metabob::spl::{
    do_stuff, filter_mints, get_token_entry_vec, join_metadata, split_by_uri, AccountStruct,
    MetadataInfo, MintInfo, TokenListEntry,
};
use solana_program::pubkey::Pubkey;

fn borsh_string(out: &mut Vec<u8>, s: &[u8]) {
    out.extend_from_slice(&(s.len() as u32).to_le_bytes());
    out.extend_from_slice(s);
}

fn metadata_bytes(mint: [u8; 32], uri: &[u8]) -> Vec<u8> {
    let mut out = vec![4u8];
    out.extend_from_slice(&[7u8; 32]);
    out.extend_from_slice(&mint);
    borsh_string(&mut out, b"Name\0\0");
    borsh_string(&mut out, b"SYM\0");
    borsh_string(&mut out, uri);
    out.extend_from_slice(&0u16.to_le_bytes());
    out.extend_from_slice(&[0, 0, 0, 0]);
    out
}

/// A padded metadata account of 679 bytes with the given creators.
fn metadata_account_with_creators(creators: &[([u8; 32], bool)]) -> Vec<u8> {
    let mut out = vec![4u8];
    out.extend_from_slice(&[7u8; 32]);
    out.extend_from_slice(&[1u8; 32]);
    let mut name = b"n".to_vec();
    name.resize(32, 0);
    let mut symbol = b"s".to_vec();
    symbol.resize(10, 0);
    let mut uri = b"u".to_vec();
    uri.resize(200, 0);
    borsh_string(&mut out, &name);
    borsh_string(&mut out, &symbol);
    borsh_string(&mut out, &uri);
    out.extend_from_slice(&0u16.to_le_bytes());
    out.push(1);
    out.extend_from_slice(&(creators.len() as u32).to_le_bytes());
    for (address, verified) in creators {
        out.extend_from_slice(address);
        out.push(*verified as u8);
        out.push(100 / creators.len() as u8);
    }
    out.resize(679, 0);
    out
}

fn mint(key: u8, supply: u64, decimals: u8) -> MintInfo {
    MintInfo { mint_pubkey: [key; 32], mint: MintStruct { supply, decimals } }
}

fn entry(uri: &str) -> TokenListEntry {
    TokenListEntry::new("addr".to_string(), "S".to_string(), "N".to_string(), 3, uri.to_string())
}

#[test]
fn fungibility_examples() {
    assert!(mint(1, 1000, 2).is_fungible());
    assert!(!mint(1, 10, 2).is_fungible());
    assert!(!mint(1, 100, 2).is_fungible());
    assert!(!mint(1, 1, 0).is_fungible());
    assert!(mint(1, 2, 0).is_fungible());
    assert!(!mint(1, u64::MAX, 20).is_fungible());
    assert!(mint(1, u64::MAX, 19).is_fungible());
}

#[test]
fn filter_keeps_fungible_decodable_mints() {
    let good = encode_mint_account(&MintStruct { supply: 5000, decimals: 3 });
    let nft = encode_mint_account(&MintStruct { supply: 1, decimals: 0 });
    let accounts = vec![([1; 32], good.clone()), ([2; 32], nft), ([3; 32], vec![1, 2, 3]), ([4; 32], good)];
    let kept = filter_mints(&accounts);
    let keys: Vec<[u8; 32]> = kept.iter().map(|m| m.mint_pubkey).collect();
    assert_eq!(keys, vec![[1; 32], [4; 32]]);
    assert_eq!(kept[0].mint, MintStruct { supply: 5000, decimals: 3 });
}

#[test]
fn join_drops_missing_malformed_and_foreign_metadata() {
    let mints = vec![mint(1, 10, 0), mint(2, 10, 0), mint(3, 10, 0), mint(4, 10, 0)];
    let fetched = vec![
        Some(metadata_bytes([1; 32], b"https://a")),
        None,
        Some(vec![0u8; 10]),
        Some(metadata_bytes([9; 32], b"https://b")),
    ];
    let joined = join_metadata(&mints, &fetched);
    assert!(joined.len() <= mints.len());
    assert_eq!(joined.len(), 1);
    assert_eq!(joined[0].mint.mint_pubkey, [1; 32]);
    assert_eq!(joined[0].metadata.metadata.mint, [1; 32]);
    assert_eq!(joined[0].metadata.metadata_pubkey, get_metadata_pda(&[1; 32]).unwrap());
    assert_eq!(joined[0].metadata.metadata.name, "Name");
    assert_eq!(joined[0].metadata.metadata.symbol, "SYM");
}

#[test]
fn token_entry_new_trims_padding() {
    let e = TokenListEntry::new(
        "addr".to_string(),
        "\0SYM\0\0".to_string(),
        "Name\0".to_string(),
        9,
        "\0\0".to_string(),
    );
    assert_eq!(e.chain_id, 101);
    assert_eq!(e.address, "addr");
    assert_eq!(e.symbol, "SYM");
    assert_eq!(e.name, "Name");
    assert_eq!(e.decimals, 9);
    assert_eq!(e.logo_uri, "");
}

#[test]
fn token_entries_carry_base58_addresses() {
    let account = AccountStruct {
        mint: mint(6, 1000, 2),
        metadata: MetadataInfo {
            metadata_pubkey: [7; 32],
            metadata: MetadataStruct {
                mint: [6; 32],
                name: "Six".to_string(),
                symbol: "SIX".to_string(),
                uri: "https://six".to_string(),
            },
        },
    };
    let entries = get_token_entry_vec(&vec![account]);
    assert_eq!(entries.len(), 1);
    assert_eq!(entries[0].address, Pubkey::new_from_array([6; 32]).to_string());
    assert_ne!(entries[0].address.len(), 32);
    assert_eq!(entries[0].symbol, "SIX");
    assert_eq!(entries[0].name, "Six");
    assert_eq!(entries[0].decimals, 2);
    assert_eq!(entries[0].logo_uri, "https://six");
}

#[test]
fn split_partitions_by_uri() {
    let entries = vec![entry("https://a"), entry(""), entry("https://b"), entry("\0")];
    let (with, without) = split_by_uri(&entries);
    assert_eq!(with.len() + without.len(), entries.len());
    assert!(with.iter().all(|e| !e.logo_uri.is_empty()));
    assert!(without.iter().all(|e| e.logo_uri.is_empty()));
    assert_eq!(with[0].logo_uri, "https://a");
    assert_eq!(with[1].logo_uri, "https://b");
    assert_eq!(without.len(), 2);
}

#[test]
fn split_of_empty_list_is_empty() {
    let (with, without) = split_by_uri(&vec![]);
    assert!(with.is_empty() && without.is_empty());
}

#[test]
fn creator_offsets_follow_layout() {
    assert_eq!(creator_offset(0), 326);
    assert_eq!(creator_offset(1), 360);
    assert_eq!(creator_offset(4), 462);
}

#[test]
fn unsigned_creators_are_found() {
    let me = [5u8; 32];
    let other = [6u8; 32];
    let pending = metadata_account_with_creators(&[(me, false)]);
    let signed = metadata_account_with_creators(&[(me, true)]);
    let second = metadata_account_with_creators(&[(other, true), (me, false)]);
    assert!(needs_signature(&pending, 0, &me));
    assert!(!needs_signature(&signed, 0, &me));
    assert!(!needs_signature(&pending, 1, &me));
    assert!(!needs_signature(&pending, 0, &other));
    assert!(needs_signature(&second, 1, &me));
    assert!(!needs_signature(&pending[..678], 0, &me));
    assert!(!needs_signature(&[], 0, &me));
    let scan0 = vec![([1; 32], pending.clone()), ([2; 32], signed)];
    assert_eq!(unsigned_at(&scan0, 0, &me), vec![[1; 32]]);
    let scan1 = vec![([3; 32], second)];
    assert_eq!(count_creators(&vec![scan0, scan1], &me), vec![[1; 32], [3; 32]]);
}

#[test]
fn do_stuff_succeeds() {
    assert_eq!(do_stuff(), Ok(()));
}

#[test]
fn empty_inputs_give_empty_outputs() {
    assert!(filter_mints(&vec![]).is_empty());
    assert!(join_metadata(&vec![], &vec![]).is_empty());
    assert!(get_token_entry_vec(&vec![]).is_empty());
    assert!(count_creators(&vec![], &[5u8; 32]).is_empty());
}
