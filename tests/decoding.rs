use metabob::address::{get_metadata_pda, METADATA_PREFIX, TOKEN_METADATA_PROGRAM_ID};
use metabob::decode::{decode_metadata_account, decode_mint_account, encode_mint_account, MintStruct};
use metabob::DecodeError;
use solana_program::program_pack::Pack;
use solana_program::pubkey::Pubkey;

fn borsh_string(out: &mut Vec<u8>, s: &[u8]) {
    out.extend_from_slice(&(s.len() as u32).to_le_bytes());
    out.extend_from_slice(s);
}

fn metadata_bytes(mint: [u8; 32], name: &[u8], symbol: &[u8], uri: &[u8]) -> Vec<u8> {
    let mut out = vec![4u8];
    out.extend_from_slice(&[7u8; 32]);
    out.extend_from_slice(&mint);
    borsh_string(&mut out, name);
    borsh_string(&mut out, symbol);
    borsh_string(&mut out, uri);
    out.extend_from_slice(&500u16.to_le_bytes());
    out.push(0);
    out.push(0);
    out.push(1);
    out.push(0);
    out
}

#[test]
fn mint_round_trip() {
    let m = MintStruct { supply: 1_234_567_890_123, decimals: 6 };
    let bytes = encode_mint_account(&m);
    assert_eq!(bytes.len(), 82);
    assert_eq!(decode_mint_account(&bytes), Ok(m));
}

#[test]
fn mint_decodes_what_spl_token_packs() {
    let mint = spl_token::state::Mint {
        mint_authority: solana_program::program_option::COption::Some(Pubkey::new_from_array([3; 32])),
        supply: 42_000,
        decimals: 2,
        is_initialized: true,
        freeze_authority: solana_program::program_option::COption::None,
    };
    let mut data = vec![0u8; 82];
    spl_token::state::Mint::pack(mint, &mut data).unwrap();
    assert_eq!(decode_mint_account(&data), Ok(MintStruct { supply: 42_000, decimals: 2 }));
}

#[test]
fn mint_short_buffers_fail() {
    for n in 0..82 {
        let data = vec![0u8; n];
        assert_eq!(decode_mint_account(&data), Err(DecodeError::DecodeMintFailed));
    }
}

#[test]
fn mint_uninitialized_or_bad_tag_fails() {
    let m = MintStruct { supply: 5, decimals: 0 };
    let mut bytes = encode_mint_account(&m);
    bytes[45] = 0;
    assert_eq!(decode_mint_account(&bytes), Err(DecodeError::DecodeMintFailed));
    let mut bytes = encode_mint_account(&m);
    bytes[0] = 2;
    assert_eq!(decode_mint_account(&bytes), Err(DecodeError::DecodeMintFailed));
    let mut bytes = encode_mint_account(&m);
    bytes.push(0);
    assert_eq!(decode_mint_account(&bytes), Err(DecodeError::DecodeMintFailed));
}

#[test]
fn metadata_decodes_and_trims_padding() {
    let mut name = b"Token".to_vec();
    name.resize(32, 0);
    let mut symbol = b"TOK".to_vec();
    symbol.resize(10, 0);
    let mut uri = b"https://x.y/z.json".to_vec();
    uri.resize(200, 0);
    let data = metadata_bytes([9; 32], &name, &symbol, &uri);
    let m = decode_metadata_account(&data).unwrap();
    assert_eq!(m.mint, [9; 32]);
    assert_eq!(m.name, "Token");
    assert_eq!(m.symbol, "TOK");
    assert_eq!(m.uri, "https://x.y/z.json");
}

#[test]
fn metadata_round_trip_keeps_fields() {
    let data = metadata_bytes([1; 32], b"Name", b"SYM", b"");
    let m = decode_metadata_account(&data).unwrap();
    assert_eq!((m.mint, m.name.as_str(), m.symbol.as_str(), m.uri.as_str()), ([1; 32], "Name", "SYM", ""));
}

#[test]
fn metadata_too_long_strings_fail() {
    let long_name = vec![b'a'; 33];
    let data = metadata_bytes([1; 32], &long_name, b"S", b"u");
    assert_eq!(decode_metadata_account(&data).unwrap_err(), DecodeError::DecodeMetadataDataFailed);
    let data = metadata_bytes([1; 32], b"n", &vec![b'S'; 11], b"u");
    assert_eq!(decode_metadata_account(&data).unwrap_err(), DecodeError::DecodeMetadataDataFailed);
    let data = metadata_bytes([1; 32], b"n", b"S", &vec![b'u'; 201]);
    assert_eq!(decode_metadata_account(&data).unwrap_err(), DecodeError::DecodeMetadataDataFailed);
}

#[test]
fn metadata_short_or_bad_kind_fails() {
    let data = metadata_bytes([1; 32], b"n", b"S", b"u");
    for n in 0..69 {
        assert!(decode_metadata_account(&data[..n]).is_err());
    }
    let mut bad = data.clone();
    bad[0] = 200;
    assert!(decode_metadata_account(&bad).is_err());
}

#[test]
fn program_id_matches_metadata_program() {
    assert_eq!(TOKEN_METADATA_PROGRAM_ID, metaplex_token_metadata::id().to_bytes());
    assert_eq!(&METADATA_PREFIX, b"metadata");
}

#[test]
fn metadata_pda_matches_program_address() {
    let mint = [5u8; 32];
    let program = Pubkey::new_from_array(TOKEN_METADATA_PROGRAM_ID);
    let (expected, _) = Pubkey::find_program_address(&[b"metadata", program.as_ref(), &mint], &program);
    assert_eq!(get_metadata_pda(&mint), Ok(expected.to_bytes()));
}

#[test]
fn derive_is_deterministic_and_input_sensitive() {
    let k = [8u8; 32];
    let auth = TOKEN_METADATA_PROGRAM_ID;
    let a = metabob::address::derive(&k, b"metadata", &auth).unwrap();
    let b = metabob::address::derive(&k, b"metadata", &auth).unwrap();
    assert_eq!(a, b);
    assert_ne!(a, metabob::address::derive(&[9u8; 32], b"metadata", &auth).unwrap());
    assert_ne!(a, metabob::address::derive(&k, b"edition", &auth).unwrap());
    assert_ne!(a, metabob::address::derive(&k, b"metadata", &[1u8; 32]).unwrap());
    assert_ne!(a, k);
}
