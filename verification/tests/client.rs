//! What a client builds and reads.

use std::str::FromStr;

use autonomous_mm::address::{
    market_addresses, mint_pda, pda, program_data_address, state_pda, try_pda, vault_pda,
    MarketAddresses,
};
use autonomous_mm::ids::{
    DEPLOYER_SEED, EXPECTED_DEPLOYER, PROGRAM_ID, RENT_SYSVAR, SYSTEM_PROGRAM_ID,
    TOKEN_PROGRAM_ID, UPGRADEABLE_LOADER_ID,
};
use autonomous_mm::instruction::{
    discriminator_of_digest, initialize_instruction, ix_buy, ix_discriminator, ix_initialize,
    ix_quote, ix_sell, open_token_account, quote_instruction, trade_instruction, AccountMeta,
    Instruction, Request,
};
use autonomous_mm::keys::{deployer, keypair_of_bytes, keypair_of_json, KeypairError};
use autonomous_mm::logs::{
    decode_quote, decode_trade, decode_trade_events, is_white_space, strip_prefix,
    treasury_from_state, trim, upgrade_authority,
};
use autonomous_mm::pubkey::{same_key, Pubkey};
use autonomous_mm::spl::{
    empty_token_account, mint_supply, spl_token_account_len, token_balance, SplTokenAccount,
};
use base64::engine::general_purpose::STANDARD;
use base64::Engine;
use sha2::{Digest, Sha256};
use solana_sdk::signer::Signer;

const TREASURY: Pubkey = [3; 32];
const USER: Pubkey = [4; 32];
const USER_TOKEN: Pubkey = [5; 32];
const MARKET: MarketAddresses = MarketAddresses { state: [10; 32], mint: [11; 32], vault: [12; 32] };

fn address(text: &str) -> Pubkey {
    solana_sdk::pubkey::Pubkey::from_str(text).unwrap().to_bytes()
}

fn writable(pubkey: Pubkey, is_signer: bool) -> AccountMeta {
    AccountMeta { pubkey, is_signer, is_writable: true }
}

fn readonly(pubkey: Pubkey, is_signer: bool) -> AccountMeta {
    AccountMeta { pubkey, is_signer, is_writable: false }
}

// ---------------------------------------------------------------------------
// Addresses
// ---------------------------------------------------------------------------

#[test]
fn known_addresses() {
    assert_eq!(PROGRAM_ID, address("DxRXCM3egzfmcgBXYAt19xUewgnmrZ575XMwUQr8xQCG"));
    assert_eq!(TOKEN_PROGRAM_ID, address("TokenkegQfeZyiNwAJbNbGKPFXCWuBvf9Ss623VQ5DA"));
    assert_eq!(RENT_SYSVAR, address("SysvarRent111111111111111111111111111111111"));
    assert_eq!(EXPECTED_DEPLOYER, address("GmaDrppBC7P5ARKV8g3djiwP89vz1jLK23V2GBjuAEGB"));
    assert_eq!(SYSTEM_PROGRAM_ID, solana_system_interface::program::ID.to_bytes());
    assert_eq!(UPGRADEABLE_LOADER_ID, solana_sdk_ids::bpf_loader_upgradeable::ID.to_bytes());
    assert!(same_key(&PROGRAM_ID, &PROGRAM_ID));
    assert!(!same_key(&PROGRAM_ID, &TOKEN_PROGRAM_ID));
    let mut last_byte_differs = PROGRAM_ID;
    last_byte_differs[31] ^= 1;
    assert!(!same_key(&PROGRAM_ID, &last_byte_differs));
}

#[test]
fn derived_addresses() {
    let program = solana_sdk::pubkey::Pubkey::new_from_array(PROGRAM_ID);
    for seed in [b"state" as &[u8], b"mint", b"vault", b"anything else"] {
        let (key, bump) = solana_sdk::pubkey::Pubkey::find_program_address(&[seed], &program);
        assert_eq!(pda(seed), (key.to_bytes(), bump));
        assert_eq!(try_pda(seed), Some((key.to_bytes(), bump)));
        assert_ne!(&pda(seed).0[..], seed);
    }
    assert_eq!(state_pda(), pda(b"state").0);
    assert_eq!(mint_pda(), pda(b"mint").0);
    assert_eq!(vault_pda(), pda(b"vault").0);
    assert_eq!(
        market_addresses(),
        Some(MarketAddresses { state: state_pda(), mint: mint_pda(), vault: vault_pda() })
    );
    // a seed is at most 32 bytes
    assert!(try_pda(&[0; 32]).is_some());
    assert_eq!(try_pda(&[0; 33]), None);
}

#[test]
fn program_data_is_derived_by_the_loader() {
    let loader = solana_sdk_ids::bpf_loader_upgradeable::ID;
    let (key, _) = solana_sdk::pubkey::Pubkey::find_program_address(&[&PROGRAM_ID], &loader);
    assert_eq!(program_data_address(), Some(key.to_bytes()));
}

// ---------------------------------------------------------------------------
// Instructions
// ---------------------------------------------------------------------------

#[test]
fn discriminators() {
    assert_eq!(ix_discriminator("initialize"), [175, 175, 109, 31, 13, 152, 155, 237]);
    assert_eq!(ix_discriminator("buy"), [102, 6, 61, 18, 1, 218, 235, 234]);
    assert_eq!(ix_discriminator("sell"), [51, 230, 133, 164, 1, 127, 131, 173]);
    let digest: [u8; 32] = Sha256::digest(b"global:quote").into();
    assert_eq!(ix_discriminator("quote"), discriminator_of_digest(&digest));
    let digest: [u8; 32] = Sha256::digest("global:è".as_bytes()).into();
    assert_eq!(&ix_discriminator("è")[..], &digest[..8]);
}

#[test]
fn the_first_eight_bytes_of_a_digest() {
    let mut digest = [0u8; 32];
    for i in 0..32 {
        digest[i] = i as u8 + 1;
    }
    assert_eq!(discriminator_of_digest(&digest), [1, 2, 3, 4, 5, 6, 7, 8]);
}

#[test]
fn an_initialize_holds_eight_accounts() {
    let ix = initialize_instruction(&MARKET, &[9; 8], &USER, &TREASURY);
    assert_eq!(
        ix,
        Instruction {
            program_id: PROGRAM_ID,
            accounts: vec![
                writable([10; 32], false),
                writable([11; 32], false),
                writable([12; 32], false),
                readonly(TREASURY, true),
                writable(USER, true),
                readonly(SYSTEM_PROGRAM_ID, false),
                readonly(TOKEN_PROGRAM_ID, false),
                readonly(RENT_SYSVAR, false),
            ],
            data: vec![9; 8],
        }
    );
    let market = market_addresses().unwrap();
    assert_eq!(
        ix_initialize(&USER, &TREASURY),
        initialize_instruction(&market, &ix_discriminator("initialize"), &USER, &TREASURY)
    );
}

#[test]
fn a_trade_holds_eight_accounts_and_two_numbers() {
    let ix = trade_instruction(&MARKET, &[9; 8], 1, 0x0203, &TREASURY, &USER, &USER_TOKEN);
    assert_eq!(
        ix,
        Instruction {
            program_id: PROGRAM_ID,
            accounts: vec![
                readonly([10; 32], false),
                writable([11; 32], false),
                writable([12; 32], false),
                writable(TREASURY, false),
                writable(USER, true),
                writable(USER_TOKEN, false),
                readonly(SYSTEM_PROGRAM_ID, false),
                readonly(TOKEN_PROGRAM_ID, false),
            ],
            data: vec![9, 9, 9, 9, 9, 9, 9, 9, 1, 0, 0, 0, 0, 0, 0, 0, 3, 2, 0, 0, 0, 0, 0, 0],
        }
    );
    let market = market_addresses().unwrap();
    let buy = ix_discriminator("buy");
    assert_eq!(
        ix_buy(7, u64::MAX, &TREASURY, &USER, &USER_TOKEN),
        trade_instruction(&market, &buy, 7, u64::MAX, &TREASURY, &USER, &USER_TOKEN)
    );
    let sell = ix_discriminator("sell");
    assert_eq!(
        ix_sell(7, 8, &TREASURY, &USER, &USER_TOKEN),
        trade_instruction(&market, &sell, 7, 8, &TREASURY, &USER, &USER_TOKEN)
    );
}

#[test]
fn a_quote_needs_no_signature() {
    let ix = quote_instruction(&MARKET, &[9; 8], 258);
    assert_eq!(
        ix,
        Instruction {
            program_id: PROGRAM_ID,
            accounts: vec![readonly([10; 32], false), readonly([11; 32], false)],
            data: vec![9, 9, 9, 9, 9, 9, 9, 9, 2, 1, 0, 0, 0, 0, 0, 0],
        }
    );
    let market = market_addresses().unwrap();
    assert_eq!(ix_quote(5), quote_instruction(&market, &ix_discriminator("quote"), 5));
    assert!(ix_quote(5).accounts.iter().all(|a| !a.is_signer && !a.is_writable));
}

#[test]
fn a_request_becomes_its_instruction() {
    let (treasury, user, user_token) = (TREASURY, USER, USER_TOKEN);
    assert_eq!(
        Request::Initialize { payer: USER, treasury }.instruction(),
        Some(ix_initialize(&USER, &TREASURY))
    );
    assert_eq!(
        Request::Buy { amount: 1, max_cost: 2, treasury, user, user_token }.instruction(),
        Some(ix_buy(1, 2, &TREASURY, &USER, &USER_TOKEN))
    );
    assert_eq!(
        Request::Sell { amount: 1, min_refund: 2, treasury, user, user_token }.instruction(),
        Some(ix_sell(1, 2, &TREASURY, &USER, &USER_TOKEN))
    );
    assert_eq!(Request::Quote { amount: 3 }.instruction(), Some(ix_quote(3)));
}

#[test]
fn a_token_account_is_opened_by_two_instructions() {
    let (payer, account, owner, mint) = ([1; 32], [2; 32], [3; 32], [4; 32]);
    let (create, init) = open_token_account(&payer, &account, &owner, &mint, 2_039_280);
    let mut data = vec![0, 0, 0, 0];
    data.extend_from_slice(&2_039_280u64.to_le_bytes());
    data.extend_from_slice(&165u64.to_le_bytes());
    data.extend_from_slice(&TOKEN_PROGRAM_ID);
    assert_eq!(
        create,
        Instruction {
            program_id: SYSTEM_PROGRAM_ID,
            accounts: vec![writable(payer, true), writable(account, true)],
            data,
        }
    );
    let mut data = vec![18];
    data.extend_from_slice(&owner);
    assert_eq!(
        init,
        Instruction {
            program_id: TOKEN_PROGRAM_ID,
            accounts: vec![writable(account, false), readonly(mint, false)],
            data,
        }
    );
}

// ---------------------------------------------------------------------------
// Keys
// ---------------------------------------------------------------------------

#[test]
fn the_test_deployer_is_the_expected_one() {
    let k = deployer();
    assert_eq!(k.secret, DEPLOYER_SEED);
    assert_eq!(k.pubkey(), EXPECTED_DEPLOYER);
    let real = solana_sdk::signer::keypair::keypair_from_seed(&DEPLOYER_SEED).unwrap();
    assert_eq!(k.to_bytes(), real.to_bytes().to_vec());
    assert_eq!(k.pubkey(), real.pubkey().to_bytes());
}

#[test]
fn a_key_file_is_read_back() {
    let bytes = deployer().to_bytes();
    assert_eq!(keypair_of_bytes(&bytes), Ok(deployer()));
    let text = format!("{bytes:?}");
    assert_eq!(keypair_of_json(&text), Ok(deployer()));
}

#[test]
fn a_bad_key_file_is_refused() {
    let bytes = deployer().to_bytes();
    assert_eq!(keypair_of_json(""), Err(KeypairError::NotBytes));
    assert_eq!(keypair_of_json("{}"), Err(KeypairError::NotBytes));
    assert_eq!(keypair_of_json("[1, 256]"), Err(KeypairError::NotBytes));
    assert_eq!(keypair_of_json("[1, 2]"), Err(KeypairError::NotAKeypair));
    assert_eq!(keypair_of_bytes(&bytes[..63]), Err(KeypairError::NotAKeypair));
    let mut longer = bytes.clone();
    longer.push(0);
    assert_eq!(keypair_of_bytes(&longer), Err(KeypairError::NotAKeypair));
    // the public key belongs to another secret
    let mut other = bytes.clone();
    other[0] ^= 1;
    assert_eq!(keypair_of_bytes(&other), Err(KeypairError::NotAKeypair));
}

// ---------------------------------------------------------------------------
// Logs
// ---------------------------------------------------------------------------

/// The bytes of a trade's event.
fn event(is_buy: u8, numbers: [u64; 5]) -> Vec<u8> {
    let mut raw = vec![0xAA; 8];
    raw.push(is_buy);
    for n in numbers {
        raw.extend_from_slice(&n.to_le_bytes());
    }
    raw
}

#[test]
fn an_event_is_read_back() {
    let raw = event(1, [50_000_000, 5_025_543_217, 25_002_706, 50_000_000, 12_345]);
    assert_eq!(raw.len(), 49);
    let fields = (true, 50_000_000, 5_025_543_217, 25_002_706, 50_000_000);
    assert_eq!(decode_trade(&raw), Some(fields));
    assert_eq!(decode_trade(&event(0, [1, 2, 3, 4, 5])), Some((false, 1, 2, 3, 4)));
    // only the byte 1 is a buy
    assert_eq!(decode_trade(&event(2, [1, 2, 3, 4, 5])), Some((false, 1, 2, 3, 4)));
    assert_eq!(decode_trade(&raw[..48]), None);
    assert_eq!(decode_trade(&[]), None);
    let mut longer = raw.clone();
    longer.push(7);
    assert_eq!(decode_trade(&longer), Some(fields));
}

#[test]
fn events_are_found_in_a_log() {
    let first = STANDARD.encode(event(1, [1, 2, 3, 4, 5]));
    let second = STANDARD.encode(event(0, [6, 7, 8, 9, 10]));
    let logs: Vec<String> = vec![
        format!("Program {} invoke [1]", "DxRXCM3egzfmcgBXYAt19xUewgnmrZ575XMwUQr8xQCG"),
        format!("Program data: {first}"),
        format!("Program data:{first}"),
        format!(" Program data: {first}"),
        "Program data: ###".to_string(),
        format!("Program data: {}", STANDARD.encode([1, 2, 3])),
        format!("Program data: \u{a0}\t{second} \n"),
        "Program data: ".to_string(),
        String::new(),
    ];
    assert_eq!(
        decode_trade_events(&logs),
        vec![(true, 1, 2, 3, 4), (false, 6, 7, 8, 9)]
    );
    assert_eq!(decode_trade_events(&[]), vec![]);
    // the events of a log are those of its parts, in order
    let mut parts = decode_trade_events(&logs[..3]);
    parts.extend(decode_trade_events(&logs[3..]));
    assert_eq!(decode_trade_events(&logs), parts);
}

#[test]
fn white_space_is_what_std_says() {
    for n in 0..=char::MAX as u32 {
        if let Some(c) = char::from_u32(n) {
            assert_eq!(is_white_space(c), c.is_whitespace(), "{n:x}");
        }
    }
}

#[test]
fn trimming_is_what_std_does() {
    for text in ["", " ", "a", " a ", "\t è \u{3000}x\u{2028}\n", "a b", "\u{200b}a"] {
        assert_eq!(trim(text), text.trim());
    }
}

#[test]
fn stripping_is_what_std_does() {
    for text in ["", "a", "ab", "abc", "b", "èa", "è", "xab"] {
        for prefix in ["", "a", "ab", "è", "abcd"] {
            assert_eq!(strip_prefix(text, prefix), text.strip_prefix(prefix));
        }
    }
}

#[test]
fn a_quote_is_read_back() {
    let mut data = 102u64.to_le_bytes().to_vec();
    data.extend_from_slice(&99u64.to_le_bytes());
    assert_eq!(decode_quote(&data), Some((102, 99)));
    assert_eq!(decode_quote(&data[..15]), None);
    data.push(0);
    assert_eq!(decode_quote(&data), None);
}

#[test]
fn the_upgrade_authority_is_read_from_the_program_data() {
    let mut data = vec![0u8; 13];
    data[12] = 1;
    data.extend_from_slice(&[6; 32]);
    assert_eq!(upgrade_authority(&data), Some([6; 32]));
    data.extend_from_slice(&[9; 100]);
    assert_eq!(upgrade_authority(&data), Some([6; 32]));
    assert_eq!(upgrade_authority(&data[..44]), None);
    data[12] = 0;
    assert_eq!(upgrade_authority(&data), None);
    data[12] = 2;
    assert_eq!(upgrade_authority(&data), None);
}

#[test]
fn the_treasury_is_read_from_the_state() {
    let mut data = vec![1u8; 40];
    data.extend_from_slice(&[2; 32]);
    data.extend_from_slice(&[3; 3]);
    assert_eq!(treasury_from_state(&data), [2; 32]);
}

// ---------------------------------------------------------------------------
// Token accounts
// ---------------------------------------------------------------------------

#[test]
fn a_token_account_is_packed_field_by_field() {
    let account = SplTokenAccount {
        mint: [1; 32],
        owner: [2; 32],
        amount: 0x0102030405060708,
        delegate: Some([3; 32]),
        state: 1,
        is_native: Some(9),
        delegated_amount: 10,
        close_authority: Some([4; 32]),
    };
    let mut dst = vec![0xEE; 170];
    account.pack_into_slice(&mut dst);
    let mut expected = vec![1; 32];
    expected.extend_from_slice(&[2; 32]);
    expected.extend_from_slice(&[8, 7, 6, 5, 4, 3, 2, 1]);
    expected.extend_from_slice(&[1, 0, 0, 0]);
    expected.extend_from_slice(&[3; 32]);
    expected.push(1);
    expected.extend_from_slice(&[1, 0, 0, 0, 9, 0, 0, 0, 0, 0, 0, 0]);
    expected.extend_from_slice(&[10, 0, 0, 0, 0, 0, 0, 0]);
    expected.extend_from_slice(&[1, 0, 0, 0]);
    expected.extend_from_slice(&[4; 32]);
    expected.extend_from_slice(&[0xEE; 5]);
    assert_eq!(dst, expected);
    assert_eq!(token_balance(&dst), 0x0102030405060708);
}

#[test]
fn fields_without_a_value_leave_the_bytes_alone() {
    let account = SplTokenAccount {
        mint: [1; 32],
        owner: [2; 32],
        amount: 5,
        delegate: None,
        state: 1,
        is_native: None,
        delegated_amount: 0,
        close_authority: None,
    };
    let mut dst = vec![0xEE; 165];
    account.pack_into_slice(&mut dst);
    assert_eq!(&dst[72..76], &[0; 4]);
    assert_eq!(&dst[76..108], &[0xEE; 32]);
    assert_eq!(dst[108], 1);
    assert_eq!(&dst[109..113], &[0; 4]);
    assert_eq!(&dst[113..121], &[0xEE; 8]);
    assert_eq!(&dst[129..133], &[0; 4]);
    assert_eq!(&dst[133..165], &[0xEE; 32]);
}

#[test]
fn an_empty_token_account() {
    let data = empty_token_account(&[1; 32], &[2; 32]);
    assert_eq!(data.len(), spl_token_account_len());
    assert_eq!(data.len(), 165);
    assert_eq!(token_balance(&data), 0);
    assert_eq!(&data[..32], &[1; 32]);
    assert_eq!(&data[32..64], &[2; 32]);
    assert_eq!(data[108], 1);
    assert!(data[64..108].iter().all(|b| *b == 0));
    assert!(data[109..].iter().all(|b| *b == 0));
}

#[test]
fn the_supply_is_read_from_the_mint() {
    let mut data = vec![0xEE; 82];
    data[36..44].copy_from_slice(&123_456_789u64.to_le_bytes());
    assert_eq!(mint_supply(&data), 123_456_789);
}
