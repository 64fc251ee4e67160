use std::str::FromStr;

use base64::Engine;
use pumpfun_logs::compiled::{decode_message, find_program_slot};
use pumpfun_logs::events::classify;
use pumpfun_logs::logs::{decode_logs, LogMarkers, LogScan};
use pumpfun_logs::payload::{decode_create_event, decode_trade_event, parse_trade_data};
use pumpfun_logs::{
    Address, CompiledInstruction, DexInstruction, InstructionKind, LogFilter, TokenInfo,
    TradeInfo, TransactionMessage, PROGRAM_ID,
};

const TRADE_TAG: [u8; 8] = [189, 219, 127, 211, 78, 230, 97, 238];
const CREATE_TAG: [u8; 8] = [27, 114, 169, 77, 222, 235, 99, 118];

fn addr(b: u8) -> Address {
    Address::new([b; 32])
}

fn program_address() -> Address {
    Address::new(solana_sdk::pubkey::Pubkey::from_str(PROGRAM_ID).unwrap().to_bytes())
}

fn trade_event_bytes(user: u8, sol: u64, tokens: u64, is_buy: bool) -> Vec<u8> {
    let mut v = TRADE_TAG.to_vec();
    v.extend_from_slice(&[7u8; 32]);
    v.extend_from_slice(&sol.to_le_bytes());
    v.extend_from_slice(&tokens.to_le_bytes());
    v.push(if is_buy { 1 } else { 0 });
    v.extend_from_slice(&[user; 32]);
    v.extend_from_slice(&1_700_000_000i64.to_le_bytes());
    v.extend_from_slice(&30u64.to_le_bytes());
    v.extend_from_slice(&1_000u64.to_le_bytes());
    v
}

fn expected_trade(user: u8, sol: u64, tokens: u64, is_buy: bool) -> TradeInfo {
    TradeInfo {
        mint: addr(7),
        sol_amount: sol,
        token_amount: tokens,
        is_buy,
        user: addr(user),
        timestamp: 1_700_000_000,
        virtual_sol_reserves: 30,
        virtual_token_reserves: 1_000,
    }
}

fn push_string(v: &mut Vec<u8>, s: &str) {
    v.extend_from_slice(&(s.len() as u32).to_le_bytes());
    v.extend_from_slice(s.as_bytes());
}

fn create_event_bytes() -> Vec<u8> {
    let mut v = CREATE_TAG.to_vec();
    push_string(&mut v, "Token");
    push_string(&mut v, "TKN");
    push_string(&mut v, "https://x");
    v.extend_from_slice(&[1u8; 32]);
    v.extend_from_slice(&[2u8; 32]);
    v.extend_from_slice(&[3u8; 32]);
    v
}

fn b64(bytes: &[u8]) -> String {
    base64::engine::general_purpose::STANDARD.encode(bytes)
}

fn invoke_line() -> String {
    format!("Program {} invoke [1]", PROGRAM_ID)
}

fn success_line() -> String {
    format!("Program {} success", PROGRAM_ID)
}

fn buy_logs(payload: &str) -> Vec<String> {
    vec![
        invoke_line(),
        "Program log: Instruction: Buy".to_string(),
        format!("Program data: {}", payload),
        success_line(),
    ]
}

#[test]
fn buy_log_without_wallet_is_user_trade() {
    let payload = b64(&trade_event_bytes(9, 500, 42, true));
    let r = LogFilter::parse_instruction(&buy_logs(&payload), None);
    assert_eq!(r, vec![DexInstruction::UserTrade(expected_trade(9, 500, 42, true))]);
}

#[test]
fn buy_log_with_own_wallet_is_bot_trade() {
    let payload = b64(&trade_event_bytes(9, 500, 42, true));
    let r = LogFilter::parse_instruction(&buy_logs(&payload), Some(addr(9)));
    assert_eq!(r, vec![DexInstruction::BotTrade(expected_trade(9, 500, 42, true))]);
}

#[test]
fn buy_log_with_other_wallet_is_user_trade() {
    let payload = b64(&trade_event_bytes(9, 500, 42, true));
    let r = LogFilter::parse_instruction(&buy_logs(&payload), Some(addr(8)));
    assert_eq!(r, vec![DexInstruction::UserTrade(expected_trade(9, 500, 42, true))]);
}

#[test]
fn log_without_success_yields_nothing() {
    let payload = b64(&trade_event_bytes(9, 500, 42, true));
    let mut logs = buy_logs(&payload);
    logs.pop();
    assert!(LogFilter::parse_instruction(&logs, None).is_empty());
}

#[test]
fn nested_invocation_yields_one_event() {
    let payload = b64(&trade_event_bytes(9, 500, 42, false));
    let logs = vec![
        invoke_line(),
        "Program log: Instruction: Sell".to_string(),
        format!("Program {} invoke [2]", PROGRAM_ID),
        success_line(),
        format!("Program data: {}", payload),
        success_line(),
    ];
    let r = LogFilter::parse_instruction(&logs, None);
    assert_eq!(r, vec![DexInstruction::UserTrade(expected_trade(9, 500, 42, false))]);
}

#[test]
fn longer_payload_is_kept_in_either_order() {
    let markers = LogMarkers::new(PROGRAM_ID);
    let short = "Program data: AAAAAAAAAA";
    let long = "Program data: BBBBBBBBBBBBBBBBBBBB";
    for order in [[short, long], [long, short]] {
        let mut scan = LogScan::new();
        assert!(scan.step(invoke_line().as_bytes(), &markers).is_none());
        assert!(scan.step(b"Program log: Instruction: Buy", &markers).is_none());
        assert!(scan.step(order[0].as_bytes(), &markers).is_none());
        assert!(scan.step(order[1].as_bytes(), &markers).is_none());
        let closed = scan.step(success_line().as_bytes(), &markers);
        assert_eq!(closed, Some((InstructionKind::Trade, b"BBBBBBBBBBBBBBBBBBBB".to_vec())));
    }
}

#[test]
fn create_log_yields_create_token() {
    let logs = vec![
        invoke_line(),
        "Program log: Instruction: Create".to_string(),
        format!("Program data: {}", b64(&create_event_bytes())),
        success_line(),
    ];
    let r = LogFilter::parse_instruction(&logs, None);
    let expected = TokenInfo {
        name: b"Token".to_vec(),
        symbol: b"TKN".to_vec(),
        uri: b"https://x".to_vec(),
        mint: addr(1),
        bonding_curve: addr(2),
        user: addr(3),
    };
    assert_eq!(r, vec![DexInstruction::CreateToken(expected)]);
}

#[test]
fn log_of_other_program_yields_nothing() {
    let payload = b64(&trade_event_bytes(9, 500, 42, true));
    let r = decode_logs(&buy_logs(&payload), "11111111111111111111111111111111", None);
    assert!(r.is_empty());
}

#[test]
fn log_lines_before_invocation_are_ignored() {
    let payload = b64(&trade_event_bytes(9, 500, 42, true));
    let mut logs = vec![
        "Program log: Instruction: Create".to_string(),
        format!("Program data: {}", b64(&create_event_bytes())),
        success_line(),
    ];
    logs.extend(buy_logs(&payload));
    let r = LogFilter::parse_instruction(&logs, None);
    assert_eq!(r, vec![DexInstruction::UserTrade(expected_trade(9, 500, 42, true))]);
}

#[test]
fn malformed_payload_yields_nothing() {
    assert!(LogFilter::parse_instruction(&buy_logs("not base64!"), None).is_empty());
    let mut bytes = trade_event_bytes(9, 500, 42, true);
    bytes[0] = 0;
    assert!(LogFilter::parse_instruction(&buy_logs(&b64(&bytes)), None).is_empty());
}

#[test]
fn base64_payload_is_decoded_before_parsing() {
    let bytes = trade_event_bytes(4, 1, 2, true);
    assert_eq!(parse_trade_data(b64(&bytes).as_bytes()), Some(expected_trade(4, 1, 2, true)));
    assert_eq!(parse_trade_data(&bytes), None);
}

#[test]
fn trade_event_rejects_bad_flag_and_short_input() {
    let mut bytes = trade_event_bytes(4, 1, 2, true);
    bytes[56] = 2;
    assert_eq!(decode_trade_event(&bytes), None);
    let bytes = trade_event_bytes(4, 1, 2, true);
    assert_eq!(decode_trade_event(&bytes[..112]), None);
    assert_eq!(decode_trade_event(&bytes), Some(expected_trade(4, 1, 2, true)));
}

#[test]
fn create_event_rejects_truncated_input() {
    let bytes = create_event_bytes();
    assert!(decode_create_event(&bytes).is_some());
    assert_eq!(decode_create_event(&bytes[..bytes.len() - 1]), None);
}

#[test]
fn classify_by_wallet() {
    let t = expected_trade(5, 1, 1, true);
    assert_eq!(classify(t, Some(addr(5))), DexInstruction::BotTrade(t));
    assert_eq!(classify(t, Some(addr(6))), DexInstruction::UserTrade(t));
    assert_eq!(classify(t, None), DexInstruction::UserTrade(t));
}

fn trade_instruction(tag: u8, data_len: usize, n_accounts: usize) -> CompiledInstruction {
    let mut data = vec![tag, 6, 61, 18, 1, 218, 235, 234];
    data.extend_from_slice(&1_000u64.to_le_bytes());
    data.extend_from_slice(&77u64.to_le_bytes());
    data.resize(data_len, 0);
    CompiledInstruction { program_id_index: 0, accounts: (1..=n_accounts as u8).collect(), data }
}

fn message(instructions: Vec<CompiledInstruction>) -> TransactionMessage {
    let mut keys = vec![program_address()];
    for b in 1..=12u8 {
        keys.push(addr(b + 100));
    }
    TransactionMessage { account_keys: keys, instructions }
}

fn instruction_trade(is_buy: bool) -> TradeInfo {
    TradeInfo {
        mint: addr(103),
        sol_amount: 77,
        token_amount: 1_000,
        is_buy,
        user: addr(107),
        timestamp: 0,
        virtual_sol_reserves: 0,
        virtual_token_reserves: 0,
    }
}

#[test]
fn buy_and_sell_instructions_are_decoded() {
    let msg = message(vec![trade_instruction(102, 24, 12), trade_instruction(51, 24, 12)]);
    let r = LogFilter::parse_compiled_instruction(msg, Some(addr(107)));
    assert_eq!(
        r,
        vec![
            DexInstruction::BotTrade(instruction_trade(true)),
            DexInstruction::BotTrade(instruction_trade(false)),
        ]
    );
}

#[test]
fn trade_instruction_shape_is_required() {
    let msg = message(vec![
        trade_instruction(102, 23, 12),
        trade_instruction(102, 25, 12),
        trade_instruction(51, 24, 11),
        trade_instruction(51, 24, 12),
    ]);
    let r = LogFilter::parse_compiled_instruction(msg, None);
    assert_eq!(r, vec![DexInstruction::UserTrade(instruction_trade(false))]);
}

#[test]
fn create_instruction_yields_one_event() {
    let mut data = vec![24, 30, 200, 40, 5, 28, 7, 119];
    push_string(&mut data, "Token");
    push_string(&mut data, "TKN");
    push_string(&mut data, "https://x");
    let ix = CompiledInstruction { program_id_index: 0, accounts: (1..=8).collect(), data };
    let r = LogFilter::parse_compiled_instruction(message(vec![ix.clone(), ix]), None);
    let expected = TokenInfo {
        name: b"Token".to_vec(),
        symbol: b"TKN".to_vec(),
        uri: b"https://x".to_vec(),
        mint: addr(101),
        bonding_curve: addr(103),
        user: addr(108),
    };
    assert_eq!(
        r,
        vec![DexInstruction::CreateToken(expected.clone()), DexInstruction::CreateToken(expected)]
    );
}

#[test]
fn out_of_range_accounts_or_other_program_are_skipped() {
    let mut bad = trade_instruction(102, 24, 12);
    bad.accounts[3] = 13;
    let mut other = trade_instruction(102, 24, 12);
    other.program_id_index = 1;
    let unknown = trade_instruction(7, 24, 12);
    let empty = CompiledInstruction { program_id_index: 0, accounts: vec![], data: vec![] };
    let r = LogFilter::parse_compiled_instruction(message(vec![bad, other, unknown, empty]), None);
    assert!(r.is_empty());
}

#[test]
fn message_without_program_yields_nothing() {
    let mut msg = message(vec![trade_instruction(102, 24, 12)]);
    msg.account_keys[0] = addr(1);
    assert!(LogFilter::parse_compiled_instruction(msg, None).is_empty());
}

#[test]
fn program_slot_is_the_first_match() {
    let keys = vec![addr(1), addr(2), addr(2)];
    assert_eq!(find_program_slot(&keys, &addr(2)), Some(1));
    assert_eq!(find_program_slot(&keys, &addr(3)), None);
    let msg = TransactionMessage {
        account_keys: keys,
        instructions: vec![],
    };
    assert!(decode_message(&msg, &addr(2), None).is_empty());
}

