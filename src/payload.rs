//! The records that the program's instructions and events carry, and their
//! byte layouts: an 8-byte tag, then fields in order, integers least
//! significant byte first, strings as a 4-byte length and their bytes.

use vstd::prelude::*;
use base64::Engine;
use crate::address::Address;
use crate::bytes::{begins_with, le_value, read_le, read_array32, copy_range, begins_with_exec};
use crate::message::{CompiledInstruction, slots_in_range, account_at};

verus! {

/// A token that the program created.
#[derive(Clone, Debug, PartialEq, Eq)]
pub struct TokenInfo {
    pub name: Vec<u8>,
    pub symbol: Vec<u8>,
    pub uri: Vec<u8>,
    pub mint: Address,
    pub bonding_curve: Address,
    pub user: Address,
}

/// A buy or a sell of a token.
#[derive(Clone, Copy, Debug, PartialEq, Eq)]
pub struct TradeInfo {
    pub mint: Address,
    pub sol_amount: u64,
    pub token_amount: u64,
    pub is_buy: bool,
    pub user: Address,
    pub timestamp: i64,
    pub virtual_sol_reserves: u64,
    pub virtual_token_reserves: u64,
}

/// A `TokenInfo` as plain values.
pub struct TokenView {
    pub name: Seq<u8>,
    pub symbol: Seq<u8>,
    pub uri: Seq<u8>,
    pub mint: Seq<u8>,
    pub bonding_curve: Seq<u8>,
    pub user: Seq<u8>,
}

/// A `TradeInfo` as plain values.
pub struct TradeView {
    pub mint: Seq<u8>,
    pub sol_amount: u64,
    pub token_amount: u64,
    pub is_buy: bool,
    pub user: Seq<u8>,
    pub timestamp: i64,
    pub virtual_sol_reserves: u64,
    pub virtual_token_reserves: u64,
}

impl View for TokenInfo {
    type V = TokenView;

    open spec fn view(&self) -> TokenView {
        TokenView {
            name: self.name@,
            symbol: self.symbol@,
            uri: self.uri@,
            mint: self.mint@,
            bonding_curve: self.bonding_curve@,
            user: self.user@,
        }
    }
}

impl View for TradeInfo {
    type V = TradeView;

    open spec fn view(&self) -> TradeView {
        TradeView {
            mint: self.mint@,
            sol_amount: self.sol_amount,
            token_amount: self.token_amount,
            is_buy: self.is_buy,
            user: self.user@,
            timestamp: self.timestamp,
            virtual_sol_reserves: self.virtual_sol_reserves,
            virtual_token_reserves: self.virtual_token_reserves,
        }
    }
}

/// The tag that opens a token-creation event.
pub open spec fn create_event_tag() -> Seq<u8> {
    seq![27u8, 114u8, 169u8, 77u8, 222u8, 235u8, 99u8, 118u8]
}

/// The tag that opens a trade event.
pub open spec fn trade_event_tag() -> Seq<u8> {
    seq![189u8, 219u8, 127u8, 211u8, 78u8, 230u8, 97u8, 238u8]
}

/// The bytes of a length-prefixed string at `at`, and the offset after it.
pub open spec fn string_at(s: Seq<u8>, at: int) -> Option<(Seq<u8>, int)> {
    if 0 <= at && at + 4 <= s.len() {
        let n = le_value(s.subrange(at, at + 4));
        if at + 4 + n <= s.len() {
            Some((s.subrange(at + 4, at + 4 + n), at + 4 + n))
        } else {
            None
        }
    } else {
        None
    }
}

/// Name, symbol and uri: three strings in a row from `at`, and the offset
/// after them.
pub open spec fn token_strings_at(s: Seq<u8>, at: int) -> Option<(Seq<u8>, Seq<u8>, Seq<u8>, int)> {
    match string_at(s, at) {
        Some((name, a)) => match string_at(s, a) {
            Some((symbol, b)) => match string_at(s, b) {
                Some((uri, c)) => Some((name, symbol, uri, c)),
                None => None,
            },
            None => None,
        },
        None => None,
    }
}

/// The unsigned 64-bit number at `s[at..at + 8]`.
pub open spec fn u64_at(s: Seq<u8>, at: int) -> u64 {
    le_value(s.subrange(at, at + 8)) as u64
}

/// The token that a token-creation event's bytes describe, if they are one.
pub open spec fn create_event_of(s: Seq<u8>) -> Option<TokenView> {
    if begins_with(s, create_event_tag()) {
        match token_strings_at(s, 8) {
            Some((name, symbol, uri, c)) => if c + 96 <= s.len() {
                Some(
                    TokenView {
                        name,
                        symbol,
                        uri,
                        mint: s.subrange(c, c + 32),
                        bonding_curve: s.subrange(c + 32, c + 64),
                        user: s.subrange(c + 64, c + 96),
                    },
                )
            } else {
                None
            },
            None => None,
        }
    } else {
        None
    }
}

/// The trade that a trade event's bytes describe, if they are one.
pub open spec fn trade_event_of(s: Seq<u8>) -> Option<TradeView> {
    if begins_with(s, trade_event_tag()) && 113 <= s.len() && s[56] <= 1 {
        Some(
            TradeView {
                mint: s.subrange(8, 40),
                sol_amount: u64_at(s, 40),
                token_amount: u64_at(s, 48),
                is_buy: s[56] == 1,
                user: s.subrange(57, 89),
                timestamp: u64_at(s, 89) as i64,
                virtual_sol_reserves: u64_at(s, 97),
                virtual_token_reserves: u64_at(s, 105),
            },
        )
    } else {
        None
    }
}

/// The token that a create instruction describes: name, symbol and uri from its
/// data after the tag; mint, bonding curve and creator from its first, third
/// and eighth referenced accounts.
pub open spec fn create_instruction_of(ix: CompiledInstruction, keys: Seq<Address>) -> Option<TokenView> {
    if ix.accounts@.len() >= 8 {
        match token_strings_at(ix.data@, 8) {
            Some((name, symbol, uri, c)) => Some(
                TokenView {
                    name,
                    symbol,
                    uri,
                    mint: account_at(keys, ix.accounts@, 0),
                    bonding_curve: account_at(keys, ix.accounts@, 2),
                    user: account_at(keys, ix.accounts@, 7),
                },
            ),
            None => None,
        }
    } else {
        None
    }
}

/// The trade that a buy or sell instruction describes: the token amount and the
/// SOL limit from its data after the tag; mint and trader from its third and
/// seventh referenced accounts. An instruction carries no time or reserves.
pub open spec fn trade_instruction_of(ix: CompiledInstruction, keys: Seq<Address>, is_buy: bool) -> Option<TradeView> {
    if ix.data@.len() >= 24 && ix.accounts@.len() >= 7 {
        Some(
            TradeView {
                mint: account_at(keys, ix.accounts@, 2),
                sol_amount: u64_at(ix.data@, 16),
                token_amount: u64_at(ix.data@, 8),
                is_buy,
                user: account_at(keys, ix.accounts@, 6),
                timestamp: 0,
                virtual_sol_reserves: 0,
                virtual_token_reserves: 0,
            },
        )
    } else {
        None
    }
}

/// The bytes that standard base64 text decodes to, if it is well formed.
pub uninterp spec fn base64_decoded(s: Seq<u8>) -> Option<Seq<u8>>;

/// Relies on base64's `STANDARD.decode`: padded standard-alphabet base64 text
/// to the bytes it encodes, or an error where the text is malformed.
#[verifier::external_body]
fn decode_base64(s: &[u8]) -> (r: Option<Vec<u8>>)
    ensures
        r.is_some() <==> base64_decoded(s@).is_some(),
        r matches Some(v) ==> base64_decoded(s@) == Some(v@),
{
    match base64::engine::general_purpose::STANDARD.decode(s) {
        Ok(v) => Some(v),
        Err(_) => None,
    }
}

/// The plain values of an optional token.
pub open spec fn token_view_of(r: Option<TokenInfo>) -> Option<TokenView> {
    match r {
        Some(t) => Some(t@),
        None => None,
    }
}

/// The plain values of an optional trade.
pub open spec fn trade_view_of(r: Option<TradeInfo>) -> Option<TradeView> {
    match r {
        Some(t) => Some(t@),
        None => None,
    }
}

/// Reads the length-prefixed string at `at`.
fn read_string(s: &[u8], at: usize) -> (r: Option<(Vec<u8>, usize)>)
    ensures
        r.is_some() <==> string_at(s@, at as int).is_some(),
        r matches Some((v, e)) ==> string_at(s@, at as int) == Some((v@, e as int)),
{
    let n: usize = s.len();
    if at > n || n - at < 4 {
        return None;
    }
    let len: u64 = read_le(s, at, 4);
    if len > (n - at - 4) as u64 {
        return None;
    }
    let end: usize = at + 4 + len as usize;
    Some((copy_range(s, at + 4, end), end))
}

/// Reads name, symbol and uri from `at`.
fn read_token_strings(s: &[u8], at: usize) -> (r: Option<(Vec<u8>, Vec<u8>, Vec<u8>, usize)>)
    ensures
        r.is_some() <==> token_strings_at(s@, at as int).is_some(),
        r matches Some((a, b, c, e)) ==> token_strings_at(s@, at as int) == Some((a@, b@, c@, e as int)),
{
    let (name, p) = match read_string(s, at) {
        Some(x) => x,
        None => return None,
    };
    let (symbol, q) = match read_string(s, p) {
        Some(x) => x,
        None => return None,
    };
    let (uri, e) = match read_string(s, q) {
        Some(x) => x,
        None => return None,
    };
    Some((name, symbol, uri, e))
}

/// Decodes the bytes of a token-creation event.
pub fn decode_create_event(s: &[u8]) -> (r: Option<TokenInfo>)
    ensures
        token_view_of(r) == create_event_of(s@),
{
    let tag: [u8; 8] = [27, 114, 169, 77, 222, 235, 99, 118];
    assert(tag@ =~= create_event_tag());
    if !begins_with_exec(s, &tag) {
        return None;
    }
    let (name, symbol, uri, c) = match read_token_strings(s, 8) {
        Some(x) => x,
        None => return None,
    };
    if c > s.len() || s.len() - c < 96 {
        return None;
    }
    let r = TokenInfo {
        name,
        symbol,
        uri,
        mint: Address { bytes: read_array32(s, c) },
        bonding_curve: Address { bytes: read_array32(s, c + 32) },
        user: Address { bytes: read_array32(s, c + 64) },
    };
    Some(r)
}

/// Decodes the bytes of a trade event.
pub fn decode_trade_event(s: &[u8]) -> (r: Option<TradeInfo>)
    ensures
        trade_view_of(r) == trade_event_of(s@),
{
    let tag: [u8; 8] = [189, 219, 127, 211, 78, 230, 97, 238];
    assert(tag@ =~= trade_event_tag());
    if !begins_with_exec(s, &tag) || s.len() < 113 || s[56] > 1 {
        return None;
    }
    let timestamp: u64 = read_le(s, 89, 8);
    let r = TradeInfo {
        mint: Address { bytes: read_array32(s, 8) },
        sol_amount: read_le(s, 40, 8),
        token_amount: read_le(s, 48, 8),
        is_buy: s[56] == 1,
        user: Address { bytes: read_array32(s, 57) },
        timestamp: timestamp as i64,
        virtual_sol_reserves: read_le(s, 97, 8),
        virtual_token_reserves: read_le(s, 105, 8),
    };
    Some(r)
}

/// Decodes the base64 text of a token-creation event, as the program logs it.
pub fn parse_create_token_data(payload: &[u8]) -> (r: Option<TokenInfo>)
    ensures
        token_view_of(r) == match base64_decoded(payload@) {
            Some(b) => create_event_of(b),
            None => None,
        },
{
    match decode_base64(payload) {
        Some(b) => decode_create_event(b.as_slice()),
        None => None,
    }
}

/// Decodes the base64 text of a trade event, as the program logs it.
pub fn parse_trade_data(payload: &[u8]) -> (r: Option<TradeInfo>)
    ensures
        trade_view_of(r) == match base64_decoded(payload@) {
            Some(b) => trade_event_of(b),
            None => None,
        },
{
    match decode_base64(payload) {
        Some(b) => decode_trade_event(b.as_slice()),
        None => None,
    }
}

/// Decodes a create instruction against the message's account addresses.
pub fn parse_instruction_create_token_data(ix: &CompiledInstruction, keys: &[Address]) -> (r: Option<TokenInfo>)
    requires
        slots_in_range(ix.accounts@, keys@.len() as int),
    ensures
        token_view_of(r) == create_instruction_of(*ix, keys@),
{
    if ix.accounts.len() < 8 {
        return None;
    }
    let (name, symbol, uri, _end) = match read_token_strings(ix.data.as_slice(), 8) {
        Some(x) => x,
        None => return None,
    };
    let r = TokenInfo {
        name,
        symbol,
        uri,
        mint: keys[ix.accounts[0] as usize],
        bonding_curve: keys[ix.accounts[2] as usize],
        user: keys[ix.accounts[7] as usize],
    };
    Some(r)
}

/// Decodes a buy (`is_buy`) or sell instruction against the message's account
/// addresses.
pub fn parse_instruction_trade_data(ix: &CompiledInstruction, keys: &[Address], is_buy: bool) -> (r: Option<TradeInfo>)
    requires
        slots_in_range(ix.accounts@, keys@.len() as int),
    ensures
        trade_view_of(r) == trade_instruction_of(*ix, keys@, is_buy),
{
    if ix.data.len() < 24 || ix.accounts.len() < 7 {
        return None;
    }
    let data = ix.data.as_slice();
    let r = TradeInfo {
        mint: keys[ix.accounts[2] as usize],
        sol_amount: read_le(data, 16, 8),
        token_amount: read_le(data, 8, 8),
        is_buy,
        user: keys[ix.accounts[6] as usize],
        timestamp: 0,
        virtual_sol_reserves: 0,
        virtual_token_reserves: 0,
    };
    Some(r)
}

} // verus!
