//! The decoders for the token-launch program at its fixed address.

use vstd::prelude::*;
use vstd::utf8::encode_utf8;
use crate::address::{Address, decoded_address, parse_address};
use crate::compiled::{decode_message, message_events};
use crate::events::{DexInstruction, events_view};
use crate::logs::{decode_logs, log_events};
use crate::message::TransactionMessage;

verus! {

/// The address of the token-launch program, in base58.
pub const PROGRAM_ID: &'static str = "6EF8rrecthR5Dkzon8Nwu78hRvfCKubJ14M5uBEwF6P";

/// Decoders of the token-launch program's activity.
pub struct LogFilter;

impl LogFilter {
    /// Decodes the program's events from a transaction message's compiled
    /// instructions, in instruction order. Where the program's address does
    /// not parse, the program counts as absent.
    pub fn parse_compiled_instruction(versioned_tx: TransactionMessage, bot_wallet: Option<Address>) -> (r: Vec<DexInstruction>)
        ensures
            match decoded_address(PROGRAM_ID@) {
                Some(p) => events_view(r@) == message_events(versioned_tx, p, bot_wallet),
                None => r@.len() == 0,
            },
    {
        match parse_address(PROGRAM_ID) {
            Some(program) => decode_message(&versioned_tx, &program, bot_wallet),
            None => Vec::new(),
        }
    }

    /// Decodes the program's events from a transaction's log lines, in order.
    pub fn parse_instruction(logs: &[String], bot_wallet: Option<Address>) -> (r: Vec<DexInstruction>)
        ensures
            events_view(r@) == log_events(logs@, encode_utf8(PROGRAM_ID@), bot_wallet),
    {
        decode_logs(logs, PROGRAM_ID, bot_wallet)
    }
}

} // verus!
