//! The parts of a compiled transaction message that decoding reads.

use vstd::prelude::*;
use crate::address::Address;

verus! {

/// One compiled instruction: the slot of the program it invokes, the slots of
/// the accounts it references, and its data, whose first byte selects the
/// operation.
#[derive(Clone, Debug, PartialEq, Eq)]
pub struct CompiledInstruction {
    pub program_id_index: u8,
    pub accounts: Vec<u8>,
    pub data: Vec<u8>,
}

/// A transaction message: its static account addresses, in slot order, and its
/// compiled instructions, in execution order.
#[derive(Clone, Debug, PartialEq, Eq)]
pub struct TransactionMessage {
    pub account_keys: Vec<Address>,
    pub instructions: Vec<CompiledInstruction>,
}

/// Every account slot that `accounts` references names an address of `keys`.
pub open spec fn slots_in_range(accounts: Seq<u8>, keys_len: int) -> bool {
    forall|k: int| 0 <= k < accounts.len() ==> (#[trigger] accounts[k]) < keys_len
}

/// The address in the slot that the `k`-th referenced account names.
pub open spec fn account_at(keys: Seq<Address>, accounts: Seq<u8>, k: int) -> Seq<u8> {
    keys[accounts[k] as int]@
}

} // verus!
