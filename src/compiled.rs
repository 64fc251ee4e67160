//! Decoding the program's events from a transaction's compiled instructions.

use vstd::prelude::*;
use crate::address::Address;
use crate::events::{DexInstruction, EventView, classified, classify, events_view};
use crate::message::{CompiledInstruction, TransactionMessage, slots_in_range};
use crate::payload::{
    create_instruction_of, trade_instruction_of, parse_instruction_create_token_data,
    parse_instruction_trade_data,
};

verus! {

/// Operation byte of a create instruction.
pub const CREATE_TAG: u8 = 24;

/// Operation byte of a buy instruction.
pub const BUY_TAG: u8 = 102;

/// Operation byte of a sell instruction.
pub const SELL_TAG: u8 = 51;

/// Data length of a well-formed buy or sell instruction.
pub const TRADE_DATA_LEN: usize = 24;

/// Fewest accounts that a well-formed buy or sell instruction references.
pub const TRADE_MIN_ACCOUNTS: usize = 12;

/// `i` is the first slot of `keys` that holds `program`.
pub open spec fn is_first_slot(keys: Seq<Address>, program: Seq<u8>, i: int) -> bool {
    &&& 0 <= i < keys.len()
    &&& keys[i]@ == program
    &&& forall|j: int| 0 <= j < i ==> keys[j]@ != program
}

/// The first slot of `keys` that holds `program`, if any does.
pub open spec fn program_slot(keys: Seq<Address>, program: Seq<u8>) -> Option<int> {
    if exists|i: int| is_first_slot(keys, program, i) {
        Some(choose|i: int| is_first_slot(keys, program, i))
    } else {
        None
    }
}

/// The event that one instruction yields, where the program sits in `slot`.
pub open spec fn instruction_event(
    ix: CompiledInstruction,
    keys: Seq<Address>,
    slot: int,
    wallet: Option<Address>,
) -> Option<EventView> {
    if ix.program_id_index as int != slot || !slots_in_range(ix.accounts@, keys.len() as int)
        || ix.data@.len() == 0 {
        None
    } else if ix.data@[0] == CREATE_TAG {
        match create_instruction_of(ix, keys) {
            Some(t) => Some(EventView::CreateToken(t)),
            None => None,
        }
    } else if (ix.data@[0] == BUY_TAG || ix.data@[0] == SELL_TAG) && ix.data@.len()
        == TRADE_DATA_LEN && ix.accounts@.len() >= TRADE_MIN_ACCOUNTS {
        match trade_instruction_of(ix, keys, ix.data@[0] == BUY_TAG) {
            Some(t) => Some(classified(t, wallet)),
            None => None,
        }
    } else {
        None
    }
}

/// The events of a list of instructions, in order.
pub open spec fn instructions_events(
    ixs: Seq<CompiledInstruction>,
    keys: Seq<Address>,
    slot: int,
    wallet: Option<Address>,
) -> Seq<EventView>
    decreases ixs.len(),
{
    if ixs.len() == 0 {
        seq![]
    } else {
        let rest = instructions_events(ixs.drop_last(), keys, slot, wallet);
        match instruction_event(ixs.last(), keys, slot, wallet) {
            Some(e) => rest.push(e),
            None => rest,
        }
    }
}

/// The events of a message for the program at address `program`.
pub open spec fn message_events(
    msg: TransactionMessage,
    program: Seq<u8>,
    wallet: Option<Address>,
) -> Seq<EventView> {
    match program_slot(msg.account_keys@, program) {
        Some(slot) => instructions_events(msg.instructions@, msg.account_keys@, slot, wallet),
        None => seq![],
    }
}

proof fn lemma_first_slot_unique(keys: Seq<Address>, program: Seq<u8>, i: int, j: int)
    requires
        is_first_slot(keys, program, i),
        is_first_slot(keys, program, j),
    ensures
        i == j,
{
    if i < j {
        assert(keys[i]@ != program);
    } else if j < i {
        assert(keys[j]@ != program);
    }
}

/// Finds the first slot of `keys` that holds `program`.
pub fn find_program_slot(keys: &[Address], program: &Address) -> (r: Option<usize>)
    ensures
        r is None <==> program_slot(keys@, program@) is None,
        r matches Some(k) ==> program_slot(keys@, program@) == Some(k as int),
{
    let mut i: usize = 0;
    while i < keys.len()
        invariant
            i <= keys@.len(),
            forall|j: int| 0 <= j < i ==> keys@[j]@ != program@,
        decreases keys@.len() - i,
    {
        if keys[i].same_as(program) {
            assert(is_first_slot(keys@, program@, i as int));
            proof {
                let c = choose|k: int| is_first_slot(keys@, program@, k);
                lemma_first_slot_unique(keys@, program@, i as int, c);
            }
            return Some(i);
        }
        i = i + 1;
    }
    assert(!exists|k: int| is_first_slot(keys@, program@, k));
    None
}

/// Whether every account slot that `accounts` references is below `n`.
fn all_slots_below(accounts: &[u8], n: usize) -> (r: bool)
    ensures
        r == slots_in_range(accounts@, n as int),
{
    let mut i: usize = 0;
    while i < accounts.len()
        invariant
            i <= accounts@.len(),
            forall|k: int| 0 <= k < i ==> (accounts@[k] as int) < n,
        decreases accounts@.len() - i,
    {
        if accounts[i] as usize >= n {
            return false;
        }
        i = i + 1;
    }
    true
}

/// The event that one instruction yields, where the program sits in `slot`.
pub fn decode_compiled(
    ix: &CompiledInstruction,
    keys: &[Address],
    slot: usize,
    bot_wallet: Option<Address>,
) -> (r: Option<DexInstruction>)
    ensures
        match instruction_event(*ix, keys@, slot as int, bot_wallet) {
            Some(e) => r matches Some(d) && d@ == e,
            None => r is None,
        },
{
    if ix.program_id_index as usize != slot || !all_slots_below(ix.accounts.as_slice(), keys.len())
        || ix.data.len() == 0 {
        return None;
    }
    let tag: u8 = ix.data[0];
    if tag == CREATE_TAG {
        match parse_instruction_create_token_data(ix, keys) {
            Some(t) => Some(DexInstruction::CreateToken(t)),
            None => None,
        }
    } else if (tag == BUY_TAG || tag == SELL_TAG) && ix.data.len() == TRADE_DATA_LEN
        && ix.accounts.len() >= TRADE_MIN_ACCOUNTS {
        match parse_instruction_trade_data(ix, keys, tag == BUY_TAG) {
            Some(t) => Some(classify(t, bot_wallet)),
            None => None,
        }
    } else {
        None
    }
}

/// Decodes the events of `message` for the program at address `program`, in
/// instruction order.
pub fn decode_message(
    message: &TransactionMessage,
    program: &Address,
    bot_wallet: Option<Address>,
) -> (r: Vec<DexInstruction>)
    ensures
        events_view(r@) == message_events(*message, program@, bot_wallet),
{
    let mut out: Vec<DexInstruction> = Vec::new();
    let keys = message.account_keys.as_slice();
    let slot = match find_program_slot(keys, program) {
        Some(s) => s,
        None => {
            assert(events_view(out@) =~= seq![]);
            return out;
        },
    };
    let ixs = &message.instructions;
    let mut i: usize = 0;
    while i < ixs.len()
        invariant
            i <= ixs@.len(),
            keys@ == message.account_keys@,
            ixs@ == message.instructions@,
            program_slot(keys@, program@) == Some(slot as int),
            events_view(out@) == instructions_events(ixs@.take(i as int), keys@, slot as int, bot_wallet),
        decreases ixs@.len() - i,
    {
        let ghost before = out@;
        assert(ixs@.take(i + 1).drop_last() =~= ixs@.take(i as int));
        match decode_compiled(&ixs[i], keys, slot, bot_wallet) {
            Some(d) => {
                out.push(d);
                assert(events_view(out@) =~= events_view(before).push(d@));
            },
            None => {},
        }
        i = i + 1;
    }
    assert(ixs@.take(ixs@.len() as int) =~= ixs@);
    out
}

/// A message none of whose account addresses is the program's yields no
/// events.
pub proof fn lemma_absent_program_yields_nothing(
    msg: TransactionMessage,
    program: Seq<u8>,
    wallet: Option<Address>,
)
    requires
        forall|i: int| 0 <= i < msg.account_keys@.len() ==> msg.account_keys@[i]@ != program,
    ensures
        message_events(msg, program, wallet) == Seq::<EventView>::empty(),
{
    assert(!exists|i: int| is_first_slot(msg.account_keys@, program, i));
}

/// A create instruction for the program, referencing only existing accounts,
/// whose data decodes, adds exactly one `CreateToken` event, after the events
/// of the instructions before it.
pub proof fn lemma_create_yields_one_event(
    before: Seq<CompiledInstruction>,
    ix: CompiledInstruction,
    keys: Seq<Address>,
    slot: int,
    wallet: Option<Address>,
)
    requires
        ix.program_id_index as int == slot,
        slots_in_range(ix.accounts@, keys.len() as int),
        ix.data@.len() > 0,
        ix.data@[0] == CREATE_TAG,
        create_instruction_of(ix, keys) is Some,
    ensures
        instructions_events(before.push(ix), keys, slot, wallet) == instructions_events(
            before,
            keys,
            slot,
            wallet,
        ).push(EventView::CreateToken(create_instruction_of(ix, keys)->0)),
{
    assert(before.push(ix).drop_last() =~= before);
}

/// A buy or sell instruction for the program, referencing only existing
/// accounts, adds one trade event when its data is exactly 24 bytes long and
/// it references at least 12 accounts, and none otherwise.
pub proof fn lemma_trade_needs_shape(
    before: Seq<CompiledInstruction>,
    ix: CompiledInstruction,
    keys: Seq<Address>,
    slot: int,
    wallet: Option<Address>,
)
    requires
        ix.program_id_index as int == slot,
        slots_in_range(ix.accounts@, keys.len() as int),
        ix.data@.len() > 0,
        ix.data@[0] == BUY_TAG || ix.data@[0] == SELL_TAG,
    ensures
        ix.data@.len() == TRADE_DATA_LEN && ix.accounts@.len() >= TRADE_MIN_ACCOUNTS ==> {
            let t = trade_instruction_of(ix, keys, ix.data@[0] == BUY_TAG)->0;
            &&& trade_instruction_of(ix, keys, ix.data@[0] == BUY_TAG) is Some
            &&& instructions_events(before.push(ix), keys, slot, wallet) == instructions_events(
                before,
                keys,
                slot,
                wallet,
            ).push(classified(t, wallet))
        },
        !(ix.data@.len() == TRADE_DATA_LEN && ix.accounts@.len() >= TRADE_MIN_ACCOUNTS)
            ==> instructions_events(before.push(ix), keys, slot, wallet) == instructions_events(
            before,
            keys,
            slot,
            wallet,
        ),
{
    assert(before.push(ix).drop_last() =~= before);
}

} // verus!
