//! Decoding the program's events from a transaction's execution log.
//!
//! The log is scanned line by line. Invocations of the program may nest; an
//! instruction name is taken only at the top level, the longest payload seen
//! anywhere inside the top-level invocation is kept, and an event is decoded
//! when the top-level invocation succeeds.

use vstd::prelude::*;
use vstd::utf8::encode_utf8;
use crate::address::Address;
use crate::bytes::{occurs_in, begins_with, strip_leading, occurs_in_exec, begins_with_exec, strip_leading_exec, copy_range};
use crate::events::{DexInstruction, EventView, classified, classify, events_view};
use crate::payload::{base64_decoded, create_event_of, trade_event_of, parse_create_token_data, parse_trade_data};

verus! {

/// What the top-level invocation's instruction-name line said it does.
#[derive(Clone, Copy, Debug, PartialEq, Eq)]
pub enum InstructionKind {
    Create,
    Trade,
}

/// The line that opens an invocation of the program at `program_id`.
pub open spec fn invoke_marker(program_id: Seq<u8>) -> Seq<u8> {
    encode_utf8("Program "@) + program_id + encode_utf8(" invoke"@)
}

/// The line that closes an invocation of the program at `program_id`.
pub open spec fn success_marker(program_id: Seq<u8>) -> Seq<u8> {
    encode_utf8("Program "@) + program_id + encode_utf8(" success"@)
}

/// Marks a line that names the running instruction.
pub open spec fn name_marker() -> Seq<u8> {
    encode_utf8("Program log: Instruction:"@)
}

/// Opens a line that carries an event payload.
pub open spec fn data_prefix() -> Seq<u8> {
    encode_utf8("Program data: "@)
}

/// The payload that a data line carries.
pub open spec fn payload_of(line: Seq<u8>) -> Seq<u8> {
    strip_leading(line, data_prefix())
}

/// The kind that an instruction-name line names, if it names one.
pub open spec fn named_kind(line: Seq<u8>) -> Option<InstructionKind> {
    if occurs_in(line, encode_utf8("Create"@)) {
        Some(InstructionKind::Create)
    } else if occurs_in(line, encode_utf8("Buy"@)) || occurs_in(line, encode_utf8("Sell"@)) {
        Some(InstructionKind::Trade)
    } else {
        None
    }
}

/// The scan's state as plain values.
pub struct ScanView {
    pub depth: nat,
    pub kind: Option<InstructionKind>,
    pub payload: Seq<u8>,
}

/// The state before the first line.
pub open spec fn initial_scan() -> ScanView {
    ScanView { depth: 0, kind: None, payload: seq![] }
}

/// One line's effect: the next state, and the instruction kind and payload of a
/// top-level invocation that this line closed, if it closed one that had both.
pub open spec fn scan_step(st: ScanView, line: Seq<u8>, invoke: Seq<u8>, success: Seq<u8>) -> (
    ScanView,
    Option<(InstructionKind, Seq<u8>)>,
) {
    if occurs_in(line, invoke) {
        if st.depth == 0 {
            (ScanView { depth: 1, kind: None, payload: seq![] }, None)
        } else {
            (ScanView { depth: st.depth + 1, kind: st.kind, payload: st.payload }, None)
        }
    } else if st.depth == 0 {
        (st, None)
    } else if st.depth == 1 && occurs_in(line, name_marker()) {
        let kind = match named_kind(line) {
            Some(k) => Some(k),
            None => st.kind,
        };
        (ScanView { depth: st.depth, kind, payload: st.payload }, None)
    } else {
        let payload = if begins_with(line, data_prefix()) && payload_of(line).len()
            > st.payload.len() {
            payload_of(line)
        } else {
            st.payload
        };
        if occurs_in(line, success) {
            let depth = (st.depth - 1) as nat;
            let closed = if depth == 0 && st.kind is Some && payload.len() > 0 {
                Some((st.kind->0, payload))
            } else {
                None
            };
            (ScanView { depth, kind: st.kind, payload }, closed)
        } else {
            (ScanView { depth: st.depth, kind: st.kind, payload }, None)
        }
    }
}

/// The state after `lines`, and the closed top-level invocations, in order.
pub open spec fn scan_lines(lines: Seq<Seq<u8>>, invoke: Seq<u8>, success: Seq<u8>) -> (
    ScanView,
    Seq<(InstructionKind, Seq<u8>)>,
)
    decreases lines.len(),
{
    if lines.len() == 0 {
        (initial_scan(), seq![])
    } else {
        let (st, closed) = scan_lines(lines.drop_last(), invoke, success);
        let (next, c) = scan_step(st, lines.last(), invoke, success);
        match c {
            Some(x) => (next, closed.push(x)),
            None => (next, closed),
        }
    }
}

/// The event that a closed invocation yields.
pub open spec fn closed_event(kind: InstructionKind, payload: Seq<u8>, wallet: Option<Address>) -> Option<EventView> {
    match base64_decoded(payload) {
        Some(b) => match kind {
            InstructionKind::Create => match create_event_of(b) {
                Some(t) => Some(EventView::CreateToken(t)),
                None => None,
            },
            InstructionKind::Trade => match trade_event_of(b) {
                Some(t) => Some(classified(t, wallet)),
                None => None,
            },
        },
        None => None,
    }
}

/// The events of a list of closed invocations, in order.
pub open spec fn closed_events(cs: Seq<(InstructionKind, Seq<u8>)>, wallet: Option<Address>) -> Seq<EventView>
    decreases cs.len(),
{
    if cs.len() == 0 {
        seq![]
    } else {
        let rest = closed_events(cs.drop_last(), wallet);
        match closed_event(cs.last().0, cs.last().1, wallet) {
            Some(e) => rest.push(e),
            None => rest,
        }
    }
}

/// The bytes of a log line.
pub open spec fn line_bytes(s: String) -> Seq<u8> {
    encode_utf8(s@)
}

/// The events that a log yields for the program at `program_id`.
pub open spec fn log_events(logs: Seq<String>, program_id: Seq<u8>, wallet: Option<Address>) -> Seq<EventView> {
    let lines = logs.map_values(|s: String| line_bytes(s));
    closed_events(scan_lines(lines, invoke_marker(program_id), success_marker(program_id)).1, wallet)
}

/// The invocation markers of one program.
pub struct LogMarkers {
    pub invoke: Vec<u8>,
    pub success: Vec<u8>,
}

fn append_bytes(v: &mut Vec<u8>, s: &[u8])
    ensures
        final(v)@ == old(v)@ + s@,
{
    let mut i: usize = 0;
    while i < s.len()
        invariant
            i <= s@.len(),
            v@ == old(v)@ + s@.take(i as int),
        decreases s@.len() - i,
    {
        v.push(s[i]);
        assert(s@.take(i + 1) =~= s@.take(i as int).push(s@[i as int]));
        i = i + 1;
    }
    assert(s@.take(s@.len() as int) =~= s@);
}

impl LogMarkers {
    /// The markers of the program whose address is written `program_id`.
    pub fn new(program_id: &str) -> (r: LogMarkers)
        ensures
            r.invoke@ == invoke_marker(encode_utf8(program_id@)),
            r.success@ == success_marker(encode_utf8(program_id@)),
    {
        let mut invoke: Vec<u8> = Vec::new();
        append_bytes(&mut invoke, "Program ".as_bytes());
        append_bytes(&mut invoke, program_id.as_bytes());
        append_bytes(&mut invoke, " invoke".as_bytes());
        let mut success: Vec<u8> = Vec::new();
        append_bytes(&mut success, "Program ".as_bytes());
        append_bytes(&mut success, program_id.as_bytes());
        append_bytes(&mut success, " success".as_bytes());
        assert(invoke@ =~= invoke_marker(encode_utf8(program_id@)));
        assert(success@ =~= success_marker(encode_utf8(program_id@)));
        LogMarkers { invoke, success }
    }
}

/// The state of a scan over log lines.
pub struct LogScan {
    /// How many invocations of the program are open.
    pub depth: usize,
    /// The instruction that the top-level invocation named, if any.
    pub kind: Option<InstructionKind>,
    /// The longest payload seen in the top-level invocation.
    pub payload: Vec<u8>,
}

impl View for LogScan {
    type V = ScanView;

    open spec fn view(&self) -> ScanView {
        ScanView { depth: self.depth as nat, kind: self.kind, payload: self.payload@ }
    }
}

/// The plain values of a closed invocation.
pub open spec fn closed_view(c: Option<(InstructionKind, Vec<u8>)>) -> Option<(InstructionKind, Seq<u8>)> {
    match c {
        Some((k, p)) => Some((k, p@)),
        None => None,
    }
}

impl LogScan {
    /// A scan before the first line.
    pub fn new() -> (r: LogScan)
        ensures
            r@ == initial_scan(),
    {
        LogScan { depth: 0, kind: None, payload: Vec::new() }
    }

    /// Takes one line; returns the kind and payload of the top-level invocation
    /// that it closed, if it closed one that had both.
    pub fn step(&mut self, line: &[u8], markers: &LogMarkers) -> (r: Option<(InstructionKind, Vec<u8>)>)
        requires
            old(self).depth < usize::MAX,
        ensures
            (final(self)@, closed_view(r)) == scan_step(old(self)@, line@, markers.invoke@, markers.success@),
    {
        if occurs_in_exec(line, markers.invoke.as_slice()) {
            if self.depth == 0 {
                self.kind = None;
                self.payload = Vec::new();
            }
            self.depth = self.depth + 1;
            return None;
        }
        if self.depth == 0 {
            return None;
        }
        if self.depth == 1 && occurs_in_exec(line, "Program log: Instruction:".as_bytes()) {
            if occurs_in_exec(line, "Create".as_bytes()) {
                self.kind = Some(InstructionKind::Create);
            } else if occurs_in_exec(line, "Buy".as_bytes()) || occurs_in_exec(line, "Sell".as_bytes()) {
                self.kind = Some(InstructionKind::Trade);
            }
            return None;
        }
        if begins_with_exec(line, "Program data: ".as_bytes()) {
            let data = strip_leading_exec(line, "Program data: ".as_bytes());
            if data.len() > self.payload.len() {
                self.payload = data;
            }
        }
        if occurs_in_exec(line, markers.success.as_slice()) {
            self.depth = self.depth - 1;
            if self.depth == 0 && self.payload.len() > 0 {
                if let Some(k) = self.kind {
                    let p = copy_range(self.payload.as_slice(), 0, self.payload.len());
                    assert(self.payload@.subrange(0, self.payload@.len() as int) =~= self.payload@);
                    return Some((k, p));
                }
            }
        }
        None
    }
}

/// Decodes the event of a closed invocation.
pub fn decode_closed(kind: InstructionKind, payload: &[u8], bot_wallet: Option<Address>) -> (r: Option<DexInstruction>)
    ensures
        match closed_event(kind, payload@, bot_wallet) {
            Some(e) => r matches Some(d) && d@ == e,
            None => r is None,
        },
{
    match kind {
        InstructionKind::Create => match parse_create_token_data(payload) {
            Some(t) => Some(DexInstruction::CreateToken(t)),
            None => None,
        },
        InstructionKind::Trade => match parse_trade_data(payload) {
            Some(t) => Some(classify(t, bot_wallet)),
            None => None,
        },
    }
}

/// Decodes the events that `logs` record for the program whose address is
/// written `program_id`, in order.
pub fn decode_logs(logs: &[String], program_id: &str, bot_wallet: Option<Address>) -> (r: Vec<DexInstruction>)
    ensures
        events_view(r@) == log_events(logs@, encode_utf8(program_id@), bot_wallet),
{
    let markers = LogMarkers::new(program_id);
    let ghost lines = logs@.map_values(|s: String| line_bytes(s));
    let ghost invoke = invoke_marker(encode_utf8(program_id@));
    let ghost success = success_marker(encode_utf8(program_id@));
    let ghost mut closed: Seq<(InstructionKind, Seq<u8>)> = seq![];
    let mut scan = LogScan::new();
    let mut out: Vec<DexInstruction> = Vec::new();
    let mut i: usize = 0;
    while i < logs.len()
        invariant
            i <= logs@.len(),
            lines == logs@.map_values(|s: String| line_bytes(s)),
            markers.invoke@ == invoke,
            markers.success@ == success,
            scan.depth <= i,
            scan_lines(lines.take(i as int), invoke, success) == (scan@, closed),
            events_view(out@) == closed_events(closed, bot_wallet),
        decreases logs@.len() - i,
    {
        let ghost before = out@;
        assert(lines.take(i + 1).drop_last() =~= lines.take(i as int));
        let line = logs[i].as_str().as_bytes();
        assert(line@ == lines.take(i + 1).last());
        match scan.step(line, &markers) {
            Some((k, p)) => {
                let ghost prev = closed;
                proof {
                    closed = closed.push((k, p@));
                    assert(closed.drop_last() =~= prev);
                }
                match decode_closed(k, p.as_slice(), bot_wallet) {
                    Some(d) => {
                        out.push(d);
                        assert(events_view(out@) =~= events_view(before).push(d@));
                    },
                    None => {},
                }
            },
            None => {},
        }
        i = i + 1;
    }
    assert(lines.take(logs@.len() as int) =~= lines);
    out
}

/// A success line that closes a nested invocation of the program closes no
/// top-level invocation: only the outermost close can yield an event.
pub proof fn lemma_nested_close_yields_nothing(st: ScanView, line: Seq<u8>, invoke: Seq<u8>, success: Seq<u8>)
    requires
        st.depth >= 2,
    ensures
        scan_step(st, line, invoke, success).1 is None,
        occurs_in(line, success) && !occurs_in(line, invoke) ==> scan_step(
            st,
            line,
            invoke,
            success,
        ).0.depth == st.depth - 1,
{
}

/// Inside an invocation, a data line replaces the kept payload only with a
/// strictly longer one: the longest payload of the invocation is kept.
pub proof fn lemma_longest_payload_kept(st: ScanView, line: Seq<u8>, invoke: Seq<u8>, success: Seq<u8>)
    requires
        st.depth >= 1,
        !occurs_in(line, invoke),
        begins_with(line, data_prefix()),
        !(st.depth == 1 && occurs_in(line, name_marker())),
    ensures
        scan_step(st, line, invoke, success).0.payload == if payload_of(line).len() > st.payload.len() {
            payload_of(line)
        } else {
            st.payload
        },
        scan_step(st, line, invoke, success).0.payload.len() >= st.payload.len(),
        scan_step(st, line, invoke, success).0.payload.len() >= payload_of(line).len(),
{
}

} // verus!
