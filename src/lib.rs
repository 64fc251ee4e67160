//! Decoding of a token-launch program's activity from compiled transaction
//! instructions and from execution logs.

pub mod address;
pub mod bytes;
pub mod compiled;
pub mod events;
pub mod filter;
pub mod logs;
pub mod message;
pub mod payload;

pub use address::Address;
pub use events::DexInstruction;
pub use filter::{LogFilter, PROGRAM_ID};
pub use logs::InstructionKind;
pub use message::{CompiledInstruction, TransactionMessage};
pub use payload::{TokenInfo, TradeInfo};
