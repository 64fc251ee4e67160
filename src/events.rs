//! The decoded events and the classification of trades by trader.

use vstd::prelude::*;
use crate::address::Address;
use crate::payload::{TokenInfo, TradeInfo, TokenView, TradeView};

verus! {

/// One decoded event of the program.
#[derive(Clone, Debug, PartialEq, Eq)]
pub enum DexInstruction {
    /// A new token was created.
    CreateToken(TokenInfo),
    /// A trade by some wallet other than the configured one.
    UserTrade(TradeInfo),
    /// A trade by the configured wallet.
    BotTrade(TradeInfo),
}

/// A `DexInstruction` as plain values.
pub enum EventView {
    CreateToken(TokenView),
    UserTrade(TradeView),
    BotTrade(TradeView),
}

impl View for DexInstruction {
    type V = EventView;

    open spec fn view(&self) -> EventView {
        match self {
            DexInstruction::CreateToken(t) => EventView::CreateToken(t@),
            DexInstruction::UserTrade(t) => EventView::UserTrade(t@),
            DexInstruction::BotTrade(t) => EventView::BotTrade(t@),
        }
    }
}

/// The plain values of a sequence of events.
pub open spec fn events_view(v: Seq<DexInstruction>) -> Seq<EventView> {
    v.map_values(|e: DexInstruction| e@)
}

/// A trade is the configured wallet's own when a wallet is configured and it
/// is the trade's trader.
pub open spec fn is_own_trade(t: TradeView, wallet: Option<Address>) -> bool {
    wallet matches Some(w) && w@ == t.user
}

/// The event that a trade becomes.
pub open spec fn classified(t: TradeView, wallet: Option<Address>) -> EventView {
    if is_own_trade(t, wallet) {
        EventView::BotTrade(t)
    } else {
        EventView::UserTrade(t)
    }
}

/// Tags a trade as the configured wallet's own (`BotTrade`) or another
/// wallet's (`UserTrade`).
pub fn classify(trade: TradeInfo, bot_wallet: Option<Address>) -> (r: DexInstruction)
    ensures
        r@ == classified(trade@, bot_wallet),
        is_own_trade(trade@, bot_wallet) ==> r == DexInstruction::BotTrade(trade),
        !is_own_trade(trade@, bot_wallet) ==> r == DexInstruction::UserTrade(trade),
{
    match bot_wallet {
        Some(w) => {
            if w.same_as(&trade.user) {
                DexInstruction::BotTrade(trade)
            } else {
                DexInstruction::UserTrade(trade)
            }
        },
        None => DexInstruction::UserTrade(trade),
    }
}

} // verus!
