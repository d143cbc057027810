//! The decisions of a bot, as the embedding application supplies them.

use crate::bot::bot_info::BotInfo;
use crate::connection::message_types::{BotIntent, TickEventForBot};
use vstd::prelude::*;

verus! {

/// A bot: what it says of itself, and what it wants to do in each turn.
pub trait BotHandler {
    /// The bot's record of itself.
    fn get_bot_info(&self) -> &BotInfo;

    /// Whether the bot is a droid.
    fn is_droid(&self) -> bool;

    /// The bot's intent for the turn that a tick describes. It is asked for
    /// once for each tick.
    fn tick(&mut self, tick_event: &TickEventForBot) -> BotIntent;
}

} // verus!
