//! What the embedding application supplies: the bot's record of itself, its
//! team, and the bot's own decisions.

pub mod bot_handler;
pub mod bot_info;
pub mod team_info;

pub use self::bot_handler::BotHandler;
pub use self::bot_info::{BotInfo, BotInfoModel};
pub use self::team_info::{TeamInfo, TeamInfoModel};
