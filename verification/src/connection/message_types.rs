//! Every record that travels in a message, by the part it plays.

pub mod commands;
pub mod common;
pub mod events;
pub mod handshakes;
pub mod lifecycle;
pub mod ticks;

pub use self::commands::{
    BotIntent,
    BotIntentModel,
    BotListUpdate,
    BotListUpdateModel,
    ChangeTps,
    ChangeTpsModel,
    StartGame,
    StartGameModel,
    TpsChangedEvent,
    TpsChangedEventModel,
};
pub use self::common::{
    BotAddress,
    BotAddressModel,
    BotHandshakeInfo,
    BotHandshakeInfoModel,
    BotState,
    BotStateModel,
    BotStateWithId,
    BotStateWithIdModel,
    BulletState,
    BulletStateModel,
    Color,
    GameSetup,
    GameSetupModel,
    InitialPosition,
    InitialPositionModel,
    Participant,
    ParticipantModel,
    ResultsForBot,
    ResultsForBotModel,
    ResultsForObserver,
    ResultsForObserverModel,
    TeamMessage,
    TeamMessageModel,
};
pub use self::events::{
    BotDeathEvent,
    BotDeathEventModel,
    BotHitBotEvent,
    BotHitBotEventModel,
    BotHitWallEvent,
    BotHitWallEventModel,
    BulletFiredEvent,
    BulletFiredEventModel,
    BulletHitBotEvent,
    BulletHitBotEventModel,
    BulletHitBulletEvent,
    BulletHitBulletEventModel,
    BulletHitWallEvent,
    BulletHitWallEventModel,
    HitByBulletEvent,
    HitByBulletEventModel,
    ScannedBotEvent,
    ScannedBotEventModel,
    SkippedTurnEvent,
    SkippedTurnEventModel,
    TeamMessageEvent,
    TeamMessageEventModel,
    WonRoundEvent,
    WonRoundEventModel,
};
pub use self::handshakes::{
    BotHandshake,
    BotHandshakeModel,
    ControllerHandshake,
    ControllerHandshakeModel,
    ObserverHandshake,
    ObserverHandshakeModel,
    ServerHandshake,
    ServerHandshakeModel,
};
pub use self::lifecycle::{
    GameAbortedEvent,
    GameAbortedEventModel,
    GameEndedEventForBot,
    GameEndedEventForBotModel,
    GameEndedEventForObserver,
    GameEndedEventForObserverModel,
    GameStartedEventForBot,
    GameStartedEventForBotModel,
    GameStartedEventForObserver,
    GameStartedEventForObserverModel,
    RoundEndedEventForBot,
    RoundEndedEventForBotModel,
    RoundEndedEventForObserver,
    RoundEndedEventForObserverModel,
    RoundStartedEvent,
    RoundStartedEventModel,
};
pub use self::ticks::{
    TickEventForBot,
    TickEventForBotModel,
    TickEventForObserver,
    TickEventForObserverModel,
};
