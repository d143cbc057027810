//! The names that the members of a message go by on the wire.
//!
//! Inside the crate a field is named in snake case; on the wire every name is
//! in lower camel case. This table is the one place that says which is which.

use vstd::prelude::*;

verus! {

/// The name of a member, as the wire spells it.
#[derive(Clone, Copy, Debug, PartialEq, Eq)]
pub enum Key {
    AdjustGunForBodyTurn,
    AdjustRadarForBodyTurn,
    AdjustRadarForGunTurn,
    ArenaHeight,
    ArenaWidth,
    Author,
    Authors,
    BodyColor,
    BotAddresses,
    BotId,
    BotState,
    BotStates,
    Bots,
    Bullet,
    BulletColor,
    BulletDamage,
    BulletId,
    BulletKillBonus,
    BulletStates,
    Color,
    CountryCodes,
    Damage,
    DefaultTurnsPerSecond,
    Description,
    Direction,
    EnemyCount,
    Energy,
    Events,
    FireAssist,
    Firepower,
    FirstPlaces,
    GameSetup,
    GameType,
    GameTypes,
    GunColor,
    GunCoolingRate,
    GunDirection,
    GunHeat,
    GunTurnRate,
    HitBullet,
    Homepage,
    Host,
    Id,
    InitialPosition,
    IsArenaHeightLocked,
    IsArenaWidthLocked,
    IsDroid,
    IsGunCoolingRateLocked,
    IsMaxInactivityTurnsLocked,
    IsMaxNumberOfParticipantsLocked,
    IsMinNumberOfParticipantsLocked,
    IsNumberOfRoundsLocked,
    IsReadyTimeoutLocked,
    IsTurnTimeoutLocked,
    LastSurvivorBonus,
    MaxInactivityTurns,
    MaxNumberOfParticipants,
    Message,
    MessageType,
    MinNumberOfParticipants,
    MyId,
    Name,
    NumberOfRounds,
    OwnerId,
    Participants,
    Platform,
    Port,
    Power,
    ProgrammingLang,
    RadarColor,
    RadarDirection,
    RadarSweep,
    RadarTurnRate,
    RamDamage,
    RamKillBonus,
    Rammed,
    Rank,
    ReadyTimeout,
    ReceiverId,
    Rescan,
    Results,
    RoundNumber,
    ScanColor,
    ScannedBotId,
    ScannedByBotId,
    SecondPlaces,
    Secret,
    SenderId,
    SessionId,
    Speed,
    StartDirection,
    StartX,
    StartY,
    Stderr,
    Stdout,
    Survival,
    TargetSpeed,
    TeamId,
    TeamMessages,
    TeamName,
    TeamVersion,
    TeammateIds,
    ThirdPlaces,
    TotalScore,
    Tps,
    TracksColor,
    TurnNumber,
    TurnRate,
    TurnTimeout,
    TurretColor,
    Type,
    Variant,
    Version,
    VictimId,
    X,
    Y,
}

/// The letter at a place of a name; a blank past its end.
pub open spec fn letter(s: Seq<char>, i: int) -> char {
    if 0 <= i < s.len() {
        s[i]
    } else {
        ' '
    }
}

/// The length of a name, its first five letters and its last one. No two names
/// of the protocol agree in all of these.
pub open spec fn fingerprint(s: Seq<char>) -> (nat, char, char, char, char, char, char) {
    (
        s.len(),
        letter(s, 0),
        letter(s, 1),
        letter(s, 2),
        letter(s, 3),
        letter(s, 4),
        letter(s, s.len() - 1),
    )
}

impl Key {
    /// The name on the wire.
    #[verifier::opaque]
    pub open spec fn name(self) -> Seq<char> {
        match self {
            Key::AdjustGunForBodyTurn => "adjustGunForBodyTurn"@,
            Key::AdjustRadarForBodyTurn => "adjustRadarForBodyTurn"@,
            Key::AdjustRadarForGunTurn => "adjustRadarForGunTurn"@,
            Key::ArenaHeight => "arenaHeight"@,
            Key::ArenaWidth => "arenaWidth"@,
            Key::Author => "author"@,
            Key::Authors => "authors"@,
            Key::BodyColor => "bodyColor"@,
            Key::BotAddresses => "botAddresses"@,
            Key::BotId => "botId"@,
            Key::BotState => "botState"@,
            Key::BotStates => "botStates"@,
            Key::Bots => "bots"@,
            Key::Bullet => "bullet"@,
            Key::BulletColor => "bulletColor"@,
            Key::BulletDamage => "bulletDamage"@,
            Key::BulletId => "bulletId"@,
            Key::BulletKillBonus => "bulletKillBonus"@,
            Key::BulletStates => "bulletStates"@,
            Key::Color => "color"@,
            Key::CountryCodes => "countryCodes"@,
            Key::Damage => "damage"@,
            Key::DefaultTurnsPerSecond => "defaultTurnsPerSecond"@,
            Key::Description => "description"@,
            Key::Direction => "direction"@,
            Key::EnemyCount => "enemyCount"@,
            Key::Energy => "energy"@,
            Key::Events => "events"@,
            Key::FireAssist => "fireAssist"@,
            Key::Firepower => "firepower"@,
            Key::FirstPlaces => "firstPlaces"@,
            Key::GameSetup => "gameSetup"@,
            Key::GameType => "gameType"@,
            Key::GameTypes => "gameTypes"@,
            Key::GunColor => "gunColor"@,
            Key::GunCoolingRate => "gunCoolingRate"@,
            Key::GunDirection => "gunDirection"@,
            Key::GunHeat => "gunHeat"@,
            Key::GunTurnRate => "gunTurnRate"@,
            Key::HitBullet => "hitBullet"@,
            Key::Homepage => "homepage"@,
            Key::Host => "host"@,
            Key::Id => "id"@,
            Key::InitialPosition => "initialPosition"@,
            Key::IsArenaHeightLocked => "isArenaHeightLocked"@,
            Key::IsArenaWidthLocked => "isArenaWidthLocked"@,
            Key::IsDroid => "isDroid"@,
            Key::IsGunCoolingRateLocked => "isGunCoolingRateLocked"@,
            Key::IsMaxInactivityTurnsLocked => "isMaxInactivityTurnsLocked"@,
            Key::IsMaxNumberOfParticipantsLocked => "isMaxNumberOfParticipantsLocked"@,
            Key::IsMinNumberOfParticipantsLocked => "isMinNumberOfParticipantsLocked"@,
            Key::IsNumberOfRoundsLocked => "isNumberOfRoundsLocked"@,
            Key::IsReadyTimeoutLocked => "isReadyTimeoutLocked"@,
            Key::IsTurnTimeoutLocked => "isTurnTimeoutLocked"@,
            Key::LastSurvivorBonus => "lastSurvivorBonus"@,
            Key::MaxInactivityTurns => "maxInactivityTurns"@,
            Key::MaxNumberOfParticipants => "maxNumberOfParticipants"@,
            Key::Message => "message"@,
            Key::MessageType => "messageType"@,
            Key::MinNumberOfParticipants => "minNumberOfParticipants"@,
            Key::MyId => "myId"@,
            Key::Name => "name"@,
            Key::NumberOfRounds => "numberOfRounds"@,
            Key::OwnerId => "ownerId"@,
            Key::Participants => "participants"@,
            Key::Platform => "platform"@,
            Key::Port => "port"@,
            Key::Power => "power"@,
            Key::ProgrammingLang => "programmingLang"@,
            Key::RadarColor => "radarColor"@,
            Key::RadarDirection => "radarDirection"@,
            Key::RadarSweep => "radarSweep"@,
            Key::RadarTurnRate => "radarTurnRate"@,
            Key::RamDamage => "ramDamage"@,
            Key::RamKillBonus => "ramKillBonus"@,
            Key::Rammed => "rammed"@,
            Key::Rank => "rank"@,
            Key::ReadyTimeout => "readyTimeout"@,
            Key::ReceiverId => "receiverId"@,
            Key::Rescan => "rescan"@,
            Key::Results => "results"@,
            Key::RoundNumber => "roundNumber"@,
            Key::ScanColor => "scanColor"@,
            Key::ScannedBotId => "scannedBotId"@,
            Key::ScannedByBotId => "scannedByBotId"@,
            Key::SecondPlaces => "secondPlaces"@,
            Key::Secret => "secret"@,
            Key::SenderId => "senderId"@,
            Key::SessionId => "sessionId"@,
            Key::Speed => "speed"@,
            Key::StartDirection => "startDirection"@,
            Key::StartX => "startX"@,
            Key::StartY => "startY"@,
            Key::Stderr => "stderr"@,
            Key::Stdout => "stdout"@,
            Key::Survival => "survival"@,
            Key::TargetSpeed => "targetSpeed"@,
            Key::TeamId => "teamId"@,
            Key::TeamMessages => "teamMessages"@,
            Key::TeamName => "teamName"@,
            Key::TeamVersion => "teamVersion"@,
            Key::TeammateIds => "teammateIds"@,
            Key::ThirdPlaces => "thirdPlaces"@,
            Key::TotalScore => "totalScore"@,
            Key::Tps => "tps"@,
            Key::TracksColor => "tracksColor"@,
            Key::TurnNumber => "turnNumber"@,
            Key::TurnRate => "turnRate"@,
            Key::TurnTimeout => "turnTimeout"@,
            Key::TurretColor => "turretColor"@,
            Key::Type => "type"@,
            Key::Variant => "variant"@,
            Key::Version => "version"@,
            Key::VictimId => "victimId"@,
            Key::X => "x"@,
            Key::Y => "y"@,
        }
    }

    /// The name on the wire, as text.
    pub fn text(self) -> (r: &'static str)
        ensures
            r@ == self.name(),
    {
        reveal(Key::name);
        match self {
            Key::AdjustGunForBodyTurn => "adjustGunForBodyTurn",
            Key::AdjustRadarForBodyTurn => "adjustRadarForBodyTurn",
            Key::AdjustRadarForGunTurn => "adjustRadarForGunTurn",
            Key::ArenaHeight => "arenaHeight",
            Key::ArenaWidth => "arenaWidth",
            Key::Author => "author",
            Key::Authors => "authors",
            Key::BodyColor => "bodyColor",
            Key::BotAddresses => "botAddresses",
            Key::BotId => "botId",
            Key::BotState => "botState",
            Key::BotStates => "botStates",
            Key::Bots => "bots",
            Key::Bullet => "bullet",
            Key::BulletColor => "bulletColor",
            Key::BulletDamage => "bulletDamage",
            Key::BulletId => "bulletId",
            Key::BulletKillBonus => "bulletKillBonus",
            Key::BulletStates => "bulletStates",
            Key::Color => "color",
            Key::CountryCodes => "countryCodes",
            Key::Damage => "damage",
            Key::DefaultTurnsPerSecond => "defaultTurnsPerSecond",
            Key::Description => "description",
            Key::Direction => "direction",
            Key::EnemyCount => "enemyCount",
            Key::Energy => "energy",
            Key::Events => "events",
            Key::FireAssist => "fireAssist",
            Key::Firepower => "firepower",
            Key::FirstPlaces => "firstPlaces",
            Key::GameSetup => "gameSetup",
            Key::GameType => "gameType",
            Key::GameTypes => "gameTypes",
            Key::GunColor => "gunColor",
            Key::GunCoolingRate => "gunCoolingRate",
            Key::GunDirection => "gunDirection",
            Key::GunHeat => "gunHeat",
            Key::GunTurnRate => "gunTurnRate",
            Key::HitBullet => "hitBullet",
            Key::Homepage => "homepage",
            Key::Host => "host",
            Key::Id => "id",
            Key::InitialPosition => "initialPosition",
            Key::IsArenaHeightLocked => "isArenaHeightLocked",
            Key::IsArenaWidthLocked => "isArenaWidthLocked",
            Key::IsDroid => "isDroid",
            Key::IsGunCoolingRateLocked => "isGunCoolingRateLocked",
            Key::IsMaxInactivityTurnsLocked => "isMaxInactivityTurnsLocked",
            Key::IsMaxNumberOfParticipantsLocked => "isMaxNumberOfParticipantsLocked",
            Key::IsMinNumberOfParticipantsLocked => "isMinNumberOfParticipantsLocked",
            Key::IsNumberOfRoundsLocked => "isNumberOfRoundsLocked",
            Key::IsReadyTimeoutLocked => "isReadyTimeoutLocked",
            Key::IsTurnTimeoutLocked => "isTurnTimeoutLocked",
            Key::LastSurvivorBonus => "lastSurvivorBonus",
            Key::MaxInactivityTurns => "maxInactivityTurns",
            Key::MaxNumberOfParticipants => "maxNumberOfParticipants",
            Key::Message => "message",
            Key::MessageType => "messageType",
            Key::MinNumberOfParticipants => "minNumberOfParticipants",
            Key::MyId => "myId",
            Key::Name => "name",
            Key::NumberOfRounds => "numberOfRounds",
            Key::OwnerId => "ownerId",
            Key::Participants => "participants",
            Key::Platform => "platform",
            Key::Port => "port",
            Key::Power => "power",
            Key::ProgrammingLang => "programmingLang",
            Key::RadarColor => "radarColor",
            Key::RadarDirection => "radarDirection",
            Key::RadarSweep => "radarSweep",
            Key::RadarTurnRate => "radarTurnRate",
            Key::RamDamage => "ramDamage",
            Key::RamKillBonus => "ramKillBonus",
            Key::Rammed => "rammed",
            Key::Rank => "rank",
            Key::ReadyTimeout => "readyTimeout",
            Key::ReceiverId => "receiverId",
            Key::Rescan => "rescan",
            Key::Results => "results",
            Key::RoundNumber => "roundNumber",
            Key::ScanColor => "scanColor",
            Key::ScannedBotId => "scannedBotId",
            Key::ScannedByBotId => "scannedByBotId",
            Key::SecondPlaces => "secondPlaces",
            Key::Secret => "secret",
            Key::SenderId => "senderId",
            Key::SessionId => "sessionId",
            Key::Speed => "speed",
            Key::StartDirection => "startDirection",
            Key::StartX => "startX",
            Key::StartY => "startY",
            Key::Stderr => "stderr",
            Key::Stdout => "stdout",
            Key::Survival => "survival",
            Key::TargetSpeed => "targetSpeed",
            Key::TeamId => "teamId",
            Key::TeamMessages => "teamMessages",
            Key::TeamName => "teamName",
            Key::TeamVersion => "teamVersion",
            Key::TeammateIds => "teammateIds",
            Key::ThirdPlaces => "thirdPlaces",
            Key::TotalScore => "totalScore",
            Key::Tps => "tps",
            Key::TracksColor => "tracksColor",
            Key::TurnNumber => "turnNumber",
            Key::TurnRate => "turnRate",
            Key::TurnTimeout => "turnTimeout",
            Key::TurretColor => "turretColor",
            Key::Type => "type",
            Key::Variant => "variant",
            Key::Version => "version",
            Key::VictimId => "victimId",
            Key::X => "x",
            Key::Y => "y",
        }
    }

    /// No two keys share a name.
    pub proof fn lemma_names_differ()
        ensures
            forall|a: Key, b: Key| #[trigger] a.name() == #[trigger] b.name() ==> a == b,
    {
        reveal(Key::name);
        reveal_strlit("adjustGunForBodyTurn");
        reveal_strlit("adjustRadarForBodyTurn");
        reveal_strlit("adjustRadarForGunTurn");
        reveal_strlit("arenaHeight");
        reveal_strlit("arenaWidth");
        reveal_strlit("author");
        reveal_strlit("authors");
        reveal_strlit("bodyColor");
        reveal_strlit("botAddresses");
        reveal_strlit("botId");
        reveal_strlit("botState");
        reveal_strlit("botStates");
        reveal_strlit("bots");
        reveal_strlit("bullet");
        reveal_strlit("bulletColor");
        reveal_strlit("bulletDamage");
        reveal_strlit("bulletId");
        reveal_strlit("bulletKillBonus");
        reveal_strlit("bulletStates");
        reveal_strlit("color");
        reveal_strlit("countryCodes");
        reveal_strlit("damage");
        reveal_strlit("defaultTurnsPerSecond");
        reveal_strlit("description");
        reveal_strlit("direction");
        reveal_strlit("enemyCount");
        reveal_strlit("energy");
        reveal_strlit("events");
        reveal_strlit("fireAssist");
        reveal_strlit("firepower");
        reveal_strlit("firstPlaces");
        reveal_strlit("gameSetup");
        reveal_strlit("gameType");
        reveal_strlit("gameTypes");
        reveal_strlit("gunColor");
        reveal_strlit("gunCoolingRate");
        reveal_strlit("gunDirection");
        reveal_strlit("gunHeat");
        reveal_strlit("gunTurnRate");
        reveal_strlit("hitBullet");
        reveal_strlit("homepage");
        reveal_strlit("host");
        reveal_strlit("id");
        reveal_strlit("initialPosition");
        reveal_strlit("isArenaHeightLocked");
        reveal_strlit("isArenaWidthLocked");
        reveal_strlit("isDroid");
        reveal_strlit("isGunCoolingRateLocked");
        reveal_strlit("isMaxInactivityTurnsLocked");
        reveal_strlit("isMaxNumberOfParticipantsLocked");
        reveal_strlit("isMinNumberOfParticipantsLocked");
        reveal_strlit("isNumberOfRoundsLocked");
        reveal_strlit("isReadyTimeoutLocked");
        reveal_strlit("isTurnTimeoutLocked");
        reveal_strlit("lastSurvivorBonus");
        reveal_strlit("maxInactivityTurns");
        reveal_strlit("maxNumberOfParticipants");
        reveal_strlit("message");
        reveal_strlit("messageType");
        reveal_strlit("minNumberOfParticipants");
        reveal_strlit("myId");
        reveal_strlit("name");
        reveal_strlit("numberOfRounds");
        reveal_strlit("ownerId");
        reveal_strlit("participants");
        reveal_strlit("platform");
        reveal_strlit("port");
        reveal_strlit("power");
        reveal_strlit("programmingLang");
        reveal_strlit("radarColor");
        reveal_strlit("radarDirection");
        reveal_strlit("radarSweep");
        reveal_strlit("radarTurnRate");
        reveal_strlit("ramDamage");
        reveal_strlit("ramKillBonus");
        reveal_strlit("rammed");
        reveal_strlit("rank");
        reveal_strlit("readyTimeout");
        reveal_strlit("receiverId");
        reveal_strlit("rescan");
        reveal_strlit("results");
        reveal_strlit("roundNumber");
        reveal_strlit("scanColor");
        reveal_strlit("scannedBotId");
        reveal_strlit("scannedByBotId");
        reveal_strlit("secondPlaces");
        reveal_strlit("secret");
        reveal_strlit("senderId");
        reveal_strlit("sessionId");
        reveal_strlit("speed");
        reveal_strlit("startDirection");
        reveal_strlit("startX");
        reveal_strlit("startY");
        reveal_strlit("stderr");
        reveal_strlit("stdout");
        reveal_strlit("survival");
        reveal_strlit("targetSpeed");
        reveal_strlit("teamId");
        reveal_strlit("teamMessages");
        reveal_strlit("teamName");
        reveal_strlit("teamVersion");
        reveal_strlit("teammateIds");
        reveal_strlit("thirdPlaces");
        reveal_strlit("totalScore");
        reveal_strlit("tps");
        reveal_strlit("tracksColor");
        reveal_strlit("turnNumber");
        reveal_strlit("turnRate");
        reveal_strlit("turnTimeout");
        reveal_strlit("turretColor");
        reveal_strlit("type");
        reveal_strlit("variant");
        reveal_strlit("version");
        reveal_strlit("victimId");
        reveal_strlit("x");
        reveal_strlit("y");
        assert forall|a: Key, b: Key| #[trigger] a.name() == #[trigger] b.name() implies a == b by {
            assert(fingerprint(a.name()) == fingerprint(b.name()));
        }
    }
}

} // verus!
