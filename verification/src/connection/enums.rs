//! The shapes of message and the sums over them: everything the wire can
//! carry, what may be nested in a tick, and what a bot may be sent.

use crate::connection::message_types::{
    BotDeathEvent,
    BotDeathEventModel,
    BotHandshake,
    BotHandshakeModel,
    BotHandshakeInfo,
    BotHandshakeInfoModel,
    BotHitBotEvent,
    BotHitBotEventModel,
    BotHitWallEvent,
    BotHitWallEventModel,
    BotIntent,
    BotIntentModel,
    BotListUpdate,
    BotListUpdateModel,
    BulletFiredEvent,
    BulletFiredEventModel,
    BulletHitBotEvent,
    BulletHitBotEventModel,
    BulletHitBulletEvent,
    BulletHitBulletEventModel,
    BulletHitWallEvent,
    BulletHitWallEventModel,
    ChangeTps,
    ChangeTpsModel,
    ControllerHandshake,
    ControllerHandshakeModel,
    GameAbortedEvent,
    GameAbortedEventModel,
    GameEndedEventForBot,
    GameEndedEventForBotModel,
    GameEndedEventForObserver,
    GameEndedEventForObserverModel,
    GameStartedEventForBot,
    GameStartedEventForBotModel,
    GameStartedEventForObserver,
    GameStartedEventForObserverModel,
    HitByBulletEvent,
    HitByBulletEventModel,
    ObserverHandshake,
    ObserverHandshakeModel,
    RoundEndedEventForBot,
    RoundEndedEventForBotModel,
    RoundEndedEventForObserver,
    RoundEndedEventForObserverModel,
    RoundStartedEvent,
    RoundStartedEventModel,
    ScannedBotEvent,
    ScannedBotEventModel,
    ServerHandshake,
    ServerHandshakeModel,
    SkippedTurnEvent,
    SkippedTurnEventModel,
    StartGame,
    StartGameModel,
    TeamMessageEvent,
    TeamMessageEventModel,
    TickEventForBot,
    TickEventForBotModel,
    TickEventForObserver,
    TickEventForObserverModel,
    TpsChangedEvent,
    TpsChangedEventModel,
    WonRoundEvent,
    WonRoundEventModel,
};
use crate::json::{same_text, Json, JsonValue, Members};
use crate::names::{fingerprint, Key};
use crate::show::{quote, quoted, Show};
use crate::wire::{
    lemma_tag_only_tag,
    lookup,
    members_map,
    members_of,
    push_member,
    read_req,
    record_of,
    req,
    required,
    Record,
    Wire,
};
use vstd::prelude::*;

verus! {

/// The shapes of message the protocol knows. The tag of a message names its
/// shape.
#[derive(Clone, Copy, Debug, PartialEq, Eq)]
pub enum Shape {
    BotHandshake,
    ControllerHandshake,
    ObserverHandshake,
    ServerHandshake,
    BotReady,
    BotIntent,
    BotInfo,
    BotListUpdate,
    GameStartedEventForBot,
    GameStartedEventForObserver,
    GameEndedEventForBot,
    GameEndedEventForObserver,
    GameAbortedEvent,
    GamePausedEventForObserver,
    GameResumedEventForObserver,
    RoundStartedEvent,
    RoundEndedEventForBot,
    RoundEndedEventForObserver,
    ChangeTps,
    TpsChangedEvent,
    BotDeathEvent,
    BotHitBotEvent,
    BotHitWallEvent,
    BulletFiredEvent,
    BulletHitBotEvent,
    BulletHitBulletEvent,
    BulletHitWallEvent,
    HitByBulletEvent,
    ScannedBotEvent,
    SkippedTurnEvent,
    TickEventForBot,
    TickEventForObserver,
    WonRoundEvent,
    TeamMessageEvent,
    StartGame,
    StopGame,
    PauseGame,
    ResumeGame,
    NextTurn,
}

impl Shape {
    /// The name the tag carries for a shape.
    #[verifier::opaque]
    pub open spec fn name(self) -> Seq<char> {
        match self {
            Shape::BotHandshake => "BotHandshake"@,
            Shape::ControllerHandshake => "ControllerHandshake"@,
            Shape::ObserverHandshake => "ObserverHandshake"@,
            Shape::ServerHandshake => "ServerHandshake"@,
            Shape::BotReady => "BotReady"@,
            Shape::BotIntent => "BotIntent"@,
            Shape::BotInfo => "BotInfo"@,
            Shape::BotListUpdate => "BotListUpdate"@,
            Shape::GameStartedEventForBot => "GameStartedEventForBot"@,
            Shape::GameStartedEventForObserver => "GameStartedEventForObserver"@,
            Shape::GameEndedEventForBot => "GameEndedEventForBot"@,
            Shape::GameEndedEventForObserver => "GameEndedEventForObserver"@,
            Shape::GameAbortedEvent => "GameAbortedEvent"@,
            Shape::GamePausedEventForObserver => "GamePausedEventForObserver"@,
            Shape::GameResumedEventForObserver => "GameResumedEventForObserver"@,
            Shape::RoundStartedEvent => "RoundStartedEvent"@,
            Shape::RoundEndedEventForBot => "RoundEndedEventForBot"@,
            Shape::RoundEndedEventForObserver => "RoundEndedEventForObserver"@,
            Shape::ChangeTps => "ChangeTps"@,
            Shape::TpsChangedEvent => "TpsChangedEvent"@,
            Shape::BotDeathEvent => "BotDeathEvent"@,
            Shape::BotHitBotEvent => "BotHitBotEvent"@,
            Shape::BotHitWallEvent => "BotHitWallEvent"@,
            Shape::BulletFiredEvent => "BulletFiredEvent"@,
            Shape::BulletHitBotEvent => "BulletHitBotEvent"@,
            Shape::BulletHitBulletEvent => "BulletHitBulletEvent"@,
            Shape::BulletHitWallEvent => "BulletHitWallEvent"@,
            Shape::HitByBulletEvent => "HitByBulletEvent"@,
            Shape::ScannedBotEvent => "ScannedBotEvent"@,
            Shape::SkippedTurnEvent => "SkippedTurnEvent"@,
            Shape::TickEventForBot => "TickEventForBot"@,
            Shape::TickEventForObserver => "TickEventForObserver"@,
            Shape::WonRoundEvent => "WonRoundEvent"@,
            Shape::TeamMessageEvent => "TeamMessageEvent"@,
            Shape::StartGame => "StartGame"@,
            Shape::StopGame => "StopGame"@,
            Shape::PauseGame => "PauseGame"@,
            Shape::ResumeGame => "ResumeGame"@,
            Shape::NextTurn => "NextTurn"@,
        }
    }

    /// The shape that goes by a name, where the protocol knows one.
    pub open spec fn named(s: Seq<char>) -> Option<Shape> {
        if exists|k: Shape| k.name() == s {
            Some(choose|k: Shape| k.name() == s)
        } else {
            None
        }
    }

    /// The name the tag carries for a shape, as text.
    pub fn text(self) -> (r: &'static str)
        ensures
            r@ == self.name(),
    {
        reveal(Shape::name);
        match self {
            Shape::BotHandshake => "BotHandshake",
            Shape::ControllerHandshake => "ControllerHandshake",
            Shape::ObserverHandshake => "ObserverHandshake",
            Shape::ServerHandshake => "ServerHandshake",
            Shape::BotReady => "BotReady",
            Shape::BotIntent => "BotIntent",
            Shape::BotInfo => "BotInfo",
            Shape::BotListUpdate => "BotListUpdate",
            Shape::GameStartedEventForBot => "GameStartedEventForBot",
            Shape::GameStartedEventForObserver => "GameStartedEventForObserver",
            Shape::GameEndedEventForBot => "GameEndedEventForBot",
            Shape::GameEndedEventForObserver => "GameEndedEventForObserver",
            Shape::GameAbortedEvent => "GameAbortedEvent",
            Shape::GamePausedEventForObserver => "GamePausedEventForObserver",
            Shape::GameResumedEventForObserver => "GameResumedEventForObserver",
            Shape::RoundStartedEvent => "RoundStartedEvent",
            Shape::RoundEndedEventForBot => "RoundEndedEventForBot",
            Shape::RoundEndedEventForObserver => "RoundEndedEventForObserver",
            Shape::ChangeTps => "ChangeTps",
            Shape::TpsChangedEvent => "TpsChangedEvent",
            Shape::BotDeathEvent => "BotDeathEvent",
            Shape::BotHitBotEvent => "BotHitBotEvent",
            Shape::BotHitWallEvent => "BotHitWallEvent",
            Shape::BulletFiredEvent => "BulletFiredEvent",
            Shape::BulletHitBotEvent => "BulletHitBotEvent",
            Shape::BulletHitBulletEvent => "BulletHitBulletEvent",
            Shape::BulletHitWallEvent => "BulletHitWallEvent",
            Shape::HitByBulletEvent => "HitByBulletEvent",
            Shape::ScannedBotEvent => "ScannedBotEvent",
            Shape::SkippedTurnEvent => "SkippedTurnEvent",
            Shape::TickEventForBot => "TickEventForBot",
            Shape::TickEventForObserver => "TickEventForObserver",
            Shape::WonRoundEvent => "WonRoundEvent",
            Shape::TeamMessageEvent => "TeamMessageEvent",
            Shape::StartGame => "StartGame",
            Shape::StopGame => "StopGame",
            Shape::PauseGame => "PauseGame",
            Shape::ResumeGame => "ResumeGame",
            Shape::NextTurn => "NextTurn",
        }
    }

    /// No two shapes share a name.
    pub proof fn lemma_names_differ()
        ensures
            forall|a: Shape, b: Shape| #[trigger] a.name() == #[trigger] b.name() ==> a == b,
    {
        reveal(Shape::name);
        reveal_strlit("BotHandshake");
        reveal_strlit("ControllerHandshake");
        reveal_strlit("ObserverHandshake");
        reveal_strlit("ServerHandshake");
        reveal_strlit("BotReady");
        reveal_strlit("BotIntent");
        reveal_strlit("BotInfo");
        reveal_strlit("BotListUpdate");
        reveal_strlit("GameStartedEventForBot");
        reveal_strlit("GameStartedEventForObserver");
        reveal_strlit("GameEndedEventForBot");
        reveal_strlit("GameEndedEventForObserver");
        reveal_strlit("GameAbortedEvent");
        reveal_strlit("GamePausedEventForObserver");
        reveal_strlit("GameResumedEventForObserver");
        reveal_strlit("RoundStartedEvent");
        reveal_strlit("RoundEndedEventForBot");
        reveal_strlit("RoundEndedEventForObserver");
        reveal_strlit("ChangeTps");
        reveal_strlit("TpsChangedEvent");
        reveal_strlit("BotDeathEvent");
        reveal_strlit("BotHitBotEvent");
        reveal_strlit("BotHitWallEvent");
        reveal_strlit("BulletFiredEvent");
        reveal_strlit("BulletHitBotEvent");
        reveal_strlit("BulletHitBulletEvent");
        reveal_strlit("BulletHitWallEvent");
        reveal_strlit("HitByBulletEvent");
        reveal_strlit("ScannedBotEvent");
        reveal_strlit("SkippedTurnEvent");
        reveal_strlit("TickEventForBot");
        reveal_strlit("TickEventForObserver");
        reveal_strlit("WonRoundEvent");
        reveal_strlit("TeamMessageEvent");
        reveal_strlit("StartGame");
        reveal_strlit("StopGame");
        reveal_strlit("PauseGame");
        reveal_strlit("ResumeGame");
        reveal_strlit("NextTurn");
        assert forall|a: Shape, b: Shape| #[trigger] a.name() == #[trigger] b.name() implies a
            == b by {
            assert(fingerprint(a.name()) == fingerprint(b.name()));
        }
    }

    /// A shape is the one that goes by its own name.
    pub proof fn lemma_named(k: Shape)
        ensures
            Shape::named(k.name()) == Some(k),
    {
        Shape::lemma_names_differ();
    }

    /// Finds the shape that goes by a name.
    pub fn from_text(s: &str) -> (r: Option<Shape>)
        ensures
            r == Shape::named(s@),
    {
        let wanted = s.to_owned();
        proof {
            reveal(Shape::name);
            Shape::lemma_names_differ();
        }
        if same_text(&wanted, "BotHandshake") {
            assert(Shape::BotHandshake.name() == s@);
            Some(Shape::BotHandshake)
        } else if same_text(&wanted, "ControllerHandshake") {
            assert(Shape::ControllerHandshake.name() == s@);
            Some(Shape::ControllerHandshake)
        } else if same_text(&wanted, "ObserverHandshake") {
            assert(Shape::ObserverHandshake.name() == s@);
            Some(Shape::ObserverHandshake)
        } else if same_text(&wanted, "ServerHandshake") {
            assert(Shape::ServerHandshake.name() == s@);
            Some(Shape::ServerHandshake)
        } else if same_text(&wanted, "BotReady") {
            assert(Shape::BotReady.name() == s@);
            Some(Shape::BotReady)
        } else if same_text(&wanted, "BotIntent") {
            assert(Shape::BotIntent.name() == s@);
            Some(Shape::BotIntent)
        } else if same_text(&wanted, "BotInfo") {
            assert(Shape::BotInfo.name() == s@);
            Some(Shape::BotInfo)
        } else if same_text(&wanted, "BotListUpdate") {
            assert(Shape::BotListUpdate.name() == s@);
            Some(Shape::BotListUpdate)
        } else if same_text(&wanted, "GameStartedEventForBot") {
            assert(Shape::GameStartedEventForBot.name() == s@);
            Some(Shape::GameStartedEventForBot)
        } else if same_text(&wanted, "GameStartedEventForObserver") {
            assert(Shape::GameStartedEventForObserver.name() == s@);
            Some(Shape::GameStartedEventForObserver)
        } else if same_text(&wanted, "GameEndedEventForBot") {
            assert(Shape::GameEndedEventForBot.name() == s@);
            Some(Shape::GameEndedEventForBot)
        } else if same_text(&wanted, "GameEndedEventForObserver") {
            assert(Shape::GameEndedEventForObserver.name() == s@);
            Some(Shape::GameEndedEventForObserver)
        } else if same_text(&wanted, "GameAbortedEvent") {
            assert(Shape::GameAbortedEvent.name() == s@);
            Some(Shape::GameAbortedEvent)
        } else if same_text(&wanted, "GamePausedEventForObserver") {
            assert(Shape::GamePausedEventForObserver.name() == s@);
            Some(Shape::GamePausedEventForObserver)
        } else if same_text(&wanted, "GameResumedEventForObserver") {
            assert(Shape::GameResumedEventForObserver.name() == s@);
            Some(Shape::GameResumedEventForObserver)
        } else if same_text(&wanted, "RoundStartedEvent") {
            assert(Shape::RoundStartedEvent.name() == s@);
            Some(Shape::RoundStartedEvent)
        } else if same_text(&wanted, "RoundEndedEventForBot") {
            assert(Shape::RoundEndedEventForBot.name() == s@);
            Some(Shape::RoundEndedEventForBot)
        } else if same_text(&wanted, "RoundEndedEventForObserver") {
            assert(Shape::RoundEndedEventForObserver.name() == s@);
            Some(Shape::RoundEndedEventForObserver)
        } else if same_text(&wanted, "ChangeTps") {
            assert(Shape::ChangeTps.name() == s@);
            Some(Shape::ChangeTps)
        } else if same_text(&wanted, "TpsChangedEvent") {
            assert(Shape::TpsChangedEvent.name() == s@);
            Some(Shape::TpsChangedEvent)
        } else if same_text(&wanted, "BotDeathEvent") {
            assert(Shape::BotDeathEvent.name() == s@);
            Some(Shape::BotDeathEvent)
        } else if same_text(&wanted, "BotHitBotEvent") {
            assert(Shape::BotHitBotEvent.name() == s@);
            Some(Shape::BotHitBotEvent)
        } else if same_text(&wanted, "BotHitWallEvent") {
            assert(Shape::BotHitWallEvent.name() == s@);
            Some(Shape::BotHitWallEvent)
        } else if same_text(&wanted, "BulletFiredEvent") {
            assert(Shape::BulletFiredEvent.name() == s@);
            Some(Shape::BulletFiredEvent)
        } else if same_text(&wanted, "BulletHitBotEvent") {
            assert(Shape::BulletHitBotEvent.name() == s@);
            Some(Shape::BulletHitBotEvent)
        } else if same_text(&wanted, "BulletHitBulletEvent") {
            assert(Shape::BulletHitBulletEvent.name() == s@);
            Some(Shape::BulletHitBulletEvent)
        } else if same_text(&wanted, "BulletHitWallEvent") {
            assert(Shape::BulletHitWallEvent.name() == s@);
            Some(Shape::BulletHitWallEvent)
        } else if same_text(&wanted, "HitByBulletEvent") {
            assert(Shape::HitByBulletEvent.name() == s@);
            Some(Shape::HitByBulletEvent)
        } else if same_text(&wanted, "ScannedBotEvent") {
            assert(Shape::ScannedBotEvent.name() == s@);
            Some(Shape::ScannedBotEvent)
        } else if same_text(&wanted, "SkippedTurnEvent") {
            assert(Shape::SkippedTurnEvent.name() == s@);
            Some(Shape::SkippedTurnEvent)
        } else if same_text(&wanted, "TickEventForBot") {
            assert(Shape::TickEventForBot.name() == s@);
            Some(Shape::TickEventForBot)
        } else if same_text(&wanted, "TickEventForObserver") {
            assert(Shape::TickEventForObserver.name() == s@);
            Some(Shape::TickEventForObserver)
        } else if same_text(&wanted, "WonRoundEvent") {
            assert(Shape::WonRoundEvent.name() == s@);
            Some(Shape::WonRoundEvent)
        } else if same_text(&wanted, "TeamMessageEvent") {
            assert(Shape::TeamMessageEvent.name() == s@);
            Some(Shape::TeamMessageEvent)
        } else if same_text(&wanted, "StartGame") {
            assert(Shape::StartGame.name() == s@);
            Some(Shape::StartGame)
        } else if same_text(&wanted, "StopGame") {
            assert(Shape::StopGame.name() == s@);
            Some(Shape::StopGame)
        } else if same_text(&wanted, "PauseGame") {
            assert(Shape::PauseGame.name() == s@);
            Some(Shape::PauseGame)
        } else if same_text(&wanted, "ResumeGame") {
            assert(Shape::ResumeGame.name() == s@);
            Some(Shape::ResumeGame)
        } else if same_text(&wanted, "NextTurn") {
            assert(Shape::NextTurn.name() == s@);
            Some(Shape::NextTurn)
        } else {
            assert forall|k: Shape| k.name() != s@ by {
                reveal(Shape::name);
            }
            None
        }
    }
}

/// The members of an object that holds the tag of a shape and nothing else.
pub open spec fn tagged(shape: Shape) -> Members {
    Members::empty().insert(Key::Type.name(), JsonValue::Text(shape.name()))
}

/// A record written after the tag of its shape is read back, and so is the
/// tag.
pub proof fn lemma_tagged<T: Record>(shape: Shape, f: T::Fields)
    ensures
        T::read(T::written(tagged(shape), f)) == Some(f),
        req::<String>(T::written(tagged(shape), f), Key::Type) == Some(shape.name()),
        Shape::named(shape.name()) == Some(shape),
{
    lemma_tag_only_tag(JsonValue::Text(shape.name()));
    T::lemma_read_written(tagged(shape), f);
    reveal(read_req);
    Shape::lemma_named(shape);
}

/// The tag alone is read back.
pub proof fn lemma_tag_alone(shape: Shape)
    ensures
        req::<String>(tagged(shape), Key::Type) == Some(shape.name()),
        Shape::named(shape.name()) == Some(shape),
{
    lemma_tag_only_tag(JsonValue::Text(shape.name()));
    reveal(read_req);
    Shape::lemma_named(shape);
}

/// Starts the members of a message with the tag of its shape.
pub fn tag_members(shape: Shape) -> (members: Vec<(String, Json)>)
    ensures
        members_map(members@) == tagged(shape),
{
    let mut members: Vec<(String, Json)> = Vec::new();
    assert(members_map(members@) == Members::empty());
    push_member(&mut members, Key::Type.text(), Json::Text(shape.text().to_owned()));
    members
}

/// Writes a record with the tag of its shape beside its fields.
pub fn encode_tagged<T: Record>(shape: Shape, value: &T) -> (j: Json)
    ensures
        j@ == JsonValue::Record(T::written(tagged(shape), value.fields())),
{
    let mut members = tag_members(shape);
    value.write_fields(&mut members);
    record_of(members)
}

/// Something that happened during a turn, as a tick lists it.
#[derive(Clone, Debug)]
pub enum BotEvent {
    BotDeathEvent(BotDeathEvent),
    BotHitBotEvent(BotHitBotEvent),
    BotHitWallEvent(BotHitWallEvent),
    BulletFiredEvent(BulletFiredEvent),
    BulletHitBotEvent(BulletHitBotEvent),
    BulletHitBulletEvent(BulletHitBulletEvent),
    BulletHitWallEvent(BulletHitWallEvent),
    HitByBulletEvent(HitByBulletEvent),
    ScannedBotEvent(ScannedBotEvent),
    TeamMessageEvent(TeamMessageEvent),
    WonRoundEvent(WonRoundEvent),
}

/// What a [`BotEvent`] stands for.
pub ghost enum BotEventModel {
    BotDeathEvent(BotDeathEventModel),
    BotHitBotEvent(BotHitBotEventModel),
    BotHitWallEvent(BotHitWallEventModel),
    BulletFiredEvent(BulletFiredEventModel),
    BulletHitBotEvent(BulletHitBotEventModel),
    BulletHitBulletEvent(BulletHitBulletEventModel),
    BulletHitWallEvent(BulletHitWallEventModel),
    HitByBulletEvent(HitByBulletEventModel),
    ScannedBotEvent(ScannedBotEventModel),
    TeamMessageEvent(TeamMessageEventModel),
    WonRoundEvent(WonRoundEventModel),
}

impl BotEvent {
    /// The event of a shape read from the members of an object. A shape that
    /// is no event of a turn gives nothing.
    pub open spec fn payload(shape: Shape, members: Members) -> Option<BotEventModel> {
        match shape {
            Shape::BotDeathEvent => match BotDeathEvent::read(members) {
                Some(x) => Some(BotEventModel::BotDeathEvent(x)),
                None => None,
            },
            Shape::BotHitBotEvent => match BotHitBotEvent::read(members) {
                Some(x) => Some(BotEventModel::BotHitBotEvent(x)),
                None => None,
            },
            Shape::BotHitWallEvent => match BotHitWallEvent::read(members) {
                Some(x) => Some(BotEventModel::BotHitWallEvent(x)),
                None => None,
            },
            Shape::BulletFiredEvent => match BulletFiredEvent::read(members) {
                Some(x) => Some(BotEventModel::BulletFiredEvent(x)),
                None => None,
            },
            Shape::BulletHitBotEvent => match BulletHitBotEvent::read(members) {
                Some(x) => Some(BotEventModel::BulletHitBotEvent(x)),
                None => None,
            },
            Shape::BulletHitBulletEvent => match BulletHitBulletEvent::read(members) {
                Some(x) => Some(BotEventModel::BulletHitBulletEvent(x)),
                None => None,
            },
            Shape::BulletHitWallEvent => match BulletHitWallEvent::read(members) {
                Some(x) => Some(BotEventModel::BulletHitWallEvent(x)),
                None => None,
            },
            Shape::HitByBulletEvent => match HitByBulletEvent::read(members) {
                Some(x) => Some(BotEventModel::HitByBulletEvent(x)),
                None => None,
            },
            Shape::ScannedBotEvent => match ScannedBotEvent::read(members) {
                Some(x) => Some(BotEventModel::ScannedBotEvent(x)),
                None => None,
            },
            Shape::TeamMessageEvent => match TeamMessageEvent::read(members) {
                Some(x) => Some(BotEventModel::TeamMessageEvent(x)),
                None => None,
            },
            Shape::WonRoundEvent => match WonRoundEvent::read(members) {
                Some(x) => Some(BotEventModel::WonRoundEvent(x)),
                None => None,
            },
            _ => None,
        }
    }
}

impl Wire for BotEvent {
    type Model = BotEventModel;

    open spec fn model(&self) -> BotEventModel {
        match self {
            BotEvent::BotDeathEvent(x) => BotEventModel::BotDeathEvent(x.fields()),
            BotEvent::BotHitBotEvent(x) => BotEventModel::BotHitBotEvent(x.fields()),
            BotEvent::BotHitWallEvent(x) => BotEventModel::BotHitWallEvent(x.fields()),
            BotEvent::BulletFiredEvent(x) => BotEventModel::BulletFiredEvent(x.fields()),
            BotEvent::BulletHitBotEvent(x) => BotEventModel::BulletHitBotEvent(x.fields()),
            BotEvent::BulletHitBulletEvent(x) => BotEventModel::BulletHitBulletEvent(x.fields()),
            BotEvent::BulletHitWallEvent(x) => BotEventModel::BulletHitWallEvent(x.fields()),
            BotEvent::HitByBulletEvent(x) => BotEventModel::HitByBulletEvent(x.fields()),
            BotEvent::ScannedBotEvent(x) => BotEventModel::ScannedBotEvent(x.fields()),
            BotEvent::TeamMessageEvent(x) => BotEventModel::TeamMessageEvent(x.fields()),
            BotEvent::WonRoundEvent(x) => BotEventModel::WonRoundEvent(x.fields()),
        }
    }

    /// An object whose tag names an event of a turn and whose members are the
    /// fields of that event.
    open spec fn from_tree(t: JsonValue) -> Option<BotEventModel> {
        match req::<String>(members_of(t), Key::Type) {
            Some(d) => match Shape::named(d) {
                Some(shape) => BotEvent::payload(shape, members_of(t)),
                None => None,
            },
            None => None,
        }
    }

    open spec fn to_tree(m: BotEventModel) -> JsonValue {
        match m {
            BotEventModel::BotDeathEvent(x) => JsonValue::Record(
                BotDeathEvent::written(tagged(Shape::BotDeathEvent), x),
            ),
            BotEventModel::BotHitBotEvent(x) => JsonValue::Record(
                BotHitBotEvent::written(tagged(Shape::BotHitBotEvent), x),
            ),
            BotEventModel::BotHitWallEvent(x) => JsonValue::Record(
                BotHitWallEvent::written(tagged(Shape::BotHitWallEvent), x),
            ),
            BotEventModel::BulletFiredEvent(x) => JsonValue::Record(
                BulletFiredEvent::written(tagged(Shape::BulletFiredEvent), x),
            ),
            BotEventModel::BulletHitBotEvent(x) => JsonValue::Record(
                BulletHitBotEvent::written(tagged(Shape::BulletHitBotEvent), x),
            ),
            BotEventModel::BulletHitBulletEvent(x) => JsonValue::Record(
                BulletHitBulletEvent::written(tagged(Shape::BulletHitBulletEvent), x),
            ),
            BotEventModel::BulletHitWallEvent(x) => JsonValue::Record(
                BulletHitWallEvent::written(tagged(Shape::BulletHitWallEvent), x),
            ),
            BotEventModel::HitByBulletEvent(x) => JsonValue::Record(
                HitByBulletEvent::written(tagged(Shape::HitByBulletEvent), x),
            ),
            BotEventModel::ScannedBotEvent(x) => JsonValue::Record(
                ScannedBotEvent::written(tagged(Shape::ScannedBotEvent), x),
            ),
            BotEventModel::TeamMessageEvent(x) => JsonValue::Record(
                TeamMessageEvent::written(tagged(Shape::TeamMessageEvent), x),
            ),
            BotEventModel::WonRoundEvent(x) => JsonValue::Record(
                WonRoundEvent::written(tagged(Shape::WonRoundEvent), x),
            ),
        }
    }

    fn decode(j: &Json) -> (r: Option<BotEvent>) {
        let d = required::<String>(j, Key::Type)?;
        let shape = Shape::from_text(d.as_str())?;
        match shape {
            Shape::BotDeathEvent => match BotDeathEvent::read_fields(j) {
                Some(x) => Some(BotEvent::BotDeathEvent(x)),
                None => None,
            },
            Shape::BotHitBotEvent => match BotHitBotEvent::read_fields(j) {
                Some(x) => Some(BotEvent::BotHitBotEvent(x)),
                None => None,
            },
            Shape::BotHitWallEvent => match BotHitWallEvent::read_fields(j) {
                Some(x) => Some(BotEvent::BotHitWallEvent(x)),
                None => None,
            },
            Shape::BulletFiredEvent => match BulletFiredEvent::read_fields(j) {
                Some(x) => Some(BotEvent::BulletFiredEvent(x)),
                None => None,
            },
            Shape::BulletHitBotEvent => match BulletHitBotEvent::read_fields(j) {
                Some(x) => Some(BotEvent::BulletHitBotEvent(x)),
                None => None,
            },
            Shape::BulletHitBulletEvent => match BulletHitBulletEvent::read_fields(j) {
                Some(x) => Some(BotEvent::BulletHitBulletEvent(x)),
                None => None,
            },
            Shape::BulletHitWallEvent => match BulletHitWallEvent::read_fields(j) {
                Some(x) => Some(BotEvent::BulletHitWallEvent(x)),
                None => None,
            },
            Shape::HitByBulletEvent => match HitByBulletEvent::read_fields(j) {
                Some(x) => Some(BotEvent::HitByBulletEvent(x)),
                None => None,
            },
            Shape::ScannedBotEvent => match ScannedBotEvent::read_fields(j) {
                Some(x) => Some(BotEvent::ScannedBotEvent(x)),
                None => None,
            },
            Shape::TeamMessageEvent => match TeamMessageEvent::read_fields(j) {
                Some(x) => Some(BotEvent::TeamMessageEvent(x)),
                None => None,
            },
            Shape::WonRoundEvent => match WonRoundEvent::read_fields(j) {
                Some(x) => Some(BotEvent::WonRoundEvent(x)),
                None => None,
            },
            _ => None,
        }
    }

    fn encode(&self) -> (j: Json) {
        match self {
            BotEvent::BotDeathEvent(x) => encode_tagged(Shape::BotDeathEvent, x),
            BotEvent::BotHitBotEvent(x) => encode_tagged(Shape::BotHitBotEvent, x),
            BotEvent::BotHitWallEvent(x) => encode_tagged(Shape::BotHitWallEvent, x),
            BotEvent::BulletFiredEvent(x) => encode_tagged(Shape::BulletFiredEvent, x),
            BotEvent::BulletHitBotEvent(x) => encode_tagged(Shape::BulletHitBotEvent, x),
            BotEvent::BulletHitBulletEvent(x) => encode_tagged(Shape::BulletHitBulletEvent, x),
            BotEvent::BulletHitWallEvent(x) => encode_tagged(Shape::BulletHitWallEvent, x),
            BotEvent::HitByBulletEvent(x) => encode_tagged(Shape::HitByBulletEvent, x),
            BotEvent::ScannedBotEvent(x) => encode_tagged(Shape::ScannedBotEvent, x),
            BotEvent::TeamMessageEvent(x) => encode_tagged(Shape::TeamMessageEvent, x),
            BotEvent::WonRoundEvent(x) => encode_tagged(Shape::WonRoundEvent, x),
        }
    }

    proof fn round_trip(m: BotEventModel) {
        match m {
            BotEventModel::BotDeathEvent(x) => {
                lemma_tagged::<BotDeathEvent>(Shape::BotDeathEvent, x);
            },
            BotEventModel::BotHitBotEvent(x) => {
                lemma_tagged::<BotHitBotEvent>(Shape::BotHitBotEvent, x);
            },
            BotEventModel::BotHitWallEvent(x) => {
                lemma_tagged::<BotHitWallEvent>(Shape::BotHitWallEvent, x);
            },
            BotEventModel::BulletFiredEvent(x) => {
                lemma_tagged::<BulletFiredEvent>(Shape::BulletFiredEvent, x);
            },
            BotEventModel::BulletHitBotEvent(x) => {
                lemma_tagged::<BulletHitBotEvent>(Shape::BulletHitBotEvent, x);
            },
            BotEventModel::BulletHitBulletEvent(x) => {
                lemma_tagged::<BulletHitBulletEvent>(Shape::BulletHitBulletEvent, x);
            },
            BotEventModel::BulletHitWallEvent(x) => {
                lemma_tagged::<BulletHitWallEvent>(Shape::BulletHitWallEvent, x);
            },
            BotEventModel::HitByBulletEvent(x) => {
                lemma_tagged::<HitByBulletEvent>(Shape::HitByBulletEvent, x);
            },
            BotEventModel::ScannedBotEvent(x) => {
                lemma_tagged::<ScannedBotEvent>(Shape::ScannedBotEvent, x);
            },
            BotEventModel::TeamMessageEvent(x) => {
                lemma_tagged::<TeamMessageEvent>(Shape::TeamMessageEvent, x);
            },
            BotEventModel::WonRoundEvent(x) => {
                lemma_tagged::<WonRoundEvent>(Shape::WonRoundEvent, x);
            },
        }
    }
}

impl Show for BotEvent {
    /// The name of the event around the event itself.
    open spec fn shown(m: BotEventModel) -> Seq<char> {
        match m {
            BotEventModel::BotDeathEvent(x) => "BotDeathEvent("@ + BotDeathEvent::shown(x) + ")"@,
            BotEventModel::BotHitBotEvent(x) => {
                "BotHitBotEvent("@ + BotHitBotEvent::shown(x) + ")"@
            },
            BotEventModel::BotHitWallEvent(x) => {
                "BotHitWallEvent("@ + BotHitWallEvent::shown(x) + ")"@
            },
            BotEventModel::BulletFiredEvent(x) => {
                "BulletFiredEvent("@ + BulletFiredEvent::shown(x) + ")"@
            },
            BotEventModel::BulletHitBotEvent(x) => {
                "BulletHitBotEvent("@ + BulletHitBotEvent::shown(x) + ")"@
            },
            BotEventModel::BulletHitBulletEvent(x) => {
                "BulletHitBulletEvent("@ + BulletHitBulletEvent::shown(x) + ")"@
            },
            BotEventModel::BulletHitWallEvent(x) => {
                "BulletHitWallEvent("@ + BulletHitWallEvent::shown(x) + ")"@
            },
            BotEventModel::HitByBulletEvent(x) => {
                "HitByBulletEvent("@ + HitByBulletEvent::shown(x) + ")"@
            },
            BotEventModel::ScannedBotEvent(x) => {
                "ScannedBotEvent("@ + ScannedBotEvent::shown(x) + ")"@
            },
            BotEventModel::TeamMessageEvent(x) => {
                "TeamMessageEvent("@ + TeamMessageEvent::shown(x) + ")"@
            },
            BotEventModel::WonRoundEvent(x) => "WonRoundEvent("@ + WonRoundEvent::shown(x) + ")"@,
        }
    }

    fn show(&self) -> (s: String) {
        match self {
            BotEvent::BotDeathEvent(x) => show_variant("BotDeathEvent(", x),
            BotEvent::BotHitBotEvent(x) => show_variant("BotHitBotEvent(", x),
            BotEvent::BotHitWallEvent(x) => show_variant("BotHitWallEvent(", x),
            BotEvent::BulletFiredEvent(x) => show_variant("BulletFiredEvent(", x),
            BotEvent::BulletHitBotEvent(x) => show_variant("BulletHitBotEvent(", x),
            BotEvent::BulletHitBulletEvent(x) => show_variant("BulletHitBulletEvent(", x),
            BotEvent::BulletHitWallEvent(x) => show_variant("BulletHitWallEvent(", x),
            BotEvent::HitByBulletEvent(x) => show_variant("HitByBulletEvent(", x),
            BotEvent::ScannedBotEvent(x) => show_variant("ScannedBotEvent(", x),
            BotEvent::TeamMessageEvent(x) => show_variant("TeamMessageEvent(", x),
            BotEvent::WonRoundEvent(x) => show_variant("WonRoundEvent(", x),
        }
    }
}

/// Writes a record inside the name of the variant that holds it.
pub fn show_variant<T: Show>(opening: &str, value: &T) -> (s: String)
    ensures
        s@ == opening@ + T::shown(value.model()) + ")"@,
{
    let mut s = opening.to_owned();
    s.append(value.show().as_str());
    s.append(")");
    s
}

/// Any message the wire can carry: one variant for each shape the protocol
/// knows, and one for everything else.
#[derive(Debug)]
pub enum MessageType {
    BotHandshake(BotHandshake),
    ControllerHandshake(ControllerHandshake),
    ObserverHandshake(ObserverHandshake),
    ServerHandshake(ServerHandshake),
    BotReady,
    BotIntent(BotIntent),
    BotInfo(BotHandshakeInfo),
    BotListUpdate(BotListUpdate),
    GameStartedEventForBot(GameStartedEventForBot),
    GameStartedEventForObserver(GameStartedEventForObserver),
    GameEndedEventForBot(GameEndedEventForBot),
    GameEndedEventForObserver(GameEndedEventForObserver),
    GameAbortedEvent(GameAbortedEvent),
    GamePausedEventForObserver,
    GameResumedEventForObserver,
    RoundStartedEvent(RoundStartedEvent),
    RoundEndedEventForBot(RoundEndedEventForBot),
    RoundEndedEventForObserver(RoundEndedEventForObserver),
    ChangeTps(ChangeTps),
    TpsChangedEvent(TpsChangedEvent),
    BotDeathEvent(BotDeathEvent),
    BotHitBotEvent(BotHitBotEvent),
    BotHitWallEvent(BotHitWallEvent),
    BulletFiredEvent(BulletFiredEvent),
    BulletHitBotEvent(BulletHitBotEvent),
    BulletHitBulletEvent(BulletHitBulletEvent),
    BulletHitWallEvent(BulletHitWallEvent),
    HitByBulletEvent(HitByBulletEvent),
    ScannedBotEvent(ScannedBotEvent),
    SkippedTurnEvent(SkippedTurnEvent),
    TickEventForBot(TickEventForBot),
    TickEventForObserver(TickEventForObserver),
    WonRoundEvent(WonRoundEvent),
    TeamMessageEvent(TeamMessageEvent),
    StartGame(StartGame),
    StopGame,
    PauseGame,
    ResumeGame,
    NextTurn,
    /// A well-formed envelope whose tag names no shape known here. It is kept
    /// whole, so that nothing of it is lost.
    Unrecognized { discriminator: String, raw_payload: Json },
}

/// What a [`MessageType`] stands for.
pub ghost enum MessageModel {
    BotHandshake(BotHandshakeModel),
    ControllerHandshake(ControllerHandshakeModel),
    ObserverHandshake(ObserverHandshakeModel),
    ServerHandshake(ServerHandshakeModel),
    BotReady,
    BotIntent(BotIntentModel),
    BotInfo(BotHandshakeInfoModel),
    BotListUpdate(BotListUpdateModel),
    GameStartedEventForBot(GameStartedEventForBotModel),
    GameStartedEventForObserver(GameStartedEventForObserverModel),
    GameEndedEventForBot(GameEndedEventForBotModel),
    GameEndedEventForObserver(GameEndedEventForObserverModel),
    GameAbortedEvent(GameAbortedEventModel),
    GamePausedEventForObserver,
    GameResumedEventForObserver,
    RoundStartedEvent(RoundStartedEventModel),
    RoundEndedEventForBot(RoundEndedEventForBotModel),
    RoundEndedEventForObserver(RoundEndedEventForObserverModel),
    ChangeTps(ChangeTpsModel),
    TpsChangedEvent(TpsChangedEventModel),
    BotDeathEvent(BotDeathEventModel),
    BotHitBotEvent(BotHitBotEventModel),
    BotHitWallEvent(BotHitWallEventModel),
    BulletFiredEvent(BulletFiredEventModel),
    BulletHitBotEvent(BulletHitBotEventModel),
    BulletHitBulletEvent(BulletHitBulletEventModel),
    BulletHitWallEvent(BulletHitWallEventModel),
    HitByBulletEvent(HitByBulletEventModel),
    ScannedBotEvent(ScannedBotEventModel),
    SkippedTurnEvent(SkippedTurnEventModel),
    TickEventForBot(TickEventForBotModel),
    TickEventForObserver(TickEventForObserverModel),
    WonRoundEvent(WonRoundEventModel),
    TeamMessageEvent(TeamMessageEventModel),
    StartGame(StartGameModel),
    StopGame,
    PauseGame,
    ResumeGame,
    NextTurn,
    Unrecognized { discriminator: Seq<char>, raw_payload: JsonValue },
}

impl MessageModel {
    /// The shape of a message; an unrecognized one has none.
    pub open spec fn shape(self) -> Option<Shape> {
        match self {
            MessageModel::BotHandshake(_) => Some(Shape::BotHandshake),
            MessageModel::ControllerHandshake(_) => Some(Shape::ControllerHandshake),
            MessageModel::ObserverHandshake(_) => Some(Shape::ObserverHandshake),
            MessageModel::ServerHandshake(_) => Some(Shape::ServerHandshake),
            MessageModel::BotReady => Some(Shape::BotReady),
            MessageModel::BotIntent(_) => Some(Shape::BotIntent),
            MessageModel::BotInfo(_) => Some(Shape::BotInfo),
            MessageModel::BotListUpdate(_) => Some(Shape::BotListUpdate),
            MessageModel::GameStartedEventForBot(_) => Some(Shape::GameStartedEventForBot),
            MessageModel::GameStartedEventForObserver(_) => {
                Some(Shape::GameStartedEventForObserver)
            },
            MessageModel::GameEndedEventForBot(_) => Some(Shape::GameEndedEventForBot),
            MessageModel::GameEndedEventForObserver(_) => Some(Shape::GameEndedEventForObserver),
            MessageModel::GameAbortedEvent(_) => Some(Shape::GameAbortedEvent),
            MessageModel::GamePausedEventForObserver => Some(Shape::GamePausedEventForObserver),
            MessageModel::GameResumedEventForObserver => Some(Shape::GameResumedEventForObserver),
            MessageModel::RoundStartedEvent(_) => Some(Shape::RoundStartedEvent),
            MessageModel::RoundEndedEventForBot(_) => Some(Shape::RoundEndedEventForBot),
            MessageModel::RoundEndedEventForObserver(_) => Some(Shape::RoundEndedEventForObserver),
            MessageModel::ChangeTps(_) => Some(Shape::ChangeTps),
            MessageModel::TpsChangedEvent(_) => Some(Shape::TpsChangedEvent),
            MessageModel::BotDeathEvent(_) => Some(Shape::BotDeathEvent),
            MessageModel::BotHitBotEvent(_) => Some(Shape::BotHitBotEvent),
            MessageModel::BotHitWallEvent(_) => Some(Shape::BotHitWallEvent),
            MessageModel::BulletFiredEvent(_) => Some(Shape::BulletFiredEvent),
            MessageModel::BulletHitBotEvent(_) => Some(Shape::BulletHitBotEvent),
            MessageModel::BulletHitBulletEvent(_) => Some(Shape::BulletHitBulletEvent),
            MessageModel::BulletHitWallEvent(_) => Some(Shape::BulletHitWallEvent),
            MessageModel::HitByBulletEvent(_) => Some(Shape::HitByBulletEvent),
            MessageModel::ScannedBotEvent(_) => Some(Shape::ScannedBotEvent),
            MessageModel::SkippedTurnEvent(_) => Some(Shape::SkippedTurnEvent),
            MessageModel::TickEventForBot(_) => Some(Shape::TickEventForBot),
            MessageModel::TickEventForObserver(_) => Some(Shape::TickEventForObserver),
            MessageModel::WonRoundEvent(_) => Some(Shape::WonRoundEvent),
            MessageModel::TeamMessageEvent(_) => Some(Shape::TeamMessageEvent),
            MessageModel::StartGame(_) => Some(Shape::StartGame),
            MessageModel::StopGame => Some(Shape::StopGame),
            MessageModel::PauseGame => Some(Shape::PauseGame),
            MessageModel::ResumeGame => Some(Shape::ResumeGame),
            MessageModel::NextTurn => Some(Shape::NextTurn),
            MessageModel::Unrecognized { .. } => None,
        }
    }

    /// Whether a message is one that reading can give: an unrecognized
    /// message holds an object whose tag is its discriminator, and the
    /// discriminator names no known shape.
    pub open spec fn well_formed(self) -> bool {
        match self {
            MessageModel::Unrecognized { discriminator, raw_payload } => {
                &&& raw_payload is Record
                &&& req::<String>(members_of(raw_payload), Key::Type) == Some(discriminator)
                &&& Shape::named(discriminator) is None
            },
            _ => true,
        }
    }
}

impl MessageType {
    pub open spec fn model(&self) -> MessageModel {
        match self {
            MessageType::BotHandshake(x) => MessageModel::BotHandshake(x.fields()),
            MessageType::ControllerHandshake(x) => MessageModel::ControllerHandshake(x.fields()),
            MessageType::ObserverHandshake(x) => MessageModel::ObserverHandshake(x.fields()),
            MessageType::ServerHandshake(x) => MessageModel::ServerHandshake(x.fields()),
            MessageType::BotReady => MessageModel::BotReady,
            MessageType::BotIntent(x) => MessageModel::BotIntent(x.fields()),
            MessageType::BotInfo(x) => MessageModel::BotInfo(x.fields()),
            MessageType::BotListUpdate(x) => MessageModel::BotListUpdate(x.fields()),
            MessageType::GameStartedEventForBot(x) => {
                MessageModel::GameStartedEventForBot(x.fields())
            },
            MessageType::GameStartedEventForObserver(x) => {
                MessageModel::GameStartedEventForObserver(x.fields())
            },
            MessageType::GameEndedEventForBot(x) => MessageModel::GameEndedEventForBot(x.fields()),
            MessageType::GameEndedEventForObserver(x) => {
                MessageModel::GameEndedEventForObserver(x.fields())
            },
            MessageType::GameAbortedEvent(x) => MessageModel::GameAbortedEvent(x.fields()),
            MessageType::GamePausedEventForObserver => MessageModel::GamePausedEventForObserver,
            MessageType::GameResumedEventForObserver => MessageModel::GameResumedEventForObserver,
            MessageType::RoundStartedEvent(x) => MessageModel::RoundStartedEvent(x.fields()),
            MessageType::RoundEndedEventForBot(x) => {
                MessageModel::RoundEndedEventForBot(x.fields())
            },
            MessageType::RoundEndedEventForObserver(x) => {
                MessageModel::RoundEndedEventForObserver(x.fields())
            },
            MessageType::ChangeTps(x) => MessageModel::ChangeTps(x.fields()),
            MessageType::TpsChangedEvent(x) => MessageModel::TpsChangedEvent(x.fields()),
            MessageType::BotDeathEvent(x) => MessageModel::BotDeathEvent(x.fields()),
            MessageType::BotHitBotEvent(x) => MessageModel::BotHitBotEvent(x.fields()),
            MessageType::BotHitWallEvent(x) => MessageModel::BotHitWallEvent(x.fields()),
            MessageType::BulletFiredEvent(x) => MessageModel::BulletFiredEvent(x.fields()),
            MessageType::BulletHitBotEvent(x) => MessageModel::BulletHitBotEvent(x.fields()),
            MessageType::BulletHitBulletEvent(x) => MessageModel::BulletHitBulletEvent(x.fields()),
            MessageType::BulletHitWallEvent(x) => MessageModel::BulletHitWallEvent(x.fields()),
            MessageType::HitByBulletEvent(x) => MessageModel::HitByBulletEvent(x.fields()),
            MessageType::ScannedBotEvent(x) => MessageModel::ScannedBotEvent(x.fields()),
            MessageType::SkippedTurnEvent(x) => MessageModel::SkippedTurnEvent(x.fields()),
            MessageType::TickEventForBot(x) => MessageModel::TickEventForBot(x.fields()),
            MessageType::TickEventForObserver(x) => MessageModel::TickEventForObserver(x.fields()),
            MessageType::WonRoundEvent(x) => MessageModel::WonRoundEvent(x.fields()),
            MessageType::TeamMessageEvent(x) => MessageModel::TeamMessageEvent(x.fields()),
            MessageType::StartGame(x) => MessageModel::StartGame(x.fields()),
            MessageType::StopGame => MessageModel::StopGame,
            MessageType::PauseGame => MessageModel::PauseGame,
            MessageType::ResumeGame => MessageModel::ResumeGame,
            MessageType::NextTurn => MessageModel::NextTurn,
            MessageType::Unrecognized { discriminator, raw_payload } => MessageModel::Unrecognized {
                discriminator: discriminator@,
                raw_payload: raw_payload@,
            },
        }
    }

    /// The message of a known shape read from the members of an object. A
    /// shape without fields asks nothing of the members.
    pub open spec fn payload(shape: Shape, members: Members) -> Option<MessageModel> {
        match shape {
            Shape::BotHandshake => match BotHandshake::read(members) {
                Some(x) => Some(MessageModel::BotHandshake(x)),
                None => None,
            },
            Shape::ControllerHandshake => match ControllerHandshake::read(members) {
                Some(x) => Some(MessageModel::ControllerHandshake(x)),
                None => None,
            },
            Shape::ObserverHandshake => match ObserverHandshake::read(members) {
                Some(x) => Some(MessageModel::ObserverHandshake(x)),
                None => None,
            },
            Shape::ServerHandshake => match ServerHandshake::read(members) {
                Some(x) => Some(MessageModel::ServerHandshake(x)),
                None => None,
            },
            Shape::BotReady => Some(MessageModel::BotReady),
            Shape::BotIntent => match BotIntent::read(members) {
                Some(x) => Some(MessageModel::BotIntent(x)),
                None => None,
            },
            Shape::BotInfo => match BotHandshakeInfo::read(members) {
                Some(x) => Some(MessageModel::BotInfo(x)),
                None => None,
            },
            Shape::BotListUpdate => match BotListUpdate::read(members) {
                Some(x) => Some(MessageModel::BotListUpdate(x)),
                None => None,
            },
            Shape::GameStartedEventForBot => match GameStartedEventForBot::read(members) {
                Some(x) => Some(MessageModel::GameStartedEventForBot(x)),
                None => None,
            },
            Shape::GameStartedEventForObserver => match GameStartedEventForObserver::read(members) {
                Some(x) => Some(MessageModel::GameStartedEventForObserver(x)),
                None => None,
            },
            Shape::GameEndedEventForBot => match GameEndedEventForBot::read(members) {
                Some(x) => Some(MessageModel::GameEndedEventForBot(x)),
                None => None,
            },
            Shape::GameEndedEventForObserver => match GameEndedEventForObserver::read(members) {
                Some(x) => Some(MessageModel::GameEndedEventForObserver(x)),
                None => None,
            },
            Shape::GameAbortedEvent => match GameAbortedEvent::read(members) {
                Some(x) => Some(MessageModel::GameAbortedEvent(x)),
                None => None,
            },
            Shape::GamePausedEventForObserver => Some(MessageModel::GamePausedEventForObserver),
            Shape::GameResumedEventForObserver => Some(MessageModel::GameResumedEventForObserver),
            Shape::RoundStartedEvent => match RoundStartedEvent::read(members) {
                Some(x) => Some(MessageModel::RoundStartedEvent(x)),
                None => None,
            },
            Shape::RoundEndedEventForBot => match RoundEndedEventForBot::read(members) {
                Some(x) => Some(MessageModel::RoundEndedEventForBot(x)),
                None => None,
            },
            Shape::RoundEndedEventForObserver => match RoundEndedEventForObserver::read(members) {
                Some(x) => Some(MessageModel::RoundEndedEventForObserver(x)),
                None => None,
            },
            Shape::ChangeTps => match ChangeTps::read(members) {
                Some(x) => Some(MessageModel::ChangeTps(x)),
                None => None,
            },
            Shape::TpsChangedEvent => match TpsChangedEvent::read(members) {
                Some(x) => Some(MessageModel::TpsChangedEvent(x)),
                None => None,
            },
            Shape::BotDeathEvent => match BotDeathEvent::read(members) {
                Some(x) => Some(MessageModel::BotDeathEvent(x)),
                None => None,
            },
            Shape::BotHitBotEvent => match BotHitBotEvent::read(members) {
                Some(x) => Some(MessageModel::BotHitBotEvent(x)),
                None => None,
            },
            Shape::BotHitWallEvent => match BotHitWallEvent::read(members) {
                Some(x) => Some(MessageModel::BotHitWallEvent(x)),
                None => None,
            },
            Shape::BulletFiredEvent => match BulletFiredEvent::read(members) {
                Some(x) => Some(MessageModel::BulletFiredEvent(x)),
                None => None,
            },
            Shape::BulletHitBotEvent => match BulletHitBotEvent::read(members) {
                Some(x) => Some(MessageModel::BulletHitBotEvent(x)),
                None => None,
            },
            Shape::BulletHitBulletEvent => match BulletHitBulletEvent::read(members) {
                Some(x) => Some(MessageModel::BulletHitBulletEvent(x)),
                None => None,
            },
            Shape::BulletHitWallEvent => match BulletHitWallEvent::read(members) {
                Some(x) => Some(MessageModel::BulletHitWallEvent(x)),
                None => None,
            },
            Shape::HitByBulletEvent => match HitByBulletEvent::read(members) {
                Some(x) => Some(MessageModel::HitByBulletEvent(x)),
                None => None,
            },
            Shape::ScannedBotEvent => match ScannedBotEvent::read(members) {
                Some(x) => Some(MessageModel::ScannedBotEvent(x)),
                None => None,
            },
            Shape::SkippedTurnEvent => match SkippedTurnEvent::read(members) {
                Some(x) => Some(MessageModel::SkippedTurnEvent(x)),
                None => None,
            },
            Shape::TickEventForBot => match TickEventForBot::read(members) {
                Some(x) => Some(MessageModel::TickEventForBot(x)),
                None => None,
            },
            Shape::TickEventForObserver => match TickEventForObserver::read(members) {
                Some(x) => Some(MessageModel::TickEventForObserver(x)),
                None => None,
            },
            Shape::WonRoundEvent => match WonRoundEvent::read(members) {
                Some(x) => Some(MessageModel::WonRoundEvent(x)),
                None => None,
            },
            Shape::TeamMessageEvent => match TeamMessageEvent::read(members) {
                Some(x) => Some(MessageModel::TeamMessageEvent(x)),
                None => None,
            },
            Shape::StartGame => match StartGame::read(members) {
                Some(x) => Some(MessageModel::StartGame(x)),
                None => None,
            },
            Shape::StopGame => Some(MessageModel::StopGame),
            Shape::PauseGame => Some(MessageModel::PauseGame),
            Shape::ResumeGame => Some(MessageModel::ResumeGame),
            Shape::NextTurn => Some(MessageModel::NextTurn),
        }
    }

    /// The message a document is read as. A document that is no object, or
    /// whose tag is missing or no text, is no message; so is one whose tag
    /// names a known shape while its members do not fit that shape. Any other
    /// tag gives an unrecognized message that keeps the whole document.
    pub open spec fn from_tree(t: JsonValue) -> Option<MessageModel> {
        match req::<String>(members_of(t), Key::Type) {
            Some(d) => match Shape::named(d) {
                Some(shape) => MessageType::payload(shape, members_of(t)),
                None => Some(MessageModel::Unrecognized { discriminator: d, raw_payload: t }),
            },
            None => None,
        }
    }

    /// The document a message is written as: the tag of its shape and its
    /// fields; an unrecognized message is written as the document it was read
    /// from.
    pub open spec fn to_tree(m: MessageModel) -> JsonValue {
        match m {
            MessageModel::BotHandshake(x) => JsonValue::Record(
                BotHandshake::written(tagged(Shape::BotHandshake), x),
            ),
            MessageModel::ControllerHandshake(x) => JsonValue::Record(
                ControllerHandshake::written(tagged(Shape::ControllerHandshake), x),
            ),
            MessageModel::ObserverHandshake(x) => JsonValue::Record(
                ObserverHandshake::written(tagged(Shape::ObserverHandshake), x),
            ),
            MessageModel::ServerHandshake(x) => JsonValue::Record(
                ServerHandshake::written(tagged(Shape::ServerHandshake), x),
            ),
            MessageModel::BotReady => JsonValue::Record(tagged(Shape::BotReady)),
            MessageModel::BotIntent(x) => JsonValue::Record(
                BotIntent::written(tagged(Shape::BotIntent), x),
            ),
            MessageModel::BotInfo(x) => JsonValue::Record(
                BotHandshakeInfo::written(tagged(Shape::BotInfo), x),
            ),
            MessageModel::BotListUpdate(x) => JsonValue::Record(
                BotListUpdate::written(tagged(Shape::BotListUpdate), x),
            ),
            MessageModel::GameStartedEventForBot(x) => JsonValue::Record(
                GameStartedEventForBot::written(tagged(Shape::GameStartedEventForBot), x),
            ),
            MessageModel::GameStartedEventForObserver(x) => JsonValue::Record(
                GameStartedEventForObserver::written(tagged(Shape::GameStartedEventForObserver), x),
            ),
            MessageModel::GameEndedEventForBot(x) => JsonValue::Record(
                GameEndedEventForBot::written(tagged(Shape::GameEndedEventForBot), x),
            ),
            MessageModel::GameEndedEventForObserver(x) => JsonValue::Record(
                GameEndedEventForObserver::written(tagged(Shape::GameEndedEventForObserver), x),
            ),
            MessageModel::GameAbortedEvent(x) => JsonValue::Record(
                GameAbortedEvent::written(tagged(Shape::GameAbortedEvent), x),
            ),
            MessageModel::GamePausedEventForObserver => {
                JsonValue::Record(tagged(Shape::GamePausedEventForObserver))
            },
            MessageModel::GameResumedEventForObserver => {
                JsonValue::Record(tagged(Shape::GameResumedEventForObserver))
            },
            MessageModel::RoundStartedEvent(x) => JsonValue::Record(
                RoundStartedEvent::written(tagged(Shape::RoundStartedEvent), x),
            ),
            MessageModel::RoundEndedEventForBot(x) => JsonValue::Record(
                RoundEndedEventForBot::written(tagged(Shape::RoundEndedEventForBot), x),
            ),
            MessageModel::RoundEndedEventForObserver(x) => JsonValue::Record(
                RoundEndedEventForObserver::written(tagged(Shape::RoundEndedEventForObserver), x),
            ),
            MessageModel::ChangeTps(x) => JsonValue::Record(
                ChangeTps::written(tagged(Shape::ChangeTps), x),
            ),
            MessageModel::TpsChangedEvent(x) => JsonValue::Record(
                TpsChangedEvent::written(tagged(Shape::TpsChangedEvent), x),
            ),
            MessageModel::BotDeathEvent(x) => JsonValue::Record(
                BotDeathEvent::written(tagged(Shape::BotDeathEvent), x),
            ),
            MessageModel::BotHitBotEvent(x) => JsonValue::Record(
                BotHitBotEvent::written(tagged(Shape::BotHitBotEvent), x),
            ),
            MessageModel::BotHitWallEvent(x) => JsonValue::Record(
                BotHitWallEvent::written(tagged(Shape::BotHitWallEvent), x),
            ),
            MessageModel::BulletFiredEvent(x) => JsonValue::Record(
                BulletFiredEvent::written(tagged(Shape::BulletFiredEvent), x),
            ),
            MessageModel::BulletHitBotEvent(x) => JsonValue::Record(
                BulletHitBotEvent::written(tagged(Shape::BulletHitBotEvent), x),
            ),
            MessageModel::BulletHitBulletEvent(x) => JsonValue::Record(
                BulletHitBulletEvent::written(tagged(Shape::BulletHitBulletEvent), x),
            ),
            MessageModel::BulletHitWallEvent(x) => JsonValue::Record(
                BulletHitWallEvent::written(tagged(Shape::BulletHitWallEvent), x),
            ),
            MessageModel::HitByBulletEvent(x) => JsonValue::Record(
                HitByBulletEvent::written(tagged(Shape::HitByBulletEvent), x),
            ),
            MessageModel::ScannedBotEvent(x) => JsonValue::Record(
                ScannedBotEvent::written(tagged(Shape::ScannedBotEvent), x),
            ),
            MessageModel::SkippedTurnEvent(x) => JsonValue::Record(
                SkippedTurnEvent::written(tagged(Shape::SkippedTurnEvent), x),
            ),
            MessageModel::TickEventForBot(x) => JsonValue::Record(
                TickEventForBot::written(tagged(Shape::TickEventForBot), x),
            ),
            MessageModel::TickEventForObserver(x) => JsonValue::Record(
                TickEventForObserver::written(tagged(Shape::TickEventForObserver), x),
            ),
            MessageModel::WonRoundEvent(x) => JsonValue::Record(
                WonRoundEvent::written(tagged(Shape::WonRoundEvent), x),
            ),
            MessageModel::TeamMessageEvent(x) => JsonValue::Record(
                TeamMessageEvent::written(tagged(Shape::TeamMessageEvent), x),
            ),
            MessageModel::StartGame(x) => JsonValue::Record(
                StartGame::written(tagged(Shape::StartGame), x),
            ),
            MessageModel::StopGame => JsonValue::Record(tagged(Shape::StopGame)),
            MessageModel::PauseGame => JsonValue::Record(tagged(Shape::PauseGame)),
            MessageModel::ResumeGame => JsonValue::Record(tagged(Shape::ResumeGame)),
            MessageModel::NextTurn => JsonValue::Record(tagged(Shape::NextTurn)),
            MessageModel::Unrecognized { raw_payload, .. } => raw_payload,
        }
    }

    /// The shape of a message; an unrecognized one has none.
    pub fn shape(&self) -> (r: Option<Shape>)
        ensures
            r == self.model().shape(),
    {
        match self {
            MessageType::BotHandshake(_) => Some(Shape::BotHandshake),
            MessageType::ControllerHandshake(_) => Some(Shape::ControllerHandshake),
            MessageType::ObserverHandshake(_) => Some(Shape::ObserverHandshake),
            MessageType::ServerHandshake(_) => Some(Shape::ServerHandshake),
            MessageType::BotReady => Some(Shape::BotReady),
            MessageType::BotIntent(_) => Some(Shape::BotIntent),
            MessageType::BotInfo(_) => Some(Shape::BotInfo),
            MessageType::BotListUpdate(_) => Some(Shape::BotListUpdate),
            MessageType::GameStartedEventForBot(_) => Some(Shape::GameStartedEventForBot),
            MessageType::GameStartedEventForObserver(_) => Some(Shape::GameStartedEventForObserver),
            MessageType::GameEndedEventForBot(_) => Some(Shape::GameEndedEventForBot),
            MessageType::GameEndedEventForObserver(_) => Some(Shape::GameEndedEventForObserver),
            MessageType::GameAbortedEvent(_) => Some(Shape::GameAbortedEvent),
            MessageType::GamePausedEventForObserver => Some(Shape::GamePausedEventForObserver),
            MessageType::GameResumedEventForObserver => Some(Shape::GameResumedEventForObserver),
            MessageType::RoundStartedEvent(_) => Some(Shape::RoundStartedEvent),
            MessageType::RoundEndedEventForBot(_) => Some(Shape::RoundEndedEventForBot),
            MessageType::RoundEndedEventForObserver(_) => Some(Shape::RoundEndedEventForObserver),
            MessageType::ChangeTps(_) => Some(Shape::ChangeTps),
            MessageType::TpsChangedEvent(_) => Some(Shape::TpsChangedEvent),
            MessageType::BotDeathEvent(_) => Some(Shape::BotDeathEvent),
            MessageType::BotHitBotEvent(_) => Some(Shape::BotHitBotEvent),
            MessageType::BotHitWallEvent(_) => Some(Shape::BotHitWallEvent),
            MessageType::BulletFiredEvent(_) => Some(Shape::BulletFiredEvent),
            MessageType::BulletHitBotEvent(_) => Some(Shape::BulletHitBotEvent),
            MessageType::BulletHitBulletEvent(_) => Some(Shape::BulletHitBulletEvent),
            MessageType::BulletHitWallEvent(_) => Some(Shape::BulletHitWallEvent),
            MessageType::HitByBulletEvent(_) => Some(Shape::HitByBulletEvent),
            MessageType::ScannedBotEvent(_) => Some(Shape::ScannedBotEvent),
            MessageType::SkippedTurnEvent(_) => Some(Shape::SkippedTurnEvent),
            MessageType::TickEventForBot(_) => Some(Shape::TickEventForBot),
            MessageType::TickEventForObserver(_) => Some(Shape::TickEventForObserver),
            MessageType::WonRoundEvent(_) => Some(Shape::WonRoundEvent),
            MessageType::TeamMessageEvent(_) => Some(Shape::TeamMessageEvent),
            MessageType::StartGame(_) => Some(Shape::StartGame),
            MessageType::StopGame => Some(Shape::StopGame),
            MessageType::PauseGame => Some(Shape::PauseGame),
            MessageType::ResumeGame => Some(Shape::ResumeGame),
            MessageType::NextTurn => Some(Shape::NextTurn),
            MessageType::Unrecognized { .. } => None,
        }
    }

    /// Reads the message of a known shape from an object.
    pub fn decode_payload(shape: Shape, j: &Json) -> (r: Option<MessageType>)
        ensures
            r matches Some(m) ==> MessageType::payload(shape, members_of(j@)) == Some(m.model()),
            r is None ==> MessageType::payload(shape, members_of(j@)) is None,
    {
        match shape {
            Shape::BotHandshake => match BotHandshake::read_fields(j) {
                Some(x) => Some(MessageType::BotHandshake(x)),
                None => None,
            },
            Shape::ControllerHandshake => match ControllerHandshake::read_fields(j) {
                Some(x) => Some(MessageType::ControllerHandshake(x)),
                None => None,
            },
            Shape::ObserverHandshake => match ObserverHandshake::read_fields(j) {
                Some(x) => Some(MessageType::ObserverHandshake(x)),
                None => None,
            },
            Shape::ServerHandshake => match ServerHandshake::read_fields(j) {
                Some(x) => Some(MessageType::ServerHandshake(x)),
                None => None,
            },
            Shape::BotReady => Some(MessageType::BotReady),
            Shape::BotIntent => match BotIntent::read_fields(j) {
                Some(x) => Some(MessageType::BotIntent(x)),
                None => None,
            },
            Shape::BotInfo => match BotHandshakeInfo::read_fields(j) {
                Some(x) => Some(MessageType::BotInfo(x)),
                None => None,
            },
            Shape::BotListUpdate => match BotListUpdate::read_fields(j) {
                Some(x) => Some(MessageType::BotListUpdate(x)),
                None => None,
            },
            Shape::GameStartedEventForBot => match GameStartedEventForBot::read_fields(j) {
                Some(x) => Some(MessageType::GameStartedEventForBot(x)),
                None => None,
            },
            Shape::GameStartedEventForObserver => {
                match GameStartedEventForObserver::read_fields(j) {
                    Some(x) => Some(MessageType::GameStartedEventForObserver(x)),
                    None => None,
                }
            },
            Shape::GameEndedEventForBot => match GameEndedEventForBot::read_fields(j) {
                Some(x) => Some(MessageType::GameEndedEventForBot(x)),
                None => None,
            },
            Shape::GameEndedEventForObserver => match GameEndedEventForObserver::read_fields(j) {
                Some(x) => Some(MessageType::GameEndedEventForObserver(x)),
                None => None,
            },
            Shape::GameAbortedEvent => match GameAbortedEvent::read_fields(j) {
                Some(x) => Some(MessageType::GameAbortedEvent(x)),
                None => None,
            },
            Shape::GamePausedEventForObserver => Some(MessageType::GamePausedEventForObserver),
            Shape::GameResumedEventForObserver => Some(MessageType::GameResumedEventForObserver),
            Shape::RoundStartedEvent => match RoundStartedEvent::read_fields(j) {
                Some(x) => Some(MessageType::RoundStartedEvent(x)),
                None => None,
            },
            Shape::RoundEndedEventForBot => match RoundEndedEventForBot::read_fields(j) {
                Some(x) => Some(MessageType::RoundEndedEventForBot(x)),
                None => None,
            },
            Shape::RoundEndedEventForObserver => match RoundEndedEventForObserver::read_fields(j) {
                Some(x) => Some(MessageType::RoundEndedEventForObserver(x)),
                None => None,
            },
            Shape::ChangeTps => match ChangeTps::read_fields(j) {
                Some(x) => Some(MessageType::ChangeTps(x)),
                None => None,
            },
            Shape::TpsChangedEvent => match TpsChangedEvent::read_fields(j) {
                Some(x) => Some(MessageType::TpsChangedEvent(x)),
                None => None,
            },
            Shape::BotDeathEvent => match BotDeathEvent::read_fields(j) {
                Some(x) => Some(MessageType::BotDeathEvent(x)),
                None => None,
            },
            Shape::BotHitBotEvent => match BotHitBotEvent::read_fields(j) {
                Some(x) => Some(MessageType::BotHitBotEvent(x)),
                None => None,
            },
            Shape::BotHitWallEvent => match BotHitWallEvent::read_fields(j) {
                Some(x) => Some(MessageType::BotHitWallEvent(x)),
                None => None,
            },
            Shape::BulletFiredEvent => match BulletFiredEvent::read_fields(j) {
                Some(x) => Some(MessageType::BulletFiredEvent(x)),
                None => None,
            },
            Shape::BulletHitBotEvent => match BulletHitBotEvent::read_fields(j) {
                Some(x) => Some(MessageType::BulletHitBotEvent(x)),
                None => None,
            },
            Shape::BulletHitBulletEvent => match BulletHitBulletEvent::read_fields(j) {
                Some(x) => Some(MessageType::BulletHitBulletEvent(x)),
                None => None,
            },
            Shape::BulletHitWallEvent => match BulletHitWallEvent::read_fields(j) {
                Some(x) => Some(MessageType::BulletHitWallEvent(x)),
                None => None,
            },
            Shape::HitByBulletEvent => match HitByBulletEvent::read_fields(j) {
                Some(x) => Some(MessageType::HitByBulletEvent(x)),
                None => None,
            },
            Shape::ScannedBotEvent => match ScannedBotEvent::read_fields(j) {
                Some(x) => Some(MessageType::ScannedBotEvent(x)),
                None => None,
            },
            Shape::SkippedTurnEvent => match SkippedTurnEvent::read_fields(j) {
                Some(x) => Some(MessageType::SkippedTurnEvent(x)),
                None => None,
            },
            Shape::TickEventForBot => match TickEventForBot::read_fields(j) {
                Some(x) => Some(MessageType::TickEventForBot(x)),
                None => None,
            },
            Shape::TickEventForObserver => match TickEventForObserver::read_fields(j) {
                Some(x) => Some(MessageType::TickEventForObserver(x)),
                None => None,
            },
            Shape::WonRoundEvent => match WonRoundEvent::read_fields(j) {
                Some(x) => Some(MessageType::WonRoundEvent(x)),
                None => None,
            },
            Shape::TeamMessageEvent => match TeamMessageEvent::read_fields(j) {
                Some(x) => Some(MessageType::TeamMessageEvent(x)),
                None => None,
            },
            Shape::StartGame => match StartGame::read_fields(j) {
                Some(x) => Some(MessageType::StartGame(x)),
                None => None,
            },
            Shape::StopGame => Some(MessageType::StopGame),
            Shape::PauseGame => Some(MessageType::PauseGame),
            Shape::ResumeGame => Some(MessageType::ResumeGame),
            Shape::NextTurn => Some(MessageType::NextTurn),
        }
    }

    /// Reads a message from a document.
    pub fn decode(j: Json) -> (r: Option<MessageType>)
        ensures
            r matches Some(m) ==> MessageType::from_tree(j@) == Some(m.model()),
            r is None ==> MessageType::from_tree(j@) is None,
    {
        let discriminator = match required::<String>(&j, Key::Type) {
            Some(d) => d,
            None => {
                return None;
            },
        };
        match Shape::from_text(discriminator.as_str()) {
            Some(shape) => MessageType::decode_payload(shape, &j),
            None => Some(MessageType::Unrecognized { discriminator, raw_payload: j }),
        }
    }

    /// Writes a message as a document.
    pub fn encode(self) -> (j: Json)
        ensures
            j@ == MessageType::to_tree(self.model()),
    {
        match self {
            MessageType::BotHandshake(x) => encode_tagged(Shape::BotHandshake, &x),
            MessageType::ControllerHandshake(x) => encode_tagged(Shape::ControllerHandshake, &x),
            MessageType::ObserverHandshake(x) => encode_tagged(Shape::ObserverHandshake, &x),
            MessageType::ServerHandshake(x) => encode_tagged(Shape::ServerHandshake, &x),
            MessageType::BotReady => record_of(tag_members(Shape::BotReady)),
            MessageType::BotIntent(x) => encode_tagged(Shape::BotIntent, &x),
            MessageType::BotInfo(x) => encode_tagged(Shape::BotInfo, &x),
            MessageType::BotListUpdate(x) => encode_tagged(Shape::BotListUpdate, &x),
            MessageType::GameStartedEventForBot(x) => {
                encode_tagged(Shape::GameStartedEventForBot, &x)
            },
            MessageType::GameStartedEventForObserver(x) => {
                encode_tagged(Shape::GameStartedEventForObserver, &x)
            },
            MessageType::GameEndedEventForBot(x) => encode_tagged(Shape::GameEndedEventForBot, &x),
            MessageType::GameEndedEventForObserver(x) => {
                encode_tagged(Shape::GameEndedEventForObserver, &x)
            },
            MessageType::GameAbortedEvent(x) => encode_tagged(Shape::GameAbortedEvent, &x),
            MessageType::GamePausedEventForObserver => {
                record_of(tag_members(Shape::GamePausedEventForObserver))
            },
            MessageType::GameResumedEventForObserver => {
                record_of(tag_members(Shape::GameResumedEventForObserver))
            },
            MessageType::RoundStartedEvent(x) => encode_tagged(Shape::RoundStartedEvent, &x),
            MessageType::RoundEndedEventForBot(x) => {
                encode_tagged(Shape::RoundEndedEventForBot, &x)
            },
            MessageType::RoundEndedEventForObserver(x) => {
                encode_tagged(Shape::RoundEndedEventForObserver, &x)
            },
            MessageType::ChangeTps(x) => encode_tagged(Shape::ChangeTps, &x),
            MessageType::TpsChangedEvent(x) => encode_tagged(Shape::TpsChangedEvent, &x),
            MessageType::BotDeathEvent(x) => encode_tagged(Shape::BotDeathEvent, &x),
            MessageType::BotHitBotEvent(x) => encode_tagged(Shape::BotHitBotEvent, &x),
            MessageType::BotHitWallEvent(x) => encode_tagged(Shape::BotHitWallEvent, &x),
            MessageType::BulletFiredEvent(x) => encode_tagged(Shape::BulletFiredEvent, &x),
            MessageType::BulletHitBotEvent(x) => encode_tagged(Shape::BulletHitBotEvent, &x),
            MessageType::BulletHitBulletEvent(x) => encode_tagged(Shape::BulletHitBulletEvent, &x),
            MessageType::BulletHitWallEvent(x) => encode_tagged(Shape::BulletHitWallEvent, &x),
            MessageType::HitByBulletEvent(x) => encode_tagged(Shape::HitByBulletEvent, &x),
            MessageType::ScannedBotEvent(x) => encode_tagged(Shape::ScannedBotEvent, &x),
            MessageType::SkippedTurnEvent(x) => encode_tagged(Shape::SkippedTurnEvent, &x),
            MessageType::TickEventForBot(x) => encode_tagged(Shape::TickEventForBot, &x),
            MessageType::TickEventForObserver(x) => encode_tagged(Shape::TickEventForObserver, &x),
            MessageType::WonRoundEvent(x) => encode_tagged(Shape::WonRoundEvent, &x),
            MessageType::TeamMessageEvent(x) => encode_tagged(Shape::TeamMessageEvent, &x),
            MessageType::StartGame(x) => encode_tagged(Shape::StartGame, &x),
            MessageType::StopGame => record_of(tag_members(Shape::StopGame)),
            MessageType::PauseGame => record_of(tag_members(Shape::PauseGame)),
            MessageType::ResumeGame => record_of(tag_members(Shape::ResumeGame)),
            MessageType::NextTurn => record_of(tag_members(Shape::NextTurn)),
            MessageType::Unrecognized { raw_payload, .. } => raw_payload,
        }
    }

    /// The text that shows a message: the name of its variant, around the
    /// record where the variant holds one. An unrecognized message shows its
    /// discriminator and the document it holds.
    pub open spec fn shown(&self) -> Seq<char> {
        match self {
            MessageType::BotHandshake(x) => {
                "BotHandshake("@ + BotHandshake::shown(x.fields()) + ")"@
            },
            MessageType::ControllerHandshake(x) => {
                "ControllerHandshake("@ + ControllerHandshake::shown(x.fields()) + ")"@
            },
            MessageType::ObserverHandshake(x) => {
                "ObserverHandshake("@ + ObserverHandshake::shown(x.fields()) + ")"@
            },
            MessageType::ServerHandshake(x) => {
                "ServerHandshake("@ + ServerHandshake::shown(x.fields()) + ")"@
            },
            MessageType::BotReady => "BotReady"@,
            MessageType::BotIntent(x) => "BotIntent("@ + BotIntent::shown(x.fields()) + ")"@,
            MessageType::BotInfo(x) => "BotInfo("@ + BotHandshakeInfo::shown(x.fields()) + ")"@,
            MessageType::BotListUpdate(x) => {
                "BotListUpdate("@ + BotListUpdate::shown(x.fields()) + ")"@
            },
            MessageType::GameStartedEventForBot(x) => {
                "GameStartedEventForBot("@ + GameStartedEventForBot::shown(x.fields()) + ")"@
            },
            MessageType::GameStartedEventForObserver(x) => {
                "GameStartedEventForObserver("@
                    + GameStartedEventForObserver::shown(x.fields())
                    + ")"@
            },
            MessageType::GameEndedEventForBot(x) => {
                "GameEndedEventForBot("@ + GameEndedEventForBot::shown(x.fields()) + ")"@
            },
            MessageType::GameEndedEventForObserver(x) => {
                "GameEndedEventForObserver("@ + GameEndedEventForObserver::shown(x.fields()) + ")"@
            },
            MessageType::GameAbortedEvent(x) => {
                "GameAbortedEvent("@ + GameAbortedEvent::shown(x.fields()) + ")"@
            },
            MessageType::GamePausedEventForObserver => "GamePausedEventForObserver"@,
            MessageType::GameResumedEventForObserver => "GameResumedEventForObserver"@,
            MessageType::RoundStartedEvent(x) => {
                "RoundStartedEvent("@ + RoundStartedEvent::shown(x.fields()) + ")"@
            },
            MessageType::RoundEndedEventForBot(x) => {
                "RoundEndedEventForBot("@ + RoundEndedEventForBot::shown(x.fields()) + ")"@
            },
            MessageType::RoundEndedEventForObserver(x) => {
                "RoundEndedEventForObserver("@
                    + RoundEndedEventForObserver::shown(x.fields())
                    + ")"@
            },
            MessageType::ChangeTps(x) => "ChangeTps("@ + ChangeTps::shown(x.fields()) + ")"@,
            MessageType::TpsChangedEvent(x) => {
                "TpsChangedEvent("@ + TpsChangedEvent::shown(x.fields()) + ")"@
            },
            MessageType::BotDeathEvent(x) => {
                "BotDeathEvent("@ + BotDeathEvent::shown(x.fields()) + ")"@
            },
            MessageType::BotHitBotEvent(x) => {
                "BotHitBotEvent("@ + BotHitBotEvent::shown(x.fields()) + ")"@
            },
            MessageType::BotHitWallEvent(x) => {
                "BotHitWallEvent("@ + BotHitWallEvent::shown(x.fields()) + ")"@
            },
            MessageType::BulletFiredEvent(x) => {
                "BulletFiredEvent("@ + BulletFiredEvent::shown(x.fields()) + ")"@
            },
            MessageType::BulletHitBotEvent(x) => {
                "BulletHitBotEvent("@ + BulletHitBotEvent::shown(x.fields()) + ")"@
            },
            MessageType::BulletHitBulletEvent(x) => {
                "BulletHitBulletEvent("@ + BulletHitBulletEvent::shown(x.fields()) + ")"@
            },
            MessageType::BulletHitWallEvent(x) => {
                "BulletHitWallEvent("@ + BulletHitWallEvent::shown(x.fields()) + ")"@
            },
            MessageType::HitByBulletEvent(x) => {
                "HitByBulletEvent("@ + HitByBulletEvent::shown(x.fields()) + ")"@
            },
            MessageType::ScannedBotEvent(x) => {
                "ScannedBotEvent("@ + ScannedBotEvent::shown(x.fields()) + ")"@
            },
            MessageType::SkippedTurnEvent(x) => {
                "SkippedTurnEvent("@ + SkippedTurnEvent::shown(x.fields()) + ")"@
            },
            MessageType::TickEventForBot(x) => {
                "TickEventForBot("@ + TickEventForBot::shown(x.fields()) + ")"@
            },
            MessageType::TickEventForObserver(x) => {
                "TickEventForObserver("@ + TickEventForObserver::shown(x.fields()) + ")"@
            },
            MessageType::WonRoundEvent(x) => {
                "WonRoundEvent("@ + WonRoundEvent::shown(x.fields()) + ")"@
            },
            MessageType::TeamMessageEvent(x) => {
                "TeamMessageEvent("@ + TeamMessageEvent::shown(x.fields()) + ")"@
            },
            MessageType::StartGame(x) => "StartGame("@ + StartGame::shown(x.fields()) + ")"@,
            MessageType::StopGame => "StopGame"@,
            MessageType::PauseGame => "PauseGame"@,
            MessageType::ResumeGame => "ResumeGame"@,
            MessageType::NextTurn => "NextTurn"@,
            MessageType::Unrecognized { discriminator, raw_payload } => {
                "Unrecognized { discriminator: "@ + quoted(discriminator@) + ", raw_payload: "@
                    + raw_payload.shown() + " }"@
            },
        }
    }

    /// Writes the text that shows a message.
    pub fn show(&self) -> (s: String)
        ensures
            s@ == self.shown(),
    {
        match self {
            MessageType::BotHandshake(x) => show_variant("BotHandshake(", x),
            MessageType::ControllerHandshake(x) => show_variant("ControllerHandshake(", x),
            MessageType::ObserverHandshake(x) => show_variant("ObserverHandshake(", x),
            MessageType::ServerHandshake(x) => show_variant("ServerHandshake(", x),
            MessageType::BotReady => "BotReady".to_owned(),
            MessageType::BotIntent(x) => show_variant("BotIntent(", x),
            MessageType::BotInfo(x) => show_variant("BotInfo(", x),
            MessageType::BotListUpdate(x) => show_variant("BotListUpdate(", x),
            MessageType::GameStartedEventForBot(x) => show_variant("GameStartedEventForBot(", x),
            MessageType::GameStartedEventForObserver(x) => {
                show_variant("GameStartedEventForObserver(", x)
            },
            MessageType::GameEndedEventForBot(x) => show_variant("GameEndedEventForBot(", x),
            MessageType::GameEndedEventForObserver(x) => {
                show_variant("GameEndedEventForObserver(", x)
            },
            MessageType::GameAbortedEvent(x) => show_variant("GameAbortedEvent(", x),
            MessageType::GamePausedEventForObserver => "GamePausedEventForObserver".to_owned(),
            MessageType::GameResumedEventForObserver => "GameResumedEventForObserver".to_owned(),
            MessageType::RoundStartedEvent(x) => show_variant("RoundStartedEvent(", x),
            MessageType::RoundEndedEventForBot(x) => show_variant("RoundEndedEventForBot(", x),
            MessageType::RoundEndedEventForObserver(x) => {
                show_variant("RoundEndedEventForObserver(", x)
            },
            MessageType::ChangeTps(x) => show_variant("ChangeTps(", x),
            MessageType::TpsChangedEvent(x) => show_variant("TpsChangedEvent(", x),
            MessageType::BotDeathEvent(x) => show_variant("BotDeathEvent(", x),
            MessageType::BotHitBotEvent(x) => show_variant("BotHitBotEvent(", x),
            MessageType::BotHitWallEvent(x) => show_variant("BotHitWallEvent(", x),
            MessageType::BulletFiredEvent(x) => show_variant("BulletFiredEvent(", x),
            MessageType::BulletHitBotEvent(x) => show_variant("BulletHitBotEvent(", x),
            MessageType::BulletHitBulletEvent(x) => show_variant("BulletHitBulletEvent(", x),
            MessageType::BulletHitWallEvent(x) => show_variant("BulletHitWallEvent(", x),
            MessageType::HitByBulletEvent(x) => show_variant("HitByBulletEvent(", x),
            MessageType::ScannedBotEvent(x) => show_variant("ScannedBotEvent(", x),
            MessageType::SkippedTurnEvent(x) => show_variant("SkippedTurnEvent(", x),
            MessageType::TickEventForBot(x) => show_variant("TickEventForBot(", x),
            MessageType::TickEventForObserver(x) => show_variant("TickEventForObserver(", x),
            MessageType::WonRoundEvent(x) => show_variant("WonRoundEvent(", x),
            MessageType::TeamMessageEvent(x) => show_variant("TeamMessageEvent(", x),
            MessageType::StartGame(x) => show_variant("StartGame(", x),
            MessageType::StopGame => "StopGame".to_owned(),
            MessageType::PauseGame => "PauseGame".to_owned(),
            MessageType::ResumeGame => "ResumeGame".to_owned(),
            MessageType::NextTurn => "NextTurn".to_owned(),
            MessageType::Unrecognized { discriminator, raw_payload } => {
                let mut s = "Unrecognized { discriminator: ".to_owned();
                s.append(quote(discriminator.as_str()).as_str());
                s.append(", raw_payload: ");
                s.append(raw_payload.show().as_str());
                s.append(" }");
                s
            },
        }
    }

    /// Reading back what was written gives the message again, for every
    /// message of a known shape and all values of its fields, absent ones
    /// too, and for every unrecognized message as reading gives it.
    pub proof fn lemma_round_trip(m: MessageModel)
        requires
            m.well_formed(),
        ensures
            MessageType::from_tree(MessageType::to_tree(m)) == Some(m),
    {
        match m {
            MessageModel::BotHandshake(x) => {
                lemma_tagged::<BotHandshake>(Shape::BotHandshake, x);
            },
            MessageModel::ControllerHandshake(x) => {
                lemma_tagged::<ControllerHandshake>(Shape::ControllerHandshake, x);
            },
            MessageModel::ObserverHandshake(x) => {
                lemma_tagged::<ObserverHandshake>(Shape::ObserverHandshake, x);
            },
            MessageModel::ServerHandshake(x) => {
                lemma_tagged::<ServerHandshake>(Shape::ServerHandshake, x);
            },
            MessageModel::BotReady => {
                lemma_tag_alone(Shape::BotReady);
            },
            MessageModel::BotIntent(x) => {
                lemma_tagged::<BotIntent>(Shape::BotIntent, x);
            },
            MessageModel::BotInfo(x) => {
                lemma_tagged::<BotHandshakeInfo>(Shape::BotInfo, x);
            },
            MessageModel::BotListUpdate(x) => {
                lemma_tagged::<BotListUpdate>(Shape::BotListUpdate, x);
            },
            MessageModel::GameStartedEventForBot(x) => {
                lemma_tagged::<GameStartedEventForBot>(Shape::GameStartedEventForBot, x);
            },
            MessageModel::GameStartedEventForObserver(x) => {
                lemma_tagged::<GameStartedEventForObserver>(Shape::GameStartedEventForObserver, x);
            },
            MessageModel::GameEndedEventForBot(x) => {
                lemma_tagged::<GameEndedEventForBot>(Shape::GameEndedEventForBot, x);
            },
            MessageModel::GameEndedEventForObserver(x) => {
                lemma_tagged::<GameEndedEventForObserver>(Shape::GameEndedEventForObserver, x);
            },
            MessageModel::GameAbortedEvent(x) => {
                lemma_tagged::<GameAbortedEvent>(Shape::GameAbortedEvent, x);
            },
            MessageModel::GamePausedEventForObserver => {
                lemma_tag_alone(Shape::GamePausedEventForObserver);
            },
            MessageModel::GameResumedEventForObserver => {
                lemma_tag_alone(Shape::GameResumedEventForObserver);
            },
            MessageModel::RoundStartedEvent(x) => {
                lemma_tagged::<RoundStartedEvent>(Shape::RoundStartedEvent, x);
            },
            MessageModel::RoundEndedEventForBot(x) => {
                lemma_tagged::<RoundEndedEventForBot>(Shape::RoundEndedEventForBot, x);
            },
            MessageModel::RoundEndedEventForObserver(x) => {
                lemma_tagged::<RoundEndedEventForObserver>(Shape::RoundEndedEventForObserver, x);
            },
            MessageModel::ChangeTps(x) => {
                lemma_tagged::<ChangeTps>(Shape::ChangeTps, x);
            },
            MessageModel::TpsChangedEvent(x) => {
                lemma_tagged::<TpsChangedEvent>(Shape::TpsChangedEvent, x);
            },
            MessageModel::BotDeathEvent(x) => {
                lemma_tagged::<BotDeathEvent>(Shape::BotDeathEvent, x);
            },
            MessageModel::BotHitBotEvent(x) => {
                lemma_tagged::<BotHitBotEvent>(Shape::BotHitBotEvent, x);
            },
            MessageModel::BotHitWallEvent(x) => {
                lemma_tagged::<BotHitWallEvent>(Shape::BotHitWallEvent, x);
            },
            MessageModel::BulletFiredEvent(x) => {
                lemma_tagged::<BulletFiredEvent>(Shape::BulletFiredEvent, x);
            },
            MessageModel::BulletHitBotEvent(x) => {
                lemma_tagged::<BulletHitBotEvent>(Shape::BulletHitBotEvent, x);
            },
            MessageModel::BulletHitBulletEvent(x) => {
                lemma_tagged::<BulletHitBulletEvent>(Shape::BulletHitBulletEvent, x);
            },
            MessageModel::BulletHitWallEvent(x) => {
                lemma_tagged::<BulletHitWallEvent>(Shape::BulletHitWallEvent, x);
            },
            MessageModel::HitByBulletEvent(x) => {
                lemma_tagged::<HitByBulletEvent>(Shape::HitByBulletEvent, x);
            },
            MessageModel::ScannedBotEvent(x) => {
                lemma_tagged::<ScannedBotEvent>(Shape::ScannedBotEvent, x);
            },
            MessageModel::SkippedTurnEvent(x) => {
                lemma_tagged::<SkippedTurnEvent>(Shape::SkippedTurnEvent, x);
            },
            MessageModel::TickEventForBot(x) => {
                lemma_tagged::<TickEventForBot>(Shape::TickEventForBot, x);
            },
            MessageModel::TickEventForObserver(x) => {
                lemma_tagged::<TickEventForObserver>(Shape::TickEventForObserver, x);
            },
            MessageModel::WonRoundEvent(x) => {
                lemma_tagged::<WonRoundEvent>(Shape::WonRoundEvent, x);
            },
            MessageModel::TeamMessageEvent(x) => {
                lemma_tagged::<TeamMessageEvent>(Shape::TeamMessageEvent, x);
            },
            MessageModel::StartGame(x) => {
                lemma_tagged::<StartGame>(Shape::StartGame, x);
            },
            MessageModel::StopGame => {
                lemma_tag_alone(Shape::StopGame);
            },
            MessageModel::PauseGame => {
                lemma_tag_alone(Shape::PauseGame);
            },
            MessageModel::ResumeGame => {
                lemma_tag_alone(Shape::ResumeGame);
            },
            MessageModel::NextTurn => {
                lemma_tag_alone(Shape::NextTurn);
            },
            MessageModel::Unrecognized { .. } => {},
        }
    }

    /// An envelope whose tag names no known shape is read as an unrecognized
    /// message that holds the envelope, whatever else the envelope holds.
    pub proof fn lemma_unknown_tag(t: JsonValue, d: Seq<char>)
        requires
            req::<String>(members_of(t), Key::Type) == Some(d),
            Shape::named(d) is None,
        ensures
            MessageType::from_tree(t) == Some(
                MessageModel::Unrecognized { discriminator: d, raw_payload: t },
            ),
    {
    }

    /// Reading never gives a message that is not well formed.
    pub proof fn lemma_read_well_formed(t: JsonValue)
        requires
            MessageType::from_tree(t) is Some,
        ensures
            MessageType::from_tree(t)->0.well_formed(),
    {
        reveal(read_req);
        reveal(lookup);
    }
}

/// What a bot may be sent: the eight shapes a server addresses to a bot.
#[derive(Debug)]
pub enum WebsocketMessage {
    TickEventForBot(TickEventForBot),
    RoundStartedEvent(RoundStartedEvent),
    RoundEndedEventForBot(RoundEndedEventForBot),
    GameStartedEventForBot(GameStartedEventForBot),
    GameEndedEventForBot(GameEndedEventForBot),
    SkippedTurnEvent(SkippedTurnEvent),
    ServerHandshake(ServerHandshake),
    GameAbortedEvent(GameAbortedEvent),
}

/// What a [`WebsocketMessage`] stands for.
pub ghost enum WebsocketModel {
    TickEventForBot(TickEventForBotModel),
    RoundStartedEvent(RoundStartedEventModel),
    RoundEndedEventForBot(RoundEndedEventForBotModel),
    GameStartedEventForBot(GameStartedEventForBotModel),
    GameEndedEventForBot(GameEndedEventForBotModel),
    SkippedTurnEvent(SkippedTurnEventModel),
    ServerHandshake(ServerHandshakeModel),
    GameAbortedEvent(GameAbortedEventModel),
}

impl WebsocketModel {
    /// The same message among all the messages the wire can carry.
    pub open spec fn message(self) -> MessageModel {
        match self {
            WebsocketModel::TickEventForBot(x) => MessageModel::TickEventForBot(x),
            WebsocketModel::RoundStartedEvent(x) => MessageModel::RoundStartedEvent(x),
            WebsocketModel::RoundEndedEventForBot(x) => MessageModel::RoundEndedEventForBot(x),
            WebsocketModel::GameStartedEventForBot(x) => MessageModel::GameStartedEventForBot(x),
            WebsocketModel::GameEndedEventForBot(x) => MessageModel::GameEndedEventForBot(x),
            WebsocketModel::SkippedTurnEvent(x) => MessageModel::SkippedTurnEvent(x),
            WebsocketModel::ServerHandshake(x) => MessageModel::ServerHandshake(x),
            WebsocketModel::GameAbortedEvent(x) => MessageModel::GameAbortedEvent(x),
        }
    }
}

/// A message a bot may be sent has the wire form of the same message among
/// all messages: it is written as that envelope, and read from any frame
/// that holds one of the eight shapes.
impl Wire for WebsocketMessage {
    type Model = WebsocketModel;

    open spec fn model(&self) -> WebsocketModel {
        match self {
            WebsocketMessage::TickEventForBot(x) => WebsocketModel::TickEventForBot(x.fields()),
            WebsocketMessage::RoundStartedEvent(x) => WebsocketModel::RoundStartedEvent(x.fields()),
            WebsocketMessage::RoundEndedEventForBot(x) => {
                WebsocketModel::RoundEndedEventForBot(x.fields())
            },
            WebsocketMessage::GameStartedEventForBot(x) => {
                WebsocketModel::GameStartedEventForBot(x.fields())
            },
            WebsocketMessage::GameEndedEventForBot(x) => {
                WebsocketModel::GameEndedEventForBot(x.fields())
            },
            WebsocketMessage::SkippedTurnEvent(x) => WebsocketModel::SkippedTurnEvent(x.fields()),
            WebsocketMessage::ServerHandshake(x) => WebsocketModel::ServerHandshake(x.fields()),
            WebsocketMessage::GameAbortedEvent(x) => WebsocketModel::GameAbortedEvent(x.fields()),
        }
    }

    open spec fn from_tree(t: JsonValue) -> Option<WebsocketModel> {
        match MessageType::from_tree(t) {
            Some(m) => WebsocketMessage::admits(m),
            None => None,
        }
    }

    open spec fn to_tree(m: WebsocketModel) -> JsonValue {
        MessageType::to_tree(m.message())
    }

    fn decode(j: &Json) -> (r: Option<WebsocketMessage>) {
        let d = required::<String>(j, Key::Type)?;
        let shape = Shape::from_text(d.as_str())?;
        let message = MessageType::decode_payload(shape, j)?;
        match WebsocketMessage::narrow(message) {
            Ok(w) => Some(w),
            Err(_) => None,
        }
    }

    fn encode(&self) -> (j: Json) {
        match self {
            WebsocketMessage::TickEventForBot(x) => encode_tagged(Shape::TickEventForBot, x),
            WebsocketMessage::RoundStartedEvent(x) => encode_tagged(Shape::RoundStartedEvent, x),
            WebsocketMessage::RoundEndedEventForBot(x) => {
                encode_tagged(Shape::RoundEndedEventForBot, x)
            },
            WebsocketMessage::GameStartedEventForBot(x) => {
                encode_tagged(Shape::GameStartedEventForBot, x)
            },
            WebsocketMessage::GameEndedEventForBot(x) => {
                encode_tagged(Shape::GameEndedEventForBot, x)
            },
            WebsocketMessage::SkippedTurnEvent(x) => encode_tagged(Shape::SkippedTurnEvent, x),
            WebsocketMessage::ServerHandshake(x) => encode_tagged(Shape::ServerHandshake, x),
            WebsocketMessage::GameAbortedEvent(x) => encode_tagged(Shape::GameAbortedEvent, x),
        }
    }

    proof fn round_trip(m: WebsocketModel) {
        MessageType::lemma_round_trip(m.message());
    }
}

impl WebsocketMessage {
    /// The message as a bot is sent it, if it is one of the eight.
    pub open spec fn admits(m: MessageModel) -> Option<WebsocketModel> {
        match m {
            MessageModel::TickEventForBot(x) => Some(WebsocketModel::TickEventForBot(x)),
            MessageModel::RoundStartedEvent(x) => Some(WebsocketModel::RoundStartedEvent(x)),
            MessageModel::RoundEndedEventForBot(x) => {
                Some(WebsocketModel::RoundEndedEventForBot(x))
            },
            MessageModel::GameStartedEventForBot(x) => {
                Some(WebsocketModel::GameStartedEventForBot(x))
            },
            MessageModel::GameEndedEventForBot(x) => Some(WebsocketModel::GameEndedEventForBot(x)),
            MessageModel::SkippedTurnEvent(x) => Some(WebsocketModel::SkippedTurnEvent(x)),
            MessageModel::ServerHandshake(x) => Some(WebsocketModel::ServerHandshake(x)),
            MessageModel::GameAbortedEvent(x) => Some(WebsocketModel::GameAbortedEvent(x)),
            _ => None,
        }
    }

    /// What the refusal of any other message says: that its kind is not
    /// supported, and the message itself as it is shown.
    pub open spec fn refusal(value: MessageType) -> Seq<char> {
        "Unsupported WebSocket message type: "@ + value.shown()
    }

    /// Every message a bot may be sent is admitted as itself.
    pub proof fn lemma_message_admitted(m: WebsocketModel)
        ensures
            WebsocketMessage::admits(m.message()) == Some(m),
    {
    }

    /// Narrows a message to one a bot may be sent, or hands it back.
    pub fn narrow(value: MessageType) -> (r: Result<WebsocketMessage, MessageType>)
        ensures
            r matches Ok(w) ==> WebsocketMessage::admits(value.model()) == Some(w.model()),
            r matches Err(other) ==> WebsocketMessage::admits(value.model()) is None && other
                == value,
    {
        match value {
            MessageType::TickEventForBot(x) => Ok(WebsocketMessage::TickEventForBot(x)),
            MessageType::RoundStartedEvent(x) => Ok(WebsocketMessage::RoundStartedEvent(x)),
            MessageType::RoundEndedEventForBot(x) => Ok(WebsocketMessage::RoundEndedEventForBot(x)),
            MessageType::GameStartedEventForBot(x) => {
                Ok(WebsocketMessage::GameStartedEventForBot(x))
            },
            MessageType::GameEndedEventForBot(x) => Ok(WebsocketMessage::GameEndedEventForBot(x)),
            MessageType::SkippedTurnEvent(x) => Ok(WebsocketMessage::SkippedTurnEvent(x)),
            MessageType::ServerHandshake(x) => Ok(WebsocketMessage::ServerHandshake(x)),
            MessageType::GameAbortedEvent(x) => Ok(WebsocketMessage::GameAbortedEvent(x)),
            other => Err(other),
        }
    }

    /// The same message among all the messages the wire can carry.
    pub fn into_message(self) -> (m: MessageType)
        ensures
            m.model() == self.model().message(),
    {
        match self {
            WebsocketMessage::TickEventForBot(x) => MessageType::TickEventForBot(x),
            WebsocketMessage::RoundStartedEvent(x) => MessageType::RoundStartedEvent(x),
            WebsocketMessage::RoundEndedEventForBot(x) => MessageType::RoundEndedEventForBot(x),
            WebsocketMessage::GameStartedEventForBot(x) => MessageType::GameStartedEventForBot(x),
            WebsocketMessage::GameEndedEventForBot(x) => MessageType::GameEndedEventForBot(x),
            WebsocketMessage::SkippedTurnEvent(x) => MessageType::SkippedTurnEvent(x),
            WebsocketMessage::ServerHandshake(x) => MessageType::ServerHandshake(x),
            WebsocketMessage::GameAbortedEvent(x) => MessageType::GameAbortedEvent(x),
        }
    }

    /// Narrows a message to one a bot may be sent, or says that its kind is
    /// not supported and shows the message that was refused.
    pub fn try_from(value: MessageType) -> (r: Result<WebsocketMessage, String>)
        ensures
            r matches Ok(w) ==> WebsocketMessage::admits(value.model()) == Some(w.model()),
            r matches Err(e) ==> WebsocketMessage::admits(value.model()) is None && e@
                == WebsocketMessage::refusal(value),
    {
        match WebsocketMessage::narrow(value) {
            Ok(w) => Ok(w),
            Err(other) => {
                let mut e = "Unsupported WebSocket message type: ".to_owned();
                e.append(other.show().as_str());
                Err(e)
            },
        }
    }
}

} // verus!
