use tank_royale_protocol::bot::{BotInfo, TeamInfo};
use tank_royale_protocol::connection::enums::{MessageType, Shape, WebsocketMessage};
use tank_royale_protocol::connection::message_types::{
    BotHandshake, ChangeTps, GameAbortedEvent, RoundStartedEvent, SkippedTurnEvent,
};
use tank_royale_protocol::json::{parse, Json};
use tank_royale_protocol::names::Key;
use tank_royale_protocol::wire::{duplicate, Wire};

fn info() -> BotInfo {
    BotInfo {
        name: "Crab".to_string(),
        version: "0.3".to_string(),
        authors: vec!["Ann".to_string()],
        description: "sideways".to_string(),
        homepage: "https://crab.example".to_string(),
        country_codes: Some(vec!["no".to_string(), "se".to_string()]),
        game_types: vec!["melee".to_string()],
        platform: "native".to_string(),
        programming_lang: "Rust".to_string(),
        initial_position: None,
    }
}

#[test]
fn handshake_takes_every_part_of_the_bot_record() {
    let h = BotHandshake::from_bot_info(&"abc".to_string(), info(), None, true, "tok".to_string());
    assert_eq!(h.authors, vec!["Ann".to_string()]);
    assert_eq!(h.country_codes, Some(vec!["no".to_string(), "se".to_string()]));
    assert_eq!(h.description, "sideways");
    assert_eq!(h.game_types, vec!["melee".to_string()]);
    assert_eq!(h.homepage, "https://crab.example");
    assert!(h.initial_position.is_none());
    assert!(h.is_droid);
    assert_eq!(h.name, "Crab");
    assert_eq!(h.platform, "native");
    assert_eq!(h.programming_lang, "Rust");
    assert_eq!(h.version, "0.3");
}

#[test]
fn handshake_passes_session_and_secret_through() {
    let h = BotHandshake::from_bot_info(&"s-1/x".to_string(), info(), None, false, "tok en".to_string());
    assert_eq!(h.session_id, "s-1/x");
    assert_eq!(h.secret, Some("tok en".to_string()));
    let empty = BotHandshake::from_bot_info(&String::new(), info(), None, false, String::new());
    assert_eq!(empty.session_id, "");
    assert_eq!(empty.secret, Some(String::new()));
}

#[test]
fn handshake_has_the_team_or_none_of_it() {
    let alone = BotHandshake::from_bot_info(&"abc".to_string(), info(), None, false, "t".to_string());
    assert_eq!(alone.team_id, None);
    assert_eq!(alone.team_name, None);
    assert_eq!(alone.team_version, None);
    let team = TeamInfo { id: 9, name: "Reds".to_string(), version: "1.1".to_string() };
    let joined = BotHandshake::from_bot_info(&"abc".to_string(), info(), Some(team), false, "t".to_string());
    assert_eq!(joined.team_id, Some(9));
    assert_eq!(joined.team_name, Some("Reds".to_string()));
    assert_eq!(joined.team_version, Some("1.1".to_string()));
}

#[test]
fn bot_messages_pass_the_narrowing() {
    let round = MessageType::RoundStartedEvent(RoundStartedEvent { round_number: 2 });
    assert!(matches!(
        WebsocketMessage::try_from(round),
        Ok(WebsocketMessage::RoundStartedEvent(RoundStartedEvent { round_number: 2 }))
    ));
    let skipped = MessageType::SkippedTurnEvent(SkippedTurnEvent { turn_number: 8 });
    assert!(matches!(
        WebsocketMessage::try_from(skipped),
        Ok(WebsocketMessage::SkippedTurnEvent(SkippedTurnEvent { turn_number: 8 }))
    ));
    assert!(matches!(
        WebsocketMessage::try_from(MessageType::GameAbortedEvent(GameAbortedEvent {})),
        Ok(WebsocketMessage::GameAbortedEvent(_))
    ));
}

#[test]
fn other_messages_are_refused_with_the_message_shown() {
    assert_eq!(
        WebsocketMessage::try_from(MessageType::ChangeTps(ChangeTps { tps: 30 })).err(),
        Some("Unsupported WebSocket message type: ChangeTps(ChangeTps { tps: 30 })".to_string())
    );
    assert_eq!(
        WebsocketMessage::try_from(MessageType::ChangeTps(ChangeTps { tps: -2147483648 })).err(),
        Some("Unsupported WebSocket message type: ChangeTps(ChangeTps { tps: -2147483648 })".to_string())
    );
    assert_eq!(
        WebsocketMessage::try_from(MessageType::BotReady).err(),
        Some("Unsupported WebSocket message type: BotReady".to_string())
    );
    let unknown = || MessageType::Unrecognized {
        discriminator: "Fireworks".to_string(),
        raw_payload: parse("{\"type\":\"Fireworks\",\"n\":[1,2.5]}").unwrap(),
    };
    assert_eq!(
        WebsocketMessage::try_from(unknown()).err(),
        Some(format!("Unsupported WebSocket message type: {:?}", unknown()))
    );
    assert_eq!(
        WebsocketMessage::try_from(unknown()).err(),
        Some("Unsupported WebSocket message type: Unrecognized { discriminator: \"Fireworks\", raw_payload: Record([(\"n\", List([Number(Number(1)), Number(Number(2.5))])), (\"type\", Text(\"Fireworks\"))]) }".to_string())
    );
}

#[test]
fn shapes_go_by_their_names() {
    assert_eq!(Shape::from_text("ServerHandshake"), Some(Shape::ServerHandshake));
    assert_eq!(Shape::from_text("TickEventForBot"), Some(Shape::TickEventForBot));
    assert_eq!(Shape::from_text("GameStartedEventForObserver"), Some(Shape::GameStartedEventForObserver));
    assert_eq!(Shape::from_text("GameResumedEventForObserver"), Some(Shape::GameResumedEventForObserver));
    assert_eq!(Shape::from_text("NextTurn"), Some(Shape::NextTurn));
    assert_eq!(Shape::from_text("nextTurn"), None);
    assert_eq!(Shape::from_text(""), None);
    assert_eq!(Shape::BotInfo.text(), "BotInfo");
    assert_eq!(Shape::from_text(Shape::BulletHitBulletEvent.text()), Some(Shape::BulletHitBulletEvent));
    assert_eq!(MessageType::BotReady.shape(), Some(Shape::BotReady));
    assert_eq!(MessageType::ChangeTps(ChangeTps { tps: 1 }).shape(), Some(Shape::ChangeTps));
}

#[test]
fn keys_are_spelt_in_camel_case() {
    assert_eq!(Key::SessionId.text(), "sessionId");
    assert_eq!(Key::IsMaxNumberOfParticipantsLocked.text(), "isMaxNumberOfParticipantsLocked");
    assert_eq!(Key::IsMinNumberOfParticipantsLocked.text(), "isMinNumberOfParticipantsLocked");
    assert_eq!(Key::X.text(), "x");
    assert_eq!(Key::Type.text(), "type");
    assert_eq!(Key::ProgrammingLang.text(), "programmingLang");
}

#[test]
fn copy_by_way_of_the_wire_is_equal() {
    let copy = duplicate(&info());
    assert_eq!(copy.name, "Crab");
    assert_eq!(copy.authors, vec!["Ann".to_string()]);
    assert_eq!(copy.country_codes, Some(vec!["no".to_string(), "se".to_string()]));
    assert!(copy.initial_position.is_none());
    assert_eq!(duplicate(&-5i32), -5);
    assert_eq!(duplicate(&vec![1i32, 2, 3]), vec![1, 2, 3]);
}

#[test]
fn scalars_have_their_own_wire_forms() {
    assert!(matches!(true.encode(), Json::Bool(true)));
    assert!(matches!(7i32.encode(), Json::Number(n) if n.as_i64() == Some(7)));
    assert!(matches!((-7i32).encode(), Json::Number(n) if n.as_i64() == Some(-7)));
    assert!(matches!(80u16.encode(), Json::Number(n) if n.as_u64() == Some(80)));
    assert!(matches!("a".to_string().encode(), Json::Text(s) if s == "a"));
    assert_eq!(i32::decode(&Json::Text("7".to_string())), None);
    assert_eq!(bool::decode(&Json::Null), None);
    assert_eq!(String::decode(&Json::Bool(true)), None);
    assert_eq!(u16::decode(&parse("70000").unwrap()), None);
    assert_eq!(u16::decode(&parse("443").unwrap()), Some(443));
    assert_eq!(i32::decode(&parse("1e2").unwrap()), None);
    assert_eq!(Vec::<i32>::decode(&parse("[1,2,3]").unwrap()), Some(vec![1, 2, 3]));
    assert_eq!(Vec::<i32>::decode(&parse("[1,\"2\",3]").unwrap()), None);
    assert_eq!(Vec::<i32>::decode(&parse("[]").unwrap()), Some(vec![]));
    assert_eq!(Vec::<i32>::decode(&parse("{}").unwrap()), None);
}
