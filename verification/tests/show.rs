use tank_royale_protocol::bot::{BotInfo, TeamInfo};
use tank_royale_protocol::connection::codec::{decode, encode};
use tank_royale_protocol::connection::enums::{MessageType, WebsocketMessage};
use tank_royale_protocol::connection::message_types::{
    ChangeTps, Color, GameAbortedEvent, InitialPosition, RoundStartedEvent,
};
use tank_royale_protocol::json::{parse, render, Json};
use tank_royale_protocol::show::{decimal_text, digits_text, show_opt, Show};
use tank_royale_protocol::wire::Wire;

const SETUP: &str = "{\"arenaHeight\":600,\"arenaWidth\":800,\"defaultTurnsPerSecond\":30,\"gameType\":\"melee\",\"gunCoolingRate\":0.1,\"isArenaHeightLocked\":true,\"isArenaWidthLocked\":false,\"isGunCoolingRateLocked\":true,\"isMaxInactivityTurnsLocked\":false,\"isMaxNumberOfParticipantsLocked\":true,\"isMinNumberOfParticipantsLocked\":false,\"isNumberOfRoundsLocked\":true,\"isReadyTimeoutLocked\":false,\"isTurnTimeoutLocked\":true,\"maxInactivityTurns\":450,\"minNumberOfParticipants\":2,\"numberOfRounds\":35,\"readyTimeout\":1000000,\"turnTimeout\":30000}";

fn frames() -> Vec<String> {
    let state = "{\"bodyColor\":\"#abc\",\"direction\":90.5,\"energy\":100,\"gunDirection\":0.0,\"gunHeat\":0.0,\"gunTurnRate\":-1.25,\"isDroid\":true,\"radarDirection\":0.0,\"radarSweep\":0.0,\"radarTurnRate\":0.0,\"speed\":-8,\"turnRate\":0.0,\"x\":1e-7,\"y\":20.25}";
    let bullet = "{\"bulletId\":1,\"color\":\"#fff\",\"direction\":1.5,\"ownerId\":2,\"power\":3.0,\"x\":4.0,\"y\":5.0}";
    let results = "{\"bulletDamage\":1,\"bulletKillBonus\":2,\"firstPlaces\":3,\"lastSurvivorBonus\":4,\"ramDamage\":5,\"ramKillBonus\":6,\"rank\":7,\"secondPlaces\":8,\"survival\":9,\"thirdPlaces\":10,\"totalScore\":-11}";
    let participant = "{\"authors\":[\"a\",\"b\"],\"countryCodes\":[],\"description\":\"d\",\"gameTypes\":[\"melee\"],\"homepage\":\"h\",\"id\":1,\"initialPosition\":{\"x\":1.5},\"isDroid\":false,\"name\":\"n\",\"platform\":\"p\",\"programmingLang\":\"l\",\"sessionId\":\"s\",\"teamId\":2,\"teamName\":\"t\",\"version\":\"v\"}";
    vec![
        "{\"type\":\"BotReady\"}".to_string(),
        "{\"type\":\"StopGame\"}".to_string(),
        "{\"type\":\"PauseGame\"}".to_string(),
        "{\"type\":\"ResumeGame\"}".to_string(),
        "{\"type\":\"NextTurn\"}".to_string(),
        "{\"type\":\"GamePausedEventForObserver\"}".to_string(),
        "{\"type\":\"GameResumedEventForObserver\"}".to_string(),
        "{\"type\":\"GameAbortedEvent\"}".to_string(),
        "{\"type\":\"ChangeTps\",\"tps\":30}".to_string(),
        "{\"type\":\"TpsChangedEvent\",\"tps\":-2147483648}".to_string(),
        "{\"type\":\"RoundStartedEvent\",\"roundNumber\":0}".to_string(),
        "{\"type\":\"SkippedTurnEvent\",\"turnNumber\":2147483647}".to_string(),
        "{\"type\":\"WonRoundEvent\",\"turnNumber\":10}".to_string(),
        "{\"type\":\"BotInfo\",\"host\":\"local host\",\"port\":65535}".to_string(),
        "{\"type\":\"BotListUpdate\",\"bots\":[]}".to_string(),
        "{\"type\":\"BotListUpdate\",\"bots\":[{\"host\":\"a\",\"port\":0},{\"host\":\"b\",\"port\":2},{\"host\":\"c\",\"port\":3}]}".to_string(),
        "{\"type\":\"BotIntent\"}".to_string(),
        "{\"type\":\"BotIntent\",\"turnRate\":5.0,\"rescan\":false,\"stdout\":\"say \\\"hi\\\"\\n\\ttab \\\\ back\\u0001 caf\\u00e9 \\u2603\",\"bodyColor\":\"#ff0000\",\"teamMessages\":[{\"message\":\"m\",\"messageType\":\"t\",\"receiverId\":3},{\"message\":\"\",\"messageType\":\"t\"}],\"firepower\":3}".to_string(),
        "{\"type\":\"ServerHandshake\",\"sessionId\":\"abc\",\"gameTypes\":[\"melee\",\"1v1\"],\"name\":\"Srv\",\"variant\":\"v1\",\"version\":\"1.0\"}".to_string(),
        format!("{{\"type\":\"ServerHandshake\",\"gameSetup\":{},\"sessionId\":\"abc\",\"gameTypes\":[],\"name\":\"Srv\",\"variant\":\"v1\",\"version\":\"1.0\"}}", SETUP),
        "{\"type\":\"BotHandshake\",\"authors\":[\"Ann\"],\"countryCodes\":[\"dk\"],\"description\":\"d\",\"gameTypes\":[\"melee\"],\"homepage\":\"h\",\"initialPosition\":{\"direction\":1,\"x\":2.5,\"y\":-3},\"isDroid\":false,\"name\":\"n\",\"platform\":\"p\",\"programmingLang\":\"l\",\"secret\":\"s\",\"sessionId\":\"x\",\"teamId\":1,\"teamName\":\"tn\",\"teamVersion\":\"tv\",\"version\":\"v\"}".to_string(),
        "{\"type\":\"ControllerHandshake\",\"author\":\"me\",\"name\":\"ctl\",\"secret\":\"s\",\"sessionId\":\"x\",\"version\":\"1\"}".to_string(),
        "{\"type\":\"ObserverHandshake\",\"author\":\"me\",\"name\":\"obs\",\"sessionId\":\"x\",\"version\":\"1\"}".to_string(),
        format!("{{\"type\":\"GameStartedEventForBot\",\"gameSetup\":{},\"myId\":3,\"startDirection\":45.5,\"startX\":1.0,\"startY\":2.0,\"teammateIds\":[4,-5,0]}}", SETUP),
        format!("{{\"type\":\"GameStartedEventForObserver\",\"gameSetup\":{},\"participants\":[{}]}}", SETUP, participant),
        format!("{{\"type\":\"GameEndedEventForBot\",\"numberOfRounds\":1,\"results\":{}}}", results),
        "{\"type\":\"GameEndedEventForObserver\",\"numberOfRounds\":2,\"results\":[{\"id\":1,\"name\":\"n\",\"version\":\"v\"}]}".to_string(),
        format!("{{\"type\":\"RoundEndedEventForBot\",\"results\":{},\"roundNumber\":1,\"turnNumber\":40}}", results),
        "{\"type\":\"RoundEndedEventForObserver\",\"results\":[],\"roundNumber\":1,\"turnNumber\":2}".to_string(),
        format!("{{\"type\":\"StartGame\",\"botAddresses\":[{{\"host\":\"h\",\"port\":80}}],\"gameSetup\":{}}}", SETUP),
        "{\"type\":\"BotDeathEvent\",\"turnNumber\":1,\"victimId\":2}".to_string(),
        "{\"type\":\"BotHitBotEvent\",\"botId\":1,\"energy\":2.5,\"rammed\":true,\"turnNumber\":3,\"victimId\":4,\"x\":5.0,\"y\":6.0}".to_string(),
        "{\"type\":\"BotHitWallEvent\",\"turnNumber\":1,\"victimId\":2}".to_string(),
        format!("{{\"type\":\"BulletFiredEvent\",\"turnNumber\":7,\"bullet\":{}}}", bullet),
        format!("{{\"type\":\"BulletHitBotEvent\",\"turnNumber\":7,\"bullet\":{},\"damage\":1.0,\"energy\":2.0,\"victimId\":4}}", bullet),
        format!("{{\"type\":\"BulletHitBulletEvent\",\"turnNumber\":7,\"bullet\":{},\"hitBullet\":{}}}", bullet, bullet),
        format!("{{\"type\":\"BulletHitWallEvent\",\"turnNumber\":7,\"bullet\":{}}}", bullet),
        format!("{{\"type\":\"HitByBulletEvent\",\"turnNumber\":7,\"bullet\":{},\"damage\":1.0,\"energy\":2.0}}", bullet),
        "{\"type\":\"ScannedBotEvent\",\"direction\":1.0,\"energy\":2.0,\"scannedBotId\":3,\"scannedByBotId\":4,\"speed\":5.0,\"turnNumber\":6,\"x\":7.0,\"y\":8.0}".to_string(),
        "{\"type\":\"TeamMessageEvent\",\"message\":\"hi\",\"messageType\":\"t\",\"senderId\":4,\"turnNumber\":2}".to_string(),
        format!("{{\"type\":\"TickEventForBot\",\"turnNumber\":5,\"botState\":{},\"bulletStates\":[{},{}],\"enemyCount\":1,\"events\":[{{\"type\":\"BotDeathEvent\",\"turnNumber\":5,\"victimId\":2}},{{\"type\":\"WonRoundEvent\",\"turnNumber\":5}},{{\"type\":\"BulletFiredEvent\",\"turnNumber\":5,\"bullet\":{}}},{{\"type\":\"TeamMessageEvent\",\"message\":\"hi\",\"messageType\":\"t\",\"senderId\":4,\"turnNumber\":2}}],\"roundNumber\":1}}", state, bullet, bullet, bullet),
        format!("{{\"type\":\"TickEventForObserver\",\"turnNumber\":3,\"botStates\":[{{\"id\":1,\"sessionId\":\"s\",\"stdout\":\"o\"}}],\"bulletStates\":[{}],\"events\":[{{\"type\":\"BotHitWallEvent\",\"turnNumber\":5,\"victimId\":2}}],\"roundNumber\":1}}", bullet),
        "{\"type\":\"Fireworks\"}".to_string(),
        "{\"type\":\"\",\"a\":null,\"b\":[true,false,[]],\"c\":-12,\"d\":1.25,\"e\":\"s \\\" q\",\"f\":{},\"g\":{\"h\":{\"i\":[{}]}},\"big\":18446744073709551615}".to_string(),
    ]
}

#[test]
fn every_message_is_shown_as_the_debug_format_writes_it() {
    for frame in frames() {
        let message = decode(&frame).unwrap();
        assert_eq!(message.show(), format!("{:?}", message), "for {}", frame);
    }
}

#[test]
fn every_refusal_quotes_the_message_as_the_debug_format_writes_it() {
    let mut refused = 0;
    for frame in frames() {
        let shown = format!("{:?}", decode(&frame).unwrap());
        match WebsocketMessage::try_from(decode(&frame).unwrap()) {
            Ok(_) => {}
            Err(text) => {
                refused += 1;
                assert_eq!(text, format!("Unsupported WebSocket message type: {}", shown));
            }
        }
    }
    assert_eq!(refused, frames().len() - 9);
}

#[test]
fn records_are_shown_with_their_field_names() {
    assert_eq!(ChangeTps { tps: 30 }.show(), "ChangeTps { tps: 30 }");
    assert_eq!(GameAbortedEvent {}.show(), "GameAbortedEvent");
    assert_eq!(GameAbortedEvent {}.show(), format!("{:?}", GameAbortedEvent {}));
    assert_eq!(Color("#a\"b".to_string()).show(), "Color(\"#a\\\"b\")");
    let team = TeamInfo { id: -4, name: "Reds".to_string(), version: "2".to_string() };
    assert_eq!(team.show(), "TeamInfo { id: -4, name: \"Reds\", version: \"2\" }");
    let position = InitialPosition {
        direction: None,
        x: Some(serde_json::Number::from_f64(1.5).unwrap()),
        y: Some(serde_json::Number::from(7)),
    };
    assert_eq!(
        position.show(),
        "InitialPosition { direction: None, x: Some(Number(1.5)), y: Some(Number(7)) }"
    );
    let info = BotInfo {
        name: "Crab".to_string(),
        version: "0.3".to_string(),
        authors: vec!["Ann".to_string(), "Bob".to_string()],
        description: String::new(),
        homepage: "h".to_string(),
        country_codes: Some(vec![]),
        game_types: vec![],
        platform: "p".to_string(),
        programming_lang: "l".to_string(),
        initial_position: Some(position),
    };
    assert_eq!(info.show(), format!("{:?}", info));
}

#[test]
fn scalars_lists_and_options_are_shown() {
    assert_eq!(true.show(), "true");
    assert_eq!(false.show(), "false");
    assert_eq!(0i32.show(), "0");
    assert_eq!((-1i32).show(), "-1");
    assert_eq!(i32::MAX.show(), "2147483647");
    assert_eq!(i32::MIN.show(), "-2147483648");
    assert_eq!(65535u16.show(), "65535");
    assert_eq!("a\n".to_string().show(), "\"a\\n\"");
    assert_eq!(Vec::<i32>::new().show(), "[]");
    assert_eq!(vec![7i32].show(), "[7]");
    assert_eq!(vec![1i32, -2, 30].show(), "[1, -2, 30]");
    assert_eq!(vec![vec![1i32], vec![], vec![2, 3]].show(), "[[1], [], [2, 3]]");
    assert_eq!(show_opt::<i32>(&None), "None");
    assert_eq!(show_opt(&Some(5i32)), "Some(5)");
    assert_eq!(show_opt(&Some(vec!["x".to_string()])), "Some([\"x\"])");
    assert_eq!(serde_json::Number::from(-9).show(), "Number(-9)");
    assert_eq!(serde_json::Number::from(u64::MAX).show(), "Number(18446744073709551615)");
    assert_eq!(serde_json::Number::from_f64(0.5).unwrap().show(), "Number(0.5)");
}

#[test]
fn integers_are_written_in_decimal() {
    assert_eq!(digits_text(0), "0");
    assert_eq!(digits_text(9), "9");
    assert_eq!(digits_text(10), "10");
    assert_eq!(digits_text(1234567890), "1234567890");
    assert_eq!(digits_text(u64::MAX), "18446744073709551615");
    assert_eq!(decimal_text(0), "0");
    assert_eq!(decimal_text(-1), "-1");
    assert_eq!(decimal_text(-10), "-10");
    assert_eq!(decimal_text(i64::MAX), "9223372036854775807");
    assert_eq!(decimal_text(i64::MIN), "-9223372036854775808");
    for v in [-1000i64, -101, -99, -7, 5, 42, 100, 1001, 99999] {
        assert_eq!(decimal_text(v), v.to_string());
    }
}

#[test]
fn documents_are_shown_node_by_node() {
    assert_eq!(Json::Null.show(), "Null");
    assert_eq!(Json::Bool(true).show(), "Bool(true)");
    assert_eq!(Json::List(vec![]).show(), "List([])");
    assert_eq!(Json::Record(vec![]).show(), "Record([])");
    let doc = Json::Record(vec![
        ("b".to_string(), Json::Text("x".to_string())),
        ("a".to_string(), Json::List(vec![Json::Null, Json::Bool(false)])),
        ("b".to_string(), Json::Number(serde_json::Number::from(2))),
    ]);
    assert_eq!(
        doc.show(),
        "Record([(\"b\", Text(\"x\")), (\"a\", List([Null, Bool(false)])), (\"b\", Number(Number(2)))])"
    );
    assert_eq!(doc.show(), format!("{:?}", doc));
    let read = parse("{\"k\":[1,{\"m\":[[],{}]},\"t\",null,2.5e10]}").unwrap();
    assert_eq!(read.show(), format!("{:?}", read));
}

#[test]
fn bot_messages_have_the_wire_form_of_the_same_message() {
    let frame = "{\"roundNumber\":2,\"type\":\"RoundStartedEvent\"}";
    let narrowed = WebsocketMessage::decode(&parse(frame).unwrap()).unwrap();
    assert!(matches!(
        &narrowed,
        WebsocketMessage::RoundStartedEvent(RoundStartedEvent { round_number: 2 })
    ));
    assert_eq!(render(&narrowed.encode()), frame);
    assert_eq!(encode(narrowed.into_message()), frame);
    let aborted = WebsocketMessage::GameAbortedEvent(GameAbortedEvent {});
    assert_eq!(render(&aborted.encode()), "{\"type\":\"GameAbortedEvent\"}");
    let mut admitted = 0;
    for frame in frames() {
        let whole = encode(decode(&frame).unwrap());
        match WebsocketMessage::decode(&parse(&frame).unwrap()) {
            Some(w) => {
                admitted += 1;
                assert_eq!(render(&w.encode()), whole);
                assert_eq!(encode(w.into_message()), whole);
            }
            None => assert!(WebsocketMessage::try_from(decode(&frame).unwrap()).is_err()),
        }
    }
    assert_eq!(admitted, 9);
}

#[test]
fn frames_that_are_no_bot_message_are_not_narrowed() {
    for text in [
        "{\"type\":\"ChangeTps\",\"tps\":30}",
        "{\"type\":\"BotReady\"}",
        "{\"type\":\"Fireworks\"}",
        "{\"type\":\"RoundStartedEvent\"}",
        "{\"roundNumber\":2}",
        "[]",
    ] {
        assert!(WebsocketMessage::decode(&parse(text).unwrap()).is_none(), "{}", text);
    }
    match WebsocketMessage::narrow(MessageType::ChangeTps(ChangeTps { tps: 4 })) {
        Err(MessageType::ChangeTps(back)) => assert_eq!(back.tps, 4),
        other => panic!("{:?}", other),
    }
    assert!(matches!(
        WebsocketMessage::narrow(MessageType::GameAbortedEvent(GameAbortedEvent {})),
        Ok(WebsocketMessage::GameAbortedEvent(_))
    ));
}
