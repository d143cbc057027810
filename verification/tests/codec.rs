use tank_royale_protocol::connection::codec::{decode, encode, DecodeError};
use tank_royale_protocol::connection::enums::{BotEvent, MessageType};
use tank_royale_protocol::connection::message_types::{
    BotDeathEvent, BotIntent, BotListUpdate, BotHandshakeInfo, ChangeTps, Color, TeamMessage,
};
use tank_royale_protocol::json::{parse, render, Json};

fn number(x: f64) -> serde_json::Number {
    serde_json::Number::from_f64(x).unwrap()
}

fn empty_intent() -> BotIntent {
    BotIntent {
        adjust_gun_for_body_turn: None,
        adjust_radar_for_body_turn: None,
        adjust_radar_for_gun_turn: None,
        body_color: None,
        bullet_color: None,
        fire_assist: None,
        firepower: None,
        gun_color: None,
        gun_turn_rate: None,
        radar_color: None,
        radar_turn_rate: None,
        rescan: None,
        scan_color: None,
        stderr: None,
        stdout: None,
        target_speed: None,
        team_messages: None,
        tracks_color: None,
        turn_rate: None,
        turret_color: None,
    }
}

const TICK: &str = "{\"type\":\"TickEventForBot\",\"turnNumber\":5,\"botState\":{\"direction\":90.0,\"energy\":100.0,\"gunDirection\":0.0,\"gunHeat\":0.0,\"gunTurnRate\":0.0,\"isDroid\":false,\"radarDirection\":0.0,\"radarSweep\":0.0,\"radarTurnRate\":0.0,\"speed\":0.0,\"turnRate\":0.0,\"x\":10.5,\"y\":20.25},\"bulletStates\":[],\"enemyCount\":1,\"events\":[],\"roundNumber\":1}";

#[test]
fn server_handshake_is_read_field_by_field() {
    let frame = "{\"type\":\"ServerHandshake\",\"sessionId\":\"abc\",\"gameTypes\":[\"melee\"],\"name\":\"Srv\",\"variant\":\"v1\",\"version\":\"1.0\"}";
    match decode(frame) {
        Ok(MessageType::ServerHandshake(h)) => {
            assert_eq!(h.session_id, "abc");
            assert_eq!(h.game_types, vec!["melee".to_string()]);
            assert_eq!(h.name, "Srv");
            assert_eq!(h.variant, "v1");
            assert_eq!(h.version, "1.0");
            assert!(h.game_setup.is_none());
        }
        other => panic!("not a server handshake: {:?}", other),
    }
}

#[test]
fn tick_is_read_with_its_numbers() {
    match decode(TICK) {
        Ok(MessageType::TickEventForBot(t)) => {
            assert_eq!(t.turn_number, 5);
            assert_eq!(t.round_number, 1);
            assert_eq!(t.enemy_count, 1);
            assert!(t.bullet_states.is_empty());
            assert!(t.events.is_empty());
            assert_eq!(t.bot_state.x.as_f64(), Some(10.5));
            assert_eq!(t.bot_state.y.as_f64(), Some(20.25));
            assert_eq!(t.bot_state.energy.as_f64(), Some(100.0));
            assert!(!t.bot_state.is_droid);
            assert!(t.bot_state.body_color.is_none());
        }
        other => panic!("not a tick: {:?}", other),
    }
}

#[test]
fn text_that_is_no_json_is_malformed() {
    assert_eq!(decode("not-json").err(), Some(DecodeError::Malformed));
    assert_eq!(decode("").err(), Some(DecodeError::Malformed));
    assert_eq!(decode("{\"type\":\"BotReady\"} trailing").err(), Some(DecodeError::Malformed));
}

#[test]
fn document_that_is_no_envelope_is_malformed() {
    assert_eq!(decode("[1,2,3]").err(), Some(DecodeError::Malformed));
    assert_eq!(decode("\"BotReady\"").err(), Some(DecodeError::Malformed));
    assert_eq!(decode("{}").err(), Some(DecodeError::Malformed));
    assert_eq!(decode("{\"turnNumber\":5}").err(), Some(DecodeError::Malformed));
    assert_eq!(decode("{\"type\":7}").err(), Some(DecodeError::Malformed));
    assert_eq!(decode("{\"type\":null}").err(), Some(DecodeError::Malformed));
}

#[test]
fn known_shape_with_missing_field_is_malformed() {
    assert_eq!(decode("{\"type\":\"ChangeTps\"}").err(), Some(DecodeError::Malformed));
    let no_name = "{\"type\":\"ServerHandshake\",\"sessionId\":\"abc\",\"gameTypes\":[],\"variant\":\"v1\",\"version\":\"1.0\"}";
    assert_eq!(decode(no_name).err(), Some(DecodeError::Malformed));
}

#[test]
fn known_shape_with_mistyped_field_is_malformed() {
    assert_eq!(decode("{\"type\":\"ChangeTps\",\"tps\":\"30\"}").err(), Some(DecodeError::Malformed));
    assert_eq!(decode("{\"type\":\"ChangeTps\",\"tps\":30.5}").err(), Some(DecodeError::Malformed));
    assert_eq!(decode("{\"type\":\"ChangeTps\",\"tps\":30.0}").err(), Some(DecodeError::Malformed));
    assert_eq!(decode("{\"type\":\"ChangeTps\",\"tps\":true}").err(), Some(DecodeError::Malformed));
    assert_eq!(decode("{\"type\":\"BotIntent\",\"rescan\":1}").err(), Some(DecodeError::Malformed));
    assert_eq!(decode("{\"type\":\"BotIntent\",\"turnRate\":\"5\"}").err(), Some(DecodeError::Malformed));
    assert_eq!(decode("{\"type\":\"BotIntent\",\"teamMessages\":{}}").err(), Some(DecodeError::Malformed));
}

#[test]
fn integer_fields_hold_thirty_two_bits() {
    match decode("{\"type\":\"ChangeTps\",\"tps\":2147483647}") {
        Ok(MessageType::ChangeTps(c)) => assert_eq!(c.tps, i32::MAX),
        other => panic!("{:?}", other),
    }
    match decode("{\"type\":\"ChangeTps\",\"tps\":-2147483648}") {
        Ok(MessageType::ChangeTps(c)) => assert_eq!(c.tps, i32::MIN),
        other => panic!("{:?}", other),
    }
    assert_eq!(decode("{\"type\":\"ChangeTps\",\"tps\":2147483648}").err(), Some(DecodeError::Malformed));
    assert_eq!(decode("{\"type\":\"ChangeTps\",\"tps\":-2147483649}").err(), Some(DecodeError::Malformed));
    assert_eq!(
        decode("{\"type\":\"ChangeTps\",\"tps\":18446744073709551615}").err(),
        Some(DecodeError::Malformed)
    );
}

#[test]
fn port_holds_sixteen_bits() {
    match decode("{\"type\":\"BotInfo\",\"host\":\"h\",\"port\":65535}") {
        Ok(MessageType::BotInfo(a)) => {
            assert_eq!(a.host, "h");
            assert_eq!(a.port, 65535);
        }
        other => panic!("{:?}", other),
    }
    assert_eq!(
        decode("{\"type\":\"BotInfo\",\"host\":\"h\",\"port\":65536}").err(),
        Some(DecodeError::Malformed)
    );
    assert_eq!(
        decode("{\"type\":\"BotInfo\",\"host\":\"h\",\"port\":-1}").err(),
        Some(DecodeError::Malformed)
    );
}

#[test]
fn absent_field_is_not_zero() {
    match decode("{\"type\":\"BotIntent\"}") {
        Ok(MessageType::BotIntent(i)) => {
            assert!(i.turn_rate.is_none());
            assert!(i.firepower.is_none());
            assert!(i.rescan.is_none());
            assert!(i.stdout.is_none());
            assert!(i.team_messages.is_none());
            assert!(i.body_color.is_none());
        }
        other => panic!("{:?}", other),
    }
    match decode("{\"type\":\"BotIntent\",\"turnRate\":0,\"rescan\":false,\"stdout\":\"\"}") {
        Ok(MessageType::BotIntent(i)) => {
            assert_eq!(i.turn_rate.and_then(|n| n.as_f64()), Some(0.0));
            assert_eq!(i.rescan, Some(false));
            assert_eq!(i.stdout, Some(String::new()));
            assert!(i.firepower.is_none());
        }
        other => panic!("{:?}", other),
    }
}

#[test]
fn explicit_null_is_not_absent() {
    assert_eq!(decode("{\"type\":\"BotIntent\",\"turnRate\":null}").err(), Some(DecodeError::Malformed));
    assert_eq!(decode("{\"type\":\"BotIntent\",\"rescan\":null}").err(), Some(DecodeError::Malformed));
}

#[test]
fn members_that_the_shape_does_not_name_are_passed_over() {
    match decode("{\"type\":\"ChangeTps\",\"tps\":30,\"later\":{\"a\":[1,2]}}") {
        Ok(MessageType::ChangeTps(c)) => assert_eq!(c.tps, 30),
        other => panic!("{:?}", other),
    }
    match decode("{\"type\":\"BotReady\",\"anything\":1}") {
        Ok(MessageType::BotReady) => {}
        other => panic!("{:?}", other),
    }
}

#[test]
fn field_names_on_the_wire_are_camel_case() {
    assert_eq!(
        decode("{\"type\":\"BotDeathEvent\",\"turn_number\":1,\"victim_id\":2}").err(),
        Some(DecodeError::Malformed)
    );
    match decode("{\"type\":\"BotDeathEvent\",\"turnNumber\":1,\"victimId\":2}") {
        Ok(MessageType::BotDeathEvent(e)) => {
            assert_eq!(e.turn_number, 1);
            assert_eq!(e.victim_id, 2);
        }
        other => panic!("{:?}", other),
    }
}

#[test]
fn unknown_tag_gives_an_unrecognized_message() {
    let frame = "{\"type\":\"FutureEvent\",\"payload\":{\"a\":[1,2.5,null,true],\"b\":\"x\"}}";
    match decode(frame) {
        Ok(MessageType::Unrecognized { discriminator, raw_payload }) => {
            assert_eq!(discriminator, "FutureEvent");
            assert_eq!(render(&raw_payload), "{\"payload\":{\"a\":[1,2.5,null,true],\"b\":\"x\"},\"type\":\"FutureEvent\"}");
        }
        other => panic!("{:?}", other),
    }
}

#[test]
fn unknown_tag_is_accepted_whatever_the_body() {
    for frame in [
        "{\"type\":\"\"}",
        "{\"type\":\"botready\"}",
        "{\"type\":\"X\",\"turnNumber\":\"five\"}",
        "{\"type\":\"ServerHandshake2\",\"sessionId\":null}",
    ] {
        match decode(frame) {
            Ok(MessageType::Unrecognized { .. }) => {}
            other => panic!("{} gave {:?}", frame, other),
        }
    }
}

#[test]
fn unrecognized_message_is_written_as_it_was_read() {
    let frame = "{\"a\":1,\"type\":\"FutureEvent\",\"z\":[{\"k\":-7}]}";
    let message = decode(frame).unwrap();
    assert_eq!(encode(message), frame);
}

#[test]
fn intent_with_one_field_is_written_with_that_field_alone() {
    let mut intent = empty_intent();
    intent.turn_rate = Some(number(5.0));
    assert_eq!(encode(MessageType::BotIntent(intent)), "{\"turnRate\":5.0,\"type\":\"BotIntent\"}");
}

#[test]
fn intent_without_fields_is_written_as_the_tag_alone() {
    assert_eq!(encode(MessageType::BotIntent(empty_intent())), "{\"type\":\"BotIntent\"}");
    match decode("{\"type\":\"BotIntent\"}") {
        Ok(message) => assert_eq!(encode(message), "{\"type\":\"BotIntent\"}"),
        other => panic!("{:?}", other),
    }
}

#[test]
fn shapes_without_fields_are_written_as_the_tag_alone() {
    assert_eq!(encode(MessageType::BotReady), "{\"type\":\"BotReady\"}");
    assert_eq!(encode(MessageType::StopGame), "{\"type\":\"StopGame\"}");
    assert_eq!(encode(MessageType::PauseGame), "{\"type\":\"PauseGame\"}");
    assert_eq!(encode(MessageType::ResumeGame), "{\"type\":\"ResumeGame\"}");
    assert_eq!(encode(MessageType::NextTurn), "{\"type\":\"NextTurn\"}");
    assert_eq!(
        encode(MessageType::GamePausedEventForObserver),
        "{\"type\":\"GamePausedEventForObserver\"}"
    );
    assert_eq!(
        encode(MessageType::GameResumedEventForObserver),
        "{\"type\":\"GameResumedEventForObserver\"}"
    );
}

#[test]
fn full_intent_comes_back_unchanged() {
    let intent = BotIntent {
        adjust_gun_for_body_turn: Some(true),
        adjust_radar_for_body_turn: Some(false),
        adjust_radar_for_gun_turn: Some(true),
        body_color: Some(Color("#ff0000".to_string())),
        bullet_color: Some(Color("#00ff00".to_string())),
        fire_assist: Some(false),
        firepower: Some(number(1.5)),
        gun_color: Some(Color("#0000ff".to_string())),
        gun_turn_rate: Some(number(-20.0)),
        radar_color: Some(Color("#111111".to_string())),
        radar_turn_rate: Some(number(45.0)),
        rescan: Some(true),
        scan_color: Some(Color("#222222".to_string())),
        stderr: Some("oops".to_string()),
        stdout: Some("hello \"world\"\n".to_string()),
        target_speed: Some(number(8.0)),
        team_messages: Some(vec![
            TeamMessage { message: "go".to_string(), message_type: "cmd".to_string(), receiver_id: Some(3) },
            TeamMessage { message: "all".to_string(), message_type: "cmd".to_string(), receiver_id: None },
        ]),
        tracks_color: Some(Color("#333333".to_string())),
        turn_rate: Some(number(0.1)),
        turret_color: Some(Color("#444444".to_string())),
    };
    let frame = encode(MessageType::BotIntent(intent.clone()));
    match decode(&frame) {
        Ok(MessageType::BotIntent(back)) => {
            assert_eq!(back.adjust_gun_for_body_turn, Some(true));
            assert_eq!(back.adjust_radar_for_body_turn, Some(false));
            assert_eq!(back.firepower, intent.firepower);
            assert_eq!(back.gun_turn_rate, intent.gun_turn_rate);
            assert_eq!(back.turn_rate, intent.turn_rate);
            assert_eq!(back.stdout, intent.stdout);
            assert_eq!(back.stderr, intent.stderr);
            assert_eq!(back.body_color.map(|c| c.0), Some("#ff0000".to_string()));
            let messages = back.team_messages.unwrap();
            assert_eq!(messages.len(), 2);
            assert_eq!(messages[0].message, "go");
            assert_eq!(messages[0].receiver_id, Some(3));
            assert_eq!(messages[1].message, "all");
            assert_eq!(messages[1].receiver_id, None);
            assert_eq!(encode(MessageType::BotIntent(intent)), frame);
        }
        other => panic!("{:?}", other),
    }
}

#[test]
fn written_frames_are_read_back_to_the_same_frame() {
    let frames = [
        "{\"type\":\"BotReady\"}",
        "{\"tps\":30,\"type\":\"ChangeTps\"}",
        "{\"tps\":-1,\"type\":\"TpsChangedEvent\"}",
        "{\"type\":\"GameAbortedEvent\"}",
        "{\"roundNumber\":3,\"type\":\"RoundStartedEvent\"}",
        "{\"turnNumber\":9,\"type\":\"SkippedTurnEvent\"}",
        "{\"turnNumber\":9,\"type\":\"WonRoundEvent\"}",
        "{\"bots\":[{\"host\":\"a\",\"port\":1},{\"host\":\"b\",\"port\":2}],\"type\":\"BotListUpdate\"}",
        "{\"author\":\"me\",\"name\":\"ctl\",\"secret\":\"s\",\"sessionId\":\"x\",\"type\":\"ControllerHandshake\",\"version\":\"1\"}",
        "{\"author\":\"me\",\"name\":\"obs\",\"sessionId\":\"x\",\"type\":\"ObserverHandshake\",\"version\":\"1\"}",
        "{\"message\":\"hi\",\"messageType\":\"t\",\"senderId\":4,\"turnNumber\":2,\"type\":\"TeamMessageEvent\"}",
        "{\"bullet\":{\"bulletId\":1,\"color\":\"#fff\",\"direction\":1.5,\"ownerId\":2,\"power\":3.0,\"x\":4.0,\"y\":5.0},\"turnNumber\":7,\"type\":\"BulletFiredEvent\"}",
    ];
    for frame in frames {
        let message = decode(frame).unwrap();
        assert_eq!(encode(message), frame);
    }
}

#[test]
fn tick_comes_back_with_its_events_in_order() {
    let frame = "{\"botState\":{\"direction\":90.0,\"energy\":100.0,\"gunDirection\":0.0,\"gunHeat\":0.0,\"gunTurnRate\":0.0,\"isDroid\":false,\"radarDirection\":0.0,\"radarSweep\":0.0,\"radarTurnRate\":0.0,\"speed\":0.0,\"turnRate\":0.0,\"x\":10.5,\"y\":20.25},\"bulletStates\":[],\"enemyCount\":1,\"events\":[{\"turnNumber\":5,\"type\":\"BotDeathEvent\",\"victimId\":2},{\"turnNumber\":5,\"type\":\"WonRoundEvent\"},{\"turnNumber\":5,\"type\":\"BotHitWallEvent\",\"victimId\":1}],\"roundNumber\":1,\"turnNumber\":5,\"type\":\"TickEventForBot\"}";
    match decode(frame) {
        Ok(MessageType::TickEventForBot(t)) => {
            assert_eq!(t.events.len(), 3);
            assert!(matches!(&t.events[0], BotEvent::BotDeathEvent(BotDeathEvent { turn_number: 5, victim_id: 2 })));
            assert!(matches!(&t.events[1], BotEvent::WonRoundEvent(_)));
            assert!(matches!(&t.events[2], BotEvent::BotHitWallEvent(_)));
            assert_eq!(encode(MessageType::TickEventForBot(t)), frame);
        }
        other => panic!("{:?}", other),
    }
}

#[test]
fn event_of_an_unknown_or_foreign_shape_spoils_the_tick() {
    let with = |event: &str| {
        format!(
            "{{\"type\":\"TickEventForBot\",\"turnNumber\":5,\"botState\":{{\"direction\":90.0,\"energy\":100.0,\"gunDirection\":0.0,\"gunHeat\":0.0,\"gunTurnRate\":0.0,\"isDroid\":false,\"radarDirection\":0.0,\"radarSweep\":0.0,\"radarTurnRate\":0.0,\"speed\":0.0,\"turnRate\":0.0,\"x\":10.5,\"y\":20.25}},\"bulletStates\":[],\"enemyCount\":1,\"events\":[{}],\"roundNumber\":1}}",
            event
        )
    };
    assert!(decode(&with("{\"type\":\"WonRoundEvent\",\"turnNumber\":5}")).is_ok());
    assert_eq!(decode(&with("{\"type\":\"Mystery\",\"turnNumber\":5}")).err(), Some(DecodeError::Malformed));
    assert_eq!(decode(&with("{\"type\":\"BotReady\"}")).err(), Some(DecodeError::Malformed));
    assert_eq!(decode(&with("{\"turnNumber\":5}")).err(), Some(DecodeError::Malformed));
    assert_eq!(decode(&with("5")).err(), Some(DecodeError::Malformed));
}

#[test]
fn later_member_of_the_same_name_counts() {
    match decode("{\"type\":\"ChangeTps\",\"tps\":1,\"tps\":2}") {
        Ok(MessageType::ChangeTps(c)) => assert_eq!(c.tps, 2),
        other => panic!("{:?}", other),
    }
    let doc = Json::Record(vec![
        ("tps".to_string(), Json::Number(serde_json::Number::from(1))),
        ("tps".to_string(), Json::Number(serde_json::Number::from(2))),
    ]);
    assert_eq!(render(&doc), "{\"tps\":2}");
    assert_eq!(doc.get("tps").map(render), Some("2".to_string()));
}

#[test]
fn parse_and_render_go_through_every_kind_of_node() {
    let text = "{\"a\":null,\"b\":[true,false],\"c\":-12,\"d\":1.25,\"e\":\"s\",\"f\":{}}";
    let doc = parse(text).unwrap();
    match &doc {
        Json::Record(members) => {
            assert_eq!(members.len(), 6);
            assert!(matches!(doc.get("a"), Some(Json::Null)));
            assert!(matches!(doc.get("b"), Some(Json::List(items)) if items.len() == 2));
            assert!(matches!(doc.get("c"), Some(Json::Number(n)) if n.as_i64() == Some(-12)));
            assert!(matches!(doc.get("d"), Some(Json::Number(n)) if n.as_f64() == Some(1.25)));
            assert!(matches!(doc.get("e"), Some(Json::Text(s)) if s == "s"));
            assert!(matches!(doc.get("f"), Some(Json::Record(m)) if m.is_empty()));
            assert!(doc.get("g").is_none());
        }
        other => panic!("{:?}", other),
    }
    assert_eq!(render(&doc), text);
    assert!(parse("{").is_none());
    assert!(Json::Null.get("a").is_none());
}

#[test]
fn list_update_is_written_in_list_order() {
    let update = BotListUpdate {
        bots: vec![
            BotHandshakeInfo { host: "z".to_string(), port: 9 },
            BotHandshakeInfo { host: "a".to_string(), port: 1 },
        ],
    };
    assert_eq!(
        encode(MessageType::BotListUpdate(update)),
        "{\"bots\":[{\"host\":\"z\",\"port\":9},{\"host\":\"a\",\"port\":1}],\"type\":\"BotListUpdate\"}"
    );
    assert_eq!(encode(MessageType::ChangeTps(ChangeTps { tps: -3 })), "{\"tps\":-3,\"type\":\"ChangeTps\"}");
}

const SETUP: &str = "{\"arenaHeight\":600,\"arenaWidth\":800,\"defaultTurnsPerSecond\":30,\"gameType\":\"melee\",\"gunCoolingRate\":0.1,\"isArenaHeightLocked\":true,\"isArenaWidthLocked\":false,\"isGunCoolingRateLocked\":true,\"isMaxInactivityTurnsLocked\":false,\"isMaxNumberOfParticipantsLocked\":true,\"isMinNumberOfParticipantsLocked\":false,\"isNumberOfRoundsLocked\":true,\"isReadyTimeoutLocked\":false,\"isTurnTimeoutLocked\":true,\"maxInactivityTurns\":450,\"maxNumberOfParticipants\":10,\"minNumberOfParticipants\":2,\"numberOfRounds\":35,\"readyTimeout\":1000000,\"turnTimeout\":30000}";

#[test]
fn game_setup_keeps_each_rule_and_each_lock_apart() {
    let frame = format!(
        "{{\"gameSetup\":{},\"myId\":3,\"startDirection\":45.5,\"startX\":1.0,\"startY\":2.0,\"teammateIds\":[4,5],\"type\":\"GameStartedEventForBot\"}}",
        SETUP
    );
    match decode(&frame) {
        Ok(MessageType::GameStartedEventForBot(e)) => {
            let s = &e.game_setup;
            assert_eq!(s.arena_height, 600);
            assert_eq!(s.arena_width, 800);
            assert_eq!(s.default_turns_per_second, 30);
            assert_eq!(s.game_type, "melee");
            assert_eq!(s.gun_cooling_rate.as_f64(), Some(0.1));
            assert!(s.is_arena_height_locked);
            assert!(!s.is_arena_width_locked);
            assert!(s.is_gun_cooling_rate_locked);
            assert!(!s.is_max_inactivity_turns_locked);
            assert!(s.is_max_number_of_participants_locked);
            assert!(!s.is_min_number_of_participants_locked);
            assert!(s.is_number_of_rounds_locked);
            assert!(!s.is_ready_timeout_locked);
            assert!(s.is_turn_timeout_locked);
            assert_eq!(s.max_inactivity_turns, 450);
            assert_eq!(s.max_number_of_participants, Some(10));
            assert_eq!(s.min_number_of_participants, 2);
            assert_eq!(s.number_of_rounds, 35);
            assert_eq!(s.ready_timeout, 1000000);
            assert_eq!(s.turn_timeout, 30000);
            assert_eq!(e.my_id, 3);
            assert_eq!(e.start_direction.as_f64(), Some(45.5));
            assert_eq!(e.teammate_ids, vec![4, 5]);
            assert_eq!(encode(MessageType::GameStartedEventForBot(e)), frame);
        }
        other => panic!("{:?}", other),
    }
}

#[test]
fn observer_messages_come_back_unchanged() {
    let participant = "{\"authors\":[\"a\"],\"countryCodes\":[\"dk\"],\"description\":\"d\",\"gameTypes\":[\"melee\"],\"id\":1,\"initialPosition\":{\"x\":1.5},\"isDroid\":false,\"name\":\"n\",\"platform\":\"p\",\"programmingLang\":\"l\",\"sessionId\":\"s\",\"teamId\":2,\"version\":\"v\"}";
    let frames = [
        format!("{{\"gameSetup\":{},\"participants\":[{}],\"type\":\"GameStartedEventForObserver\"}}", SETUP, participant),
        "{\"numberOfRounds\":2,\"results\":[{\"id\":1,\"name\":\"n\",\"version\":\"v\"}],\"type\":\"GameEndedEventForObserver\"}".to_string(),
        "{\"results\":[],\"roundNumber\":1,\"turnNumber\":2,\"type\":\"RoundEndedEventForObserver\"}".to_string(),
        "{\"botStates\":[{\"id\":1,\"sessionId\":\"s\",\"stdout\":\"o\"}],\"bulletStates\":[{\"bulletId\":1,\"color\":\"#fff\",\"direction\":1.5,\"ownerId\":2,\"power\":3.0,\"x\":4.0,\"y\":5.0}],\"events\":[{\"bullet\":{\"bulletId\":1,\"color\":\"#fff\",\"direction\":1.5,\"ownerId\":2,\"power\":3.0,\"x\":4.0,\"y\":5.0},\"damage\":1.0,\"energy\":2.0,\"turnNumber\":3,\"type\":\"BulletHitBotEvent\",\"victimId\":4}],\"roundNumber\":1,\"turnNumber\":3,\"type\":\"TickEventForObserver\"}".to_string(),
        format!("{{\"botAddresses\":[{{\"host\":\"h\",\"port\":80}}],\"gameSetup\":{},\"type\":\"StartGame\"}}", SETUP),
        "{\"botId\":1,\"energy\":2.5,\"rammed\":true,\"turnNumber\":3,\"type\":\"BotHitBotEvent\",\"victimId\":4,\"x\":5.0,\"y\":6.0}".to_string(),
        "{\"direction\":1.0,\"energy\":2.0,\"scannedBotId\":3,\"scannedByBotId\":4,\"speed\":5.0,\"turnNumber\":6,\"type\":\"ScannedBotEvent\",\"x\":7.0,\"y\":8.0}".to_string(),
    ];
    for frame in frames.iter() {
        let message = decode(frame).unwrap();
        assert_eq!(&encode(message), frame);
    }
}

#[test]
fn bot_state_takes_whole_numbers_for_measures() {
    let frame = "{\"type\":\"TickEventForBot\",\"turnNumber\":1,\"botState\":{\"bodyColor\":\"#abc\",\"direction\":90,\"energy\":100,\"gunDirection\":0,\"gunHeat\":0,\"gunTurnRate\":0,\"isDroid\":true,\"radarDirection\":0,\"radarSweep\":0,\"radarTurnRate\":0,\"speed\":-8,\"turnRate\":0,\"x\":10,\"y\":20},\"bulletStates\":[],\"enemyCount\":0,\"events\":[],\"roundNumber\":1}";
    match decode(frame) {
        Ok(MessageType::TickEventForBot(t)) => {
            assert_eq!(t.bot_state.direction.as_f64(), Some(90.0));
            assert_eq!(t.bot_state.speed.as_i64(), Some(-8));
            assert_eq!(t.bot_state.body_color.as_ref().map(|c| c.0.as_str()), Some("#abc"));
            assert!(t.bot_state.is_droid);
        }
        other => panic!("{:?}", other),
    }
}
