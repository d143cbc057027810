use tank_royale_protocol::bot::{BotHandler, BotInfo, TeamInfo};
use tank_royale_protocol::connection::codec::{decode, DecodeError};
use tank_royale_protocol::connection::enums::{MessageType, Shape};
use tank_royale_protocol::connection::message_types::{BotIntent, InitialPosition, TickEventForBot};
use tank_royale_protocol::connection::protocol::{step, Action, Phase, ProtocolError, TransportError};
use tank_royale_protocol::connection::session::{Frame, Outcome, Session};

const SERVER_HANDSHAKE: &str = "{\"type\":\"ServerHandshake\",\"sessionId\":\"abc\",\"gameTypes\":[\"melee\"],\"name\":\"Srv\",\"variant\":\"v1\",\"version\":\"1.0\"}";

fn tick(turn: i32) -> String {
    format!(
        "{{\"type\":\"TickEventForBot\",\"turnNumber\":{},\"botState\":{{\"direction\":90.0,\"energy\":100.0,\"gunDirection\":0.0,\"gunHeat\":0.0,\"gunTurnRate\":0.0,\"isDroid\":false,\"radarDirection\":0.0,\"radarSweep\":0.0,\"radarTurnRate\":0.0,\"speed\":0.0,\"turnRate\":0.0,\"x\":10.5,\"y\":20.25}},\"bulletStates\":[],\"enemyCount\":1,\"events\":[],\"roundNumber\":1}}",
        turn
    )
}

fn info() -> BotInfo {
    BotInfo {
        name: "Crab".to_string(),
        version: "0.3".to_string(),
        authors: vec!["Ann".to_string(), "Bob".to_string()],
        description: "sideways".to_string(),
        homepage: "https://crab.example".to_string(),
        country_codes: None,
        game_types: vec!["melee".to_string(), "1v1".to_string()],
        platform: "native".to_string(),
        programming_lang: "Rust".to_string(),
        initial_position: None,
    }
}

fn intent_with_turn_rate(rate: f64) -> BotIntent {
    BotIntent {
        adjust_gun_for_body_turn: None,
        adjust_radar_for_body_turn: None,
        adjust_radar_for_gun_turn: None,
        body_color: None,
        bullet_color: None,
        fire_assist: None,
        firepower: None,
        gun_color: None,
        gun_turn_rate: None,
        radar_color: None,
        radar_turn_rate: None,
        rescan: None,
        scan_color: None,
        stderr: None,
        stdout: None,
        target_speed: None,
        team_messages: None,
        tracks_color: None,
        turn_rate: Some(serde_json::Number::from_f64(rate).unwrap()),
        turret_color: None,
    }
}

struct Recorder {
    info: BotInfo,
    turns: Vec<i32>,
}

impl Recorder {
    fn new() -> Recorder {
        Recorder { info: info(), turns: Vec::new() }
    }
}

impl BotHandler for Recorder {
    fn get_bot_info(&self) -> &BotInfo {
        &self.info
    }

    fn is_droid(&self) -> bool {
        false
    }

    fn tick(&mut self, tick_event: &TickEventForBot) -> BotIntent {
        self.turns.push(tick_event.turn_number);
        intent_with_turn_rate(tick_event.turn_number as f64)
    }
}

fn fresh() -> Session {
    Session::new(info(), None, false, "s3cr3t".to_string())
}

fn active(bot: &mut Recorder) -> Session {
    let mut session = fresh();
    assert!(matches!(session.on_text(bot, SERVER_HANDSHAKE), Outcome::Handshake(_)));
    session
}

#[test]
fn new_session_waits_for_the_handshake() {
    let session = fresh();
    assert_eq!(session.phase(), Phase::AwaitingHandshake);
    assert!(session.message_log().is_empty());
    assert!(!session.is_terminated());
}

#[test]
fn server_handshake_is_answered_with_the_bot_handshake() {
    let mut bot = Recorder::new();
    let mut session = fresh();
    let outcome = session.on_text(&mut bot, SERVER_HANDSHAKE);
    assert_eq!(session.phase(), Phase::Active);
    let frame = match outcome {
        Outcome::Handshake(frame) => frame,
        other => panic!("{:?}", other),
    };
    assert!(frame.contains("\"sessionId\":\"abc\""));
    assert!(frame.contains("\"name\":\"Crab\""));
    assert!(frame.contains("\"version\":\"0.3\""));
    assert!(frame.contains("\"authors\":[\"Ann\",\"Bob\"]"));
    assert_eq!(
        frame,
        "{\"authors\":[\"Ann\",\"Bob\"],\"description\":\"sideways\",\"gameTypes\":[\"melee\",\"1v1\"],\"homepage\":\"https://crab.example\",\"isDroid\":false,\"name\":\"Crab\",\"platform\":\"native\",\"programmingLang\":\"Rust\",\"secret\":\"s3cr3t\",\"sessionId\":\"abc\",\"type\":\"BotHandshake\",\"version\":\"0.3\"}"
    );
    assert!(bot.turns.is_empty());
    assert_eq!(session.message_log().len(), 1);
    assert!(matches!(session.message_log()[0], MessageType::ServerHandshake(_)));
}

#[test]
fn handshake_carries_team_and_position_when_there_are_any() {
    let mut bot = Recorder::new();
    let mut with_position = info();
    with_position.country_codes = Some(vec!["dk".to_string()]);
    with_position.initial_position = Some(InitialPosition {
        direction: None,
        x: Some(serde_json::Number::from_f64(1.5).unwrap()),
        y: Some(serde_json::Number::from(7)),
    });
    let team = TeamInfo { id: 4, name: "Reds".to_string(), version: "2".to_string() };
    let mut session = Session::new(with_position, Some(team), true, "k".to_string());
    match session.on_text(&mut bot, SERVER_HANDSHAKE) {
        Outcome::Handshake(frame) => match decode(&frame) {
            Ok(MessageType::BotHandshake(h)) => {
                assert_eq!(h.session_id, "abc");
                assert_eq!(h.secret, Some("k".to_string()));
                assert!(h.is_droid);
                assert_eq!(h.team_id, Some(4));
                assert_eq!(h.team_name, Some("Reds".to_string()));
                assert_eq!(h.team_version, Some("2".to_string()));
                assert_eq!(h.country_codes, Some(vec!["dk".to_string()]));
                let position = h.initial_position.unwrap();
                assert!(position.direction.is_none());
                assert_eq!(position.x.and_then(|n| n.as_f64()), Some(1.5));
                assert_eq!(position.y.and_then(|n| n.as_i64()), Some(7));
            }
            other => panic!("{:?}", other),
        },
        other => panic!("{:?}", other),
    }
}

#[test]
fn anything_before_the_handshake_is_unexpected() {
    let mut bot = Recorder::new();
    let mut session = fresh();
    let early = [
        tick(1),
        "{\"type\":\"RoundStartedEvent\",\"roundNumber\":1}".to_string(),
        "{\"type\":\"GameAbortedEvent\"}".to_string(),
        "{\"type\":\"BotIntent\"}".to_string(),
        "{\"type\":\"Mystery\"}".to_string(),
    ];
    for frame in early.iter() {
        assert_eq!(session.on_text(&mut bot, frame), Outcome::Refused(ProtocolError::UnexpectedMessage));
        assert_eq!(session.phase(), Phase::AwaitingHandshake);
    }
    assert!(bot.turns.is_empty());
    assert_eq!(session.message_log().len(), early.len());
    assert!(matches!(session.on_text(&mut bot, SERVER_HANDSHAKE), Outcome::Handshake(_)));
    assert_eq!(session.phase(), Phase::Active);
}

#[test]
fn second_server_handshake_is_not_answered() {
    let mut bot = Recorder::new();
    let mut session = active(&mut bot);
    assert_eq!(
        session.on_text(&mut bot, SERVER_HANDSHAKE),
        Outcome::Refused(ProtocolError::UnexpectedMessage)
    );
    assert_eq!(session.phase(), Phase::Active);
    assert_eq!(session.message_log().len(), 2);
}

#[test]
fn tick_is_handed_to_the_bot_once_and_its_intent_sent() {
    let mut bot = Recorder::new();
    let mut session = active(&mut bot);
    let outcome = session.on_text(&mut bot, &tick(5));
    assert_eq!(outcome, Outcome::Intent("{\"turnRate\":5.0,\"type\":\"BotIntent\"}".to_string()));
    assert_eq!(bot.turns, vec![5]);
    assert_eq!(session.phase(), Phase::Active);
}

#[test]
fn every_tick_is_answered_in_the_order_of_arrival() {
    let mut bot = Recorder::new();
    let mut session = active(&mut bot);
    let mut sent = Vec::new();
    for turn in 1..=6 {
        match session.on_text(&mut bot, &tick(turn)) {
            Outcome::Intent(frame) => sent.push(frame),
            other => panic!("{:?}", other),
        }
        assert_eq!(bot.turns.len(), turn as usize);
    }
    assert_eq!(bot.turns, vec![1, 2, 3, 4, 5, 6]);
    assert_eq!(sent.len(), 6);
    for (i, frame) in sent.iter().enumerate() {
        assert_eq!(frame, &format!("{{\"turnRate\":{}.0,\"type\":\"BotIntent\"}}", i + 1));
    }
    assert_eq!(session.message_log().len(), 7);
}

#[test]
fn malformed_frame_is_dropped_and_the_session_goes_on() {
    let mut bot = Recorder::new();
    let mut session = active(&mut bot);
    assert_eq!(session.on_text(&mut bot, "not-json"), Outcome::Dropped(DecodeError::Malformed));
    assert_eq!(session.phase(), Phase::Active);
    assert!(!session.is_terminated());
    assert_eq!(session.message_log().len(), 1);
    assert!(matches!(session.on_text(&mut bot, &tick(1)), Outcome::Intent(_)));
}

#[test]
fn unrecognized_message_is_recorded_and_ignored() {
    let mut bot = Recorder::new();
    let mut session = active(&mut bot);
    assert_eq!(session.on_text(&mut bot, "{\"type\":\"Fireworks\",\"n\":3}"), Outcome::Ignored);
    assert_eq!(session.phase(), Phase::Active);
    assert_eq!(session.message_log().len(), 2);
    assert!(matches!(
        &session.message_log()[1],
        MessageType::Unrecognized { discriminator, .. } if discriminator == "Fireworks"
    ));
    assert!(bot.turns.is_empty());
}

#[test]
fn informing_events_are_passed_on_without_an_answer() {
    let mut bot = Recorder::new();
    let mut session = active(&mut bot);
    let results = "{\"bulletDamage\":1,\"bulletKillBonus\":2,\"firstPlaces\":3,\"lastSurvivorBonus\":4,\"ramDamage\":5,\"ramKillBonus\":6,\"rank\":7,\"secondPlaces\":8,\"survival\":9,\"thirdPlaces\":10,\"totalScore\":11}";
    let frames = [
        "{\"type\":\"RoundStartedEvent\",\"roundNumber\":1}".to_string(),
        "{\"type\":\"SkippedTurnEvent\",\"turnNumber\":3}".to_string(),
        format!("{{\"type\":\"RoundEndedEventForBot\",\"results\":{},\"roundNumber\":1,\"turnNumber\":40}}", results),
        format!("{{\"type\":\"GameEndedEventForBot\",\"numberOfRounds\":1,\"results\":{}}}", results),
    ];
    for frame in frames.iter() {
        assert_eq!(session.on_text(&mut bot, frame), Outcome::Notified);
        assert_eq!(session.phase(), Phase::Active);
    }
    assert!(bot.turns.is_empty());
    assert_eq!(session.message_log().len(), 5);
    match &session.message_log()[3] {
        MessageType::RoundEndedEventForBot(e) => {
            assert_eq!(e.results.total_score, 11);
            assert_eq!(e.results.rank, 7);
            assert_eq!(e.turn_number, 40);
        }
        other => panic!("{:?}", other),
    }
}

#[test]
fn messages_for_other_roles_are_unexpected() {
    let mut bot = Recorder::new();
    let mut session = active(&mut bot);
    for frame in [
        "{\"type\":\"BotIntent\"}",
        "{\"type\":\"BotReady\"}",
        "{\"type\":\"GamePausedEventForObserver\"}",
        "{\"type\":\"TpsChangedEvent\",\"tps\":30}",
        "{\"type\":\"WonRoundEvent\",\"turnNumber\":3}",
    ] {
        assert_eq!(session.on_text(&mut bot, frame), Outcome::Refused(ProtocolError::UnexpectedMessage));
        assert_eq!(session.phase(), Phase::Active);
    }
}

#[test]
fn aborted_game_ends_the_session() {
    let mut bot = Recorder::new();
    let mut session = active(&mut bot);
    assert_eq!(session.on_text(&mut bot, "{\"type\":\"GameAbortedEvent\"}"), Outcome::Stopped);
    assert_eq!(session.phase(), Phase::Terminated);
    assert!(session.is_terminated());
    assert_eq!(session.on_text(&mut bot, &tick(1)), Outcome::Refused(ProtocolError::UnexpectedMessage));
    assert!(bot.turns.is_empty());
    assert_eq!(session.phase(), Phase::Terminated);
}

#[test]
fn each_frame_that_holds_a_message_is_logged_once() {
    let mut bot = Recorder::new();
    let mut session = fresh();
    let frames = [
        (tick(1), true),
        ("nonsense".to_string(), false),
        (SERVER_HANDSHAKE.to_string(), true),
        ("{\"type\":\"ChangeTps\"}".to_string(), false),
        (tick(2), true),
        (tick(2), true),
        ("{\"type\":\"New\"}".to_string(), true),
        ("[]".to_string(), false),
    ];
    let mut expected = 0;
    for (frame, holds_message) in frames.iter() {
        session.on_text(&mut bot, frame);
        if *holds_message {
            expected += 1;
        }
        assert_eq!(session.message_log().len(), expected);
    }
    assert_eq!(expected, 5);
    assert!(matches!(session.message_log()[0], MessageType::TickEventForBot(_)));
    assert!(matches!(session.message_log()[1], MessageType::ServerHandshake(_)));
    assert!(matches!(&session.message_log()[2], MessageType::TickEventForBot(t) if t.turn_number == 2));
    assert!(matches!(&session.message_log()[3], MessageType::TickEventForBot(t) if t.turn_number == 2));
    assert!(matches!(session.message_log()[4], MessageType::Unrecognized { .. }));
    assert_eq!(bot.turns, vec![2, 2]);
}

#[test]
fn only_text_frames_carry_messages() {
    let mut bot = Recorder::new();
    let mut session = active(&mut bot);
    assert_eq!(session.on_frame(&mut bot, &Frame::Binary(vec![1, 2, 3])), Outcome::Skipped);
    assert_eq!(session.on_frame(&mut bot, &Frame::Ping(vec![])), Outcome::Skipped);
    assert_eq!(session.on_frame(&mut bot, &Frame::Pong(vec![])), Outcome::Skipped);
    assert_eq!(session.phase(), Phase::Active);
    assert_eq!(session.message_log().len(), 1);
    assert!(matches!(session.on_frame(&mut bot, &Frame::Text(tick(3))), Outcome::Intent(_)));
    assert_eq!(bot.turns, vec![3]);
    assert_eq!(session.message_log().len(), 2);
}

#[test]
fn close_frame_ends_the_session() {
    let mut bot = Recorder::new();
    let mut session = active(&mut bot);
    assert_eq!(
        session.on_frame(&mut bot, &Frame::Close),
        Outcome::Closed(TransportError::ConnectionClosed)
    );
    assert!(session.is_terminated());
    assert_eq!(session.message_log().len(), 1);
}

#[test]
fn failure_and_stop_end_the_session() {
    let mut bot = Recorder::new();
    let mut session = active(&mut bot);
    assert_eq!(session.on_failure(), Outcome::Closed(TransportError::IoFailure));
    assert!(session.is_terminated());
    let mut other = fresh();
    other.stop();
    assert_eq!(other.phase(), Phase::Terminated);
    assert_eq!(
        other.on_text(&mut bot, SERVER_HANDSHAKE),
        Outcome::Refused(ProtocolError::UnexpectedMessage)
    );
}

#[test]
fn table_of_the_protocol() {
    assert_eq!(step(Phase::AwaitingHandshake, Some(Shape::ServerHandshake)), (Phase::Active, Action::SendHandshake));
    assert_eq!(step(Phase::AwaitingHandshake, Some(Shape::TickEventForBot)), (Phase::AwaitingHandshake, Action::Reject));
    assert_eq!(step(Phase::AwaitingHandshake, None), (Phase::AwaitingHandshake, Action::Reject));
    assert_eq!(step(Phase::Active, Some(Shape::TickEventForBot)), (Phase::Active, Action::RunTick));
    assert_eq!(step(Phase::Active, Some(Shape::SkippedTurnEvent)), (Phase::Active, Action::Notify));
    assert_eq!(step(Phase::Active, Some(Shape::RoundStartedEvent)), (Phase::Active, Action::Notify));
    assert_eq!(step(Phase::Active, Some(Shape::RoundEndedEventForBot)), (Phase::Active, Action::Notify));
    assert_eq!(step(Phase::Active, Some(Shape::GameStartedEventForBot)), (Phase::Active, Action::Notify));
    assert_eq!(step(Phase::Active, Some(Shape::GameEndedEventForBot)), (Phase::Active, Action::Notify));
    assert_eq!(step(Phase::Active, Some(Shape::GameAbortedEvent)), (Phase::Terminated, Action::Stop));
    assert_eq!(step(Phase::Active, None), (Phase::Active, Action::Ignore));
    assert_eq!(step(Phase::Active, Some(Shape::ServerHandshake)), (Phase::Active, Action::Reject));
    assert_eq!(step(Phase::Active, Some(Shape::TickEventForObserver)), (Phase::Active, Action::Reject));
    assert_eq!(step(Phase::Terminated, Some(Shape::ServerHandshake)), (Phase::Terminated, Action::Reject));
    assert_eq!(step(Phase::Terminated, None), (Phase::Terminated, Action::Reject));
}
