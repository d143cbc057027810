//! The parts that several messages share: colours, positions, the rules of a
//! game, the states of bots and bullets, score sheets and addresses.

use crate::json::{Json, JsonValue, Members, NumericValue};
use crate::names::Key;
use crate::show::{quote, quoted, Show, show_opt, shown_opt};
use crate::wire::{
    emit,
    emit_opt,
    lemma_put,
    lemma_put_opt,
    opt,
    opt_model,
    optional,
    put,
    put_opt,
    Record,
    req,
    required,
    Wire,
};
use vstd::prelude::*;

verus! {

/// A colour, as the text the wire carries for it.
#[derive(Clone, Debug)]
pub struct Color(pub String);

impl Wire for Color {
    type Model = Seq<char>;

    open spec fn model(&self) -> Seq<char> {
        self.0@
    }

    open spec fn from_tree(t: JsonValue) -> Option<Seq<char>> {
        match t {
            JsonValue::Text(s) => Some(s),
            _ => None,
        }
    }

    open spec fn to_tree(m: Seq<char>) -> JsonValue {
        JsonValue::Text(m)
    }

    fn decode(j: &Json) -> (r: Option<Color>) {
        match j {
            Json::Text(s) => Some(Color(s.clone())),
            _ => None,
        }
    }

    fn encode(&self) -> (j: Json) {
        Json::Text(self.0.clone())
    }

    proof fn round_trip(m: Seq<char>) {
    }
}

impl Show for Color {
    open spec fn shown(m: Seq<char>) -> Seq<char> {
        "Color("@ + quoted(m) + ")"@
    }

    fn show(&self) -> (s: String) {
        let mut s = "Color(".to_owned();
        s.append(quote(self.0.as_str()).as_str());
        s.append(")");
        s
    }
}


/// Where a bot asks to start; each part may be left to the server.
#[derive(Clone, Debug)]
pub struct InitialPosition {
    pub direction: Option<serde_json::Number>,
    pub x: Option<serde_json::Number>,
    pub y: Option<serde_json::Number>,
}

/// What a [`InitialPosition`] stands for.
pub ghost struct InitialPositionModel {
    pub direction: Option<NumericValue>,
    pub x: Option<NumericValue>,
    pub y: Option<NumericValue>,
}

impl Record for InitialPosition {
    type Fields = InitialPositionModel;

    open spec fn fields(&self) -> InitialPositionModel {
        InitialPositionModel {
            direction: opt_model(self.direction),
            x: opt_model(self.x),
            y: opt_model(self.y),
        }
    }

    open spec fn read(members: Members) -> Option<InitialPositionModel> {
        if opt::<serde_json::Number>(members, Key::Direction) is Some
            && opt::<serde_json::Number>(members, Key::X) is Some
            && opt::<serde_json::Number>(members, Key::Y) is Some
        {
            Some(
                InitialPositionModel {
                    direction: opt::<serde_json::Number>(members, Key::Direction)->0,
                    x: opt::<serde_json::Number>(members, Key::X)->0,
                    y: opt::<serde_json::Number>(members, Key::Y)->0,
                },
            )
        } else {
            None
        }
    }

    open spec fn written(base: Members, f: InitialPositionModel) -> Members {
        let base = put_opt::<serde_json::Number>(base, Key::Direction, f.direction);
        let base = put_opt::<serde_json::Number>(base, Key::X, f.x);
        let base = put_opt::<serde_json::Number>(base, Key::Y, f.y);
        base
    }

    fn read_fields(j: &Json) -> (r: Option<InitialPosition>) {
        let direction = optional::<serde_json::Number>(j, Key::Direction)?;
        let x = optional::<serde_json::Number>(j, Key::X)?;
        let y = optional::<serde_json::Number>(j, Key::Y)?;
        Some(InitialPosition { direction, x, y })
    }

    fn write_fields(&self, members: &mut Vec<(String, Json)>) {
        emit_opt::<serde_json::Number>(members, Key::Direction, &self.direction);
        emit_opt::<serde_json::Number>(members, Key::X, &self.x);
        emit_opt::<serde_json::Number>(members, Key::Y, &self.y);
    }

    proof fn lemma_read_written(base: Members, f: InitialPositionModel) {
        let w1 = put_opt::<serde_json::Number>(base, Key::Direction, f.direction);
        lemma_put_opt::<serde_json::Number>(base, Key::Direction, f.direction);
        let w2 = put_opt::<serde_json::Number>(w1, Key::X, f.x);
        lemma_put_opt::<serde_json::Number>(w1, Key::X, f.x);
        let w3 = put_opt::<serde_json::Number>(w2, Key::Y, f.y);
        lemma_put_opt::<serde_json::Number>(w2, Key::Y, f.y);
        assert(w3 == Self::written(base, f));
    }
}

impl Show for InitialPosition {
    open spec fn shown(m: InitialPositionModel) -> Seq<char> {
        "InitialPosition { direction: "@
            + shown_opt::<serde_json::Number>(m.direction)
            + ", x: "@
            + shown_opt::<serde_json::Number>(m.x)
            + ", y: "@
            + shown_opt::<serde_json::Number>(m.y)
            + " }"@
    }

    fn show(&self) -> (s: String) {
        let mut s = "InitialPosition { direction: ".to_owned();
        s.append(show_opt::<serde_json::Number>(&self.direction).as_str());
        s.append(", x: ");
        s.append(show_opt::<serde_json::Number>(&self.x).as_str());
        s.append(", y: ");
        s.append(show_opt::<serde_json::Number>(&self.y).as_str());
        s.append(" }");
        s
    }
}

/// The rules of one game, and which of them the server has locked.
#[derive(Clone, Debug)]
pub struct GameSetup {
    pub arena_height: i32,
    pub arena_width: i32,
    pub default_turns_per_second: i32,
    pub game_type: String,
    pub gun_cooling_rate: serde_json::Number,
    pub is_arena_height_locked: bool,
    pub is_arena_width_locked: bool,
    pub is_gun_cooling_rate_locked: bool,
    pub is_max_inactivity_turns_locked: bool,
    pub is_max_number_of_participants_locked: bool,
    pub is_min_number_of_participants_locked: bool,
    pub is_number_of_rounds_locked: bool,
    pub is_ready_timeout_locked: bool,
    pub is_turn_timeout_locked: bool,
    pub max_inactivity_turns: i32,
    pub max_number_of_participants: Option<i32>,
    pub min_number_of_participants: i32,
    pub number_of_rounds: i32,
    pub ready_timeout: i32,
    pub turn_timeout: i32,
}

/// What a [`GameSetup`] stands for.
pub ghost struct GameSetupModel {
    pub arena_height: i32,
    pub arena_width: i32,
    pub default_turns_per_second: i32,
    pub game_type: Seq<char>,
    pub gun_cooling_rate: NumericValue,
    pub is_arena_height_locked: bool,
    pub is_arena_width_locked: bool,
    pub is_gun_cooling_rate_locked: bool,
    pub is_max_inactivity_turns_locked: bool,
    pub is_max_number_of_participants_locked: bool,
    pub is_min_number_of_participants_locked: bool,
    pub is_number_of_rounds_locked: bool,
    pub is_ready_timeout_locked: bool,
    pub is_turn_timeout_locked: bool,
    pub max_inactivity_turns: i32,
    pub max_number_of_participants: Option<i32>,
    pub min_number_of_participants: i32,
    pub number_of_rounds: i32,
    pub ready_timeout: i32,
    pub turn_timeout: i32,
}

impl Record for GameSetup {
    type Fields = GameSetupModel;

    open spec fn fields(&self) -> GameSetupModel {
        GameSetupModel {
            arena_height: self.arena_height.model(),
            arena_width: self.arena_width.model(),
            default_turns_per_second: self.default_turns_per_second.model(),
            game_type: self.game_type.model(),
            gun_cooling_rate: self.gun_cooling_rate.model(),
            is_arena_height_locked: self.is_arena_height_locked.model(),
            is_arena_width_locked: self.is_arena_width_locked.model(),
            is_gun_cooling_rate_locked: self.is_gun_cooling_rate_locked.model(),
            is_max_inactivity_turns_locked: self.is_max_inactivity_turns_locked.model(),
            is_max_number_of_participants_locked: self.is_max_number_of_participants_locked.model(),
            is_min_number_of_participants_locked: self.is_min_number_of_participants_locked.model(),
            is_number_of_rounds_locked: self.is_number_of_rounds_locked.model(),
            is_ready_timeout_locked: self.is_ready_timeout_locked.model(),
            is_turn_timeout_locked: self.is_turn_timeout_locked.model(),
            max_inactivity_turns: self.max_inactivity_turns.model(),
            max_number_of_participants: opt_model(self.max_number_of_participants),
            min_number_of_participants: self.min_number_of_participants.model(),
            number_of_rounds: self.number_of_rounds.model(),
            ready_timeout: self.ready_timeout.model(),
            turn_timeout: self.turn_timeout.model(),
        }
    }

    open spec fn read(members: Members) -> Option<GameSetupModel> {
        if req::<i32>(members, Key::ArenaHeight) is Some
            && req::<i32>(members, Key::ArenaWidth) is Some
            && req::<i32>(members, Key::DefaultTurnsPerSecond) is Some
            && req::<String>(members, Key::GameType) is Some
            && req::<serde_json::Number>(members, Key::GunCoolingRate) is Some
            && req::<bool>(members, Key::IsArenaHeightLocked) is Some
            && req::<bool>(members, Key::IsArenaWidthLocked) is Some
            && req::<bool>(members, Key::IsGunCoolingRateLocked) is Some
            && req::<bool>(members, Key::IsMaxInactivityTurnsLocked) is Some
            && req::<bool>(members, Key::IsMaxNumberOfParticipantsLocked) is Some
            && req::<bool>(members, Key::IsMinNumberOfParticipantsLocked) is Some
            && req::<bool>(members, Key::IsNumberOfRoundsLocked) is Some
            && req::<bool>(members, Key::IsReadyTimeoutLocked) is Some
            && req::<bool>(members, Key::IsTurnTimeoutLocked) is Some
            && req::<i32>(members, Key::MaxInactivityTurns) is Some
            && opt::<i32>(members, Key::MaxNumberOfParticipants) is Some
            && req::<i32>(members, Key::MinNumberOfParticipants) is Some
            && req::<i32>(members, Key::NumberOfRounds) is Some
            && req::<i32>(members, Key::ReadyTimeout) is Some
            && req::<i32>(members, Key::TurnTimeout) is Some
        {
            Some(
                GameSetupModel {
                    arena_height: req::<i32>(members, Key::ArenaHeight)->0,
                    arena_width: req::<i32>(members, Key::ArenaWidth)->0,
                    default_turns_per_second: req::<i32>(members, Key::DefaultTurnsPerSecond)->0,
                    game_type: req::<String>(members, Key::GameType)->0,
                    gun_cooling_rate: req::<serde_json::Number>(members, Key::GunCoolingRate)->0,
                    is_arena_height_locked: req::<bool>(members, Key::IsArenaHeightLocked)->0,
                    is_arena_width_locked: req::<bool>(members, Key::IsArenaWidthLocked)->0,
                    is_gun_cooling_rate_locked: req::<bool>(
                        members,
                        Key::IsGunCoolingRateLocked,
                    )->0,
                    is_max_inactivity_turns_locked: req::<bool>(
                        members,
                        Key::IsMaxInactivityTurnsLocked,
                    )->0,
                    is_max_number_of_participants_locked: req::<bool>(
                        members,
                        Key::IsMaxNumberOfParticipantsLocked,
                    )->0,
                    is_min_number_of_participants_locked: req::<bool>(
                        members,
                        Key::IsMinNumberOfParticipantsLocked,
                    )->0,
                    is_number_of_rounds_locked: req::<bool>(
                        members,
                        Key::IsNumberOfRoundsLocked,
                    )->0,
                    is_ready_timeout_locked: req::<bool>(members, Key::IsReadyTimeoutLocked)->0,
                    is_turn_timeout_locked: req::<bool>(members, Key::IsTurnTimeoutLocked)->0,
                    max_inactivity_turns: req::<i32>(members, Key::MaxInactivityTurns)->0,
                    max_number_of_participants: opt::<i32>(
                        members,
                        Key::MaxNumberOfParticipants,
                    )->0,
                    min_number_of_participants: req::<i32>(
                        members,
                        Key::MinNumberOfParticipants,
                    )->0,
                    number_of_rounds: req::<i32>(members, Key::NumberOfRounds)->0,
                    ready_timeout: req::<i32>(members, Key::ReadyTimeout)->0,
                    turn_timeout: req::<i32>(members, Key::TurnTimeout)->0,
                },
            )
        } else {
            None
        }
    }

    open spec fn written(base: Members, f: GameSetupModel) -> Members {
        let base = put::<i32>(base, Key::ArenaHeight, f.arena_height);
        let base = put::<i32>(base, Key::ArenaWidth, f.arena_width);
        let base = put::<i32>(base, Key::DefaultTurnsPerSecond, f.default_turns_per_second);
        let base = put::<String>(base, Key::GameType, f.game_type);
        let base = put::<serde_json::Number>(base, Key::GunCoolingRate, f.gun_cooling_rate);
        let base = put::<bool>(base, Key::IsArenaHeightLocked, f.is_arena_height_locked);
        let base = put::<bool>(base, Key::IsArenaWidthLocked, f.is_arena_width_locked);
        let base = put::<bool>(base, Key::IsGunCoolingRateLocked, f.is_gun_cooling_rate_locked);
        let base = put::<bool>(
            base,
            Key::IsMaxInactivityTurnsLocked,
            f.is_max_inactivity_turns_locked,
        );
        let base = put::<bool>(
            base,
            Key::IsMaxNumberOfParticipantsLocked,
            f.is_max_number_of_participants_locked,
        );
        let base = put::<bool>(
            base,
            Key::IsMinNumberOfParticipantsLocked,
            f.is_min_number_of_participants_locked,
        );
        let base = put::<bool>(base, Key::IsNumberOfRoundsLocked, f.is_number_of_rounds_locked);
        let base = put::<bool>(base, Key::IsReadyTimeoutLocked, f.is_ready_timeout_locked);
        let base = put::<bool>(base, Key::IsTurnTimeoutLocked, f.is_turn_timeout_locked);
        let base = put::<i32>(base, Key::MaxInactivityTurns, f.max_inactivity_turns);
        let base = put_opt::<i32>(base, Key::MaxNumberOfParticipants, f.max_number_of_participants);
        let base = put::<i32>(base, Key::MinNumberOfParticipants, f.min_number_of_participants);
        let base = put::<i32>(base, Key::NumberOfRounds, f.number_of_rounds);
        let base = put::<i32>(base, Key::ReadyTimeout, f.ready_timeout);
        let base = put::<i32>(base, Key::TurnTimeout, f.turn_timeout);
        base
    }

    fn read_fields(j: &Json) -> (r: Option<GameSetup>) {
        let arena_height = required::<i32>(j, Key::ArenaHeight)?;
        let arena_width = required::<i32>(j, Key::ArenaWidth)?;
        let default_turns_per_second = required::<i32>(j, Key::DefaultTurnsPerSecond)?;
        let game_type = required::<String>(j, Key::GameType)?;
        let gun_cooling_rate = required::<serde_json::Number>(j, Key::GunCoolingRate)?;
        let is_arena_height_locked = required::<bool>(j, Key::IsArenaHeightLocked)?;
        let is_arena_width_locked = required::<bool>(j, Key::IsArenaWidthLocked)?;
        let is_gun_cooling_rate_locked = required::<bool>(j, Key::IsGunCoolingRateLocked)?;
        let is_max_inactivity_turns_locked = required::<bool>(j, Key::IsMaxInactivityTurnsLocked)?;
        let is_max_number_of_participants_locked = required::<bool>(
            j,
            Key::IsMaxNumberOfParticipantsLocked,
        )?;
        let is_min_number_of_participants_locked = required::<bool>(
            j,
            Key::IsMinNumberOfParticipantsLocked,
        )?;
        let is_number_of_rounds_locked = required::<bool>(j, Key::IsNumberOfRoundsLocked)?;
        let is_ready_timeout_locked = required::<bool>(j, Key::IsReadyTimeoutLocked)?;
        let is_turn_timeout_locked = required::<bool>(j, Key::IsTurnTimeoutLocked)?;
        let max_inactivity_turns = required::<i32>(j, Key::MaxInactivityTurns)?;
        let max_number_of_participants = optional::<i32>(j, Key::MaxNumberOfParticipants)?;
        let min_number_of_participants = required::<i32>(j, Key::MinNumberOfParticipants)?;
        let number_of_rounds = required::<i32>(j, Key::NumberOfRounds)?;
        let ready_timeout = required::<i32>(j, Key::ReadyTimeout)?;
        let turn_timeout = required::<i32>(j, Key::TurnTimeout)?;
        Some(GameSetup {
            arena_height,
            arena_width,
            default_turns_per_second,
            game_type,
            gun_cooling_rate,
            is_arena_height_locked,
            is_arena_width_locked,
            is_gun_cooling_rate_locked,
            is_max_inactivity_turns_locked,
            is_max_number_of_participants_locked,
            is_min_number_of_participants_locked,
            is_number_of_rounds_locked,
            is_ready_timeout_locked,
            is_turn_timeout_locked,
            max_inactivity_turns,
            max_number_of_participants,
            min_number_of_participants,
            number_of_rounds,
            ready_timeout,
            turn_timeout,
        })
    }

    fn write_fields(&self, members: &mut Vec<(String, Json)>) {
        emit::<i32>(members, Key::ArenaHeight, &self.arena_height);
        emit::<i32>(members, Key::ArenaWidth, &self.arena_width);
        emit::<i32>(members, Key::DefaultTurnsPerSecond, &self.default_turns_per_second);
        emit::<String>(members, Key::GameType, &self.game_type);
        emit::<serde_json::Number>(members, Key::GunCoolingRate, &self.gun_cooling_rate);
        emit::<bool>(members, Key::IsArenaHeightLocked, &self.is_arena_height_locked);
        emit::<bool>(members, Key::IsArenaWidthLocked, &self.is_arena_width_locked);
        emit::<bool>(members, Key::IsGunCoolingRateLocked, &self.is_gun_cooling_rate_locked);
        emit::<bool>(
            members,
            Key::IsMaxInactivityTurnsLocked,
            &self.is_max_inactivity_turns_locked,
        );
        emit::<bool>(
            members,
            Key::IsMaxNumberOfParticipantsLocked,
            &self.is_max_number_of_participants_locked,
        );
        emit::<bool>(
            members,
            Key::IsMinNumberOfParticipantsLocked,
            &self.is_min_number_of_participants_locked,
        );
        emit::<bool>(members, Key::IsNumberOfRoundsLocked, &self.is_number_of_rounds_locked);
        emit::<bool>(members, Key::IsReadyTimeoutLocked, &self.is_ready_timeout_locked);
        emit::<bool>(members, Key::IsTurnTimeoutLocked, &self.is_turn_timeout_locked);
        emit::<i32>(members, Key::MaxInactivityTurns, &self.max_inactivity_turns);
        emit_opt::<i32>(members, Key::MaxNumberOfParticipants, &self.max_number_of_participants);
        emit::<i32>(members, Key::MinNumberOfParticipants, &self.min_number_of_participants);
        emit::<i32>(members, Key::NumberOfRounds, &self.number_of_rounds);
        emit::<i32>(members, Key::ReadyTimeout, &self.ready_timeout);
        emit::<i32>(members, Key::TurnTimeout, &self.turn_timeout);
    }

    proof fn lemma_read_written(base: Members, f: GameSetupModel) {
        let w1 = put::<i32>(base, Key::ArenaHeight, f.arena_height);
        lemma_put::<i32>(base, Key::ArenaHeight, f.arena_height);
        let w2 = put::<i32>(w1, Key::ArenaWidth, f.arena_width);
        lemma_put::<i32>(w1, Key::ArenaWidth, f.arena_width);
        let w3 = put::<i32>(w2, Key::DefaultTurnsPerSecond, f.default_turns_per_second);
        lemma_put::<i32>(w2, Key::DefaultTurnsPerSecond, f.default_turns_per_second);
        let w4 = put::<String>(w3, Key::GameType, f.game_type);
        lemma_put::<String>(w3, Key::GameType, f.game_type);
        let w5 = put::<serde_json::Number>(w4, Key::GunCoolingRate, f.gun_cooling_rate);
        lemma_put::<serde_json::Number>(w4, Key::GunCoolingRate, f.gun_cooling_rate);
        let w6 = put::<bool>(w5, Key::IsArenaHeightLocked, f.is_arena_height_locked);
        lemma_put::<bool>(w5, Key::IsArenaHeightLocked, f.is_arena_height_locked);
        let w7 = put::<bool>(w6, Key::IsArenaWidthLocked, f.is_arena_width_locked);
        lemma_put::<bool>(w6, Key::IsArenaWidthLocked, f.is_arena_width_locked);
        let w8 = put::<bool>(w7, Key::IsGunCoolingRateLocked, f.is_gun_cooling_rate_locked);
        lemma_put::<bool>(w7, Key::IsGunCoolingRateLocked, f.is_gun_cooling_rate_locked);
        let w9 = put::<bool>(w8, Key::IsMaxInactivityTurnsLocked, f.is_max_inactivity_turns_locked);
        lemma_put::<bool>(w8, Key::IsMaxInactivityTurnsLocked, f.is_max_inactivity_turns_locked);
        let w10 = put::<bool>(
            w9,
            Key::IsMaxNumberOfParticipantsLocked,
            f.is_max_number_of_participants_locked,
        );
        lemma_put::<bool>(
            w9,
            Key::IsMaxNumberOfParticipantsLocked,
            f.is_max_number_of_participants_locked,
        );
        let w11 = put::<bool>(
            w10,
            Key::IsMinNumberOfParticipantsLocked,
            f.is_min_number_of_participants_locked,
        );
        lemma_put::<bool>(
            w10,
            Key::IsMinNumberOfParticipantsLocked,
            f.is_min_number_of_participants_locked,
        );
        let w12 = put::<bool>(w11, Key::IsNumberOfRoundsLocked, f.is_number_of_rounds_locked);
        lemma_put::<bool>(w11, Key::IsNumberOfRoundsLocked, f.is_number_of_rounds_locked);
        let w13 = put::<bool>(w12, Key::IsReadyTimeoutLocked, f.is_ready_timeout_locked);
        lemma_put::<bool>(w12, Key::IsReadyTimeoutLocked, f.is_ready_timeout_locked);
        let w14 = put::<bool>(w13, Key::IsTurnTimeoutLocked, f.is_turn_timeout_locked);
        lemma_put::<bool>(w13, Key::IsTurnTimeoutLocked, f.is_turn_timeout_locked);
        let w15 = put::<i32>(w14, Key::MaxInactivityTurns, f.max_inactivity_turns);
        lemma_put::<i32>(w14, Key::MaxInactivityTurns, f.max_inactivity_turns);
        let w16 = put_opt::<i32>(w15, Key::MaxNumberOfParticipants, f.max_number_of_participants);
        lemma_put_opt::<i32>(w15, Key::MaxNumberOfParticipants, f.max_number_of_participants);
        let w17 = put::<i32>(w16, Key::MinNumberOfParticipants, f.min_number_of_participants);
        lemma_put::<i32>(w16, Key::MinNumberOfParticipants, f.min_number_of_participants);
        let w18 = put::<i32>(w17, Key::NumberOfRounds, f.number_of_rounds);
        lemma_put::<i32>(w17, Key::NumberOfRounds, f.number_of_rounds);
        let w19 = put::<i32>(w18, Key::ReadyTimeout, f.ready_timeout);
        lemma_put::<i32>(w18, Key::ReadyTimeout, f.ready_timeout);
        let w20 = put::<i32>(w19, Key::TurnTimeout, f.turn_timeout);
        lemma_put::<i32>(w19, Key::TurnTimeout, f.turn_timeout);
        assert(w20 == Self::written(base, f));
    }
}

impl Show for GameSetup {
    open spec fn shown(m: GameSetupModel) -> Seq<char> {
        "GameSetup { arena_height: "@
            + i32::shown(m.arena_height)
            + ", arena_width: "@
            + i32::shown(m.arena_width)
            + ", default_turns_per_second: "@
            + i32::shown(m.default_turns_per_second)
            + ", game_type: "@
            + String::shown(m.game_type)
            + ", gun_cooling_rate: "@
            + <serde_json::Number as Show>::shown(m.gun_cooling_rate)
            + ", is_arena_height_locked: "@
            + bool::shown(m.is_arena_height_locked)
            + ", is_arena_width_locked: "@
            + bool::shown(m.is_arena_width_locked)
            + ", is_gun_cooling_rate_locked: "@
            + bool::shown(m.is_gun_cooling_rate_locked)
            + ", is_max_inactivity_turns_locked: "@
            + bool::shown(m.is_max_inactivity_turns_locked)
            + ", is_max_number_of_participants_locked: "@
            + bool::shown(m.is_max_number_of_participants_locked)
            + ", is_min_number_of_participants_locked: "@
            + bool::shown(m.is_min_number_of_participants_locked)
            + ", is_number_of_rounds_locked: "@
            + bool::shown(m.is_number_of_rounds_locked)
            + ", is_ready_timeout_locked: "@
            + bool::shown(m.is_ready_timeout_locked)
            + ", is_turn_timeout_locked: "@
            + bool::shown(m.is_turn_timeout_locked)
            + ", max_inactivity_turns: "@
            + i32::shown(m.max_inactivity_turns)
            + ", max_number_of_participants: "@
            + shown_opt::<i32>(m.max_number_of_participants)
            + ", min_number_of_participants: "@
            + i32::shown(m.min_number_of_participants)
            + ", number_of_rounds: "@
            + i32::shown(m.number_of_rounds)
            + ", ready_timeout: "@
            + i32::shown(m.ready_timeout)
            + ", turn_timeout: "@
            + i32::shown(m.turn_timeout)
            + " }"@
    }

    fn show(&self) -> (s: String) {
        let mut s = "GameSetup { arena_height: ".to_owned();
        s.append(self.arena_height.show().as_str());
        s.append(", arena_width: ");
        s.append(self.arena_width.show().as_str());
        s.append(", default_turns_per_second: ");
        s.append(self.default_turns_per_second.show().as_str());
        s.append(", game_type: ");
        s.append(self.game_type.show().as_str());
        s.append(", gun_cooling_rate: ");
        s.append(self.gun_cooling_rate.show().as_str());
        s.append(", is_arena_height_locked: ");
        s.append(self.is_arena_height_locked.show().as_str());
        s.append(", is_arena_width_locked: ");
        s.append(self.is_arena_width_locked.show().as_str());
        s.append(", is_gun_cooling_rate_locked: ");
        s.append(self.is_gun_cooling_rate_locked.show().as_str());
        s.append(", is_max_inactivity_turns_locked: ");
        s.append(self.is_max_inactivity_turns_locked.show().as_str());
        s.append(", is_max_number_of_participants_locked: ");
        s.append(self.is_max_number_of_participants_locked.show().as_str());
        s.append(", is_min_number_of_participants_locked: ");
        s.append(self.is_min_number_of_participants_locked.show().as_str());
        s.append(", is_number_of_rounds_locked: ");
        s.append(self.is_number_of_rounds_locked.show().as_str());
        s.append(", is_ready_timeout_locked: ");
        s.append(self.is_ready_timeout_locked.show().as_str());
        s.append(", is_turn_timeout_locked: ");
        s.append(self.is_turn_timeout_locked.show().as_str());
        s.append(", max_inactivity_turns: ");
        s.append(self.max_inactivity_turns.show().as_str());
        s.append(", max_number_of_participants: ");
        s.append(show_opt::<i32>(&self.max_number_of_participants).as_str());
        s.append(", min_number_of_participants: ");
        s.append(self.min_number_of_participants.show().as_str());
        s.append(", number_of_rounds: ");
        s.append(self.number_of_rounds.show().as_str());
        s.append(", ready_timeout: ");
        s.append(self.ready_timeout.show().as_str());
        s.append(", turn_timeout: ");
        s.append(self.turn_timeout.show().as_str());
        s.append(" }");
        s
    }
}

/// A bot's own state at one turn.
#[derive(Clone, Debug)]
pub struct BotState {
    pub body_color: Option<Color>,
    pub bullet_color: Option<Color>,
    pub direction: serde_json::Number,
    pub energy: serde_json::Number,
    pub gun_color: Option<Color>,
    pub gun_direction: serde_json::Number,
    pub gun_heat: serde_json::Number,
    pub gun_turn_rate: serde_json::Number,
    pub is_droid: bool,
    pub radar_color: Option<Color>,
    pub radar_direction: serde_json::Number,
    pub radar_sweep: serde_json::Number,
    pub radar_turn_rate: serde_json::Number,
    pub scan_color: Option<Color>,
    pub speed: serde_json::Number,
    pub tracks_color: Option<Color>,
    pub turn_rate: serde_json::Number,
    pub turret_color: Option<Color>,
    pub x: serde_json::Number,
    pub y: serde_json::Number,
}

/// What a [`BotState`] stands for.
pub ghost struct BotStateModel {
    pub body_color: Option<Seq<char>>,
    pub bullet_color: Option<Seq<char>>,
    pub direction: NumericValue,
    pub energy: NumericValue,
    pub gun_color: Option<Seq<char>>,
    pub gun_direction: NumericValue,
    pub gun_heat: NumericValue,
    pub gun_turn_rate: NumericValue,
    pub is_droid: bool,
    pub radar_color: Option<Seq<char>>,
    pub radar_direction: NumericValue,
    pub radar_sweep: NumericValue,
    pub radar_turn_rate: NumericValue,
    pub scan_color: Option<Seq<char>>,
    pub speed: NumericValue,
    pub tracks_color: Option<Seq<char>>,
    pub turn_rate: NumericValue,
    pub turret_color: Option<Seq<char>>,
    pub x: NumericValue,
    pub y: NumericValue,
}

impl Record for BotState {
    type Fields = BotStateModel;

    open spec fn fields(&self) -> BotStateModel {
        BotStateModel {
            body_color: opt_model(self.body_color),
            bullet_color: opt_model(self.bullet_color),
            direction: self.direction.model(),
            energy: self.energy.model(),
            gun_color: opt_model(self.gun_color),
            gun_direction: self.gun_direction.model(),
            gun_heat: self.gun_heat.model(),
            gun_turn_rate: self.gun_turn_rate.model(),
            is_droid: self.is_droid.model(),
            radar_color: opt_model(self.radar_color),
            radar_direction: self.radar_direction.model(),
            radar_sweep: self.radar_sweep.model(),
            radar_turn_rate: self.radar_turn_rate.model(),
            scan_color: opt_model(self.scan_color),
            speed: self.speed.model(),
            tracks_color: opt_model(self.tracks_color),
            turn_rate: self.turn_rate.model(),
            turret_color: opt_model(self.turret_color),
            x: self.x.model(),
            y: self.y.model(),
        }
    }

    open spec fn read(members: Members) -> Option<BotStateModel> {
        if opt::<Color>(members, Key::BodyColor) is Some
            && opt::<Color>(members, Key::BulletColor) is Some
            && req::<serde_json::Number>(members, Key::Direction) is Some
            && req::<serde_json::Number>(members, Key::Energy) is Some
            && opt::<Color>(members, Key::GunColor) is Some
            && req::<serde_json::Number>(members, Key::GunDirection) is Some
            && req::<serde_json::Number>(members, Key::GunHeat) is Some
            && req::<serde_json::Number>(members, Key::GunTurnRate) is Some
            && req::<bool>(members, Key::IsDroid) is Some
            && opt::<Color>(members, Key::RadarColor) is Some
            && req::<serde_json::Number>(members, Key::RadarDirection) is Some
            && req::<serde_json::Number>(members, Key::RadarSweep) is Some
            && req::<serde_json::Number>(members, Key::RadarTurnRate) is Some
            && opt::<Color>(members, Key::ScanColor) is Some
            && req::<serde_json::Number>(members, Key::Speed) is Some
            && opt::<Color>(members, Key::TracksColor) is Some
            && req::<serde_json::Number>(members, Key::TurnRate) is Some
            && opt::<Color>(members, Key::TurretColor) is Some
            && req::<serde_json::Number>(members, Key::X) is Some
            && req::<serde_json::Number>(members, Key::Y) is Some
        {
            Some(
                BotStateModel {
                    body_color: opt::<Color>(members, Key::BodyColor)->0,
                    bullet_color: opt::<Color>(members, Key::BulletColor)->0,
                    direction: req::<serde_json::Number>(members, Key::Direction)->0,
                    energy: req::<serde_json::Number>(members, Key::Energy)->0,
                    gun_color: opt::<Color>(members, Key::GunColor)->0,
                    gun_direction: req::<serde_json::Number>(members, Key::GunDirection)->0,
                    gun_heat: req::<serde_json::Number>(members, Key::GunHeat)->0,
                    gun_turn_rate: req::<serde_json::Number>(members, Key::GunTurnRate)->0,
                    is_droid: req::<bool>(members, Key::IsDroid)->0,
                    radar_color: opt::<Color>(members, Key::RadarColor)->0,
                    radar_direction: req::<serde_json::Number>(members, Key::RadarDirection)->0,
                    radar_sweep: req::<serde_json::Number>(members, Key::RadarSweep)->0,
                    radar_turn_rate: req::<serde_json::Number>(members, Key::RadarTurnRate)->0,
                    scan_color: opt::<Color>(members, Key::ScanColor)->0,
                    speed: req::<serde_json::Number>(members, Key::Speed)->0,
                    tracks_color: opt::<Color>(members, Key::TracksColor)->0,
                    turn_rate: req::<serde_json::Number>(members, Key::TurnRate)->0,
                    turret_color: opt::<Color>(members, Key::TurretColor)->0,
                    x: req::<serde_json::Number>(members, Key::X)->0,
                    y: req::<serde_json::Number>(members, Key::Y)->0,
                },
            )
        } else {
            None
        }
    }

    open spec fn written(base: Members, f: BotStateModel) -> Members {
        let base = put_opt::<Color>(base, Key::BodyColor, f.body_color);
        let base = put_opt::<Color>(base, Key::BulletColor, f.bullet_color);
        let base = put::<serde_json::Number>(base, Key::Direction, f.direction);
        let base = put::<serde_json::Number>(base, Key::Energy, f.energy);
        let base = put_opt::<Color>(base, Key::GunColor, f.gun_color);
        let base = put::<serde_json::Number>(base, Key::GunDirection, f.gun_direction);
        let base = put::<serde_json::Number>(base, Key::GunHeat, f.gun_heat);
        let base = put::<serde_json::Number>(base, Key::GunTurnRate, f.gun_turn_rate);
        let base = put::<bool>(base, Key::IsDroid, f.is_droid);
        let base = put_opt::<Color>(base, Key::RadarColor, f.radar_color);
        let base = put::<serde_json::Number>(base, Key::RadarDirection, f.radar_direction);
        let base = put::<serde_json::Number>(base, Key::RadarSweep, f.radar_sweep);
        let base = put::<serde_json::Number>(base, Key::RadarTurnRate, f.radar_turn_rate);
        let base = put_opt::<Color>(base, Key::ScanColor, f.scan_color);
        let base = put::<serde_json::Number>(base, Key::Speed, f.speed);
        let base = put_opt::<Color>(base, Key::TracksColor, f.tracks_color);
        let base = put::<serde_json::Number>(base, Key::TurnRate, f.turn_rate);
        let base = put_opt::<Color>(base, Key::TurretColor, f.turret_color);
        let base = put::<serde_json::Number>(base, Key::X, f.x);
        let base = put::<serde_json::Number>(base, Key::Y, f.y);
        base
    }

    fn read_fields(j: &Json) -> (r: Option<BotState>) {
        let body_color = optional::<Color>(j, Key::BodyColor)?;
        let bullet_color = optional::<Color>(j, Key::BulletColor)?;
        let direction = required::<serde_json::Number>(j, Key::Direction)?;
        let energy = required::<serde_json::Number>(j, Key::Energy)?;
        let gun_color = optional::<Color>(j, Key::GunColor)?;
        let gun_direction = required::<serde_json::Number>(j, Key::GunDirection)?;
        let gun_heat = required::<serde_json::Number>(j, Key::GunHeat)?;
        let gun_turn_rate = required::<serde_json::Number>(j, Key::GunTurnRate)?;
        let is_droid = required::<bool>(j, Key::IsDroid)?;
        let radar_color = optional::<Color>(j, Key::RadarColor)?;
        let radar_direction = required::<serde_json::Number>(j, Key::RadarDirection)?;
        let radar_sweep = required::<serde_json::Number>(j, Key::RadarSweep)?;
        let radar_turn_rate = required::<serde_json::Number>(j, Key::RadarTurnRate)?;
        let scan_color = optional::<Color>(j, Key::ScanColor)?;
        let speed = required::<serde_json::Number>(j, Key::Speed)?;
        let tracks_color = optional::<Color>(j, Key::TracksColor)?;
        let turn_rate = required::<serde_json::Number>(j, Key::TurnRate)?;
        let turret_color = optional::<Color>(j, Key::TurretColor)?;
        let x = required::<serde_json::Number>(j, Key::X)?;
        let y = required::<serde_json::Number>(j, Key::Y)?;
        Some(BotState {
            body_color,
            bullet_color,
            direction,
            energy,
            gun_color,
            gun_direction,
            gun_heat,
            gun_turn_rate,
            is_droid,
            radar_color,
            radar_direction,
            radar_sweep,
            radar_turn_rate,
            scan_color,
            speed,
            tracks_color,
            turn_rate,
            turret_color,
            x,
            y,
        })
    }

    fn write_fields(&self, members: &mut Vec<(String, Json)>) {
        emit_opt::<Color>(members, Key::BodyColor, &self.body_color);
        emit_opt::<Color>(members, Key::BulletColor, &self.bullet_color);
        emit::<serde_json::Number>(members, Key::Direction, &self.direction);
        emit::<serde_json::Number>(members, Key::Energy, &self.energy);
        emit_opt::<Color>(members, Key::GunColor, &self.gun_color);
        emit::<serde_json::Number>(members, Key::GunDirection, &self.gun_direction);
        emit::<serde_json::Number>(members, Key::GunHeat, &self.gun_heat);
        emit::<serde_json::Number>(members, Key::GunTurnRate, &self.gun_turn_rate);
        emit::<bool>(members, Key::IsDroid, &self.is_droid);
        emit_opt::<Color>(members, Key::RadarColor, &self.radar_color);
        emit::<serde_json::Number>(members, Key::RadarDirection, &self.radar_direction);
        emit::<serde_json::Number>(members, Key::RadarSweep, &self.radar_sweep);
        emit::<serde_json::Number>(members, Key::RadarTurnRate, &self.radar_turn_rate);
        emit_opt::<Color>(members, Key::ScanColor, &self.scan_color);
        emit::<serde_json::Number>(members, Key::Speed, &self.speed);
        emit_opt::<Color>(members, Key::TracksColor, &self.tracks_color);
        emit::<serde_json::Number>(members, Key::TurnRate, &self.turn_rate);
        emit_opt::<Color>(members, Key::TurretColor, &self.turret_color);
        emit::<serde_json::Number>(members, Key::X, &self.x);
        emit::<serde_json::Number>(members, Key::Y, &self.y);
    }

    proof fn lemma_read_written(base: Members, f: BotStateModel) {
        let w1 = put_opt::<Color>(base, Key::BodyColor, f.body_color);
        lemma_put_opt::<Color>(base, Key::BodyColor, f.body_color);
        let w2 = put_opt::<Color>(w1, Key::BulletColor, f.bullet_color);
        lemma_put_opt::<Color>(w1, Key::BulletColor, f.bullet_color);
        let w3 = put::<serde_json::Number>(w2, Key::Direction, f.direction);
        lemma_put::<serde_json::Number>(w2, Key::Direction, f.direction);
        let w4 = put::<serde_json::Number>(w3, Key::Energy, f.energy);
        lemma_put::<serde_json::Number>(w3, Key::Energy, f.energy);
        let w5 = put_opt::<Color>(w4, Key::GunColor, f.gun_color);
        lemma_put_opt::<Color>(w4, Key::GunColor, f.gun_color);
        let w6 = put::<serde_json::Number>(w5, Key::GunDirection, f.gun_direction);
        lemma_put::<serde_json::Number>(w5, Key::GunDirection, f.gun_direction);
        let w7 = put::<serde_json::Number>(w6, Key::GunHeat, f.gun_heat);
        lemma_put::<serde_json::Number>(w6, Key::GunHeat, f.gun_heat);
        let w8 = put::<serde_json::Number>(w7, Key::GunTurnRate, f.gun_turn_rate);
        lemma_put::<serde_json::Number>(w7, Key::GunTurnRate, f.gun_turn_rate);
        let w9 = put::<bool>(w8, Key::IsDroid, f.is_droid);
        lemma_put::<bool>(w8, Key::IsDroid, f.is_droid);
        let w10 = put_opt::<Color>(w9, Key::RadarColor, f.radar_color);
        lemma_put_opt::<Color>(w9, Key::RadarColor, f.radar_color);
        let w11 = put::<serde_json::Number>(w10, Key::RadarDirection, f.radar_direction);
        lemma_put::<serde_json::Number>(w10, Key::RadarDirection, f.radar_direction);
        let w12 = put::<serde_json::Number>(w11, Key::RadarSweep, f.radar_sweep);
        lemma_put::<serde_json::Number>(w11, Key::RadarSweep, f.radar_sweep);
        let w13 = put::<serde_json::Number>(w12, Key::RadarTurnRate, f.radar_turn_rate);
        lemma_put::<serde_json::Number>(w12, Key::RadarTurnRate, f.radar_turn_rate);
        let w14 = put_opt::<Color>(w13, Key::ScanColor, f.scan_color);
        lemma_put_opt::<Color>(w13, Key::ScanColor, f.scan_color);
        let w15 = put::<serde_json::Number>(w14, Key::Speed, f.speed);
        lemma_put::<serde_json::Number>(w14, Key::Speed, f.speed);
        let w16 = put_opt::<Color>(w15, Key::TracksColor, f.tracks_color);
        lemma_put_opt::<Color>(w15, Key::TracksColor, f.tracks_color);
        let w17 = put::<serde_json::Number>(w16, Key::TurnRate, f.turn_rate);
        lemma_put::<serde_json::Number>(w16, Key::TurnRate, f.turn_rate);
        let w18 = put_opt::<Color>(w17, Key::TurretColor, f.turret_color);
        lemma_put_opt::<Color>(w17, Key::TurretColor, f.turret_color);
        let w19 = put::<serde_json::Number>(w18, Key::X, f.x);
        lemma_put::<serde_json::Number>(w18, Key::X, f.x);
        let w20 = put::<serde_json::Number>(w19, Key::Y, f.y);
        lemma_put::<serde_json::Number>(w19, Key::Y, f.y);
        assert(w20 == Self::written(base, f));
    }
}

impl Show for BotState {
    open spec fn shown(m: BotStateModel) -> Seq<char> {
        "BotState { body_color: "@
            + shown_opt::<Color>(m.body_color)
            + ", bullet_color: "@
            + shown_opt::<Color>(m.bullet_color)
            + ", direction: "@
            + <serde_json::Number as Show>::shown(m.direction)
            + ", energy: "@
            + <serde_json::Number as Show>::shown(m.energy)
            + ", gun_color: "@
            + shown_opt::<Color>(m.gun_color)
            + ", gun_direction: "@
            + <serde_json::Number as Show>::shown(m.gun_direction)
            + ", gun_heat: "@
            + <serde_json::Number as Show>::shown(m.gun_heat)
            + ", gun_turn_rate: "@
            + <serde_json::Number as Show>::shown(m.gun_turn_rate)
            + ", is_droid: "@
            + bool::shown(m.is_droid)
            + ", radar_color: "@
            + shown_opt::<Color>(m.radar_color)
            + ", radar_direction: "@
            + <serde_json::Number as Show>::shown(m.radar_direction)
            + ", radar_sweep: "@
            + <serde_json::Number as Show>::shown(m.radar_sweep)
            + ", radar_turn_rate: "@
            + <serde_json::Number as Show>::shown(m.radar_turn_rate)
            + ", scan_color: "@
            + shown_opt::<Color>(m.scan_color)
            + ", speed: "@
            + <serde_json::Number as Show>::shown(m.speed)
            + ", tracks_color: "@
            + shown_opt::<Color>(m.tracks_color)
            + ", turn_rate: "@
            + <serde_json::Number as Show>::shown(m.turn_rate)
            + ", turret_color: "@
            + shown_opt::<Color>(m.turret_color)
            + ", x: "@
            + <serde_json::Number as Show>::shown(m.x)
            + ", y: "@
            + <serde_json::Number as Show>::shown(m.y)
            + " }"@
    }

    fn show(&self) -> (s: String) {
        let mut s = "BotState { body_color: ".to_owned();
        s.append(show_opt::<Color>(&self.body_color).as_str());
        s.append(", bullet_color: ");
        s.append(show_opt::<Color>(&self.bullet_color).as_str());
        s.append(", direction: ");
        s.append(self.direction.show().as_str());
        s.append(", energy: ");
        s.append(self.energy.show().as_str());
        s.append(", gun_color: ");
        s.append(show_opt::<Color>(&self.gun_color).as_str());
        s.append(", gun_direction: ");
        s.append(self.gun_direction.show().as_str());
        s.append(", gun_heat: ");
        s.append(self.gun_heat.show().as_str());
        s.append(", gun_turn_rate: ");
        s.append(self.gun_turn_rate.show().as_str());
        s.append(", is_droid: ");
        s.append(self.is_droid.show().as_str());
        s.append(", radar_color: ");
        s.append(show_opt::<Color>(&self.radar_color).as_str());
        s.append(", radar_direction: ");
        s.append(self.radar_direction.show().as_str());
        s.append(", radar_sweep: ");
        s.append(self.radar_sweep.show().as_str());
        s.append(", radar_turn_rate: ");
        s.append(self.radar_turn_rate.show().as_str());
        s.append(", scan_color: ");
        s.append(show_opt::<Color>(&self.scan_color).as_str());
        s.append(", speed: ");
        s.append(self.speed.show().as_str());
        s.append(", tracks_color: ");
        s.append(show_opt::<Color>(&self.tracks_color).as_str());
        s.append(", turn_rate: ");
        s.append(self.turn_rate.show().as_str());
        s.append(", turret_color: ");
        s.append(show_opt::<Color>(&self.turret_color).as_str());
        s.append(", x: ");
        s.append(self.x.show().as_str());
        s.append(", y: ");
        s.append(self.y.show().as_str());
        s.append(" }");
        s
    }
}

/// What an observer is told of one bot at one turn.
#[derive(Clone, Debug)]
pub struct BotStateWithId {
    pub id: i32,
    pub session_id: String,
    pub stderr: Option<String>,
    pub stdout: Option<String>,
}

/// What a [`BotStateWithId`] stands for.
pub ghost struct BotStateWithIdModel {
    pub id: i32,
    pub session_id: Seq<char>,
    pub stderr: Option<Seq<char>>,
    pub stdout: Option<Seq<char>>,
}

impl Record for BotStateWithId {
    type Fields = BotStateWithIdModel;

    open spec fn fields(&self) -> BotStateWithIdModel {
        BotStateWithIdModel {
            id: self.id.model(),
            session_id: self.session_id.model(),
            stderr: opt_model(self.stderr),
            stdout: opt_model(self.stdout),
        }
    }

    open spec fn read(members: Members) -> Option<BotStateWithIdModel> {
        if req::<i32>(members, Key::Id) is Some
            && req::<String>(members, Key::SessionId) is Some
            && opt::<String>(members, Key::Stderr) is Some
            && opt::<String>(members, Key::Stdout) is Some
        {
            Some(
                BotStateWithIdModel {
                    id: req::<i32>(members, Key::Id)->0,
                    session_id: req::<String>(members, Key::SessionId)->0,
                    stderr: opt::<String>(members, Key::Stderr)->0,
                    stdout: opt::<String>(members, Key::Stdout)->0,
                },
            )
        } else {
            None
        }
    }

    open spec fn written(base: Members, f: BotStateWithIdModel) -> Members {
        let base = put::<i32>(base, Key::Id, f.id);
        let base = put::<String>(base, Key::SessionId, f.session_id);
        let base = put_opt::<String>(base, Key::Stderr, f.stderr);
        let base = put_opt::<String>(base, Key::Stdout, f.stdout);
        base
    }

    fn read_fields(j: &Json) -> (r: Option<BotStateWithId>) {
        let id = required::<i32>(j, Key::Id)?;
        let session_id = required::<String>(j, Key::SessionId)?;
        let stderr = optional::<String>(j, Key::Stderr)?;
        let stdout = optional::<String>(j, Key::Stdout)?;
        Some(BotStateWithId { id, session_id, stderr, stdout })
    }

    fn write_fields(&self, members: &mut Vec<(String, Json)>) {
        emit::<i32>(members, Key::Id, &self.id);
        emit::<String>(members, Key::SessionId, &self.session_id);
        emit_opt::<String>(members, Key::Stderr, &self.stderr);
        emit_opt::<String>(members, Key::Stdout, &self.stdout);
    }

    proof fn lemma_read_written(base: Members, f: BotStateWithIdModel) {
        let w1 = put::<i32>(base, Key::Id, f.id);
        lemma_put::<i32>(base, Key::Id, f.id);
        let w2 = put::<String>(w1, Key::SessionId, f.session_id);
        lemma_put::<String>(w1, Key::SessionId, f.session_id);
        let w3 = put_opt::<String>(w2, Key::Stderr, f.stderr);
        lemma_put_opt::<String>(w2, Key::Stderr, f.stderr);
        let w4 = put_opt::<String>(w3, Key::Stdout, f.stdout);
        lemma_put_opt::<String>(w3, Key::Stdout, f.stdout);
        assert(w4 == Self::written(base, f));
    }
}

impl Show for BotStateWithId {
    open spec fn shown(m: BotStateWithIdModel) -> Seq<char> {
        "BotStateWithId { id: "@
            + i32::shown(m.id)
            + ", session_id: "@
            + String::shown(m.session_id)
            + ", stderr: "@
            + shown_opt::<String>(m.stderr)
            + ", stdout: "@
            + shown_opt::<String>(m.stdout)
            + " }"@
    }

    fn show(&self) -> (s: String) {
        let mut s = "BotStateWithId { id: ".to_owned();
        s.append(self.id.show().as_str());
        s.append(", session_id: ");
        s.append(self.session_id.show().as_str());
        s.append(", stderr: ");
        s.append(show_opt::<String>(&self.stderr).as_str());
        s.append(", stdout: ");
        s.append(show_opt::<String>(&self.stdout).as_str());
        s.append(" }");
        s
    }
}

/// A bullet in flight.
#[derive(Clone, Debug)]
pub struct BulletState {
    pub bullet_id: i32,
    pub color: Color,
    pub direction: serde_json::Number,
    pub owner_id: i32,
    pub power: serde_json::Number,
    pub x: serde_json::Number,
    pub y: serde_json::Number,
}

/// What a [`BulletState`] stands for.
pub ghost struct BulletStateModel {
    pub bullet_id: i32,
    pub color: Seq<char>,
    pub direction: NumericValue,
    pub owner_id: i32,
    pub power: NumericValue,
    pub x: NumericValue,
    pub y: NumericValue,
}

impl Record for BulletState {
    type Fields = BulletStateModel;

    open spec fn fields(&self) -> BulletStateModel {
        BulletStateModel {
            bullet_id: self.bullet_id.model(),
            color: self.color.model(),
            direction: self.direction.model(),
            owner_id: self.owner_id.model(),
            power: self.power.model(),
            x: self.x.model(),
            y: self.y.model(),
        }
    }

    open spec fn read(members: Members) -> Option<BulletStateModel> {
        if req::<i32>(members, Key::BulletId) is Some
            && req::<Color>(members, Key::Color) is Some
            && req::<serde_json::Number>(members, Key::Direction) is Some
            && req::<i32>(members, Key::OwnerId) is Some
            && req::<serde_json::Number>(members, Key::Power) is Some
            && req::<serde_json::Number>(members, Key::X) is Some
            && req::<serde_json::Number>(members, Key::Y) is Some
        {
            Some(
                BulletStateModel {
                    bullet_id: req::<i32>(members, Key::BulletId)->0,
                    color: req::<Color>(members, Key::Color)->0,
                    direction: req::<serde_json::Number>(members, Key::Direction)->0,
                    owner_id: req::<i32>(members, Key::OwnerId)->0,
                    power: req::<serde_json::Number>(members, Key::Power)->0,
                    x: req::<serde_json::Number>(members, Key::X)->0,
                    y: req::<serde_json::Number>(members, Key::Y)->0,
                },
            )
        } else {
            None
        }
    }

    open spec fn written(base: Members, f: BulletStateModel) -> Members {
        let base = put::<i32>(base, Key::BulletId, f.bullet_id);
        let base = put::<Color>(base, Key::Color, f.color);
        let base = put::<serde_json::Number>(base, Key::Direction, f.direction);
        let base = put::<i32>(base, Key::OwnerId, f.owner_id);
        let base = put::<serde_json::Number>(base, Key::Power, f.power);
        let base = put::<serde_json::Number>(base, Key::X, f.x);
        let base = put::<serde_json::Number>(base, Key::Y, f.y);
        base
    }

    fn read_fields(j: &Json) -> (r: Option<BulletState>) {
        let bullet_id = required::<i32>(j, Key::BulletId)?;
        let color = required::<Color>(j, Key::Color)?;
        let direction = required::<serde_json::Number>(j, Key::Direction)?;
        let owner_id = required::<i32>(j, Key::OwnerId)?;
        let power = required::<serde_json::Number>(j, Key::Power)?;
        let x = required::<serde_json::Number>(j, Key::X)?;
        let y = required::<serde_json::Number>(j, Key::Y)?;
        Some(BulletState { bullet_id, color, direction, owner_id, power, x, y })
    }

    fn write_fields(&self, members: &mut Vec<(String, Json)>) {
        emit::<i32>(members, Key::BulletId, &self.bullet_id);
        emit::<Color>(members, Key::Color, &self.color);
        emit::<serde_json::Number>(members, Key::Direction, &self.direction);
        emit::<i32>(members, Key::OwnerId, &self.owner_id);
        emit::<serde_json::Number>(members, Key::Power, &self.power);
        emit::<serde_json::Number>(members, Key::X, &self.x);
        emit::<serde_json::Number>(members, Key::Y, &self.y);
    }

    proof fn lemma_read_written(base: Members, f: BulletStateModel) {
        let w1 = put::<i32>(base, Key::BulletId, f.bullet_id);
        lemma_put::<i32>(base, Key::BulletId, f.bullet_id);
        let w2 = put::<Color>(w1, Key::Color, f.color);
        lemma_put::<Color>(w1, Key::Color, f.color);
        let w3 = put::<serde_json::Number>(w2, Key::Direction, f.direction);
        lemma_put::<serde_json::Number>(w2, Key::Direction, f.direction);
        let w4 = put::<i32>(w3, Key::OwnerId, f.owner_id);
        lemma_put::<i32>(w3, Key::OwnerId, f.owner_id);
        let w5 = put::<serde_json::Number>(w4, Key::Power, f.power);
        lemma_put::<serde_json::Number>(w4, Key::Power, f.power);
        let w6 = put::<serde_json::Number>(w5, Key::X, f.x);
        lemma_put::<serde_json::Number>(w5, Key::X, f.x);
        let w7 = put::<serde_json::Number>(w6, Key::Y, f.y);
        lemma_put::<serde_json::Number>(w6, Key::Y, f.y);
        assert(w7 == Self::written(base, f));
    }
}

impl Show for BulletState {
    open spec fn shown(m: BulletStateModel) -> Seq<char> {
        "BulletState { bullet_id: "@
            + i32::shown(m.bullet_id)
            + ", color: "@
            + Color::shown(m.color)
            + ", direction: "@
            + <serde_json::Number as Show>::shown(m.direction)
            + ", owner_id: "@
            + i32::shown(m.owner_id)
            + ", power: "@
            + <serde_json::Number as Show>::shown(m.power)
            + ", x: "@
            + <serde_json::Number as Show>::shown(m.x)
            + ", y: "@
            + <serde_json::Number as Show>::shown(m.y)
            + " }"@
    }

    fn show(&self) -> (s: String) {
        let mut s = "BulletState { bullet_id: ".to_owned();
        s.append(self.bullet_id.show().as_str());
        s.append(", color: ");
        s.append(self.color.show().as_str());
        s.append(", direction: ");
        s.append(self.direction.show().as_str());
        s.append(", owner_id: ");
        s.append(self.owner_id.show().as_str());
        s.append(", power: ");
        s.append(self.power.show().as_str());
        s.append(", x: ");
        s.append(self.x.show().as_str());
        s.append(", y: ");
        s.append(self.y.show().as_str());
        s.append(" }");
        s
    }
}

/// A bot's own score sheet.
#[derive(Clone, Debug)]
pub struct ResultsForBot {
    pub bullet_damage: i32,
    pub bullet_kill_bonus: i32,
    pub first_places: i32,
    pub last_survivor_bonus: i32,
    pub ram_damage: i32,
    pub ram_kill_bonus: i32,
    pub rank: i32,
    pub second_places: i32,
    pub survival: i32,
    pub third_places: i32,
    pub total_score: i32,
}

/// What a [`ResultsForBot`] stands for.
pub ghost struct ResultsForBotModel {
    pub bullet_damage: i32,
    pub bullet_kill_bonus: i32,
    pub first_places: i32,
    pub last_survivor_bonus: i32,
    pub ram_damage: i32,
    pub ram_kill_bonus: i32,
    pub rank: i32,
    pub second_places: i32,
    pub survival: i32,
    pub third_places: i32,
    pub total_score: i32,
}

impl Record for ResultsForBot {
    type Fields = ResultsForBotModel;

    open spec fn fields(&self) -> ResultsForBotModel {
        ResultsForBotModel {
            bullet_damage: self.bullet_damage.model(),
            bullet_kill_bonus: self.bullet_kill_bonus.model(),
            first_places: self.first_places.model(),
            last_survivor_bonus: self.last_survivor_bonus.model(),
            ram_damage: self.ram_damage.model(),
            ram_kill_bonus: self.ram_kill_bonus.model(),
            rank: self.rank.model(),
            second_places: self.second_places.model(),
            survival: self.survival.model(),
            third_places: self.third_places.model(),
            total_score: self.total_score.model(),
        }
    }

    open spec fn read(members: Members) -> Option<ResultsForBotModel> {
        if req::<i32>(members, Key::BulletDamage) is Some
            && req::<i32>(members, Key::BulletKillBonus) is Some
            && req::<i32>(members, Key::FirstPlaces) is Some
            && req::<i32>(members, Key::LastSurvivorBonus) is Some
            && req::<i32>(members, Key::RamDamage) is Some
            && req::<i32>(members, Key::RamKillBonus) is Some
            && req::<i32>(members, Key::Rank) is Some
            && req::<i32>(members, Key::SecondPlaces) is Some
            && req::<i32>(members, Key::Survival) is Some
            && req::<i32>(members, Key::ThirdPlaces) is Some
            && req::<i32>(members, Key::TotalScore) is Some
        {
            Some(
                ResultsForBotModel {
                    bullet_damage: req::<i32>(members, Key::BulletDamage)->0,
                    bullet_kill_bonus: req::<i32>(members, Key::BulletKillBonus)->0,
                    first_places: req::<i32>(members, Key::FirstPlaces)->0,
                    last_survivor_bonus: req::<i32>(members, Key::LastSurvivorBonus)->0,
                    ram_damage: req::<i32>(members, Key::RamDamage)->0,
                    ram_kill_bonus: req::<i32>(members, Key::RamKillBonus)->0,
                    rank: req::<i32>(members, Key::Rank)->0,
                    second_places: req::<i32>(members, Key::SecondPlaces)->0,
                    survival: req::<i32>(members, Key::Survival)->0,
                    third_places: req::<i32>(members, Key::ThirdPlaces)->0,
                    total_score: req::<i32>(members, Key::TotalScore)->0,
                },
            )
        } else {
            None
        }
    }

    open spec fn written(base: Members, f: ResultsForBotModel) -> Members {
        let base = put::<i32>(base, Key::BulletDamage, f.bullet_damage);
        let base = put::<i32>(base, Key::BulletKillBonus, f.bullet_kill_bonus);
        let base = put::<i32>(base, Key::FirstPlaces, f.first_places);
        let base = put::<i32>(base, Key::LastSurvivorBonus, f.last_survivor_bonus);
        let base = put::<i32>(base, Key::RamDamage, f.ram_damage);
        let base = put::<i32>(base, Key::RamKillBonus, f.ram_kill_bonus);
        let base = put::<i32>(base, Key::Rank, f.rank);
        let base = put::<i32>(base, Key::SecondPlaces, f.second_places);
        let base = put::<i32>(base, Key::Survival, f.survival);
        let base = put::<i32>(base, Key::ThirdPlaces, f.third_places);
        let base = put::<i32>(base, Key::TotalScore, f.total_score);
        base
    }

    fn read_fields(j: &Json) -> (r: Option<ResultsForBot>) {
        let bullet_damage = required::<i32>(j, Key::BulletDamage)?;
        let bullet_kill_bonus = required::<i32>(j, Key::BulletKillBonus)?;
        let first_places = required::<i32>(j, Key::FirstPlaces)?;
        let last_survivor_bonus = required::<i32>(j, Key::LastSurvivorBonus)?;
        let ram_damage = required::<i32>(j, Key::RamDamage)?;
        let ram_kill_bonus = required::<i32>(j, Key::RamKillBonus)?;
        let rank = required::<i32>(j, Key::Rank)?;
        let second_places = required::<i32>(j, Key::SecondPlaces)?;
        let survival = required::<i32>(j, Key::Survival)?;
        let third_places = required::<i32>(j, Key::ThirdPlaces)?;
        let total_score = required::<i32>(j, Key::TotalScore)?;
        Some(ResultsForBot {
            bullet_damage,
            bullet_kill_bonus,
            first_places,
            last_survivor_bonus,
            ram_damage,
            ram_kill_bonus,
            rank,
            second_places,
            survival,
            third_places,
            total_score,
        })
    }

    fn write_fields(&self, members: &mut Vec<(String, Json)>) {
        emit::<i32>(members, Key::BulletDamage, &self.bullet_damage);
        emit::<i32>(members, Key::BulletKillBonus, &self.bullet_kill_bonus);
        emit::<i32>(members, Key::FirstPlaces, &self.first_places);
        emit::<i32>(members, Key::LastSurvivorBonus, &self.last_survivor_bonus);
        emit::<i32>(members, Key::RamDamage, &self.ram_damage);
        emit::<i32>(members, Key::RamKillBonus, &self.ram_kill_bonus);
        emit::<i32>(members, Key::Rank, &self.rank);
        emit::<i32>(members, Key::SecondPlaces, &self.second_places);
        emit::<i32>(members, Key::Survival, &self.survival);
        emit::<i32>(members, Key::ThirdPlaces, &self.third_places);
        emit::<i32>(members, Key::TotalScore, &self.total_score);
    }

    proof fn lemma_read_written(base: Members, f: ResultsForBotModel) {
        let w1 = put::<i32>(base, Key::BulletDamage, f.bullet_damage);
        lemma_put::<i32>(base, Key::BulletDamage, f.bullet_damage);
        let w2 = put::<i32>(w1, Key::BulletKillBonus, f.bullet_kill_bonus);
        lemma_put::<i32>(w1, Key::BulletKillBonus, f.bullet_kill_bonus);
        let w3 = put::<i32>(w2, Key::FirstPlaces, f.first_places);
        lemma_put::<i32>(w2, Key::FirstPlaces, f.first_places);
        let w4 = put::<i32>(w3, Key::LastSurvivorBonus, f.last_survivor_bonus);
        lemma_put::<i32>(w3, Key::LastSurvivorBonus, f.last_survivor_bonus);
        let w5 = put::<i32>(w4, Key::RamDamage, f.ram_damage);
        lemma_put::<i32>(w4, Key::RamDamage, f.ram_damage);
        let w6 = put::<i32>(w5, Key::RamKillBonus, f.ram_kill_bonus);
        lemma_put::<i32>(w5, Key::RamKillBonus, f.ram_kill_bonus);
        let w7 = put::<i32>(w6, Key::Rank, f.rank);
        lemma_put::<i32>(w6, Key::Rank, f.rank);
        let w8 = put::<i32>(w7, Key::SecondPlaces, f.second_places);
        lemma_put::<i32>(w7, Key::SecondPlaces, f.second_places);
        let w9 = put::<i32>(w8, Key::Survival, f.survival);
        lemma_put::<i32>(w8, Key::Survival, f.survival);
        let w10 = put::<i32>(w9, Key::ThirdPlaces, f.third_places);
        lemma_put::<i32>(w9, Key::ThirdPlaces, f.third_places);
        let w11 = put::<i32>(w10, Key::TotalScore, f.total_score);
        lemma_put::<i32>(w10, Key::TotalScore, f.total_score);
        assert(w11 == Self::written(base, f));
    }
}

impl Show for ResultsForBot {
    open spec fn shown(m: ResultsForBotModel) -> Seq<char> {
        "ResultsForBot { bullet_damage: "@
            + i32::shown(m.bullet_damage)
            + ", bullet_kill_bonus: "@
            + i32::shown(m.bullet_kill_bonus)
            + ", first_places: "@
            + i32::shown(m.first_places)
            + ", last_survivor_bonus: "@
            + i32::shown(m.last_survivor_bonus)
            + ", ram_damage: "@
            + i32::shown(m.ram_damage)
            + ", ram_kill_bonus: "@
            + i32::shown(m.ram_kill_bonus)
            + ", rank: "@
            + i32::shown(m.rank)
            + ", second_places: "@
            + i32::shown(m.second_places)
            + ", survival: "@
            + i32::shown(m.survival)
            + ", third_places: "@
            + i32::shown(m.third_places)
            + ", total_score: "@
            + i32::shown(m.total_score)
            + " }"@
    }

    fn show(&self) -> (s: String) {
        let mut s = "ResultsForBot { bullet_damage: ".to_owned();
        s.append(self.bullet_damage.show().as_str());
        s.append(", bullet_kill_bonus: ");
        s.append(self.bullet_kill_bonus.show().as_str());
        s.append(", first_places: ");
        s.append(self.first_places.show().as_str());
        s.append(", last_survivor_bonus: ");
        s.append(self.last_survivor_bonus.show().as_str());
        s.append(", ram_damage: ");
        s.append(self.ram_damage.show().as_str());
        s.append(", ram_kill_bonus: ");
        s.append(self.ram_kill_bonus.show().as_str());
        s.append(", rank: ");
        s.append(self.rank.show().as_str());
        s.append(", second_places: ");
        s.append(self.second_places.show().as_str());
        s.append(", survival: ");
        s.append(self.survival.show().as_str());
        s.append(", third_places: ");
        s.append(self.third_places.show().as_str());
        s.append(", total_score: ");
        s.append(self.total_score.show().as_str());
        s.append(" }");
        s
    }
}

/// One line of the score board shown to observers.
#[derive(Clone, Debug)]
pub struct ResultsForObserver {
    pub id: i32,
    pub name: String,
    pub version: String,
}

/// What a [`ResultsForObserver`] stands for.
pub ghost struct ResultsForObserverModel {
    pub id: i32,
    pub name: Seq<char>,
    pub version: Seq<char>,
}

impl Record for ResultsForObserver {
    type Fields = ResultsForObserverModel;

    open spec fn fields(&self) -> ResultsForObserverModel {
        ResultsForObserverModel {
            id: self.id.model(),
            name: self.name.model(),
            version: self.version.model(),
        }
    }

    open spec fn read(members: Members) -> Option<ResultsForObserverModel> {
        if req::<i32>(members, Key::Id) is Some
            && req::<String>(members, Key::Name) is Some
            && req::<String>(members, Key::Version) is Some
        {
            Some(
                ResultsForObserverModel {
                    id: req::<i32>(members, Key::Id)->0,
                    name: req::<String>(members, Key::Name)->0,
                    version: req::<String>(members, Key::Version)->0,
                },
            )
        } else {
            None
        }
    }

    open spec fn written(base: Members, f: ResultsForObserverModel) -> Members {
        let base = put::<i32>(base, Key::Id, f.id);
        let base = put::<String>(base, Key::Name, f.name);
        let base = put::<String>(base, Key::Version, f.version);
        base
    }

    fn read_fields(j: &Json) -> (r: Option<ResultsForObserver>) {
        let id = required::<i32>(j, Key::Id)?;
        let name = required::<String>(j, Key::Name)?;
        let version = required::<String>(j, Key::Version)?;
        Some(ResultsForObserver { id, name, version })
    }

    fn write_fields(&self, members: &mut Vec<(String, Json)>) {
        emit::<i32>(members, Key::Id, &self.id);
        emit::<String>(members, Key::Name, &self.name);
        emit::<String>(members, Key::Version, &self.version);
    }

    proof fn lemma_read_written(base: Members, f: ResultsForObserverModel) {
        let w1 = put::<i32>(base, Key::Id, f.id);
        lemma_put::<i32>(base, Key::Id, f.id);
        let w2 = put::<String>(w1, Key::Name, f.name);
        lemma_put::<String>(w1, Key::Name, f.name);
        let w3 = put::<String>(w2, Key::Version, f.version);
        lemma_put::<String>(w2, Key::Version, f.version);
        assert(w3 == Self::written(base, f));
    }
}

impl Show for ResultsForObserver {
    open spec fn shown(m: ResultsForObserverModel) -> Seq<char> {
        "ResultsForObserver { id: "@
            + i32::shown(m.id)
            + ", name: "@
            + String::shown(m.name)
            + ", version: "@
            + String::shown(m.version)
            + " }"@
    }

    fn show(&self) -> (s: String) {
        let mut s = "ResultsForObserver { id: ".to_owned();
        s.append(self.id.show().as_str());
        s.append(", name: ");
        s.append(self.name.show().as_str());
        s.append(", version: ");
        s.append(self.version.show().as_str());
        s.append(" }");
        s
    }
}

/// A bot that takes part in a game, as observers see it.
#[derive(Clone, Debug)]
pub struct Participant {
    pub authors: Vec<String>,
    pub country_codes: Vec<String>,
    pub description: String,
    pub game_types: Vec<String>,
    pub homepage: Option<String>,
    pub id: i32,
    pub initial_position: Option<InitialPosition>,
    pub is_droid: bool,
    pub name: String,
    pub platform: String,
    pub programming_lang: String,
    pub session_id: String,
    pub team_id: Option<i32>,
    pub team_name: Option<String>,
    pub team_version: Option<String>,
    pub version: String,
}

/// What a [`Participant`] stands for.
pub ghost struct ParticipantModel {
    pub authors: Seq<Seq<char>>,
    pub country_codes: Seq<Seq<char>>,
    pub description: Seq<char>,
    pub game_types: Seq<Seq<char>>,
    pub homepage: Option<Seq<char>>,
    pub id: i32,
    pub initial_position: Option<InitialPositionModel>,
    pub is_droid: bool,
    pub name: Seq<char>,
    pub platform: Seq<char>,
    pub programming_lang: Seq<char>,
    pub session_id: Seq<char>,
    pub team_id: Option<i32>,
    pub team_name: Option<Seq<char>>,
    pub team_version: Option<Seq<char>>,
    pub version: Seq<char>,
}

impl Record for Participant {
    type Fields = ParticipantModel;

    open spec fn fields(&self) -> ParticipantModel {
        ParticipantModel {
            authors: self.authors.model(),
            country_codes: self.country_codes.model(),
            description: self.description.model(),
            game_types: self.game_types.model(),
            homepage: opt_model(self.homepage),
            id: self.id.model(),
            initial_position: opt_model(self.initial_position),
            is_droid: self.is_droid.model(),
            name: self.name.model(),
            platform: self.platform.model(),
            programming_lang: self.programming_lang.model(),
            session_id: self.session_id.model(),
            team_id: opt_model(self.team_id),
            team_name: opt_model(self.team_name),
            team_version: opt_model(self.team_version),
            version: self.version.model(),
        }
    }

    open spec fn read(members: Members) -> Option<ParticipantModel> {
        if req::<Vec<String>>(members, Key::Authors) is Some
            && req::<Vec<String>>(members, Key::CountryCodes) is Some
            && req::<String>(members, Key::Description) is Some
            && req::<Vec<String>>(members, Key::GameTypes) is Some
            && opt::<String>(members, Key::Homepage) is Some
            && req::<i32>(members, Key::Id) is Some
            && opt::<InitialPosition>(members, Key::InitialPosition) is Some
            && req::<bool>(members, Key::IsDroid) is Some
            && req::<String>(members, Key::Name) is Some
            && req::<String>(members, Key::Platform) is Some
            && req::<String>(members, Key::ProgrammingLang) is Some
            && req::<String>(members, Key::SessionId) is Some
            && opt::<i32>(members, Key::TeamId) is Some
            && opt::<String>(members, Key::TeamName) is Some
            && opt::<String>(members, Key::TeamVersion) is Some
            && req::<String>(members, Key::Version) is Some
        {
            Some(
                ParticipantModel {
                    authors: req::<Vec<String>>(members, Key::Authors)->0,
                    country_codes: req::<Vec<String>>(members, Key::CountryCodes)->0,
                    description: req::<String>(members, Key::Description)->0,
                    game_types: req::<Vec<String>>(members, Key::GameTypes)->0,
                    homepage: opt::<String>(members, Key::Homepage)->0,
                    id: req::<i32>(members, Key::Id)->0,
                    initial_position: opt::<InitialPosition>(members, Key::InitialPosition)->0,
                    is_droid: req::<bool>(members, Key::IsDroid)->0,
                    name: req::<String>(members, Key::Name)->0,
                    platform: req::<String>(members, Key::Platform)->0,
                    programming_lang: req::<String>(members, Key::ProgrammingLang)->0,
                    session_id: req::<String>(members, Key::SessionId)->0,
                    team_id: opt::<i32>(members, Key::TeamId)->0,
                    team_name: opt::<String>(members, Key::TeamName)->0,
                    team_version: opt::<String>(members, Key::TeamVersion)->0,
                    version: req::<String>(members, Key::Version)->0,
                },
            )
        } else {
            None
        }
    }

    open spec fn written(base: Members, f: ParticipantModel) -> Members {
        let base = put::<Vec<String>>(base, Key::Authors, f.authors);
        let base = put::<Vec<String>>(base, Key::CountryCodes, f.country_codes);
        let base = put::<String>(base, Key::Description, f.description);
        let base = put::<Vec<String>>(base, Key::GameTypes, f.game_types);
        let base = put_opt::<String>(base, Key::Homepage, f.homepage);
        let base = put::<i32>(base, Key::Id, f.id);
        let base = put_opt::<InitialPosition>(base, Key::InitialPosition, f.initial_position);
        let base = put::<bool>(base, Key::IsDroid, f.is_droid);
        let base = put::<String>(base, Key::Name, f.name);
        let base = put::<String>(base, Key::Platform, f.platform);
        let base = put::<String>(base, Key::ProgrammingLang, f.programming_lang);
        let base = put::<String>(base, Key::SessionId, f.session_id);
        let base = put_opt::<i32>(base, Key::TeamId, f.team_id);
        let base = put_opt::<String>(base, Key::TeamName, f.team_name);
        let base = put_opt::<String>(base, Key::TeamVersion, f.team_version);
        let base = put::<String>(base, Key::Version, f.version);
        base
    }

    fn read_fields(j: &Json) -> (r: Option<Participant>) {
        let authors = required::<Vec<String>>(j, Key::Authors)?;
        let country_codes = required::<Vec<String>>(j, Key::CountryCodes)?;
        let description = required::<String>(j, Key::Description)?;
        let game_types = required::<Vec<String>>(j, Key::GameTypes)?;
        let homepage = optional::<String>(j, Key::Homepage)?;
        let id = required::<i32>(j, Key::Id)?;
        let initial_position = optional::<InitialPosition>(j, Key::InitialPosition)?;
        let is_droid = required::<bool>(j, Key::IsDroid)?;
        let name = required::<String>(j, Key::Name)?;
        let platform = required::<String>(j, Key::Platform)?;
        let programming_lang = required::<String>(j, Key::ProgrammingLang)?;
        let session_id = required::<String>(j, Key::SessionId)?;
        let team_id = optional::<i32>(j, Key::TeamId)?;
        let team_name = optional::<String>(j, Key::TeamName)?;
        let team_version = optional::<String>(j, Key::TeamVersion)?;
        let version = required::<String>(j, Key::Version)?;
        Some(Participant {
            authors,
            country_codes,
            description,
            game_types,
            homepage,
            id,
            initial_position,
            is_droid,
            name,
            platform,
            programming_lang,
            session_id,
            team_id,
            team_name,
            team_version,
            version,
        })
    }

    fn write_fields(&self, members: &mut Vec<(String, Json)>) {
        emit::<Vec<String>>(members, Key::Authors, &self.authors);
        emit::<Vec<String>>(members, Key::CountryCodes, &self.country_codes);
        emit::<String>(members, Key::Description, &self.description);
        emit::<Vec<String>>(members, Key::GameTypes, &self.game_types);
        emit_opt::<String>(members, Key::Homepage, &self.homepage);
        emit::<i32>(members, Key::Id, &self.id);
        emit_opt::<InitialPosition>(members, Key::InitialPosition, &self.initial_position);
        emit::<bool>(members, Key::IsDroid, &self.is_droid);
        emit::<String>(members, Key::Name, &self.name);
        emit::<String>(members, Key::Platform, &self.platform);
        emit::<String>(members, Key::ProgrammingLang, &self.programming_lang);
        emit::<String>(members, Key::SessionId, &self.session_id);
        emit_opt::<i32>(members, Key::TeamId, &self.team_id);
        emit_opt::<String>(members, Key::TeamName, &self.team_name);
        emit_opt::<String>(members, Key::TeamVersion, &self.team_version);
        emit::<String>(members, Key::Version, &self.version);
    }

    proof fn lemma_read_written(base: Members, f: ParticipantModel) {
        let w1 = put::<Vec<String>>(base, Key::Authors, f.authors);
        lemma_put::<Vec<String>>(base, Key::Authors, f.authors);
        let w2 = put::<Vec<String>>(w1, Key::CountryCodes, f.country_codes);
        lemma_put::<Vec<String>>(w1, Key::CountryCodes, f.country_codes);
        let w3 = put::<String>(w2, Key::Description, f.description);
        lemma_put::<String>(w2, Key::Description, f.description);
        let w4 = put::<Vec<String>>(w3, Key::GameTypes, f.game_types);
        lemma_put::<Vec<String>>(w3, Key::GameTypes, f.game_types);
        let w5 = put_opt::<String>(w4, Key::Homepage, f.homepage);
        lemma_put_opt::<String>(w4, Key::Homepage, f.homepage);
        let w6 = put::<i32>(w5, Key::Id, f.id);
        lemma_put::<i32>(w5, Key::Id, f.id);
        let w7 = put_opt::<InitialPosition>(w6, Key::InitialPosition, f.initial_position);
        lemma_put_opt::<InitialPosition>(w6, Key::InitialPosition, f.initial_position);
        let w8 = put::<bool>(w7, Key::IsDroid, f.is_droid);
        lemma_put::<bool>(w7, Key::IsDroid, f.is_droid);
        let w9 = put::<String>(w8, Key::Name, f.name);
        lemma_put::<String>(w8, Key::Name, f.name);
        let w10 = put::<String>(w9, Key::Platform, f.platform);
        lemma_put::<String>(w9, Key::Platform, f.platform);
        let w11 = put::<String>(w10, Key::ProgrammingLang, f.programming_lang);
        lemma_put::<String>(w10, Key::ProgrammingLang, f.programming_lang);
        let w12 = put::<String>(w11, Key::SessionId, f.session_id);
        lemma_put::<String>(w11, Key::SessionId, f.session_id);
        let w13 = put_opt::<i32>(w12, Key::TeamId, f.team_id);
        lemma_put_opt::<i32>(w12, Key::TeamId, f.team_id);
        let w14 = put_opt::<String>(w13, Key::TeamName, f.team_name);
        lemma_put_opt::<String>(w13, Key::TeamName, f.team_name);
        let w15 = put_opt::<String>(w14, Key::TeamVersion, f.team_version);
        lemma_put_opt::<String>(w14, Key::TeamVersion, f.team_version);
        let w16 = put::<String>(w15, Key::Version, f.version);
        lemma_put::<String>(w15, Key::Version, f.version);
        assert(w16 == Self::written(base, f));
    }
}

impl Show for Participant {
    open spec fn shown(m: ParticipantModel) -> Seq<char> {
        "Participant { authors: "@
            + <Vec<String> as Show>::shown(m.authors)
            + ", country_codes: "@
            + <Vec<String> as Show>::shown(m.country_codes)
            + ", description: "@
            + String::shown(m.description)
            + ", game_types: "@
            + <Vec<String> as Show>::shown(m.game_types)
            + ", homepage: "@
            + shown_opt::<String>(m.homepage)
            + ", id: "@
            + i32::shown(m.id)
            + ", initial_position: "@
            + shown_opt::<InitialPosition>(m.initial_position)
            + ", is_droid: "@
            + bool::shown(m.is_droid)
            + ", name: "@
            + String::shown(m.name)
            + ", platform: "@
            + String::shown(m.platform)
            + ", programming_lang: "@
            + String::shown(m.programming_lang)
            + ", session_id: "@
            + String::shown(m.session_id)
            + ", team_id: "@
            + shown_opt::<i32>(m.team_id)
            + ", team_name: "@
            + shown_opt::<String>(m.team_name)
            + ", team_version: "@
            + shown_opt::<String>(m.team_version)
            + ", version: "@
            + String::shown(m.version)
            + " }"@
    }

    fn show(&self) -> (s: String) {
        let mut s = "Participant { authors: ".to_owned();
        s.append(self.authors.show().as_str());
        s.append(", country_codes: ");
        s.append(self.country_codes.show().as_str());
        s.append(", description: ");
        s.append(self.description.show().as_str());
        s.append(", game_types: ");
        s.append(self.game_types.show().as_str());
        s.append(", homepage: ");
        s.append(show_opt::<String>(&self.homepage).as_str());
        s.append(", id: ");
        s.append(self.id.show().as_str());
        s.append(", initial_position: ");
        s.append(show_opt::<InitialPosition>(&self.initial_position).as_str());
        s.append(", is_droid: ");
        s.append(self.is_droid.show().as_str());
        s.append(", name: ");
        s.append(self.name.show().as_str());
        s.append(", platform: ");
        s.append(self.platform.show().as_str());
        s.append(", programming_lang: ");
        s.append(self.programming_lang.show().as_str());
        s.append(", session_id: ");
        s.append(self.session_id.show().as_str());
        s.append(", team_id: ");
        s.append(show_opt::<i32>(&self.team_id).as_str());
        s.append(", team_name: ");
        s.append(show_opt::<String>(&self.team_name).as_str());
        s.append(", team_version: ");
        s.append(show_opt::<String>(&self.team_version).as_str());
        s.append(", version: ");
        s.append(self.version.show().as_str());
        s.append(" }");
        s
    }
}

/// Where a bot can be reached.
#[derive(Clone, Debug)]
pub struct BotAddress {
    pub host: String,
    pub port: u16,
}

/// What a [`BotAddress`] stands for.
pub ghost struct BotAddressModel {
    pub host: Seq<char>,
    pub port: u16,
}

impl Record for BotAddress {
    type Fields = BotAddressModel;

    open spec fn fields(&self) -> BotAddressModel {
        BotAddressModel {
            host: self.host.model(),
            port: self.port.model(),
        }
    }

    open spec fn read(members: Members) -> Option<BotAddressModel> {
        if req::<String>(members, Key::Host) is Some
            && req::<u16>(members, Key::Port) is Some
        {
            Some(
                BotAddressModel {
                    host: req::<String>(members, Key::Host)->0,
                    port: req::<u16>(members, Key::Port)->0,
                },
            )
        } else {
            None
        }
    }

    open spec fn written(base: Members, f: BotAddressModel) -> Members {
        let base = put::<String>(base, Key::Host, f.host);
        let base = put::<u16>(base, Key::Port, f.port);
        base
    }

    fn read_fields(j: &Json) -> (r: Option<BotAddress>) {
        let host = required::<String>(j, Key::Host)?;
        let port = required::<u16>(j, Key::Port)?;
        Some(BotAddress { host, port })
    }

    fn write_fields(&self, members: &mut Vec<(String, Json)>) {
        emit::<String>(members, Key::Host, &self.host);
        emit::<u16>(members, Key::Port, &self.port);
    }

    proof fn lemma_read_written(base: Members, f: BotAddressModel) {
        let w1 = put::<String>(base, Key::Host, f.host);
        lemma_put::<String>(base, Key::Host, f.host);
        let w2 = put::<u16>(w1, Key::Port, f.port);
        lemma_put::<u16>(w1, Key::Port, f.port);
        assert(w2 == Self::written(base, f));
    }
}

impl Show for BotAddress {
    open spec fn shown(m: BotAddressModel) -> Seq<char> {
        "BotAddress { host: "@ + String::shown(m.host) + ", port: "@ + u16::shown(m.port) + " }"@
    }

    fn show(&self) -> (s: String) {
        let mut s = "BotAddress { host: ".to_owned();
        s.append(self.host.show().as_str());
        s.append(", port: ");
        s.append(self.port.show().as_str());
        s.append(" }");
        s
    }
}

/// The address a bot joined from.
#[derive(Clone, Debug)]
pub struct BotHandshakeInfo {
    pub host: String,
    pub port: u16,
}

/// What a [`BotHandshakeInfo`] stands for.
pub ghost struct BotHandshakeInfoModel {
    pub host: Seq<char>,
    pub port: u16,
}

impl Record for BotHandshakeInfo {
    type Fields = BotHandshakeInfoModel;

    open spec fn fields(&self) -> BotHandshakeInfoModel {
        BotHandshakeInfoModel {
            host: self.host.model(),
            port: self.port.model(),
        }
    }

    open spec fn read(members: Members) -> Option<BotHandshakeInfoModel> {
        if req::<String>(members, Key::Host) is Some
            && req::<u16>(members, Key::Port) is Some
        {
            Some(
                BotHandshakeInfoModel {
                    host: req::<String>(members, Key::Host)->0,
                    port: req::<u16>(members, Key::Port)->0,
                },
            )
        } else {
            None
        }
    }

    open spec fn written(base: Members, f: BotHandshakeInfoModel) -> Members {
        let base = put::<String>(base, Key::Host, f.host);
        let base = put::<u16>(base, Key::Port, f.port);
        base
    }

    fn read_fields(j: &Json) -> (r: Option<BotHandshakeInfo>) {
        let host = required::<String>(j, Key::Host)?;
        let port = required::<u16>(j, Key::Port)?;
        Some(BotHandshakeInfo { host, port })
    }

    fn write_fields(&self, members: &mut Vec<(String, Json)>) {
        emit::<String>(members, Key::Host, &self.host);
        emit::<u16>(members, Key::Port, &self.port);
    }

    proof fn lemma_read_written(base: Members, f: BotHandshakeInfoModel) {
        let w1 = put::<String>(base, Key::Host, f.host);
        lemma_put::<String>(base, Key::Host, f.host);
        let w2 = put::<u16>(w1, Key::Port, f.port);
        lemma_put::<u16>(w1, Key::Port, f.port);
        assert(w2 == Self::written(base, f));
    }
}

impl Show for BotHandshakeInfo {
    open spec fn shown(m: BotHandshakeInfoModel) -> Seq<char> {
        "BotHandshakeInfo { host: "@
            + String::shown(m.host)
            + ", port: "@
            + u16::shown(m.port)
            + " }"@
    }

    fn show(&self) -> (s: String) {
        let mut s = "BotHandshakeInfo { host: ".to_owned();
        s.append(self.host.show().as_str());
        s.append(", port: ");
        s.append(self.port.show().as_str());
        s.append(" }");
        s
    }
}

/// A message from a bot to one team mate, or to all of them.
#[derive(Clone, Debug)]
pub struct TeamMessage {
    pub message: String,
    pub message_type: String,
    pub receiver_id: Option<i32>,
}

/// What a [`TeamMessage`] stands for.
pub ghost struct TeamMessageModel {
    pub message: Seq<char>,
    pub message_type: Seq<char>,
    pub receiver_id: Option<i32>,
}

impl Record for TeamMessage {
    type Fields = TeamMessageModel;

    open spec fn fields(&self) -> TeamMessageModel {
        TeamMessageModel {
            message: self.message.model(),
            message_type: self.message_type.model(),
            receiver_id: opt_model(self.receiver_id),
        }
    }

    open spec fn read(members: Members) -> Option<TeamMessageModel> {
        if req::<String>(members, Key::Message) is Some
            && req::<String>(members, Key::MessageType) is Some
            && opt::<i32>(members, Key::ReceiverId) is Some
        {
            Some(
                TeamMessageModel {
                    message: req::<String>(members, Key::Message)->0,
                    message_type: req::<String>(members, Key::MessageType)->0,
                    receiver_id: opt::<i32>(members, Key::ReceiverId)->0,
                },
            )
        } else {
            None
        }
    }

    open spec fn written(base: Members, f: TeamMessageModel) -> Members {
        let base = put::<String>(base, Key::Message, f.message);
        let base = put::<String>(base, Key::MessageType, f.message_type);
        let base = put_opt::<i32>(base, Key::ReceiverId, f.receiver_id);
        base
    }

    fn read_fields(j: &Json) -> (r: Option<TeamMessage>) {
        let message = required::<String>(j, Key::Message)?;
        let message_type = required::<String>(j, Key::MessageType)?;
        let receiver_id = optional::<i32>(j, Key::ReceiverId)?;
        Some(TeamMessage { message, message_type, receiver_id })
    }

    fn write_fields(&self, members: &mut Vec<(String, Json)>) {
        emit::<String>(members, Key::Message, &self.message);
        emit::<String>(members, Key::MessageType, &self.message_type);
        emit_opt::<i32>(members, Key::ReceiverId, &self.receiver_id);
    }

    proof fn lemma_read_written(base: Members, f: TeamMessageModel) {
        let w1 = put::<String>(base, Key::Message, f.message);
        lemma_put::<String>(base, Key::Message, f.message);
        let w2 = put::<String>(w1, Key::MessageType, f.message_type);
        lemma_put::<String>(w1, Key::MessageType, f.message_type);
        let w3 = put_opt::<i32>(w2, Key::ReceiverId, f.receiver_id);
        lemma_put_opt::<i32>(w2, Key::ReceiverId, f.receiver_id);
        assert(w3 == Self::written(base, f));
    }
}

impl Show for TeamMessage {
    open spec fn shown(m: TeamMessageModel) -> Seq<char> {
        "TeamMessage { message: "@
            + String::shown(m.message)
            + ", message_type: "@
            + String::shown(m.message_type)
            + ", receiver_id: "@
            + shown_opt::<i32>(m.receiver_id)
            + " }"@
    }

    fn show(&self) -> (s: String) {
        let mut s = "TeamMessage { message: ".to_owned();
        s.append(self.message.show().as_str());
        s.append(", message_type: ");
        s.append(self.message_type.show().as_str());
        s.append(", receiver_id: ");
        s.append(show_opt::<i32>(&self.receiver_id).as_str());
        s.append(" }");
        s
    }
}

} // verus!
