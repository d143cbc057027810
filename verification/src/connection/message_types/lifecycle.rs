//! The events that mark the course of a game: games and rounds that start,
//! end or are called off, as bots and as observers are told of them.

use crate::connection::message_types::common::{
    GameSetup,
    GameSetupModel,
    Participant,
    ParticipantModel,
    ResultsForBot,
    ResultsForBotModel,
    ResultsForObserver,
    ResultsForObserverModel,
};
use crate::json::{Json, Members, NumericValue};
use crate::names::Key;
use crate::show::Show;
use crate::wire::{emit, lemma_put, put, Record, req, required, Wire};
use vstd::prelude::*;

verus! {

/// The game was called off.
#[derive(Clone, Debug)]
pub struct GameAbortedEvent {}

/// What a [`GameAbortedEvent`] stands for.
pub ghost struct GameAbortedEventModel {}

impl Record for GameAbortedEvent {
    type Fields = GameAbortedEventModel;

    open spec fn fields(&self) -> GameAbortedEventModel {
        GameAbortedEventModel {}
    }

    open spec fn read(members: Members) -> Option<GameAbortedEventModel> {
        Some(GameAbortedEventModel {})
    }

    open spec fn written(base: Members, f: GameAbortedEventModel) -> Members {
        base
    }

    fn read_fields(j: &Json) -> (r: Option<GameAbortedEvent>) {
        Some(GameAbortedEvent {})
    }

    fn write_fields(&self, members: &mut Vec<(String, Json)>) {
    }

    proof fn lemma_read_written(base: Members, f: GameAbortedEventModel) {
    }
}

impl Show for GameAbortedEvent {
    open spec fn shown(m: GameAbortedEventModel) -> Seq<char> {
        "GameAbortedEvent"@
    }

    fn show(&self) -> (s: String) {
        "GameAbortedEvent".to_owned()
    }
}

/// The game is over; sent to a bot with its own results.
#[derive(Clone, Debug)]
pub struct GameEndedEventForBot {
    pub number_of_rounds: i32,
    pub results: ResultsForBot,
}

/// What a [`GameEndedEventForBot`] stands for.
pub ghost struct GameEndedEventForBotModel {
    pub number_of_rounds: i32,
    pub results: ResultsForBotModel,
}

impl Record for GameEndedEventForBot {
    type Fields = GameEndedEventForBotModel;

    open spec fn fields(&self) -> GameEndedEventForBotModel {
        GameEndedEventForBotModel {
            number_of_rounds: self.number_of_rounds.model(),
            results: self.results.model(),
        }
    }

    open spec fn read(members: Members) -> Option<GameEndedEventForBotModel> {
        if req::<i32>(members, Key::NumberOfRounds) is Some
            && req::<ResultsForBot>(members, Key::Results) is Some
        {
            Some(
                GameEndedEventForBotModel {
                    number_of_rounds: req::<i32>(members, Key::NumberOfRounds)->0,
                    results: req::<ResultsForBot>(members, Key::Results)->0,
                },
            )
        } else {
            None
        }
    }

    open spec fn written(base: Members, f: GameEndedEventForBotModel) -> Members {
        let base = put::<i32>(base, Key::NumberOfRounds, f.number_of_rounds);
        let base = put::<ResultsForBot>(base, Key::Results, f.results);
        base
    }

    fn read_fields(j: &Json) -> (r: Option<GameEndedEventForBot>) {
        let number_of_rounds = required::<i32>(j, Key::NumberOfRounds)?;
        let results = required::<ResultsForBot>(j, Key::Results)?;
        Some(GameEndedEventForBot { number_of_rounds, results })
    }

    fn write_fields(&self, members: &mut Vec<(String, Json)>) {
        emit::<i32>(members, Key::NumberOfRounds, &self.number_of_rounds);
        emit::<ResultsForBot>(members, Key::Results, &self.results);
    }

    proof fn lemma_read_written(base: Members, f: GameEndedEventForBotModel) {
        let w1 = put::<i32>(base, Key::NumberOfRounds, f.number_of_rounds);
        lemma_put::<i32>(base, Key::NumberOfRounds, f.number_of_rounds);
        let w2 = put::<ResultsForBot>(w1, Key::Results, f.results);
        lemma_put::<ResultsForBot>(w1, Key::Results, f.results);
        assert(w2 == Self::written(base, f));
    }
}

impl Show for GameEndedEventForBot {
    open spec fn shown(m: GameEndedEventForBotModel) -> Seq<char> {
        "GameEndedEventForBot { number_of_rounds: "@
            + i32::shown(m.number_of_rounds)
            + ", results: "@
            + ResultsForBot::shown(m.results)
            + " }"@
    }

    fn show(&self) -> (s: String) {
        let mut s = "GameEndedEventForBot { number_of_rounds: ".to_owned();
        s.append(self.number_of_rounds.show().as_str());
        s.append(", results: ");
        s.append(self.results.show().as_str());
        s.append(" }");
        s
    }
}

/// The game is over; sent to observers with everyone's results.
#[derive(Clone, Debug)]
pub struct GameEndedEventForObserver {
    pub number_of_rounds: i32,
    pub results: Vec<ResultsForObserver>,
}

/// What a [`GameEndedEventForObserver`] stands for.
pub ghost struct GameEndedEventForObserverModel {
    pub number_of_rounds: i32,
    pub results: Seq<ResultsForObserverModel>,
}

impl Record for GameEndedEventForObserver {
    type Fields = GameEndedEventForObserverModel;

    open spec fn fields(&self) -> GameEndedEventForObserverModel {
        GameEndedEventForObserverModel {
            number_of_rounds: self.number_of_rounds.model(),
            results: self.results.model(),
        }
    }

    open spec fn read(members: Members) -> Option<GameEndedEventForObserverModel> {
        if req::<i32>(members, Key::NumberOfRounds) is Some
            && req::<Vec<ResultsForObserver>>(members, Key::Results) is Some
        {
            Some(
                GameEndedEventForObserverModel {
                    number_of_rounds: req::<i32>(members, Key::NumberOfRounds)->0,
                    results: req::<Vec<ResultsForObserver>>(members, Key::Results)->0,
                },
            )
        } else {
            None
        }
    }

    open spec fn written(base: Members, f: GameEndedEventForObserverModel) -> Members {
        let base = put::<i32>(base, Key::NumberOfRounds, f.number_of_rounds);
        let base = put::<Vec<ResultsForObserver>>(base, Key::Results, f.results);
        base
    }

    fn read_fields(j: &Json) -> (r: Option<GameEndedEventForObserver>) {
        let number_of_rounds = required::<i32>(j, Key::NumberOfRounds)?;
        let results = required::<Vec<ResultsForObserver>>(j, Key::Results)?;
        Some(GameEndedEventForObserver { number_of_rounds, results })
    }

    fn write_fields(&self, members: &mut Vec<(String, Json)>) {
        emit::<i32>(members, Key::NumberOfRounds, &self.number_of_rounds);
        emit::<Vec<ResultsForObserver>>(members, Key::Results, &self.results);
    }

    proof fn lemma_read_written(base: Members, f: GameEndedEventForObserverModel) {
        let w1 = put::<i32>(base, Key::NumberOfRounds, f.number_of_rounds);
        lemma_put::<i32>(base, Key::NumberOfRounds, f.number_of_rounds);
        let w2 = put::<Vec<ResultsForObserver>>(w1, Key::Results, f.results);
        lemma_put::<Vec<ResultsForObserver>>(w1, Key::Results, f.results);
        assert(w2 == Self::written(base, f));
    }
}

impl Show for GameEndedEventForObserver {
    open spec fn shown(m: GameEndedEventForObserverModel) -> Seq<char> {
        "GameEndedEventForObserver { number_of_rounds: "@
            + i32::shown(m.number_of_rounds)
            + ", results: "@
            + <Vec<ResultsForObserver> as Show>::shown(m.results)
            + " }"@
    }

    fn show(&self) -> (s: String) {
        let mut s = "GameEndedEventForObserver { number_of_rounds: ".to_owned();
        s.append(self.number_of_rounds.show().as_str());
        s.append(", results: ");
        s.append(self.results.show().as_str());
        s.append(" }");
        s
    }
}

/// A game begins; sent to a bot with its place in it.
#[derive(Clone, Debug)]
pub struct GameStartedEventForBot {
    pub game_setup: GameSetup,
    pub my_id: i32,
    pub start_direction: serde_json::Number,
    pub start_x: serde_json::Number,
    pub start_y: serde_json::Number,
    pub teammate_ids: Vec<i32>,
}

/// What a [`GameStartedEventForBot`] stands for.
pub ghost struct GameStartedEventForBotModel {
    pub game_setup: GameSetupModel,
    pub my_id: i32,
    pub start_direction: NumericValue,
    pub start_x: NumericValue,
    pub start_y: NumericValue,
    pub teammate_ids: Seq<i32>,
}

impl Record for GameStartedEventForBot {
    type Fields = GameStartedEventForBotModel;

    open spec fn fields(&self) -> GameStartedEventForBotModel {
        GameStartedEventForBotModel {
            game_setup: self.game_setup.model(),
            my_id: self.my_id.model(),
            start_direction: self.start_direction.model(),
            start_x: self.start_x.model(),
            start_y: self.start_y.model(),
            teammate_ids: self.teammate_ids.model(),
        }
    }

    open spec fn read(members: Members) -> Option<GameStartedEventForBotModel> {
        if req::<GameSetup>(members, Key::GameSetup) is Some
            && req::<i32>(members, Key::MyId) is Some
            && req::<serde_json::Number>(members, Key::StartDirection) is Some
            && req::<serde_json::Number>(members, Key::StartX) is Some
            && req::<serde_json::Number>(members, Key::StartY) is Some
            && req::<Vec<i32>>(members, Key::TeammateIds) is Some
        {
            Some(
                GameStartedEventForBotModel {
                    game_setup: req::<GameSetup>(members, Key::GameSetup)->0,
                    my_id: req::<i32>(members, Key::MyId)->0,
                    start_direction: req::<serde_json::Number>(members, Key::StartDirection)->0,
                    start_x: req::<serde_json::Number>(members, Key::StartX)->0,
                    start_y: req::<serde_json::Number>(members, Key::StartY)->0,
                    teammate_ids: req::<Vec<i32>>(members, Key::TeammateIds)->0,
                },
            )
        } else {
            None
        }
    }

    open spec fn written(base: Members, f: GameStartedEventForBotModel) -> Members {
        let base = put::<GameSetup>(base, Key::GameSetup, f.game_setup);
        let base = put::<i32>(base, Key::MyId, f.my_id);
        let base = put::<serde_json::Number>(base, Key::StartDirection, f.start_direction);
        let base = put::<serde_json::Number>(base, Key::StartX, f.start_x);
        let base = put::<serde_json::Number>(base, Key::StartY, f.start_y);
        let base = put::<Vec<i32>>(base, Key::TeammateIds, f.teammate_ids);
        base
    }

    fn read_fields(j: &Json) -> (r: Option<GameStartedEventForBot>) {
        let game_setup = required::<GameSetup>(j, Key::GameSetup)?;
        let my_id = required::<i32>(j, Key::MyId)?;
        let start_direction = required::<serde_json::Number>(j, Key::StartDirection)?;
        let start_x = required::<serde_json::Number>(j, Key::StartX)?;
        let start_y = required::<serde_json::Number>(j, Key::StartY)?;
        let teammate_ids = required::<Vec<i32>>(j, Key::TeammateIds)?;
        Some(GameStartedEventForBot {
            game_setup,
            my_id,
            start_direction,
            start_x,
            start_y,
            teammate_ids,
        })
    }

    fn write_fields(&self, members: &mut Vec<(String, Json)>) {
        emit::<GameSetup>(members, Key::GameSetup, &self.game_setup);
        emit::<i32>(members, Key::MyId, &self.my_id);
        emit::<serde_json::Number>(members, Key::StartDirection, &self.start_direction);
        emit::<serde_json::Number>(members, Key::StartX, &self.start_x);
        emit::<serde_json::Number>(members, Key::StartY, &self.start_y);
        emit::<Vec<i32>>(members, Key::TeammateIds, &self.teammate_ids);
    }

    proof fn lemma_read_written(base: Members, f: GameStartedEventForBotModel) {
        let w1 = put::<GameSetup>(base, Key::GameSetup, f.game_setup);
        lemma_put::<GameSetup>(base, Key::GameSetup, f.game_setup);
        let w2 = put::<i32>(w1, Key::MyId, f.my_id);
        lemma_put::<i32>(w1, Key::MyId, f.my_id);
        let w3 = put::<serde_json::Number>(w2, Key::StartDirection, f.start_direction);
        lemma_put::<serde_json::Number>(w2, Key::StartDirection, f.start_direction);
        let w4 = put::<serde_json::Number>(w3, Key::StartX, f.start_x);
        lemma_put::<serde_json::Number>(w3, Key::StartX, f.start_x);
        let w5 = put::<serde_json::Number>(w4, Key::StartY, f.start_y);
        lemma_put::<serde_json::Number>(w4, Key::StartY, f.start_y);
        let w6 = put::<Vec<i32>>(w5, Key::TeammateIds, f.teammate_ids);
        lemma_put::<Vec<i32>>(w5, Key::TeammateIds, f.teammate_ids);
        assert(w6 == Self::written(base, f));
    }
}

impl Show for GameStartedEventForBot {
    open spec fn shown(m: GameStartedEventForBotModel) -> Seq<char> {
        "GameStartedEventForBot { game_setup: "@
            + GameSetup::shown(m.game_setup)
            + ", my_id: "@
            + i32::shown(m.my_id)
            + ", start_direction: "@
            + <serde_json::Number as Show>::shown(m.start_direction)
            + ", start_x: "@
            + <serde_json::Number as Show>::shown(m.start_x)
            + ", start_y: "@
            + <serde_json::Number as Show>::shown(m.start_y)
            + ", teammate_ids: "@
            + <Vec<i32> as Show>::shown(m.teammate_ids)
            + " }"@
    }

    fn show(&self) -> (s: String) {
        let mut s = "GameStartedEventForBot { game_setup: ".to_owned();
        s.append(self.game_setup.show().as_str());
        s.append(", my_id: ");
        s.append(self.my_id.show().as_str());
        s.append(", start_direction: ");
        s.append(self.start_direction.show().as_str());
        s.append(", start_x: ");
        s.append(self.start_x.show().as_str());
        s.append(", start_y: ");
        s.append(self.start_y.show().as_str());
        s.append(", teammate_ids: ");
        s.append(self.teammate_ids.show().as_str());
        s.append(" }");
        s
    }
}

/// A game begins; sent to observers with the list of bots.
#[derive(Clone, Debug)]
pub struct GameStartedEventForObserver {
    pub game_setup: GameSetup,
    pub participants: Vec<Participant>,
}

/// What a [`GameStartedEventForObserver`] stands for.
pub ghost struct GameStartedEventForObserverModel {
    pub game_setup: GameSetupModel,
    pub participants: Seq<ParticipantModel>,
}

impl Record for GameStartedEventForObserver {
    type Fields = GameStartedEventForObserverModel;

    open spec fn fields(&self) -> GameStartedEventForObserverModel {
        GameStartedEventForObserverModel {
            game_setup: self.game_setup.model(),
            participants: self.participants.model(),
        }
    }

    open spec fn read(members: Members) -> Option<GameStartedEventForObserverModel> {
        if req::<GameSetup>(members, Key::GameSetup) is Some
            && req::<Vec<Participant>>(members, Key::Participants) is Some
        {
            Some(
                GameStartedEventForObserverModel {
                    game_setup: req::<GameSetup>(members, Key::GameSetup)->0,
                    participants: req::<Vec<Participant>>(members, Key::Participants)->0,
                },
            )
        } else {
            None
        }
    }

    open spec fn written(base: Members, f: GameStartedEventForObserverModel) -> Members {
        let base = put::<GameSetup>(base, Key::GameSetup, f.game_setup);
        let base = put::<Vec<Participant>>(base, Key::Participants, f.participants);
        base
    }

    fn read_fields(j: &Json) -> (r: Option<GameStartedEventForObserver>) {
        let game_setup = required::<GameSetup>(j, Key::GameSetup)?;
        let participants = required::<Vec<Participant>>(j, Key::Participants)?;
        Some(GameStartedEventForObserver { game_setup, participants })
    }

    fn write_fields(&self, members: &mut Vec<(String, Json)>) {
        emit::<GameSetup>(members, Key::GameSetup, &self.game_setup);
        emit::<Vec<Participant>>(members, Key::Participants, &self.participants);
    }

    proof fn lemma_read_written(base: Members, f: GameStartedEventForObserverModel) {
        let w1 = put::<GameSetup>(base, Key::GameSetup, f.game_setup);
        lemma_put::<GameSetup>(base, Key::GameSetup, f.game_setup);
        let w2 = put::<Vec<Participant>>(w1, Key::Participants, f.participants);
        lemma_put::<Vec<Participant>>(w1, Key::Participants, f.participants);
        assert(w2 == Self::written(base, f));
    }
}

impl Show for GameStartedEventForObserver {
    open spec fn shown(m: GameStartedEventForObserverModel) -> Seq<char> {
        "GameStartedEventForObserver { game_setup: "@
            + GameSetup::shown(m.game_setup)
            + ", participants: "@
            + <Vec<Participant> as Show>::shown(m.participants)
            + " }"@
    }

    fn show(&self) -> (s: String) {
        let mut s = "GameStartedEventForObserver { game_setup: ".to_owned();
        s.append(self.game_setup.show().as_str());
        s.append(", participants: ");
        s.append(self.participants.show().as_str());
        s.append(" }");
        s
    }
}

/// A round is over; sent to a bot with its own results.
#[derive(Clone, Debug)]
pub struct RoundEndedEventForBot {
    pub results: ResultsForBot,
    pub round_number: i32,
    pub turn_number: i32,
}

/// What a [`RoundEndedEventForBot`] stands for.
pub ghost struct RoundEndedEventForBotModel {
    pub results: ResultsForBotModel,
    pub round_number: i32,
    pub turn_number: i32,
}

impl Record for RoundEndedEventForBot {
    type Fields = RoundEndedEventForBotModel;

    open spec fn fields(&self) -> RoundEndedEventForBotModel {
        RoundEndedEventForBotModel {
            results: self.results.model(),
            round_number: self.round_number.model(),
            turn_number: self.turn_number.model(),
        }
    }

    open spec fn read(members: Members) -> Option<RoundEndedEventForBotModel> {
        if req::<ResultsForBot>(members, Key::Results) is Some
            && req::<i32>(members, Key::RoundNumber) is Some
            && req::<i32>(members, Key::TurnNumber) is Some
        {
            Some(
                RoundEndedEventForBotModel {
                    results: req::<ResultsForBot>(members, Key::Results)->0,
                    round_number: req::<i32>(members, Key::RoundNumber)->0,
                    turn_number: req::<i32>(members, Key::TurnNumber)->0,
                },
            )
        } else {
            None
        }
    }

    open spec fn written(base: Members, f: RoundEndedEventForBotModel) -> Members {
        let base = put::<ResultsForBot>(base, Key::Results, f.results);
        let base = put::<i32>(base, Key::RoundNumber, f.round_number);
        let base = put::<i32>(base, Key::TurnNumber, f.turn_number);
        base
    }

    fn read_fields(j: &Json) -> (r: Option<RoundEndedEventForBot>) {
        let results = required::<ResultsForBot>(j, Key::Results)?;
        let round_number = required::<i32>(j, Key::RoundNumber)?;
        let turn_number = required::<i32>(j, Key::TurnNumber)?;
        Some(RoundEndedEventForBot { results, round_number, turn_number })
    }

    fn write_fields(&self, members: &mut Vec<(String, Json)>) {
        emit::<ResultsForBot>(members, Key::Results, &self.results);
        emit::<i32>(members, Key::RoundNumber, &self.round_number);
        emit::<i32>(members, Key::TurnNumber, &self.turn_number);
    }

    proof fn lemma_read_written(base: Members, f: RoundEndedEventForBotModel) {
        let w1 = put::<ResultsForBot>(base, Key::Results, f.results);
        lemma_put::<ResultsForBot>(base, Key::Results, f.results);
        let w2 = put::<i32>(w1, Key::RoundNumber, f.round_number);
        lemma_put::<i32>(w1, Key::RoundNumber, f.round_number);
        let w3 = put::<i32>(w2, Key::TurnNumber, f.turn_number);
        lemma_put::<i32>(w2, Key::TurnNumber, f.turn_number);
        assert(w3 == Self::written(base, f));
    }
}

impl Show for RoundEndedEventForBot {
    open spec fn shown(m: RoundEndedEventForBotModel) -> Seq<char> {
        "RoundEndedEventForBot { results: "@
            + ResultsForBot::shown(m.results)
            + ", round_number: "@
            + i32::shown(m.round_number)
            + ", turn_number: "@
            + i32::shown(m.turn_number)
            + " }"@
    }

    fn show(&self) -> (s: String) {
        let mut s = "RoundEndedEventForBot { results: ".to_owned();
        s.append(self.results.show().as_str());
        s.append(", round_number: ");
        s.append(self.round_number.show().as_str());
        s.append(", turn_number: ");
        s.append(self.turn_number.show().as_str());
        s.append(" }");
        s
    }
}

/// A round is over; sent to observers with everyone's results.
#[derive(Clone, Debug)]
pub struct RoundEndedEventForObserver {
    pub results: Vec<ResultsForObserver>,
    pub round_number: i32,
    pub turn_number: i32,
}

/// What a [`RoundEndedEventForObserver`] stands for.
pub ghost struct RoundEndedEventForObserverModel {
    pub results: Seq<ResultsForObserverModel>,
    pub round_number: i32,
    pub turn_number: i32,
}

impl Record for RoundEndedEventForObserver {
    type Fields = RoundEndedEventForObserverModel;

    open spec fn fields(&self) -> RoundEndedEventForObserverModel {
        RoundEndedEventForObserverModel {
            results: self.results.model(),
            round_number: self.round_number.model(),
            turn_number: self.turn_number.model(),
        }
    }

    open spec fn read(members: Members) -> Option<RoundEndedEventForObserverModel> {
        if req::<Vec<ResultsForObserver>>(members, Key::Results) is Some
            && req::<i32>(members, Key::RoundNumber) is Some
            && req::<i32>(members, Key::TurnNumber) is Some
        {
            Some(
                RoundEndedEventForObserverModel {
                    results: req::<Vec<ResultsForObserver>>(members, Key::Results)->0,
                    round_number: req::<i32>(members, Key::RoundNumber)->0,
                    turn_number: req::<i32>(members, Key::TurnNumber)->0,
                },
            )
        } else {
            None
        }
    }

    open spec fn written(base: Members, f: RoundEndedEventForObserverModel) -> Members {
        let base = put::<Vec<ResultsForObserver>>(base, Key::Results, f.results);
        let base = put::<i32>(base, Key::RoundNumber, f.round_number);
        let base = put::<i32>(base, Key::TurnNumber, f.turn_number);
        base
    }

    fn read_fields(j: &Json) -> (r: Option<RoundEndedEventForObserver>) {
        let results = required::<Vec<ResultsForObserver>>(j, Key::Results)?;
        let round_number = required::<i32>(j, Key::RoundNumber)?;
        let turn_number = required::<i32>(j, Key::TurnNumber)?;
        Some(RoundEndedEventForObserver { results, round_number, turn_number })
    }

    fn write_fields(&self, members: &mut Vec<(String, Json)>) {
        emit::<Vec<ResultsForObserver>>(members, Key::Results, &self.results);
        emit::<i32>(members, Key::RoundNumber, &self.round_number);
        emit::<i32>(members, Key::TurnNumber, &self.turn_number);
    }

    proof fn lemma_read_written(base: Members, f: RoundEndedEventForObserverModel) {
        let w1 = put::<Vec<ResultsForObserver>>(base, Key::Results, f.results);
        lemma_put::<Vec<ResultsForObserver>>(base, Key::Results, f.results);
        let w2 = put::<i32>(w1, Key::RoundNumber, f.round_number);
        lemma_put::<i32>(w1, Key::RoundNumber, f.round_number);
        let w3 = put::<i32>(w2, Key::TurnNumber, f.turn_number);
        lemma_put::<i32>(w2, Key::TurnNumber, f.turn_number);
        assert(w3 == Self::written(base, f));
    }
}

impl Show for RoundEndedEventForObserver {
    open spec fn shown(m: RoundEndedEventForObserverModel) -> Seq<char> {
        "RoundEndedEventForObserver { results: "@
            + <Vec<ResultsForObserver> as Show>::shown(m.results)
            + ", round_number: "@
            + i32::shown(m.round_number)
            + ", turn_number: "@
            + i32::shown(m.turn_number)
            + " }"@
    }

    fn show(&self) -> (s: String) {
        let mut s = "RoundEndedEventForObserver { results: ".to_owned();
        s.append(self.results.show().as_str());
        s.append(", round_number: ");
        s.append(self.round_number.show().as_str());
        s.append(", turn_number: ");
        s.append(self.turn_number.show().as_str());
        s.append(" }");
        s
    }
}

/// A round begins.
#[derive(Clone, Debug)]
pub struct RoundStartedEvent {
    pub round_number: i32,
}

/// What a [`RoundStartedEvent`] stands for.
pub ghost struct RoundStartedEventModel {
    pub round_number: i32,
}

impl Record for RoundStartedEvent {
    type Fields = RoundStartedEventModel;

    open spec fn fields(&self) -> RoundStartedEventModel {
        RoundStartedEventModel {
            round_number: self.round_number.model(),
        }
    }

    open spec fn read(members: Members) -> Option<RoundStartedEventModel> {
        if req::<i32>(members, Key::RoundNumber) is Some {
            Some(
                RoundStartedEventModel {
                    round_number: req::<i32>(members, Key::RoundNumber)->0,
                },
            )
        } else {
            None
        }
    }

    open spec fn written(base: Members, f: RoundStartedEventModel) -> Members {
        let base = put::<i32>(base, Key::RoundNumber, f.round_number);
        base
    }

    fn read_fields(j: &Json) -> (r: Option<RoundStartedEvent>) {
        let round_number = required::<i32>(j, Key::RoundNumber)?;
        Some(RoundStartedEvent { round_number })
    }

    fn write_fields(&self, members: &mut Vec<(String, Json)>) {
        emit::<i32>(members, Key::RoundNumber, &self.round_number);
    }

    proof fn lemma_read_written(base: Members, f: RoundStartedEventModel) {
        let w1 = put::<i32>(base, Key::RoundNumber, f.round_number);
        lemma_put::<i32>(base, Key::RoundNumber, f.round_number);
        assert(w1 == Self::written(base, f));
    }
}

impl Show for RoundStartedEvent {
    open spec fn shown(m: RoundStartedEventModel) -> Seq<char> {
        "RoundStartedEvent { round_number: "@ + i32::shown(m.round_number) + " }"@
    }

    fn show(&self) -> (s: String) {
        let mut s = "RoundStartedEvent { round_number: ".to_owned();
        s.append(self.round_number.show().as_str());
        s.append(" }");
        s
    }
}

} // verus!
