//! The event that carries one turn: the states of bots and bullets, and the
//! events of the turn in the order they happened.

use crate::connection::enums::{BotEvent, BotEventModel};
use crate::connection::message_types::common::{
    BotState,
    BotStateModel,
    BotStateWithId,
    BotStateWithIdModel,
    BulletState,
    BulletStateModel,
};
use crate::json::{Json, Members};
use crate::names::Key;
use crate::show::Show;
use crate::wire::{emit, lemma_put, put, Record, req, required, Wire};
use vstd::prelude::*;

verus! {

/// One turn as a bot sees it: its own state, the bullets in sight, and what
/// happened during the turn, in order.
#[derive(Clone, Debug)]
pub struct TickEventForBot {
    pub turn_number: i32,
    pub bot_state: BotState,
    pub bullet_states: Vec<BulletState>,
    pub enemy_count: i32,
    pub events: Vec<BotEvent>,
    pub round_number: i32,
}

/// What a [`TickEventForBot`] stands for.
pub ghost struct TickEventForBotModel {
    pub turn_number: i32,
    pub bot_state: BotStateModel,
    pub bullet_states: Seq<BulletStateModel>,
    pub enemy_count: i32,
    pub events: Seq<BotEventModel>,
    pub round_number: i32,
}

impl Record for TickEventForBot {
    type Fields = TickEventForBotModel;

    open spec fn fields(&self) -> TickEventForBotModel {
        TickEventForBotModel {
            turn_number: self.turn_number.model(),
            bot_state: self.bot_state.model(),
            bullet_states: self.bullet_states.model(),
            enemy_count: self.enemy_count.model(),
            events: self.events.model(),
            round_number: self.round_number.model(),
        }
    }

    open spec fn read(members: Members) -> Option<TickEventForBotModel> {
        if req::<i32>(members, Key::TurnNumber) is Some
            && req::<BotState>(members, Key::BotState) is Some
            && req::<Vec<BulletState>>(members, Key::BulletStates) is Some
            && req::<i32>(members, Key::EnemyCount) is Some
            && req::<Vec<BotEvent>>(members, Key::Events) is Some
            && req::<i32>(members, Key::RoundNumber) is Some
        {
            Some(
                TickEventForBotModel {
                    turn_number: req::<i32>(members, Key::TurnNumber)->0,
                    bot_state: req::<BotState>(members, Key::BotState)->0,
                    bullet_states: req::<Vec<BulletState>>(members, Key::BulletStates)->0,
                    enemy_count: req::<i32>(members, Key::EnemyCount)->0,
                    events: req::<Vec<BotEvent>>(members, Key::Events)->0,
                    round_number: req::<i32>(members, Key::RoundNumber)->0,
                },
            )
        } else {
            None
        }
    }

    open spec fn written(base: Members, f: TickEventForBotModel) -> Members {
        let base = put::<i32>(base, Key::TurnNumber, f.turn_number);
        let base = put::<BotState>(base, Key::BotState, f.bot_state);
        let base = put::<Vec<BulletState>>(base, Key::BulletStates, f.bullet_states);
        let base = put::<i32>(base, Key::EnemyCount, f.enemy_count);
        let base = put::<Vec<BotEvent>>(base, Key::Events, f.events);
        let base = put::<i32>(base, Key::RoundNumber, f.round_number);
        base
    }

    fn read_fields(j: &Json) -> (r: Option<TickEventForBot>) {
        let turn_number = required::<i32>(j, Key::TurnNumber)?;
        let bot_state = required::<BotState>(j, Key::BotState)?;
        let bullet_states = required::<Vec<BulletState>>(j, Key::BulletStates)?;
        let enemy_count = required::<i32>(j, Key::EnemyCount)?;
        let events = required::<Vec<BotEvent>>(j, Key::Events)?;
        let round_number = required::<i32>(j, Key::RoundNumber)?;
        Some(TickEventForBot {
            turn_number,
            bot_state,
            bullet_states,
            enemy_count,
            events,
            round_number,
        })
    }

    fn write_fields(&self, members: &mut Vec<(String, Json)>) {
        emit::<i32>(members, Key::TurnNumber, &self.turn_number);
        emit::<BotState>(members, Key::BotState, &self.bot_state);
        emit::<Vec<BulletState>>(members, Key::BulletStates, &self.bullet_states);
        emit::<i32>(members, Key::EnemyCount, &self.enemy_count);
        emit::<Vec<BotEvent>>(members, Key::Events, &self.events);
        emit::<i32>(members, Key::RoundNumber, &self.round_number);
    }

    proof fn lemma_read_written(base: Members, f: TickEventForBotModel) {
        let w1 = put::<i32>(base, Key::TurnNumber, f.turn_number);
        lemma_put::<i32>(base, Key::TurnNumber, f.turn_number);
        let w2 = put::<BotState>(w1, Key::BotState, f.bot_state);
        lemma_put::<BotState>(w1, Key::BotState, f.bot_state);
        let w3 = put::<Vec<BulletState>>(w2, Key::BulletStates, f.bullet_states);
        lemma_put::<Vec<BulletState>>(w2, Key::BulletStates, f.bullet_states);
        let w4 = put::<i32>(w3, Key::EnemyCount, f.enemy_count);
        lemma_put::<i32>(w3, Key::EnemyCount, f.enemy_count);
        let w5 = put::<Vec<BotEvent>>(w4, Key::Events, f.events);
        lemma_put::<Vec<BotEvent>>(w4, Key::Events, f.events);
        let w6 = put::<i32>(w5, Key::RoundNumber, f.round_number);
        lemma_put::<i32>(w5, Key::RoundNumber, f.round_number);
        assert(w6 == Self::written(base, f));
    }
}

impl Show for TickEventForBot {
    open spec fn shown(m: TickEventForBotModel) -> Seq<char> {
        "TickEventForBot { turn_number: "@
            + i32::shown(m.turn_number)
            + ", bot_state: "@
            + BotState::shown(m.bot_state)
            + ", bullet_states: "@
            + <Vec<BulletState> as Show>::shown(m.bullet_states)
            + ", enemy_count: "@
            + i32::shown(m.enemy_count)
            + ", events: "@
            + <Vec<BotEvent> as Show>::shown(m.events)
            + ", round_number: "@
            + i32::shown(m.round_number)
            + " }"@
    }

    fn show(&self) -> (s: String) {
        let mut s = "TickEventForBot { turn_number: ".to_owned();
        s.append(self.turn_number.show().as_str());
        s.append(", bot_state: ");
        s.append(self.bot_state.show().as_str());
        s.append(", bullet_states: ");
        s.append(self.bullet_states.show().as_str());
        s.append(", enemy_count: ");
        s.append(self.enemy_count.show().as_str());
        s.append(", events: ");
        s.append(self.events.show().as_str());
        s.append(", round_number: ");
        s.append(self.round_number.show().as_str());
        s.append(" }");
        s
    }
}

/// One turn as observers see it.
#[derive(Clone, Debug)]
pub struct TickEventForObserver {
    pub turn_number: i32,
    pub bot_states: Vec<BotStateWithId>,
    pub bullet_states: Vec<BulletState>,
    pub events: Vec<BotEvent>,
    pub round_number: i32,
}

/// What a [`TickEventForObserver`] stands for.
pub ghost struct TickEventForObserverModel {
    pub turn_number: i32,
    pub bot_states: Seq<BotStateWithIdModel>,
    pub bullet_states: Seq<BulletStateModel>,
    pub events: Seq<BotEventModel>,
    pub round_number: i32,
}

impl Record for TickEventForObserver {
    type Fields = TickEventForObserverModel;

    open spec fn fields(&self) -> TickEventForObserverModel {
        TickEventForObserverModel {
            turn_number: self.turn_number.model(),
            bot_states: self.bot_states.model(),
            bullet_states: self.bullet_states.model(),
            events: self.events.model(),
            round_number: self.round_number.model(),
        }
    }

    open spec fn read(members: Members) -> Option<TickEventForObserverModel> {
        if req::<i32>(members, Key::TurnNumber) is Some
            && req::<Vec<BotStateWithId>>(members, Key::BotStates) is Some
            && req::<Vec<BulletState>>(members, Key::BulletStates) is Some
            && req::<Vec<BotEvent>>(members, Key::Events) is Some
            && req::<i32>(members, Key::RoundNumber) is Some
        {
            Some(
                TickEventForObserverModel {
                    turn_number: req::<i32>(members, Key::TurnNumber)->0,
                    bot_states: req::<Vec<BotStateWithId>>(members, Key::BotStates)->0,
                    bullet_states: req::<Vec<BulletState>>(members, Key::BulletStates)->0,
                    events: req::<Vec<BotEvent>>(members, Key::Events)->0,
                    round_number: req::<i32>(members, Key::RoundNumber)->0,
                },
            )
        } else {
            None
        }
    }

    open spec fn written(base: Members, f: TickEventForObserverModel) -> Members {
        let base = put::<i32>(base, Key::TurnNumber, f.turn_number);
        let base = put::<Vec<BotStateWithId>>(base, Key::BotStates, f.bot_states);
        let base = put::<Vec<BulletState>>(base, Key::BulletStates, f.bullet_states);
        let base = put::<Vec<BotEvent>>(base, Key::Events, f.events);
        let base = put::<i32>(base, Key::RoundNumber, f.round_number);
        base
    }

    fn read_fields(j: &Json) -> (r: Option<TickEventForObserver>) {
        let turn_number = required::<i32>(j, Key::TurnNumber)?;
        let bot_states = required::<Vec<BotStateWithId>>(j, Key::BotStates)?;
        let bullet_states = required::<Vec<BulletState>>(j, Key::BulletStates)?;
        let events = required::<Vec<BotEvent>>(j, Key::Events)?;
        let round_number = required::<i32>(j, Key::RoundNumber)?;
        Some(TickEventForObserver { turn_number, bot_states, bullet_states, events, round_number })
    }

    fn write_fields(&self, members: &mut Vec<(String, Json)>) {
        emit::<i32>(members, Key::TurnNumber, &self.turn_number);
        emit::<Vec<BotStateWithId>>(members, Key::BotStates, &self.bot_states);
        emit::<Vec<BulletState>>(members, Key::BulletStates, &self.bullet_states);
        emit::<Vec<BotEvent>>(members, Key::Events, &self.events);
        emit::<i32>(members, Key::RoundNumber, &self.round_number);
    }

    proof fn lemma_read_written(base: Members, f: TickEventForObserverModel) {
        let w1 = put::<i32>(base, Key::TurnNumber, f.turn_number);
        lemma_put::<i32>(base, Key::TurnNumber, f.turn_number);
        let w2 = put::<Vec<BotStateWithId>>(w1, Key::BotStates, f.bot_states);
        lemma_put::<Vec<BotStateWithId>>(w1, Key::BotStates, f.bot_states);
        let w3 = put::<Vec<BulletState>>(w2, Key::BulletStates, f.bullet_states);
        lemma_put::<Vec<BulletState>>(w2, Key::BulletStates, f.bullet_states);
        let w4 = put::<Vec<BotEvent>>(w3, Key::Events, f.events);
        lemma_put::<Vec<BotEvent>>(w3, Key::Events, f.events);
        let w5 = put::<i32>(w4, Key::RoundNumber, f.round_number);
        lemma_put::<i32>(w4, Key::RoundNumber, f.round_number);
        assert(w5 == Self::written(base, f));
    }
}

impl Show for TickEventForObserver {
    open spec fn shown(m: TickEventForObserverModel) -> Seq<char> {
        "TickEventForObserver { turn_number: "@
            + i32::shown(m.turn_number)
            + ", bot_states: "@
            + <Vec<BotStateWithId> as Show>::shown(m.bot_states)
            + ", bullet_states: "@
            + <Vec<BulletState> as Show>::shown(m.bullet_states)
            + ", events: "@
            + <Vec<BotEvent> as Show>::shown(m.events)
            + ", round_number: "@
            + i32::shown(m.round_number)
            + " }"@
    }

    fn show(&self) -> (s: String) {
        let mut s = "TickEventForObserver { turn_number: ".to_owned();
        s.append(self.turn_number.show().as_str());
        s.append(", bot_states: ");
        s.append(self.bot_states.show().as_str());
        s.append(", bullet_states: ");
        s.append(self.bullet_states.show().as_str());
        s.append(", events: ");
        s.append(self.events.show().as_str());
        s.append(", round_number: ");
        s.append(self.round_number.show().as_str());
        s.append(" }");
        s
    }
}

} // verus!
