//! What can happen during one turn. Each event is a fact about that turn and
//! never changes.

use crate::connection::message_types::common::{BulletState, BulletStateModel};
use crate::json::{Json, Members, NumericValue};
use crate::names::Key;
use crate::show::Show;
use crate::wire::{emit, lemma_put, put, Record, req, required, Wire};
use vstd::prelude::*;

verus! {

/// A bot was destroyed.
#[derive(Clone, Debug)]
pub struct BotDeathEvent {
    pub turn_number: i32,
    pub victim_id: i32,
}

/// What a [`BotDeathEvent`] stands for.
pub ghost struct BotDeathEventModel {
    pub turn_number: i32,
    pub victim_id: i32,
}

impl Record for BotDeathEvent {
    type Fields = BotDeathEventModel;

    open spec fn fields(&self) -> BotDeathEventModel {
        BotDeathEventModel {
            turn_number: self.turn_number.model(),
            victim_id: self.victim_id.model(),
        }
    }

    open spec fn read(members: Members) -> Option<BotDeathEventModel> {
        if req::<i32>(members, Key::TurnNumber) is Some
            && req::<i32>(members, Key::VictimId) is Some
        {
            Some(
                BotDeathEventModel {
                    turn_number: req::<i32>(members, Key::TurnNumber)->0,
                    victim_id: req::<i32>(members, Key::VictimId)->0,
                },
            )
        } else {
            None
        }
    }

    open spec fn written(base: Members, f: BotDeathEventModel) -> Members {
        let base = put::<i32>(base, Key::TurnNumber, f.turn_number);
        let base = put::<i32>(base, Key::VictimId, f.victim_id);
        base
    }

    fn read_fields(j: &Json) -> (r: Option<BotDeathEvent>) {
        let turn_number = required::<i32>(j, Key::TurnNumber)?;
        let victim_id = required::<i32>(j, Key::VictimId)?;
        Some(BotDeathEvent { turn_number, victim_id })
    }

    fn write_fields(&self, members: &mut Vec<(String, Json)>) {
        emit::<i32>(members, Key::TurnNumber, &self.turn_number);
        emit::<i32>(members, Key::VictimId, &self.victim_id);
    }

    proof fn lemma_read_written(base: Members, f: BotDeathEventModel) {
        let w1 = put::<i32>(base, Key::TurnNumber, f.turn_number);
        lemma_put::<i32>(base, Key::TurnNumber, f.turn_number);
        let w2 = put::<i32>(w1, Key::VictimId, f.victim_id);
        lemma_put::<i32>(w1, Key::VictimId, f.victim_id);
        assert(w2 == Self::written(base, f));
    }
}

impl Show for BotDeathEvent {
    open spec fn shown(m: BotDeathEventModel) -> Seq<char> {
        "BotDeathEvent { turn_number: "@
            + i32::shown(m.turn_number)
            + ", victim_id: "@
            + i32::shown(m.victim_id)
            + " }"@
    }

    fn show(&self) -> (s: String) {
        let mut s = "BotDeathEvent { turn_number: ".to_owned();
        s.append(self.turn_number.show().as_str());
        s.append(", victim_id: ");
        s.append(self.victim_id.show().as_str());
        s.append(" }");
        s
    }
}

/// Two bots collided.
#[derive(Clone, Debug)]
pub struct BotHitBotEvent {
    pub turn_number: i32,
    pub bot_id: i32,
    pub victim_id: i32,
    pub energy: serde_json::Number,
    pub rammed: bool,
    pub x: serde_json::Number,
    pub y: serde_json::Number,
}

/// What a [`BotHitBotEvent`] stands for.
pub ghost struct BotHitBotEventModel {
    pub turn_number: i32,
    pub bot_id: i32,
    pub victim_id: i32,
    pub energy: NumericValue,
    pub rammed: bool,
    pub x: NumericValue,
    pub y: NumericValue,
}

impl Record for BotHitBotEvent {
    type Fields = BotHitBotEventModel;

    open spec fn fields(&self) -> BotHitBotEventModel {
        BotHitBotEventModel {
            turn_number: self.turn_number.model(),
            bot_id: self.bot_id.model(),
            victim_id: self.victim_id.model(),
            energy: self.energy.model(),
            rammed: self.rammed.model(),
            x: self.x.model(),
            y: self.y.model(),
        }
    }

    open spec fn read(members: Members) -> Option<BotHitBotEventModel> {
        if req::<i32>(members, Key::TurnNumber) is Some
            && req::<i32>(members, Key::BotId) is Some
            && req::<i32>(members, Key::VictimId) is Some
            && req::<serde_json::Number>(members, Key::Energy) is Some
            && req::<bool>(members, Key::Rammed) is Some
            && req::<serde_json::Number>(members, Key::X) is Some
            && req::<serde_json::Number>(members, Key::Y) is Some
        {
            Some(
                BotHitBotEventModel {
                    turn_number: req::<i32>(members, Key::TurnNumber)->0,
                    bot_id: req::<i32>(members, Key::BotId)->0,
                    victim_id: req::<i32>(members, Key::VictimId)->0,
                    energy: req::<serde_json::Number>(members, Key::Energy)->0,
                    rammed: req::<bool>(members, Key::Rammed)->0,
                    x: req::<serde_json::Number>(members, Key::X)->0,
                    y: req::<serde_json::Number>(members, Key::Y)->0,
                },
            )
        } else {
            None
        }
    }

    open spec fn written(base: Members, f: BotHitBotEventModel) -> Members {
        let base = put::<i32>(base, Key::TurnNumber, f.turn_number);
        let base = put::<i32>(base, Key::BotId, f.bot_id);
        let base = put::<i32>(base, Key::VictimId, f.victim_id);
        let base = put::<serde_json::Number>(base, Key::Energy, f.energy);
        let base = put::<bool>(base, Key::Rammed, f.rammed);
        let base = put::<serde_json::Number>(base, Key::X, f.x);
        let base = put::<serde_json::Number>(base, Key::Y, f.y);
        base
    }

    fn read_fields(j: &Json) -> (r: Option<BotHitBotEvent>) {
        let turn_number = required::<i32>(j, Key::TurnNumber)?;
        let bot_id = required::<i32>(j, Key::BotId)?;
        let victim_id = required::<i32>(j, Key::VictimId)?;
        let energy = required::<serde_json::Number>(j, Key::Energy)?;
        let rammed = required::<bool>(j, Key::Rammed)?;
        let x = required::<serde_json::Number>(j, Key::X)?;
        let y = required::<serde_json::Number>(j, Key::Y)?;
        Some(BotHitBotEvent { turn_number, bot_id, victim_id, energy, rammed, x, y })
    }

    fn write_fields(&self, members: &mut Vec<(String, Json)>) {
        emit::<i32>(members, Key::TurnNumber, &self.turn_number);
        emit::<i32>(members, Key::BotId, &self.bot_id);
        emit::<i32>(members, Key::VictimId, &self.victim_id);
        emit::<serde_json::Number>(members, Key::Energy, &self.energy);
        emit::<bool>(members, Key::Rammed, &self.rammed);
        emit::<serde_json::Number>(members, Key::X, &self.x);
        emit::<serde_json::Number>(members, Key::Y, &self.y);
    }

    proof fn lemma_read_written(base: Members, f: BotHitBotEventModel) {
        let w1 = put::<i32>(base, Key::TurnNumber, f.turn_number);
        lemma_put::<i32>(base, Key::TurnNumber, f.turn_number);
        let w2 = put::<i32>(w1, Key::BotId, f.bot_id);
        lemma_put::<i32>(w1, Key::BotId, f.bot_id);
        let w3 = put::<i32>(w2, Key::VictimId, f.victim_id);
        lemma_put::<i32>(w2, Key::VictimId, f.victim_id);
        let w4 = put::<serde_json::Number>(w3, Key::Energy, f.energy);
        lemma_put::<serde_json::Number>(w3, Key::Energy, f.energy);
        let w5 = put::<bool>(w4, Key::Rammed, f.rammed);
        lemma_put::<bool>(w4, Key::Rammed, f.rammed);
        let w6 = put::<serde_json::Number>(w5, Key::X, f.x);
        lemma_put::<serde_json::Number>(w5, Key::X, f.x);
        let w7 = put::<serde_json::Number>(w6, Key::Y, f.y);
        lemma_put::<serde_json::Number>(w6, Key::Y, f.y);
        assert(w7 == Self::written(base, f));
    }
}

impl Show for BotHitBotEvent {
    open spec fn shown(m: BotHitBotEventModel) -> Seq<char> {
        "BotHitBotEvent { turn_number: "@
            + i32::shown(m.turn_number)
            + ", bot_id: "@
            + i32::shown(m.bot_id)
            + ", victim_id: "@
            + i32::shown(m.victim_id)
            + ", energy: "@
            + <serde_json::Number as Show>::shown(m.energy)
            + ", rammed: "@
            + bool::shown(m.rammed)
            + ", x: "@
            + <serde_json::Number as Show>::shown(m.x)
            + ", y: "@
            + <serde_json::Number as Show>::shown(m.y)
            + " }"@
    }

    fn show(&self) -> (s: String) {
        let mut s = "BotHitBotEvent { turn_number: ".to_owned();
        s.append(self.turn_number.show().as_str());
        s.append(", bot_id: ");
        s.append(self.bot_id.show().as_str());
        s.append(", victim_id: ");
        s.append(self.victim_id.show().as_str());
        s.append(", energy: ");
        s.append(self.energy.show().as_str());
        s.append(", rammed: ");
        s.append(self.rammed.show().as_str());
        s.append(", x: ");
        s.append(self.x.show().as_str());
        s.append(", y: ");
        s.append(self.y.show().as_str());
        s.append(" }");
        s
    }
}

/// A bot ran into a wall.
#[derive(Clone, Debug)]
pub struct BotHitWallEvent {
    pub turn_number: i32,
    pub victim_id: i32,
}

/// What a [`BotHitWallEvent`] stands for.
pub ghost struct BotHitWallEventModel {
    pub turn_number: i32,
    pub victim_id: i32,
}

impl Record for BotHitWallEvent {
    type Fields = BotHitWallEventModel;

    open spec fn fields(&self) -> BotHitWallEventModel {
        BotHitWallEventModel {
            turn_number: self.turn_number.model(),
            victim_id: self.victim_id.model(),
        }
    }

    open spec fn read(members: Members) -> Option<BotHitWallEventModel> {
        if req::<i32>(members, Key::TurnNumber) is Some
            && req::<i32>(members, Key::VictimId) is Some
        {
            Some(
                BotHitWallEventModel {
                    turn_number: req::<i32>(members, Key::TurnNumber)->0,
                    victim_id: req::<i32>(members, Key::VictimId)->0,
                },
            )
        } else {
            None
        }
    }

    open spec fn written(base: Members, f: BotHitWallEventModel) -> Members {
        let base = put::<i32>(base, Key::TurnNumber, f.turn_number);
        let base = put::<i32>(base, Key::VictimId, f.victim_id);
        base
    }

    fn read_fields(j: &Json) -> (r: Option<BotHitWallEvent>) {
        let turn_number = required::<i32>(j, Key::TurnNumber)?;
        let victim_id = required::<i32>(j, Key::VictimId)?;
        Some(BotHitWallEvent { turn_number, victim_id })
    }

    fn write_fields(&self, members: &mut Vec<(String, Json)>) {
        emit::<i32>(members, Key::TurnNumber, &self.turn_number);
        emit::<i32>(members, Key::VictimId, &self.victim_id);
    }

    proof fn lemma_read_written(base: Members, f: BotHitWallEventModel) {
        let w1 = put::<i32>(base, Key::TurnNumber, f.turn_number);
        lemma_put::<i32>(base, Key::TurnNumber, f.turn_number);
        let w2 = put::<i32>(w1, Key::VictimId, f.victim_id);
        lemma_put::<i32>(w1, Key::VictimId, f.victim_id);
        assert(w2 == Self::written(base, f));
    }
}

impl Show for BotHitWallEvent {
    open spec fn shown(m: BotHitWallEventModel) -> Seq<char> {
        "BotHitWallEvent { turn_number: "@
            + i32::shown(m.turn_number)
            + ", victim_id: "@
            + i32::shown(m.victim_id)
            + " }"@
    }

    fn show(&self) -> (s: String) {
        let mut s = "BotHitWallEvent { turn_number: ".to_owned();
        s.append(self.turn_number.show().as_str());
        s.append(", victim_id: ");
        s.append(self.victim_id.show().as_str());
        s.append(" }");
        s
    }
}

/// A bullet left a gun.
#[derive(Clone, Debug)]
pub struct BulletFiredEvent {
    pub turn_number: i32,
    pub bullet: BulletState,
}

/// What a [`BulletFiredEvent`] stands for.
pub ghost struct BulletFiredEventModel {
    pub turn_number: i32,
    pub bullet: BulletStateModel,
}

impl Record for BulletFiredEvent {
    type Fields = BulletFiredEventModel;

    open spec fn fields(&self) -> BulletFiredEventModel {
        BulletFiredEventModel {
            turn_number: self.turn_number.model(),
            bullet: self.bullet.model(),
        }
    }

    open spec fn read(members: Members) -> Option<BulletFiredEventModel> {
        if req::<i32>(members, Key::TurnNumber) is Some
            && req::<BulletState>(members, Key::Bullet) is Some
        {
            Some(
                BulletFiredEventModel {
                    turn_number: req::<i32>(members, Key::TurnNumber)->0,
                    bullet: req::<BulletState>(members, Key::Bullet)->0,
                },
            )
        } else {
            None
        }
    }

    open spec fn written(base: Members, f: BulletFiredEventModel) -> Members {
        let base = put::<i32>(base, Key::TurnNumber, f.turn_number);
        let base = put::<BulletState>(base, Key::Bullet, f.bullet);
        base
    }

    fn read_fields(j: &Json) -> (r: Option<BulletFiredEvent>) {
        let turn_number = required::<i32>(j, Key::TurnNumber)?;
        let bullet = required::<BulletState>(j, Key::Bullet)?;
        Some(BulletFiredEvent { turn_number, bullet })
    }

    fn write_fields(&self, members: &mut Vec<(String, Json)>) {
        emit::<i32>(members, Key::TurnNumber, &self.turn_number);
        emit::<BulletState>(members, Key::Bullet, &self.bullet);
    }

    proof fn lemma_read_written(base: Members, f: BulletFiredEventModel) {
        let w1 = put::<i32>(base, Key::TurnNumber, f.turn_number);
        lemma_put::<i32>(base, Key::TurnNumber, f.turn_number);
        let w2 = put::<BulletState>(w1, Key::Bullet, f.bullet);
        lemma_put::<BulletState>(w1, Key::Bullet, f.bullet);
        assert(w2 == Self::written(base, f));
    }
}

impl Show for BulletFiredEvent {
    open spec fn shown(m: BulletFiredEventModel) -> Seq<char> {
        "BulletFiredEvent { turn_number: "@
            + i32::shown(m.turn_number)
            + ", bullet: "@
            + BulletState::shown(m.bullet)
            + " }"@
    }

    fn show(&self) -> (s: String) {
        let mut s = "BulletFiredEvent { turn_number: ".to_owned();
        s.append(self.turn_number.show().as_str());
        s.append(", bullet: ");
        s.append(self.bullet.show().as_str());
        s.append(" }");
        s
    }
}

/// A bullet hit a bot.
#[derive(Clone, Debug)]
pub struct BulletHitBotEvent {
    pub turn_number: i32,
    pub bullet: BulletState,
    pub damage: serde_json::Number,
    pub energy: serde_json::Number,
    pub victim_id: i32,
}

/// What a [`BulletHitBotEvent`] stands for.
pub ghost struct BulletHitBotEventModel {
    pub turn_number: i32,
    pub bullet: BulletStateModel,
    pub damage: NumericValue,
    pub energy: NumericValue,
    pub victim_id: i32,
}

impl Record for BulletHitBotEvent {
    type Fields = BulletHitBotEventModel;

    open spec fn fields(&self) -> BulletHitBotEventModel {
        BulletHitBotEventModel {
            turn_number: self.turn_number.model(),
            bullet: self.bullet.model(),
            damage: self.damage.model(),
            energy: self.energy.model(),
            victim_id: self.victim_id.model(),
        }
    }

    open spec fn read(members: Members) -> Option<BulletHitBotEventModel> {
        if req::<i32>(members, Key::TurnNumber) is Some
            && req::<BulletState>(members, Key::Bullet) is Some
            && req::<serde_json::Number>(members, Key::Damage) is Some
            && req::<serde_json::Number>(members, Key::Energy) is Some
            && req::<i32>(members, Key::VictimId) is Some
        {
            Some(
                BulletHitBotEventModel {
                    turn_number: req::<i32>(members, Key::TurnNumber)->0,
                    bullet: req::<BulletState>(members, Key::Bullet)->0,
                    damage: req::<serde_json::Number>(members, Key::Damage)->0,
                    energy: req::<serde_json::Number>(members, Key::Energy)->0,
                    victim_id: req::<i32>(members, Key::VictimId)->0,
                },
            )
        } else {
            None
        }
    }

    open spec fn written(base: Members, f: BulletHitBotEventModel) -> Members {
        let base = put::<i32>(base, Key::TurnNumber, f.turn_number);
        let base = put::<BulletState>(base, Key::Bullet, f.bullet);
        let base = put::<serde_json::Number>(base, Key::Damage, f.damage);
        let base = put::<serde_json::Number>(base, Key::Energy, f.energy);
        let base = put::<i32>(base, Key::VictimId, f.victim_id);
        base
    }

    fn read_fields(j: &Json) -> (r: Option<BulletHitBotEvent>) {
        let turn_number = required::<i32>(j, Key::TurnNumber)?;
        let bullet = required::<BulletState>(j, Key::Bullet)?;
        let damage = required::<serde_json::Number>(j, Key::Damage)?;
        let energy = required::<serde_json::Number>(j, Key::Energy)?;
        let victim_id = required::<i32>(j, Key::VictimId)?;
        Some(BulletHitBotEvent { turn_number, bullet, damage, energy, victim_id })
    }

    fn write_fields(&self, members: &mut Vec<(String, Json)>) {
        emit::<i32>(members, Key::TurnNumber, &self.turn_number);
        emit::<BulletState>(members, Key::Bullet, &self.bullet);
        emit::<serde_json::Number>(members, Key::Damage, &self.damage);
        emit::<serde_json::Number>(members, Key::Energy, &self.energy);
        emit::<i32>(members, Key::VictimId, &self.victim_id);
    }

    proof fn lemma_read_written(base: Members, f: BulletHitBotEventModel) {
        let w1 = put::<i32>(base, Key::TurnNumber, f.turn_number);
        lemma_put::<i32>(base, Key::TurnNumber, f.turn_number);
        let w2 = put::<BulletState>(w1, Key::Bullet, f.bullet);
        lemma_put::<BulletState>(w1, Key::Bullet, f.bullet);
        let w3 = put::<serde_json::Number>(w2, Key::Damage, f.damage);
        lemma_put::<serde_json::Number>(w2, Key::Damage, f.damage);
        let w4 = put::<serde_json::Number>(w3, Key::Energy, f.energy);
        lemma_put::<serde_json::Number>(w3, Key::Energy, f.energy);
        let w5 = put::<i32>(w4, Key::VictimId, f.victim_id);
        lemma_put::<i32>(w4, Key::VictimId, f.victim_id);
        assert(w5 == Self::written(base, f));
    }
}

impl Show for BulletHitBotEvent {
    open spec fn shown(m: BulletHitBotEventModel) -> Seq<char> {
        "BulletHitBotEvent { turn_number: "@
            + i32::shown(m.turn_number)
            + ", bullet: "@
            + BulletState::shown(m.bullet)
            + ", damage: "@
            + <serde_json::Number as Show>::shown(m.damage)
            + ", energy: "@
            + <serde_json::Number as Show>::shown(m.energy)
            + ", victim_id: "@
            + i32::shown(m.victim_id)
            + " }"@
    }

    fn show(&self) -> (s: String) {
        let mut s = "BulletHitBotEvent { turn_number: ".to_owned();
        s.append(self.turn_number.show().as_str());
        s.append(", bullet: ");
        s.append(self.bullet.show().as_str());
        s.append(", damage: ");
        s.append(self.damage.show().as_str());
        s.append(", energy: ");
        s.append(self.energy.show().as_str());
        s.append(", victim_id: ");
        s.append(self.victim_id.show().as_str());
        s.append(" }");
        s
    }
}

/// Two bullets met.
#[derive(Clone, Debug)]
pub struct BulletHitBulletEvent {
    pub turn_number: i32,
    pub bullet: BulletState,
    pub hit_bullet: BulletState,
}

/// What a [`BulletHitBulletEvent`] stands for.
pub ghost struct BulletHitBulletEventModel {
    pub turn_number: i32,
    pub bullet: BulletStateModel,
    pub hit_bullet: BulletStateModel,
}

impl Record for BulletHitBulletEvent {
    type Fields = BulletHitBulletEventModel;

    open spec fn fields(&self) -> BulletHitBulletEventModel {
        BulletHitBulletEventModel {
            turn_number: self.turn_number.model(),
            bullet: self.bullet.model(),
            hit_bullet: self.hit_bullet.model(),
        }
    }

    open spec fn read(members: Members) -> Option<BulletHitBulletEventModel> {
        if req::<i32>(members, Key::TurnNumber) is Some
            && req::<BulletState>(members, Key::Bullet) is Some
            && req::<BulletState>(members, Key::HitBullet) is Some
        {
            Some(
                BulletHitBulletEventModel {
                    turn_number: req::<i32>(members, Key::TurnNumber)->0,
                    bullet: req::<BulletState>(members, Key::Bullet)->0,
                    hit_bullet: req::<BulletState>(members, Key::HitBullet)->0,
                },
            )
        } else {
            None
        }
    }

    open spec fn written(base: Members, f: BulletHitBulletEventModel) -> Members {
        let base = put::<i32>(base, Key::TurnNumber, f.turn_number);
        let base = put::<BulletState>(base, Key::Bullet, f.bullet);
        let base = put::<BulletState>(base, Key::HitBullet, f.hit_bullet);
        base
    }

    fn read_fields(j: &Json) -> (r: Option<BulletHitBulletEvent>) {
        let turn_number = required::<i32>(j, Key::TurnNumber)?;
        let bullet = required::<BulletState>(j, Key::Bullet)?;
        let hit_bullet = required::<BulletState>(j, Key::HitBullet)?;
        Some(BulletHitBulletEvent { turn_number, bullet, hit_bullet })
    }

    fn write_fields(&self, members: &mut Vec<(String, Json)>) {
        emit::<i32>(members, Key::TurnNumber, &self.turn_number);
        emit::<BulletState>(members, Key::Bullet, &self.bullet);
        emit::<BulletState>(members, Key::HitBullet, &self.hit_bullet);
    }

    proof fn lemma_read_written(base: Members, f: BulletHitBulletEventModel) {
        let w1 = put::<i32>(base, Key::TurnNumber, f.turn_number);
        lemma_put::<i32>(base, Key::TurnNumber, f.turn_number);
        let w2 = put::<BulletState>(w1, Key::Bullet, f.bullet);
        lemma_put::<BulletState>(w1, Key::Bullet, f.bullet);
        let w3 = put::<BulletState>(w2, Key::HitBullet, f.hit_bullet);
        lemma_put::<BulletState>(w2, Key::HitBullet, f.hit_bullet);
        assert(w3 == Self::written(base, f));
    }
}

impl Show for BulletHitBulletEvent {
    open spec fn shown(m: BulletHitBulletEventModel) -> Seq<char> {
        "BulletHitBulletEvent { turn_number: "@
            + i32::shown(m.turn_number)
            + ", bullet: "@
            + BulletState::shown(m.bullet)
            + ", hit_bullet: "@
            + BulletState::shown(m.hit_bullet)
            + " }"@
    }

    fn show(&self) -> (s: String) {
        let mut s = "BulletHitBulletEvent { turn_number: ".to_owned();
        s.append(self.turn_number.show().as_str());
        s.append(", bullet: ");
        s.append(self.bullet.show().as_str());
        s.append(", hit_bullet: ");
        s.append(self.hit_bullet.show().as_str());
        s.append(" }");
        s
    }
}

/// A bullet hit a wall.
#[derive(Clone, Debug)]
pub struct BulletHitWallEvent {
    pub turn_number: i32,
    pub bullet: BulletState,
}

/// What a [`BulletHitWallEvent`] stands for.
pub ghost struct BulletHitWallEventModel {
    pub turn_number: i32,
    pub bullet: BulletStateModel,
}

impl Record for BulletHitWallEvent {
    type Fields = BulletHitWallEventModel;

    open spec fn fields(&self) -> BulletHitWallEventModel {
        BulletHitWallEventModel {
            turn_number: self.turn_number.model(),
            bullet: self.bullet.model(),
        }
    }

    open spec fn read(members: Members) -> Option<BulletHitWallEventModel> {
        if req::<i32>(members, Key::TurnNumber) is Some
            && req::<BulletState>(members, Key::Bullet) is Some
        {
            Some(
                BulletHitWallEventModel {
                    turn_number: req::<i32>(members, Key::TurnNumber)->0,
                    bullet: req::<BulletState>(members, Key::Bullet)->0,
                },
            )
        } else {
            None
        }
    }

    open spec fn written(base: Members, f: BulletHitWallEventModel) -> Members {
        let base = put::<i32>(base, Key::TurnNumber, f.turn_number);
        let base = put::<BulletState>(base, Key::Bullet, f.bullet);
        base
    }

    fn read_fields(j: &Json) -> (r: Option<BulletHitWallEvent>) {
        let turn_number = required::<i32>(j, Key::TurnNumber)?;
        let bullet = required::<BulletState>(j, Key::Bullet)?;
        Some(BulletHitWallEvent { turn_number, bullet })
    }

    fn write_fields(&self, members: &mut Vec<(String, Json)>) {
        emit::<i32>(members, Key::TurnNumber, &self.turn_number);
        emit::<BulletState>(members, Key::Bullet, &self.bullet);
    }

    proof fn lemma_read_written(base: Members, f: BulletHitWallEventModel) {
        let w1 = put::<i32>(base, Key::TurnNumber, f.turn_number);
        lemma_put::<i32>(base, Key::TurnNumber, f.turn_number);
        let w2 = put::<BulletState>(w1, Key::Bullet, f.bullet);
        lemma_put::<BulletState>(w1, Key::Bullet, f.bullet);
        assert(w2 == Self::written(base, f));
    }
}

impl Show for BulletHitWallEvent {
    open spec fn shown(m: BulletHitWallEventModel) -> Seq<char> {
        "BulletHitWallEvent { turn_number: "@
            + i32::shown(m.turn_number)
            + ", bullet: "@
            + BulletState::shown(m.bullet)
            + " }"@
    }

    fn show(&self) -> (s: String) {
        let mut s = "BulletHitWallEvent { turn_number: ".to_owned();
        s.append(self.turn_number.show().as_str());
        s.append(", bullet: ");
        s.append(self.bullet.show().as_str());
        s.append(" }");
        s
    }
}

/// The receiving bot was hit by a bullet.
#[derive(Clone, Debug)]
pub struct HitByBulletEvent {
    pub turn_number: i32,
    pub bullet: BulletState,
    pub damage: serde_json::Number,
    pub energy: serde_json::Number,
}

/// What a [`HitByBulletEvent`] stands for.
pub ghost struct HitByBulletEventModel {
    pub turn_number: i32,
    pub bullet: BulletStateModel,
    pub damage: NumericValue,
    pub energy: NumericValue,
}

impl Record for HitByBulletEvent {
    type Fields = HitByBulletEventModel;

    open spec fn fields(&self) -> HitByBulletEventModel {
        HitByBulletEventModel {
            turn_number: self.turn_number.model(),
            bullet: self.bullet.model(),
            damage: self.damage.model(),
            energy: self.energy.model(),
        }
    }

    open spec fn read(members: Members) -> Option<HitByBulletEventModel> {
        if req::<i32>(members, Key::TurnNumber) is Some
            && req::<BulletState>(members, Key::Bullet) is Some
            && req::<serde_json::Number>(members, Key::Damage) is Some
            && req::<serde_json::Number>(members, Key::Energy) is Some
        {
            Some(
                HitByBulletEventModel {
                    turn_number: req::<i32>(members, Key::TurnNumber)->0,
                    bullet: req::<BulletState>(members, Key::Bullet)->0,
                    damage: req::<serde_json::Number>(members, Key::Damage)->0,
                    energy: req::<serde_json::Number>(members, Key::Energy)->0,
                },
            )
        } else {
            None
        }
    }

    open spec fn written(base: Members, f: HitByBulletEventModel) -> Members {
        let base = put::<i32>(base, Key::TurnNumber, f.turn_number);
        let base = put::<BulletState>(base, Key::Bullet, f.bullet);
        let base = put::<serde_json::Number>(base, Key::Damage, f.damage);
        let base = put::<serde_json::Number>(base, Key::Energy, f.energy);
        base
    }

    fn read_fields(j: &Json) -> (r: Option<HitByBulletEvent>) {
        let turn_number = required::<i32>(j, Key::TurnNumber)?;
        let bullet = required::<BulletState>(j, Key::Bullet)?;
        let damage = required::<serde_json::Number>(j, Key::Damage)?;
        let energy = required::<serde_json::Number>(j, Key::Energy)?;
        Some(HitByBulletEvent { turn_number, bullet, damage, energy })
    }

    fn write_fields(&self, members: &mut Vec<(String, Json)>) {
        emit::<i32>(members, Key::TurnNumber, &self.turn_number);
        emit::<BulletState>(members, Key::Bullet, &self.bullet);
        emit::<serde_json::Number>(members, Key::Damage, &self.damage);
        emit::<serde_json::Number>(members, Key::Energy, &self.energy);
    }

    proof fn lemma_read_written(base: Members, f: HitByBulletEventModel) {
        let w1 = put::<i32>(base, Key::TurnNumber, f.turn_number);
        lemma_put::<i32>(base, Key::TurnNumber, f.turn_number);
        let w2 = put::<BulletState>(w1, Key::Bullet, f.bullet);
        lemma_put::<BulletState>(w1, Key::Bullet, f.bullet);
        let w3 = put::<serde_json::Number>(w2, Key::Damage, f.damage);
        lemma_put::<serde_json::Number>(w2, Key::Damage, f.damage);
        let w4 = put::<serde_json::Number>(w3, Key::Energy, f.energy);
        lemma_put::<serde_json::Number>(w3, Key::Energy, f.energy);
        assert(w4 == Self::written(base, f));
    }
}

impl Show for HitByBulletEvent {
    open spec fn shown(m: HitByBulletEventModel) -> Seq<char> {
        "HitByBulletEvent { turn_number: "@
            + i32::shown(m.turn_number)
            + ", bullet: "@
            + BulletState::shown(m.bullet)
            + ", damage: "@
            + <serde_json::Number as Show>::shown(m.damage)
            + ", energy: "@
            + <serde_json::Number as Show>::shown(m.energy)
            + " }"@
    }

    fn show(&self) -> (s: String) {
        let mut s = "HitByBulletEvent { turn_number: ".to_owned();
        s.append(self.turn_number.show().as_str());
        s.append(", bullet: ");
        s.append(self.bullet.show().as_str());
        s.append(", damage: ");
        s.append(self.damage.show().as_str());
        s.append(", energy: ");
        s.append(self.energy.show().as_str());
        s.append(" }");
        s
    }
}

/// A radar swept over a bot.
#[derive(Clone, Debug)]
pub struct ScannedBotEvent {
    pub turn_number: i32,
    pub direction: serde_json::Number,
    pub energy: serde_json::Number,
    pub scanned_bot_id: i32,
    pub scanned_by_bot_id: i32,
    pub speed: serde_json::Number,
    pub x: serde_json::Number,
    pub y: serde_json::Number,
}

/// What a [`ScannedBotEvent`] stands for.
pub ghost struct ScannedBotEventModel {
    pub turn_number: i32,
    pub direction: NumericValue,
    pub energy: NumericValue,
    pub scanned_bot_id: i32,
    pub scanned_by_bot_id: i32,
    pub speed: NumericValue,
    pub x: NumericValue,
    pub y: NumericValue,
}

impl Record for ScannedBotEvent {
    type Fields = ScannedBotEventModel;

    open spec fn fields(&self) -> ScannedBotEventModel {
        ScannedBotEventModel {
            turn_number: self.turn_number.model(),
            direction: self.direction.model(),
            energy: self.energy.model(),
            scanned_bot_id: self.scanned_bot_id.model(),
            scanned_by_bot_id: self.scanned_by_bot_id.model(),
            speed: self.speed.model(),
            x: self.x.model(),
            y: self.y.model(),
        }
    }

    open spec fn read(members: Members) -> Option<ScannedBotEventModel> {
        if req::<i32>(members, Key::TurnNumber) is Some
            && req::<serde_json::Number>(members, Key::Direction) is Some
            && req::<serde_json::Number>(members, Key::Energy) is Some
            && req::<i32>(members, Key::ScannedBotId) is Some
            && req::<i32>(members, Key::ScannedByBotId) is Some
            && req::<serde_json::Number>(members, Key::Speed) is Some
            && req::<serde_json::Number>(members, Key::X) is Some
            && req::<serde_json::Number>(members, Key::Y) is Some
        {
            Some(
                ScannedBotEventModel {
                    turn_number: req::<i32>(members, Key::TurnNumber)->0,
                    direction: req::<serde_json::Number>(members, Key::Direction)->0,
                    energy: req::<serde_json::Number>(members, Key::Energy)->0,
                    scanned_bot_id: req::<i32>(members, Key::ScannedBotId)->0,
                    scanned_by_bot_id: req::<i32>(members, Key::ScannedByBotId)->0,
                    speed: req::<serde_json::Number>(members, Key::Speed)->0,
                    x: req::<serde_json::Number>(members, Key::X)->0,
                    y: req::<serde_json::Number>(members, Key::Y)->0,
                },
            )
        } else {
            None
        }
    }

    open spec fn written(base: Members, f: ScannedBotEventModel) -> Members {
        let base = put::<i32>(base, Key::TurnNumber, f.turn_number);
        let base = put::<serde_json::Number>(base, Key::Direction, f.direction);
        let base = put::<serde_json::Number>(base, Key::Energy, f.energy);
        let base = put::<i32>(base, Key::ScannedBotId, f.scanned_bot_id);
        let base = put::<i32>(base, Key::ScannedByBotId, f.scanned_by_bot_id);
        let base = put::<serde_json::Number>(base, Key::Speed, f.speed);
        let base = put::<serde_json::Number>(base, Key::X, f.x);
        let base = put::<serde_json::Number>(base, Key::Y, f.y);
        base
    }

    fn read_fields(j: &Json) -> (r: Option<ScannedBotEvent>) {
        let turn_number = required::<i32>(j, Key::TurnNumber)?;
        let direction = required::<serde_json::Number>(j, Key::Direction)?;
        let energy = required::<serde_json::Number>(j, Key::Energy)?;
        let scanned_bot_id = required::<i32>(j, Key::ScannedBotId)?;
        let scanned_by_bot_id = required::<i32>(j, Key::ScannedByBotId)?;
        let speed = required::<serde_json::Number>(j, Key::Speed)?;
        let x = required::<serde_json::Number>(j, Key::X)?;
        let y = required::<serde_json::Number>(j, Key::Y)?;
        Some(ScannedBotEvent {
            turn_number,
            direction,
            energy,
            scanned_bot_id,
            scanned_by_bot_id,
            speed,
            x,
            y,
        })
    }

    fn write_fields(&self, members: &mut Vec<(String, Json)>) {
        emit::<i32>(members, Key::TurnNumber, &self.turn_number);
        emit::<serde_json::Number>(members, Key::Direction, &self.direction);
        emit::<serde_json::Number>(members, Key::Energy, &self.energy);
        emit::<i32>(members, Key::ScannedBotId, &self.scanned_bot_id);
        emit::<i32>(members, Key::ScannedByBotId, &self.scanned_by_bot_id);
        emit::<serde_json::Number>(members, Key::Speed, &self.speed);
        emit::<serde_json::Number>(members, Key::X, &self.x);
        emit::<serde_json::Number>(members, Key::Y, &self.y);
    }

    proof fn lemma_read_written(base: Members, f: ScannedBotEventModel) {
        let w1 = put::<i32>(base, Key::TurnNumber, f.turn_number);
        lemma_put::<i32>(base, Key::TurnNumber, f.turn_number);
        let w2 = put::<serde_json::Number>(w1, Key::Direction, f.direction);
        lemma_put::<serde_json::Number>(w1, Key::Direction, f.direction);
        let w3 = put::<serde_json::Number>(w2, Key::Energy, f.energy);
        lemma_put::<serde_json::Number>(w2, Key::Energy, f.energy);
        let w4 = put::<i32>(w3, Key::ScannedBotId, f.scanned_bot_id);
        lemma_put::<i32>(w3, Key::ScannedBotId, f.scanned_bot_id);
        let w5 = put::<i32>(w4, Key::ScannedByBotId, f.scanned_by_bot_id);
        lemma_put::<i32>(w4, Key::ScannedByBotId, f.scanned_by_bot_id);
        let w6 = put::<serde_json::Number>(w5, Key::Speed, f.speed);
        lemma_put::<serde_json::Number>(w5, Key::Speed, f.speed);
        let w7 = put::<serde_json::Number>(w6, Key::X, f.x);
        lemma_put::<serde_json::Number>(w6, Key::X, f.x);
        let w8 = put::<serde_json::Number>(w7, Key::Y, f.y);
        lemma_put::<serde_json::Number>(w7, Key::Y, f.y);
        assert(w8 == Self::written(base, f));
    }
}

impl Show for ScannedBotEvent {
    open spec fn shown(m: ScannedBotEventModel) -> Seq<char> {
        "ScannedBotEvent { turn_number: "@
            + i32::shown(m.turn_number)
            + ", direction: "@
            + <serde_json::Number as Show>::shown(m.direction)
            + ", energy: "@
            + <serde_json::Number as Show>::shown(m.energy)
            + ", scanned_bot_id: "@
            + i32::shown(m.scanned_bot_id)
            + ", scanned_by_bot_id: "@
            + i32::shown(m.scanned_by_bot_id)
            + ", speed: "@
            + <serde_json::Number as Show>::shown(m.speed)
            + ", x: "@
            + <serde_json::Number as Show>::shown(m.x)
            + ", y: "@
            + <serde_json::Number as Show>::shown(m.y)
            + " }"@
    }

    fn show(&self) -> (s: String) {
        let mut s = "ScannedBotEvent { turn_number: ".to_owned();
        s.append(self.turn_number.show().as_str());
        s.append(", direction: ");
        s.append(self.direction.show().as_str());
        s.append(", energy: ");
        s.append(self.energy.show().as_str());
        s.append(", scanned_bot_id: ");
        s.append(self.scanned_bot_id.show().as_str());
        s.append(", scanned_by_bot_id: ");
        s.append(self.scanned_by_bot_id.show().as_str());
        s.append(", speed: ");
        s.append(self.speed.show().as_str());
        s.append(", x: ");
        s.append(self.x.show().as_str());
        s.append(", y: ");
        s.append(self.y.show().as_str());
        s.append(" }");
        s
    }
}

/// The bot sent no intent in time and the turn went on without it.
#[derive(Clone, Debug)]
pub struct SkippedTurnEvent {
    pub turn_number: i32,
}

/// What a [`SkippedTurnEvent`] stands for.
pub ghost struct SkippedTurnEventModel {
    pub turn_number: i32,
}

impl Record for SkippedTurnEvent {
    type Fields = SkippedTurnEventModel;

    open spec fn fields(&self) -> SkippedTurnEventModel {
        SkippedTurnEventModel {
            turn_number: self.turn_number.model(),
        }
    }

    open spec fn read(members: Members) -> Option<SkippedTurnEventModel> {
        if req::<i32>(members, Key::TurnNumber) is Some {
            Some(
                SkippedTurnEventModel {
                    turn_number: req::<i32>(members, Key::TurnNumber)->0,
                },
            )
        } else {
            None
        }
    }

    open spec fn written(base: Members, f: SkippedTurnEventModel) -> Members {
        let base = put::<i32>(base, Key::TurnNumber, f.turn_number);
        base
    }

    fn read_fields(j: &Json) -> (r: Option<SkippedTurnEvent>) {
        let turn_number = required::<i32>(j, Key::TurnNumber)?;
        Some(SkippedTurnEvent { turn_number })
    }

    fn write_fields(&self, members: &mut Vec<(String, Json)>) {
        emit::<i32>(members, Key::TurnNumber, &self.turn_number);
    }

    proof fn lemma_read_written(base: Members, f: SkippedTurnEventModel) {
        let w1 = put::<i32>(base, Key::TurnNumber, f.turn_number);
        lemma_put::<i32>(base, Key::TurnNumber, f.turn_number);
        assert(w1 == Self::written(base, f));
    }
}

impl Show for SkippedTurnEvent {
    open spec fn shown(m: SkippedTurnEventModel) -> Seq<char> {
        "SkippedTurnEvent { turn_number: "@ + i32::shown(m.turn_number) + " }"@
    }

    fn show(&self) -> (s: String) {
        let mut s = "SkippedTurnEvent { turn_number: ".to_owned();
        s.append(self.turn_number.show().as_str());
        s.append(" }");
        s
    }
}

/// A team mate sent a message.
#[derive(Clone, Debug)]
pub struct TeamMessageEvent {
    pub turn_number: i32,
    pub message: String,
    pub message_type: String,
    pub sender_id: i32,
}

/// What a [`TeamMessageEvent`] stands for.
pub ghost struct TeamMessageEventModel {
    pub turn_number: i32,
    pub message: Seq<char>,
    pub message_type: Seq<char>,
    pub sender_id: i32,
}

impl Record for TeamMessageEvent {
    type Fields = TeamMessageEventModel;

    open spec fn fields(&self) -> TeamMessageEventModel {
        TeamMessageEventModel {
            turn_number: self.turn_number.model(),
            message: self.message.model(),
            message_type: self.message_type.model(),
            sender_id: self.sender_id.model(),
        }
    }

    open spec fn read(members: Members) -> Option<TeamMessageEventModel> {
        if req::<i32>(members, Key::TurnNumber) is Some
            && req::<String>(members, Key::Message) is Some
            && req::<String>(members, Key::MessageType) is Some
            && req::<i32>(members, Key::SenderId) is Some
        {
            Some(
                TeamMessageEventModel {
                    turn_number: req::<i32>(members, Key::TurnNumber)->0,
                    message: req::<String>(members, Key::Message)->0,
                    message_type: req::<String>(members, Key::MessageType)->0,
                    sender_id: req::<i32>(members, Key::SenderId)->0,
                },
            )
        } else {
            None
        }
    }

    open spec fn written(base: Members, f: TeamMessageEventModel) -> Members {
        let base = put::<i32>(base, Key::TurnNumber, f.turn_number);
        let base = put::<String>(base, Key::Message, f.message);
        let base = put::<String>(base, Key::MessageType, f.message_type);
        let base = put::<i32>(base, Key::SenderId, f.sender_id);
        base
    }

    fn read_fields(j: &Json) -> (r: Option<TeamMessageEvent>) {
        let turn_number = required::<i32>(j, Key::TurnNumber)?;
        let message = required::<String>(j, Key::Message)?;
        let message_type = required::<String>(j, Key::MessageType)?;
        let sender_id = required::<i32>(j, Key::SenderId)?;
        Some(TeamMessageEvent { turn_number, message, message_type, sender_id })
    }

    fn write_fields(&self, members: &mut Vec<(String, Json)>) {
        emit::<i32>(members, Key::TurnNumber, &self.turn_number);
        emit::<String>(members, Key::Message, &self.message);
        emit::<String>(members, Key::MessageType, &self.message_type);
        emit::<i32>(members, Key::SenderId, &self.sender_id);
    }

    proof fn lemma_read_written(base: Members, f: TeamMessageEventModel) {
        let w1 = put::<i32>(base, Key::TurnNumber, f.turn_number);
        lemma_put::<i32>(base, Key::TurnNumber, f.turn_number);
        let w2 = put::<String>(w1, Key::Message, f.message);
        lemma_put::<String>(w1, Key::Message, f.message);
        let w3 = put::<String>(w2, Key::MessageType, f.message_type);
        lemma_put::<String>(w2, Key::MessageType, f.message_type);
        let w4 = put::<i32>(w3, Key::SenderId, f.sender_id);
        lemma_put::<i32>(w3, Key::SenderId, f.sender_id);
        assert(w4 == Self::written(base, f));
    }
}

impl Show for TeamMessageEvent {
    open spec fn shown(m: TeamMessageEventModel) -> Seq<char> {
        "TeamMessageEvent { turn_number: "@
            + i32::shown(m.turn_number)
            + ", message: "@
            + String::shown(m.message)
            + ", message_type: "@
            + String::shown(m.message_type)
            + ", sender_id: "@
            + i32::shown(m.sender_id)
            + " }"@
    }

    fn show(&self) -> (s: String) {
        let mut s = "TeamMessageEvent { turn_number: ".to_owned();
        s.append(self.turn_number.show().as_str());
        s.append(", message: ");
        s.append(self.message.show().as_str());
        s.append(", message_type: ");
        s.append(self.message_type.show().as_str());
        s.append(", sender_id: ");
        s.append(self.sender_id.show().as_str());
        s.append(" }");
        s
    }
}

/// The receiving bot won the round.
#[derive(Clone, Debug)]
pub struct WonRoundEvent {
    pub turn_number: i32,
}

/// What a [`WonRoundEvent`] stands for.
pub ghost struct WonRoundEventModel {
    pub turn_number: i32,
}

impl Record for WonRoundEvent {
    type Fields = WonRoundEventModel;

    open spec fn fields(&self) -> WonRoundEventModel {
        WonRoundEventModel {
            turn_number: self.turn_number.model(),
        }
    }

    open spec fn read(members: Members) -> Option<WonRoundEventModel> {
        if req::<i32>(members, Key::TurnNumber) is Some {
            Some(
                WonRoundEventModel {
                    turn_number: req::<i32>(members, Key::TurnNumber)->0,
                },
            )
        } else {
            None
        }
    }

    open spec fn written(base: Members, f: WonRoundEventModel) -> Members {
        let base = put::<i32>(base, Key::TurnNumber, f.turn_number);
        base
    }

    fn read_fields(j: &Json) -> (r: Option<WonRoundEvent>) {
        let turn_number = required::<i32>(j, Key::TurnNumber)?;
        Some(WonRoundEvent { turn_number })
    }

    fn write_fields(&self, members: &mut Vec<(String, Json)>) {
        emit::<i32>(members, Key::TurnNumber, &self.turn_number);
    }

    proof fn lemma_read_written(base: Members, f: WonRoundEventModel) {
        let w1 = put::<i32>(base, Key::TurnNumber, f.turn_number);
        lemma_put::<i32>(base, Key::TurnNumber, f.turn_number);
        assert(w1 == Self::written(base, f));
    }
}

impl Show for WonRoundEvent {
    open spec fn shown(m: WonRoundEventModel) -> Seq<char> {
        "WonRoundEvent { turn_number: "@ + i32::shown(m.turn_number) + " }"@
    }

    fn show(&self) -> (s: String) {
        let mut s = "WonRoundEvent { turn_number: ".to_owned();
        s.append(self.turn_number.show().as_str());
        s.append(" }");
        s
    }
}

} // verus!
