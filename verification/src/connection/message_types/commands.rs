//! What clients ask of the server: a bot's intent for the coming turn, and the
//! commands of a controller.

use crate::connection::message_types::common::{
    BotAddress,
    BotAddressModel,
    BotHandshakeInfo,
    BotHandshakeInfoModel,
    Color,
    GameSetup,
    GameSetupModel,
    TeamMessage,
    TeamMessageModel,
};
use crate::json::{Json, Members, NumericValue};
use crate::names::Key;
use crate::show::{Show, show_opt, shown_opt};
use crate::wire::{
    emit,
    emit_opt,
    lemma_put,
    lemma_put_opt,
    opt,
    opt_model,
    optional,
    put,
    put_opt,
    Record,
    req,
    required,
    Wire,
};
use vstd::prelude::*;

verus! {

/// What a bot wants for the coming turn. Every field may be absent: an absent
/// field leaves the setting as it was, which is not the same as setting it to
/// zero or `false`.
#[derive(Clone, Debug)]
pub struct BotIntent {
    pub adjust_gun_for_body_turn: Option<bool>,
    pub adjust_radar_for_body_turn: Option<bool>,
    pub adjust_radar_for_gun_turn: Option<bool>,
    pub body_color: Option<Color>,
    pub bullet_color: Option<Color>,
    pub fire_assist: Option<bool>,
    pub firepower: Option<serde_json::Number>,
    pub gun_color: Option<Color>,
    pub gun_turn_rate: Option<serde_json::Number>,
    pub radar_color: Option<Color>,
    pub radar_turn_rate: Option<serde_json::Number>,
    pub rescan: Option<bool>,
    pub scan_color: Option<Color>,
    pub stderr: Option<String>,
    pub stdout: Option<String>,
    pub target_speed: Option<serde_json::Number>,
    pub team_messages: Option<Vec<TeamMessage>>,
    pub tracks_color: Option<Color>,
    pub turn_rate: Option<serde_json::Number>,
    pub turret_color: Option<Color>,
}

/// What a [`BotIntent`] stands for.
pub ghost struct BotIntentModel {
    pub adjust_gun_for_body_turn: Option<bool>,
    pub adjust_radar_for_body_turn: Option<bool>,
    pub adjust_radar_for_gun_turn: Option<bool>,
    pub body_color: Option<Seq<char>>,
    pub bullet_color: Option<Seq<char>>,
    pub fire_assist: Option<bool>,
    pub firepower: Option<NumericValue>,
    pub gun_color: Option<Seq<char>>,
    pub gun_turn_rate: Option<NumericValue>,
    pub radar_color: Option<Seq<char>>,
    pub radar_turn_rate: Option<NumericValue>,
    pub rescan: Option<bool>,
    pub scan_color: Option<Seq<char>>,
    pub stderr: Option<Seq<char>>,
    pub stdout: Option<Seq<char>>,
    pub target_speed: Option<NumericValue>,
    pub team_messages: Option<Seq<TeamMessageModel>>,
    pub tracks_color: Option<Seq<char>>,
    pub turn_rate: Option<NumericValue>,
    pub turret_color: Option<Seq<char>>,
}

impl Record for BotIntent {
    type Fields = BotIntentModel;

    open spec fn fields(&self) -> BotIntentModel {
        BotIntentModel {
            adjust_gun_for_body_turn: opt_model(self.adjust_gun_for_body_turn),
            adjust_radar_for_body_turn: opt_model(self.adjust_radar_for_body_turn),
            adjust_radar_for_gun_turn: opt_model(self.adjust_radar_for_gun_turn),
            body_color: opt_model(self.body_color),
            bullet_color: opt_model(self.bullet_color),
            fire_assist: opt_model(self.fire_assist),
            firepower: opt_model(self.firepower),
            gun_color: opt_model(self.gun_color),
            gun_turn_rate: opt_model(self.gun_turn_rate),
            radar_color: opt_model(self.radar_color),
            radar_turn_rate: opt_model(self.radar_turn_rate),
            rescan: opt_model(self.rescan),
            scan_color: opt_model(self.scan_color),
            stderr: opt_model(self.stderr),
            stdout: opt_model(self.stdout),
            target_speed: opt_model(self.target_speed),
            team_messages: opt_model(self.team_messages),
            tracks_color: opt_model(self.tracks_color),
            turn_rate: opt_model(self.turn_rate),
            turret_color: opt_model(self.turret_color),
        }
    }

    open spec fn read(members: Members) -> Option<BotIntentModel> {
        if opt::<bool>(members, Key::AdjustGunForBodyTurn) is Some
            && opt::<bool>(members, Key::AdjustRadarForBodyTurn) is Some
            && opt::<bool>(members, Key::AdjustRadarForGunTurn) is Some
            && opt::<Color>(members, Key::BodyColor) is Some
            && opt::<Color>(members, Key::BulletColor) is Some
            && opt::<bool>(members, Key::FireAssist) is Some
            && opt::<serde_json::Number>(members, Key::Firepower) is Some
            && opt::<Color>(members, Key::GunColor) is Some
            && opt::<serde_json::Number>(members, Key::GunTurnRate) is Some
            && opt::<Color>(members, Key::RadarColor) is Some
            && opt::<serde_json::Number>(members, Key::RadarTurnRate) is Some
            && opt::<bool>(members, Key::Rescan) is Some
            && opt::<Color>(members, Key::ScanColor) is Some
            && opt::<String>(members, Key::Stderr) is Some
            && opt::<String>(members, Key::Stdout) is Some
            && opt::<serde_json::Number>(members, Key::TargetSpeed) is Some
            && opt::<Vec<TeamMessage>>(members, Key::TeamMessages) is Some
            && opt::<Color>(members, Key::TracksColor) is Some
            && opt::<serde_json::Number>(members, Key::TurnRate) is Some
            && opt::<Color>(members, Key::TurretColor) is Some
        {
            Some(
                BotIntentModel {
                    adjust_gun_for_body_turn: opt::<bool>(members, Key::AdjustGunForBodyTurn)->0,
                    adjust_radar_for_body_turn: opt::<bool>(
                        members,
                        Key::AdjustRadarForBodyTurn,
                    )->0,
                    adjust_radar_for_gun_turn: opt::<bool>(members, Key::AdjustRadarForGunTurn)->0,
                    body_color: opt::<Color>(members, Key::BodyColor)->0,
                    bullet_color: opt::<Color>(members, Key::BulletColor)->0,
                    fire_assist: opt::<bool>(members, Key::FireAssist)->0,
                    firepower: opt::<serde_json::Number>(members, Key::Firepower)->0,
                    gun_color: opt::<Color>(members, Key::GunColor)->0,
                    gun_turn_rate: opt::<serde_json::Number>(members, Key::GunTurnRate)->0,
                    radar_color: opt::<Color>(members, Key::RadarColor)->0,
                    radar_turn_rate: opt::<serde_json::Number>(members, Key::RadarTurnRate)->0,
                    rescan: opt::<bool>(members, Key::Rescan)->0,
                    scan_color: opt::<Color>(members, Key::ScanColor)->0,
                    stderr: opt::<String>(members, Key::Stderr)->0,
                    stdout: opt::<String>(members, Key::Stdout)->0,
                    target_speed: opt::<serde_json::Number>(members, Key::TargetSpeed)->0,
                    team_messages: opt::<Vec<TeamMessage>>(members, Key::TeamMessages)->0,
                    tracks_color: opt::<Color>(members, Key::TracksColor)->0,
                    turn_rate: opt::<serde_json::Number>(members, Key::TurnRate)->0,
                    turret_color: opt::<Color>(members, Key::TurretColor)->0,
                },
            )
        } else {
            None
        }
    }

    open spec fn written(base: Members, f: BotIntentModel) -> Members {
        let base = put_opt::<bool>(base, Key::AdjustGunForBodyTurn, f.adjust_gun_for_body_turn);
        let base = put_opt::<bool>(base, Key::AdjustRadarForBodyTurn, f.adjust_radar_for_body_turn);
        let base = put_opt::<bool>(base, Key::AdjustRadarForGunTurn, f.adjust_radar_for_gun_turn);
        let base = put_opt::<Color>(base, Key::BodyColor, f.body_color);
        let base = put_opt::<Color>(base, Key::BulletColor, f.bullet_color);
        let base = put_opt::<bool>(base, Key::FireAssist, f.fire_assist);
        let base = put_opt::<serde_json::Number>(base, Key::Firepower, f.firepower);
        let base = put_opt::<Color>(base, Key::GunColor, f.gun_color);
        let base = put_opt::<serde_json::Number>(base, Key::GunTurnRate, f.gun_turn_rate);
        let base = put_opt::<Color>(base, Key::RadarColor, f.radar_color);
        let base = put_opt::<serde_json::Number>(base, Key::RadarTurnRate, f.radar_turn_rate);
        let base = put_opt::<bool>(base, Key::Rescan, f.rescan);
        let base = put_opt::<Color>(base, Key::ScanColor, f.scan_color);
        let base = put_opt::<String>(base, Key::Stderr, f.stderr);
        let base = put_opt::<String>(base, Key::Stdout, f.stdout);
        let base = put_opt::<serde_json::Number>(base, Key::TargetSpeed, f.target_speed);
        let base = put_opt::<Vec<TeamMessage>>(base, Key::TeamMessages, f.team_messages);
        let base = put_opt::<Color>(base, Key::TracksColor, f.tracks_color);
        let base = put_opt::<serde_json::Number>(base, Key::TurnRate, f.turn_rate);
        let base = put_opt::<Color>(base, Key::TurretColor, f.turret_color);
        base
    }

    fn read_fields(j: &Json) -> (r: Option<BotIntent>) {
        let adjust_gun_for_body_turn = optional::<bool>(j, Key::AdjustGunForBodyTurn)?;
        let adjust_radar_for_body_turn = optional::<bool>(j, Key::AdjustRadarForBodyTurn)?;
        let adjust_radar_for_gun_turn = optional::<bool>(j, Key::AdjustRadarForGunTurn)?;
        let body_color = optional::<Color>(j, Key::BodyColor)?;
        let bullet_color = optional::<Color>(j, Key::BulletColor)?;
        let fire_assist = optional::<bool>(j, Key::FireAssist)?;
        let firepower = optional::<serde_json::Number>(j, Key::Firepower)?;
        let gun_color = optional::<Color>(j, Key::GunColor)?;
        let gun_turn_rate = optional::<serde_json::Number>(j, Key::GunTurnRate)?;
        let radar_color = optional::<Color>(j, Key::RadarColor)?;
        let radar_turn_rate = optional::<serde_json::Number>(j, Key::RadarTurnRate)?;
        let rescan = optional::<bool>(j, Key::Rescan)?;
        let scan_color = optional::<Color>(j, Key::ScanColor)?;
        let stderr = optional::<String>(j, Key::Stderr)?;
        let stdout = optional::<String>(j, Key::Stdout)?;
        let target_speed = optional::<serde_json::Number>(j, Key::TargetSpeed)?;
        let team_messages = optional::<Vec<TeamMessage>>(j, Key::TeamMessages)?;
        let tracks_color = optional::<Color>(j, Key::TracksColor)?;
        let turn_rate = optional::<serde_json::Number>(j, Key::TurnRate)?;
        let turret_color = optional::<Color>(j, Key::TurretColor)?;
        Some(BotIntent {
            adjust_gun_for_body_turn,
            adjust_radar_for_body_turn,
            adjust_radar_for_gun_turn,
            body_color,
            bullet_color,
            fire_assist,
            firepower,
            gun_color,
            gun_turn_rate,
            radar_color,
            radar_turn_rate,
            rescan,
            scan_color,
            stderr,
            stdout,
            target_speed,
            team_messages,
            tracks_color,
            turn_rate,
            turret_color,
        })
    }

    fn write_fields(&self, members: &mut Vec<(String, Json)>) {
        emit_opt::<bool>(members, Key::AdjustGunForBodyTurn, &self.adjust_gun_for_body_turn);
        emit_opt::<bool>(members, Key::AdjustRadarForBodyTurn, &self.adjust_radar_for_body_turn);
        emit_opt::<bool>(members, Key::AdjustRadarForGunTurn, &self.adjust_radar_for_gun_turn);
        emit_opt::<Color>(members, Key::BodyColor, &self.body_color);
        emit_opt::<Color>(members, Key::BulletColor, &self.bullet_color);
        emit_opt::<bool>(members, Key::FireAssist, &self.fire_assist);
        emit_opt::<serde_json::Number>(members, Key::Firepower, &self.firepower);
        emit_opt::<Color>(members, Key::GunColor, &self.gun_color);
        emit_opt::<serde_json::Number>(members, Key::GunTurnRate, &self.gun_turn_rate);
        emit_opt::<Color>(members, Key::RadarColor, &self.radar_color);
        emit_opt::<serde_json::Number>(members, Key::RadarTurnRate, &self.radar_turn_rate);
        emit_opt::<bool>(members, Key::Rescan, &self.rescan);
        emit_opt::<Color>(members, Key::ScanColor, &self.scan_color);
        emit_opt::<String>(members, Key::Stderr, &self.stderr);
        emit_opt::<String>(members, Key::Stdout, &self.stdout);
        emit_opt::<serde_json::Number>(members, Key::TargetSpeed, &self.target_speed);
        emit_opt::<Vec<TeamMessage>>(members, Key::TeamMessages, &self.team_messages);
        emit_opt::<Color>(members, Key::TracksColor, &self.tracks_color);
        emit_opt::<serde_json::Number>(members, Key::TurnRate, &self.turn_rate);
        emit_opt::<Color>(members, Key::TurretColor, &self.turret_color);
    }

    proof fn lemma_read_written(base: Members, f: BotIntentModel) {
        let w1 = put_opt::<bool>(base, Key::AdjustGunForBodyTurn, f.adjust_gun_for_body_turn);
        lemma_put_opt::<bool>(base, Key::AdjustGunForBodyTurn, f.adjust_gun_for_body_turn);
        let w2 = put_opt::<bool>(w1, Key::AdjustRadarForBodyTurn, f.adjust_radar_for_body_turn);
        lemma_put_opt::<bool>(w1, Key::AdjustRadarForBodyTurn, f.adjust_radar_for_body_turn);
        let w3 = put_opt::<bool>(w2, Key::AdjustRadarForGunTurn, f.adjust_radar_for_gun_turn);
        lemma_put_opt::<bool>(w2, Key::AdjustRadarForGunTurn, f.adjust_radar_for_gun_turn);
        let w4 = put_opt::<Color>(w3, Key::BodyColor, f.body_color);
        lemma_put_opt::<Color>(w3, Key::BodyColor, f.body_color);
        let w5 = put_opt::<Color>(w4, Key::BulletColor, f.bullet_color);
        lemma_put_opt::<Color>(w4, Key::BulletColor, f.bullet_color);
        let w6 = put_opt::<bool>(w5, Key::FireAssist, f.fire_assist);
        lemma_put_opt::<bool>(w5, Key::FireAssist, f.fire_assist);
        let w7 = put_opt::<serde_json::Number>(w6, Key::Firepower, f.firepower);
        lemma_put_opt::<serde_json::Number>(w6, Key::Firepower, f.firepower);
        let w8 = put_opt::<Color>(w7, Key::GunColor, f.gun_color);
        lemma_put_opt::<Color>(w7, Key::GunColor, f.gun_color);
        let w9 = put_opt::<serde_json::Number>(w8, Key::GunTurnRate, f.gun_turn_rate);
        lemma_put_opt::<serde_json::Number>(w8, Key::GunTurnRate, f.gun_turn_rate);
        let w10 = put_opt::<Color>(w9, Key::RadarColor, f.radar_color);
        lemma_put_opt::<Color>(w9, Key::RadarColor, f.radar_color);
        let w11 = put_opt::<serde_json::Number>(w10, Key::RadarTurnRate, f.radar_turn_rate);
        lemma_put_opt::<serde_json::Number>(w10, Key::RadarTurnRate, f.radar_turn_rate);
        let w12 = put_opt::<bool>(w11, Key::Rescan, f.rescan);
        lemma_put_opt::<bool>(w11, Key::Rescan, f.rescan);
        let w13 = put_opt::<Color>(w12, Key::ScanColor, f.scan_color);
        lemma_put_opt::<Color>(w12, Key::ScanColor, f.scan_color);
        let w14 = put_opt::<String>(w13, Key::Stderr, f.stderr);
        lemma_put_opt::<String>(w13, Key::Stderr, f.stderr);
        let w15 = put_opt::<String>(w14, Key::Stdout, f.stdout);
        lemma_put_opt::<String>(w14, Key::Stdout, f.stdout);
        let w16 = put_opt::<serde_json::Number>(w15, Key::TargetSpeed, f.target_speed);
        lemma_put_opt::<serde_json::Number>(w15, Key::TargetSpeed, f.target_speed);
        let w17 = put_opt::<Vec<TeamMessage>>(w16, Key::TeamMessages, f.team_messages);
        lemma_put_opt::<Vec<TeamMessage>>(w16, Key::TeamMessages, f.team_messages);
        let w18 = put_opt::<Color>(w17, Key::TracksColor, f.tracks_color);
        lemma_put_opt::<Color>(w17, Key::TracksColor, f.tracks_color);
        let w19 = put_opt::<serde_json::Number>(w18, Key::TurnRate, f.turn_rate);
        lemma_put_opt::<serde_json::Number>(w18, Key::TurnRate, f.turn_rate);
        let w20 = put_opt::<Color>(w19, Key::TurretColor, f.turret_color);
        lemma_put_opt::<Color>(w19, Key::TurretColor, f.turret_color);
        assert(w20 == Self::written(base, f));
    }
}

impl Show for BotIntent {
    open spec fn shown(m: BotIntentModel) -> Seq<char> {
        "BotIntent { adjust_gun_for_body_turn: "@
            + shown_opt::<bool>(m.adjust_gun_for_body_turn)
            + ", adjust_radar_for_body_turn: "@
            + shown_opt::<bool>(m.adjust_radar_for_body_turn)
            + ", adjust_radar_for_gun_turn: "@
            + shown_opt::<bool>(m.adjust_radar_for_gun_turn)
            + ", body_color: "@
            + shown_opt::<Color>(m.body_color)
            + ", bullet_color: "@
            + shown_opt::<Color>(m.bullet_color)
            + ", fire_assist: "@
            + shown_opt::<bool>(m.fire_assist)
            + ", firepower: "@
            + shown_opt::<serde_json::Number>(m.firepower)
            + ", gun_color: "@
            + shown_opt::<Color>(m.gun_color)
            + ", gun_turn_rate: "@
            + shown_opt::<serde_json::Number>(m.gun_turn_rate)
            + ", radar_color: "@
            + shown_opt::<Color>(m.radar_color)
            + ", radar_turn_rate: "@
            + shown_opt::<serde_json::Number>(m.radar_turn_rate)
            + ", rescan: "@
            + shown_opt::<bool>(m.rescan)
            + ", scan_color: "@
            + shown_opt::<Color>(m.scan_color)
            + ", stderr: "@
            + shown_opt::<String>(m.stderr)
            + ", stdout: "@
            + shown_opt::<String>(m.stdout)
            + ", target_speed: "@
            + shown_opt::<serde_json::Number>(m.target_speed)
            + ", team_messages: "@
            + shown_opt::<Vec<TeamMessage>>(m.team_messages)
            + ", tracks_color: "@
            + shown_opt::<Color>(m.tracks_color)
            + ", turn_rate: "@
            + shown_opt::<serde_json::Number>(m.turn_rate)
            + ", turret_color: "@
            + shown_opt::<Color>(m.turret_color)
            + " }"@
    }

    fn show(&self) -> (s: String) {
        let mut s = "BotIntent { adjust_gun_for_body_turn: ".to_owned();
        s.append(show_opt::<bool>(&self.adjust_gun_for_body_turn).as_str());
        s.append(", adjust_radar_for_body_turn: ");
        s.append(show_opt::<bool>(&self.adjust_radar_for_body_turn).as_str());
        s.append(", adjust_radar_for_gun_turn: ");
        s.append(show_opt::<bool>(&self.adjust_radar_for_gun_turn).as_str());
        s.append(", body_color: ");
        s.append(show_opt::<Color>(&self.body_color).as_str());
        s.append(", bullet_color: ");
        s.append(show_opt::<Color>(&self.bullet_color).as_str());
        s.append(", fire_assist: ");
        s.append(show_opt::<bool>(&self.fire_assist).as_str());
        s.append(", firepower: ");
        s.append(show_opt::<serde_json::Number>(&self.firepower).as_str());
        s.append(", gun_color: ");
        s.append(show_opt::<Color>(&self.gun_color).as_str());
        s.append(", gun_turn_rate: ");
        s.append(show_opt::<serde_json::Number>(&self.gun_turn_rate).as_str());
        s.append(", radar_color: ");
        s.append(show_opt::<Color>(&self.radar_color).as_str());
        s.append(", radar_turn_rate: ");
        s.append(show_opt::<serde_json::Number>(&self.radar_turn_rate).as_str());
        s.append(", rescan: ");
        s.append(show_opt::<bool>(&self.rescan).as_str());
        s.append(", scan_color: ");
        s.append(show_opt::<Color>(&self.scan_color).as_str());
        s.append(", stderr: ");
        s.append(show_opt::<String>(&self.stderr).as_str());
        s.append(", stdout: ");
        s.append(show_opt::<String>(&self.stdout).as_str());
        s.append(", target_speed: ");
        s.append(show_opt::<serde_json::Number>(&self.target_speed).as_str());
        s.append(", team_messages: ");
        s.append(show_opt::<Vec<TeamMessage>>(&self.team_messages).as_str());
        s.append(", tracks_color: ");
        s.append(show_opt::<Color>(&self.tracks_color).as_str());
        s.append(", turn_rate: ");
        s.append(show_opt::<serde_json::Number>(&self.turn_rate).as_str());
        s.append(", turret_color: ");
        s.append(show_opt::<Color>(&self.turret_color).as_str());
        s.append(" }");
        s
    }
}

/// The bots that are connected at the moment.
#[derive(Clone, Debug)]
pub struct BotListUpdate {
    pub bots: Vec<BotHandshakeInfo>,
}

/// What a [`BotListUpdate`] stands for.
pub ghost struct BotListUpdateModel {
    pub bots: Seq<BotHandshakeInfoModel>,
}

impl Record for BotListUpdate {
    type Fields = BotListUpdateModel;

    open spec fn fields(&self) -> BotListUpdateModel {
        BotListUpdateModel {
            bots: self.bots.model(),
        }
    }

    open spec fn read(members: Members) -> Option<BotListUpdateModel> {
        if req::<Vec<BotHandshakeInfo>>(members, Key::Bots) is Some {
            Some(
                BotListUpdateModel {
                    bots: req::<Vec<BotHandshakeInfo>>(members, Key::Bots)->0,
                },
            )
        } else {
            None
        }
    }

    open spec fn written(base: Members, f: BotListUpdateModel) -> Members {
        let base = put::<Vec<BotHandshakeInfo>>(base, Key::Bots, f.bots);
        base
    }

    fn read_fields(j: &Json) -> (r: Option<BotListUpdate>) {
        let bots = required::<Vec<BotHandshakeInfo>>(j, Key::Bots)?;
        Some(BotListUpdate { bots })
    }

    fn write_fields(&self, members: &mut Vec<(String, Json)>) {
        emit::<Vec<BotHandshakeInfo>>(members, Key::Bots, &self.bots);
    }

    proof fn lemma_read_written(base: Members, f: BotListUpdateModel) {
        let w1 = put::<Vec<BotHandshakeInfo>>(base, Key::Bots, f.bots);
        lemma_put::<Vec<BotHandshakeInfo>>(base, Key::Bots, f.bots);
        assert(w1 == Self::written(base, f));
    }
}

impl Show for BotListUpdate {
    open spec fn shown(m: BotListUpdateModel) -> Seq<char> {
        "BotListUpdate { bots: "@ + <Vec<BotHandshakeInfo> as Show>::shown(m.bots) + " }"@
    }

    fn show(&self) -> (s: String) {
        let mut s = "BotListUpdate { bots: ".to_owned();
        s.append(self.bots.show().as_str());
        s.append(" }");
        s
    }
}

/// A controller's request for another number of turns per second.
#[derive(Clone, Debug)]
pub struct ChangeTps {
    pub tps: i32,
}

/// What a [`ChangeTps`] stands for.
pub ghost struct ChangeTpsModel {
    pub tps: i32,
}

impl Record for ChangeTps {
    type Fields = ChangeTpsModel;

    open spec fn fields(&self) -> ChangeTpsModel {
        ChangeTpsModel {
            tps: self.tps.model(),
        }
    }

    open spec fn read(members: Members) -> Option<ChangeTpsModel> {
        if req::<i32>(members, Key::Tps) is Some {
            Some(
                ChangeTpsModel {
                    tps: req::<i32>(members, Key::Tps)->0,
                },
            )
        } else {
            None
        }
    }

    open spec fn written(base: Members, f: ChangeTpsModel) -> Members {
        let base = put::<i32>(base, Key::Tps, f.tps);
        base
    }

    fn read_fields(j: &Json) -> (r: Option<ChangeTps>) {
        let tps = required::<i32>(j, Key::Tps)?;
        Some(ChangeTps { tps })
    }

    fn write_fields(&self, members: &mut Vec<(String, Json)>) {
        emit::<i32>(members, Key::Tps, &self.tps);
    }

    proof fn lemma_read_written(base: Members, f: ChangeTpsModel) {
        let w1 = put::<i32>(base, Key::Tps, f.tps);
        lemma_put::<i32>(base, Key::Tps, f.tps);
        assert(w1 == Self::written(base, f));
    }
}

impl Show for ChangeTps {
    open spec fn shown(m: ChangeTpsModel) -> Seq<char> {
        "ChangeTps { tps: "@ + i32::shown(m.tps) + " }"@
    }

    fn show(&self) -> (s: String) {
        let mut s = "ChangeTps { tps: ".to_owned();
        s.append(self.tps.show().as_str());
        s.append(" }");
        s
    }
}

/// The number of turns per second has changed.
#[derive(Clone, Debug)]
pub struct TpsChangedEvent {
    pub tps: i32,
}

/// What a [`TpsChangedEvent`] stands for.
pub ghost struct TpsChangedEventModel {
    pub tps: i32,
}

impl Record for TpsChangedEvent {
    type Fields = TpsChangedEventModel;

    open spec fn fields(&self) -> TpsChangedEventModel {
        TpsChangedEventModel {
            tps: self.tps.model(),
        }
    }

    open spec fn read(members: Members) -> Option<TpsChangedEventModel> {
        if req::<i32>(members, Key::Tps) is Some {
            Some(
                TpsChangedEventModel {
                    tps: req::<i32>(members, Key::Tps)->0,
                },
            )
        } else {
            None
        }
    }

    open spec fn written(base: Members, f: TpsChangedEventModel) -> Members {
        let base = put::<i32>(base, Key::Tps, f.tps);
        base
    }

    fn read_fields(j: &Json) -> (r: Option<TpsChangedEvent>) {
        let tps = required::<i32>(j, Key::Tps)?;
        Some(TpsChangedEvent { tps })
    }

    fn write_fields(&self, members: &mut Vec<(String, Json)>) {
        emit::<i32>(members, Key::Tps, &self.tps);
    }

    proof fn lemma_read_written(base: Members, f: TpsChangedEventModel) {
        let w1 = put::<i32>(base, Key::Tps, f.tps);
        lemma_put::<i32>(base, Key::Tps, f.tps);
        assert(w1 == Self::written(base, f));
    }
}

impl Show for TpsChangedEvent {
    open spec fn shown(m: TpsChangedEventModel) -> Seq<char> {
        "TpsChangedEvent { tps: "@ + i32::shown(m.tps) + " }"@
    }

    fn show(&self) -> (s: String) {
        let mut s = "TpsChangedEvent { tps: ".to_owned();
        s.append(self.tps.show().as_str());
        s.append(" }");
        s
    }
}

/// A controller's request to start a game with these bots.
#[derive(Clone, Debug)]
pub struct StartGame {
    pub bot_addresses: Vec<BotAddress>,
    pub game_setup: GameSetup,
}

/// What a [`StartGame`] stands for.
pub ghost struct StartGameModel {
    pub bot_addresses: Seq<BotAddressModel>,
    pub game_setup: GameSetupModel,
}

impl Record for StartGame {
    type Fields = StartGameModel;

    open spec fn fields(&self) -> StartGameModel {
        StartGameModel {
            bot_addresses: self.bot_addresses.model(),
            game_setup: self.game_setup.model(),
        }
    }

    open spec fn read(members: Members) -> Option<StartGameModel> {
        if req::<Vec<BotAddress>>(members, Key::BotAddresses) is Some
            && req::<GameSetup>(members, Key::GameSetup) is Some
        {
            Some(
                StartGameModel {
                    bot_addresses: req::<Vec<BotAddress>>(members, Key::BotAddresses)->0,
                    game_setup: req::<GameSetup>(members, Key::GameSetup)->0,
                },
            )
        } else {
            None
        }
    }

    open spec fn written(base: Members, f: StartGameModel) -> Members {
        let base = put::<Vec<BotAddress>>(base, Key::BotAddresses, f.bot_addresses);
        let base = put::<GameSetup>(base, Key::GameSetup, f.game_setup);
        base
    }

    fn read_fields(j: &Json) -> (r: Option<StartGame>) {
        let bot_addresses = required::<Vec<BotAddress>>(j, Key::BotAddresses)?;
        let game_setup = required::<GameSetup>(j, Key::GameSetup)?;
        Some(StartGame { bot_addresses, game_setup })
    }

    fn write_fields(&self, members: &mut Vec<(String, Json)>) {
        emit::<Vec<BotAddress>>(members, Key::BotAddresses, &self.bot_addresses);
        emit::<GameSetup>(members, Key::GameSetup, &self.game_setup);
    }

    proof fn lemma_read_written(base: Members, f: StartGameModel) {
        let w1 = put::<Vec<BotAddress>>(base, Key::BotAddresses, f.bot_addresses);
        lemma_put::<Vec<BotAddress>>(base, Key::BotAddresses, f.bot_addresses);
        let w2 = put::<GameSetup>(w1, Key::GameSetup, f.game_setup);
        lemma_put::<GameSetup>(w1, Key::GameSetup, f.game_setup);
        assert(w2 == Self::written(base, f));
    }
}

impl Show for StartGame {
    open spec fn shown(m: StartGameModel) -> Seq<char> {
        "StartGame { bot_addresses: "@
            + <Vec<BotAddress> as Show>::shown(m.bot_addresses)
            + ", game_setup: "@
            + GameSetup::shown(m.game_setup)
            + " }"@
    }

    fn show(&self) -> (s: String) {
        let mut s = "StartGame { bot_addresses: ".to_owned();
        s.append(self.bot_addresses.show().as_str());
        s.append(", game_setup: ");
        s.append(self.game_setup.show().as_str());
        s.append(" }");
        s
    }
}

} // verus!
