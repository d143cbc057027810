//! The handshakes that open a connection: the server names the session, and
//! each kind of client answers with who it is.

use crate::bot::bot_info::{BotInfo, BotInfoModel};
use crate::bot::team_info::{TeamInfo, TeamInfoModel};
use crate::connection::message_types::common::{
    GameSetup,
    GameSetupModel,
    InitialPosition,
    InitialPositionModel,
};
use crate::json::{Json, Members};
use crate::names::Key;
use crate::show::{Show, show_opt, shown_opt};
use crate::wire::{
    emit,
    emit_opt,
    lemma_put,
    lemma_put_opt,
    opt,
    opt_model,
    optional,
    put,
    put_opt,
    Record,
    req,
    required,
    Wire,
};
use vstd::prelude::*;

verus! {

/// The server's opening message: the session it assigned and the games it offers.
#[derive(Clone, Debug)]
pub struct ServerHandshake {
    pub game_setup: Option<GameSetup>,
    pub game_types: Vec<String>,
    pub name: String,
    pub session_id: String,
    pub variant: String,
    pub version: String,
}

/// What a [`ServerHandshake`] stands for.
pub ghost struct ServerHandshakeModel {
    pub game_setup: Option<GameSetupModel>,
    pub game_types: Seq<Seq<char>>,
    pub name: Seq<char>,
    pub session_id: Seq<char>,
    pub variant: Seq<char>,
    pub version: Seq<char>,
}

impl Record for ServerHandshake {
    type Fields = ServerHandshakeModel;

    open spec fn fields(&self) -> ServerHandshakeModel {
        ServerHandshakeModel {
            game_setup: opt_model(self.game_setup),
            game_types: self.game_types.model(),
            name: self.name.model(),
            session_id: self.session_id.model(),
            variant: self.variant.model(),
            version: self.version.model(),
        }
    }

    open spec fn read(members: Members) -> Option<ServerHandshakeModel> {
        if opt::<GameSetup>(members, Key::GameSetup) is Some
            && req::<Vec<String>>(members, Key::GameTypes) is Some
            && req::<String>(members, Key::Name) is Some
            && req::<String>(members, Key::SessionId) is Some
            && req::<String>(members, Key::Variant) is Some
            && req::<String>(members, Key::Version) is Some
        {
            Some(
                ServerHandshakeModel {
                    game_setup: opt::<GameSetup>(members, Key::GameSetup)->0,
                    game_types: req::<Vec<String>>(members, Key::GameTypes)->0,
                    name: req::<String>(members, Key::Name)->0,
                    session_id: req::<String>(members, Key::SessionId)->0,
                    variant: req::<String>(members, Key::Variant)->0,
                    version: req::<String>(members, Key::Version)->0,
                },
            )
        } else {
            None
        }
    }

    open spec fn written(base: Members, f: ServerHandshakeModel) -> Members {
        let base = put_opt::<GameSetup>(base, Key::GameSetup, f.game_setup);
        let base = put::<Vec<String>>(base, Key::GameTypes, f.game_types);
        let base = put::<String>(base, Key::Name, f.name);
        let base = put::<String>(base, Key::SessionId, f.session_id);
        let base = put::<String>(base, Key::Variant, f.variant);
        let base = put::<String>(base, Key::Version, f.version);
        base
    }

    fn read_fields(j: &Json) -> (r: Option<ServerHandshake>) {
        let game_setup = optional::<GameSetup>(j, Key::GameSetup)?;
        let game_types = required::<Vec<String>>(j, Key::GameTypes)?;
        let name = required::<String>(j, Key::Name)?;
        let session_id = required::<String>(j, Key::SessionId)?;
        let variant = required::<String>(j, Key::Variant)?;
        let version = required::<String>(j, Key::Version)?;
        Some(ServerHandshake { game_setup, game_types, name, session_id, variant, version })
    }

    fn write_fields(&self, members: &mut Vec<(String, Json)>) {
        emit_opt::<GameSetup>(members, Key::GameSetup, &self.game_setup);
        emit::<Vec<String>>(members, Key::GameTypes, &self.game_types);
        emit::<String>(members, Key::Name, &self.name);
        emit::<String>(members, Key::SessionId, &self.session_id);
        emit::<String>(members, Key::Variant, &self.variant);
        emit::<String>(members, Key::Version, &self.version);
    }

    proof fn lemma_read_written(base: Members, f: ServerHandshakeModel) {
        let w1 = put_opt::<GameSetup>(base, Key::GameSetup, f.game_setup);
        lemma_put_opt::<GameSetup>(base, Key::GameSetup, f.game_setup);
        let w2 = put::<Vec<String>>(w1, Key::GameTypes, f.game_types);
        lemma_put::<Vec<String>>(w1, Key::GameTypes, f.game_types);
        let w3 = put::<String>(w2, Key::Name, f.name);
        lemma_put::<String>(w2, Key::Name, f.name);
        let w4 = put::<String>(w3, Key::SessionId, f.session_id);
        lemma_put::<String>(w3, Key::SessionId, f.session_id);
        let w5 = put::<String>(w4, Key::Variant, f.variant);
        lemma_put::<String>(w4, Key::Variant, f.variant);
        let w6 = put::<String>(w5, Key::Version, f.version);
        lemma_put::<String>(w5, Key::Version, f.version);
        assert(w6 == Self::written(base, f));
    }
}

impl Show for ServerHandshake {
    open spec fn shown(m: ServerHandshakeModel) -> Seq<char> {
        "ServerHandshake { game_setup: "@
            + shown_opt::<GameSetup>(m.game_setup)
            + ", game_types: "@
            + <Vec<String> as Show>::shown(m.game_types)
            + ", name: "@
            + String::shown(m.name)
            + ", session_id: "@
            + String::shown(m.session_id)
            + ", variant: "@
            + String::shown(m.variant)
            + ", version: "@
            + String::shown(m.version)
            + " }"@
    }

    fn show(&self) -> (s: String) {
        let mut s = "ServerHandshake { game_setup: ".to_owned();
        s.append(show_opt::<GameSetup>(&self.game_setup).as_str());
        s.append(", game_types: ");
        s.append(self.game_types.show().as_str());
        s.append(", name: ");
        s.append(self.name.show().as_str());
        s.append(", session_id: ");
        s.append(self.session_id.show().as_str());
        s.append(", variant: ");
        s.append(self.variant.show().as_str());
        s.append(", version: ");
        s.append(self.version.show().as_str());
        s.append(" }");
        s
    }
}

/// A bot's answer to the server's handshake: who it is and what it can do.
#[derive(Clone, Debug)]
pub struct BotHandshake {
    pub authors: Vec<String>,
    pub country_codes: Option<Vec<String>>,
    pub description: String,
    pub game_types: Vec<String>,
    pub homepage: String,
    pub initial_position: Option<InitialPosition>,
    pub is_droid: bool,
    pub name: String,
    pub platform: String,
    pub programming_lang: String,
    pub secret: Option<String>,
    pub session_id: String,
    pub team_id: Option<i32>,
    pub team_name: Option<String>,
    pub team_version: Option<String>,
    pub version: String,
}

/// What a [`BotHandshake`] stands for.
pub ghost struct BotHandshakeModel {
    pub authors: Seq<Seq<char>>,
    pub country_codes: Option<Seq<Seq<char>>>,
    pub description: Seq<char>,
    pub game_types: Seq<Seq<char>>,
    pub homepage: Seq<char>,
    pub initial_position: Option<InitialPositionModel>,
    pub is_droid: bool,
    pub name: Seq<char>,
    pub platform: Seq<char>,
    pub programming_lang: Seq<char>,
    pub secret: Option<Seq<char>>,
    pub session_id: Seq<char>,
    pub team_id: Option<i32>,
    pub team_name: Option<Seq<char>>,
    pub team_version: Option<Seq<char>>,
    pub version: Seq<char>,
}

impl Record for BotHandshake {
    type Fields = BotHandshakeModel;

    open spec fn fields(&self) -> BotHandshakeModel {
        BotHandshakeModel {
            authors: self.authors.model(),
            country_codes: opt_model(self.country_codes),
            description: self.description.model(),
            game_types: self.game_types.model(),
            homepage: self.homepage.model(),
            initial_position: opt_model(self.initial_position),
            is_droid: self.is_droid.model(),
            name: self.name.model(),
            platform: self.platform.model(),
            programming_lang: self.programming_lang.model(),
            secret: opt_model(self.secret),
            session_id: self.session_id.model(),
            team_id: opt_model(self.team_id),
            team_name: opt_model(self.team_name),
            team_version: opt_model(self.team_version),
            version: self.version.model(),
        }
    }

    open spec fn read(members: Members) -> Option<BotHandshakeModel> {
        if req::<Vec<String>>(members, Key::Authors) is Some
            && opt::<Vec<String>>(members, Key::CountryCodes) is Some
            && req::<String>(members, Key::Description) is Some
            && req::<Vec<String>>(members, Key::GameTypes) is Some
            && req::<String>(members, Key::Homepage) is Some
            && opt::<InitialPosition>(members, Key::InitialPosition) is Some
            && req::<bool>(members, Key::IsDroid) is Some
            && req::<String>(members, Key::Name) is Some
            && req::<String>(members, Key::Platform) is Some
            && req::<String>(members, Key::ProgrammingLang) is Some
            && opt::<String>(members, Key::Secret) is Some
            && req::<String>(members, Key::SessionId) is Some
            && opt::<i32>(members, Key::TeamId) is Some
            && opt::<String>(members, Key::TeamName) is Some
            && opt::<String>(members, Key::TeamVersion) is Some
            && req::<String>(members, Key::Version) is Some
        {
            Some(
                BotHandshakeModel {
                    authors: req::<Vec<String>>(members, Key::Authors)->0,
                    country_codes: opt::<Vec<String>>(members, Key::CountryCodes)->0,
                    description: req::<String>(members, Key::Description)->0,
                    game_types: req::<Vec<String>>(members, Key::GameTypes)->0,
                    homepage: req::<String>(members, Key::Homepage)->0,
                    initial_position: opt::<InitialPosition>(members, Key::InitialPosition)->0,
                    is_droid: req::<bool>(members, Key::IsDroid)->0,
                    name: req::<String>(members, Key::Name)->0,
                    platform: req::<String>(members, Key::Platform)->0,
                    programming_lang: req::<String>(members, Key::ProgrammingLang)->0,
                    secret: opt::<String>(members, Key::Secret)->0,
                    session_id: req::<String>(members, Key::SessionId)->0,
                    team_id: opt::<i32>(members, Key::TeamId)->0,
                    team_name: opt::<String>(members, Key::TeamName)->0,
                    team_version: opt::<String>(members, Key::TeamVersion)->0,
                    version: req::<String>(members, Key::Version)->0,
                },
            )
        } else {
            None
        }
    }

    open spec fn written(base: Members, f: BotHandshakeModel) -> Members {
        let base = put::<Vec<String>>(base, Key::Authors, f.authors);
        let base = put_opt::<Vec<String>>(base, Key::CountryCodes, f.country_codes);
        let base = put::<String>(base, Key::Description, f.description);
        let base = put::<Vec<String>>(base, Key::GameTypes, f.game_types);
        let base = put::<String>(base, Key::Homepage, f.homepage);
        let base = put_opt::<InitialPosition>(base, Key::InitialPosition, f.initial_position);
        let base = put::<bool>(base, Key::IsDroid, f.is_droid);
        let base = put::<String>(base, Key::Name, f.name);
        let base = put::<String>(base, Key::Platform, f.platform);
        let base = put::<String>(base, Key::ProgrammingLang, f.programming_lang);
        let base = put_opt::<String>(base, Key::Secret, f.secret);
        let base = put::<String>(base, Key::SessionId, f.session_id);
        let base = put_opt::<i32>(base, Key::TeamId, f.team_id);
        let base = put_opt::<String>(base, Key::TeamName, f.team_name);
        let base = put_opt::<String>(base, Key::TeamVersion, f.team_version);
        let base = put::<String>(base, Key::Version, f.version);
        base
    }

    fn read_fields(j: &Json) -> (r: Option<BotHandshake>) {
        let authors = required::<Vec<String>>(j, Key::Authors)?;
        let country_codes = optional::<Vec<String>>(j, Key::CountryCodes)?;
        let description = required::<String>(j, Key::Description)?;
        let game_types = required::<Vec<String>>(j, Key::GameTypes)?;
        let homepage = required::<String>(j, Key::Homepage)?;
        let initial_position = optional::<InitialPosition>(j, Key::InitialPosition)?;
        let is_droid = required::<bool>(j, Key::IsDroid)?;
        let name = required::<String>(j, Key::Name)?;
        let platform = required::<String>(j, Key::Platform)?;
        let programming_lang = required::<String>(j, Key::ProgrammingLang)?;
        let secret = optional::<String>(j, Key::Secret)?;
        let session_id = required::<String>(j, Key::SessionId)?;
        let team_id = optional::<i32>(j, Key::TeamId)?;
        let team_name = optional::<String>(j, Key::TeamName)?;
        let team_version = optional::<String>(j, Key::TeamVersion)?;
        let version = required::<String>(j, Key::Version)?;
        Some(BotHandshake {
            authors,
            country_codes,
            description,
            game_types,
            homepage,
            initial_position,
            is_droid,
            name,
            platform,
            programming_lang,
            secret,
            session_id,
            team_id,
            team_name,
            team_version,
            version,
        })
    }

    fn write_fields(&self, members: &mut Vec<(String, Json)>) {
        emit::<Vec<String>>(members, Key::Authors, &self.authors);
        emit_opt::<Vec<String>>(members, Key::CountryCodes, &self.country_codes);
        emit::<String>(members, Key::Description, &self.description);
        emit::<Vec<String>>(members, Key::GameTypes, &self.game_types);
        emit::<String>(members, Key::Homepage, &self.homepage);
        emit_opt::<InitialPosition>(members, Key::InitialPosition, &self.initial_position);
        emit::<bool>(members, Key::IsDroid, &self.is_droid);
        emit::<String>(members, Key::Name, &self.name);
        emit::<String>(members, Key::Platform, &self.platform);
        emit::<String>(members, Key::ProgrammingLang, &self.programming_lang);
        emit_opt::<String>(members, Key::Secret, &self.secret);
        emit::<String>(members, Key::SessionId, &self.session_id);
        emit_opt::<i32>(members, Key::TeamId, &self.team_id);
        emit_opt::<String>(members, Key::TeamName, &self.team_name);
        emit_opt::<String>(members, Key::TeamVersion, &self.team_version);
        emit::<String>(members, Key::Version, &self.version);
    }

    proof fn lemma_read_written(base: Members, f: BotHandshakeModel) {
        let w1 = put::<Vec<String>>(base, Key::Authors, f.authors);
        lemma_put::<Vec<String>>(base, Key::Authors, f.authors);
        let w2 = put_opt::<Vec<String>>(w1, Key::CountryCodes, f.country_codes);
        lemma_put_opt::<Vec<String>>(w1, Key::CountryCodes, f.country_codes);
        let w3 = put::<String>(w2, Key::Description, f.description);
        lemma_put::<String>(w2, Key::Description, f.description);
        let w4 = put::<Vec<String>>(w3, Key::GameTypes, f.game_types);
        lemma_put::<Vec<String>>(w3, Key::GameTypes, f.game_types);
        let w5 = put::<String>(w4, Key::Homepage, f.homepage);
        lemma_put::<String>(w4, Key::Homepage, f.homepage);
        let w6 = put_opt::<InitialPosition>(w5, Key::InitialPosition, f.initial_position);
        lemma_put_opt::<InitialPosition>(w5, Key::InitialPosition, f.initial_position);
        let w7 = put::<bool>(w6, Key::IsDroid, f.is_droid);
        lemma_put::<bool>(w6, Key::IsDroid, f.is_droid);
        let w8 = put::<String>(w7, Key::Name, f.name);
        lemma_put::<String>(w7, Key::Name, f.name);
        let w9 = put::<String>(w8, Key::Platform, f.platform);
        lemma_put::<String>(w8, Key::Platform, f.platform);
        let w10 = put::<String>(w9, Key::ProgrammingLang, f.programming_lang);
        lemma_put::<String>(w9, Key::ProgrammingLang, f.programming_lang);
        let w11 = put_opt::<String>(w10, Key::Secret, f.secret);
        lemma_put_opt::<String>(w10, Key::Secret, f.secret);
        let w12 = put::<String>(w11, Key::SessionId, f.session_id);
        lemma_put::<String>(w11, Key::SessionId, f.session_id);
        let w13 = put_opt::<i32>(w12, Key::TeamId, f.team_id);
        lemma_put_opt::<i32>(w12, Key::TeamId, f.team_id);
        let w14 = put_opt::<String>(w13, Key::TeamName, f.team_name);
        lemma_put_opt::<String>(w13, Key::TeamName, f.team_name);
        let w15 = put_opt::<String>(w14, Key::TeamVersion, f.team_version);
        lemma_put_opt::<String>(w14, Key::TeamVersion, f.team_version);
        let w16 = put::<String>(w15, Key::Version, f.version);
        lemma_put::<String>(w15, Key::Version, f.version);
        assert(w16 == Self::written(base, f));
    }
}

impl Show for BotHandshake {
    open spec fn shown(m: BotHandshakeModel) -> Seq<char> {
        "BotHandshake { authors: "@
            + <Vec<String> as Show>::shown(m.authors)
            + ", country_codes: "@
            + shown_opt::<Vec<String>>(m.country_codes)
            + ", description: "@
            + String::shown(m.description)
            + ", game_types: "@
            + <Vec<String> as Show>::shown(m.game_types)
            + ", homepage: "@
            + String::shown(m.homepage)
            + ", initial_position: "@
            + shown_opt::<InitialPosition>(m.initial_position)
            + ", is_droid: "@
            + bool::shown(m.is_droid)
            + ", name: "@
            + String::shown(m.name)
            + ", platform: "@
            + String::shown(m.platform)
            + ", programming_lang: "@
            + String::shown(m.programming_lang)
            + ", secret: "@
            + shown_opt::<String>(m.secret)
            + ", session_id: "@
            + String::shown(m.session_id)
            + ", team_id: "@
            + shown_opt::<i32>(m.team_id)
            + ", team_name: "@
            + shown_opt::<String>(m.team_name)
            + ", team_version: "@
            + shown_opt::<String>(m.team_version)
            + ", version: "@
            + String::shown(m.version)
            + " }"@
    }

    fn show(&self) -> (s: String) {
        let mut s = "BotHandshake { authors: ".to_owned();
        s.append(self.authors.show().as_str());
        s.append(", country_codes: ");
        s.append(show_opt::<Vec<String>>(&self.country_codes).as_str());
        s.append(", description: ");
        s.append(self.description.show().as_str());
        s.append(", game_types: ");
        s.append(self.game_types.show().as_str());
        s.append(", homepage: ");
        s.append(self.homepage.show().as_str());
        s.append(", initial_position: ");
        s.append(show_opt::<InitialPosition>(&self.initial_position).as_str());
        s.append(", is_droid: ");
        s.append(self.is_droid.show().as_str());
        s.append(", name: ");
        s.append(self.name.show().as_str());
        s.append(", platform: ");
        s.append(self.platform.show().as_str());
        s.append(", programming_lang: ");
        s.append(self.programming_lang.show().as_str());
        s.append(", secret: ");
        s.append(show_opt::<String>(&self.secret).as_str());
        s.append(", session_id: ");
        s.append(self.session_id.show().as_str());
        s.append(", team_id: ");
        s.append(show_opt::<i32>(&self.team_id).as_str());
        s.append(", team_name: ");
        s.append(show_opt::<String>(&self.team_name).as_str());
        s.append(", team_version: ");
        s.append(show_opt::<String>(&self.team_version).as_str());
        s.append(", version: ");
        s.append(self.version.show().as_str());
        s.append(" }");
        s
    }
}

/// A controller's answer to the server's handshake.
#[derive(Clone, Debug)]
pub struct ControllerHandshake {
    pub author: String,
    pub name: String,
    pub secret: Option<String>,
    pub session_id: String,
    pub version: String,
}

/// What a [`ControllerHandshake`] stands for.
pub ghost struct ControllerHandshakeModel {
    pub author: Seq<char>,
    pub name: Seq<char>,
    pub secret: Option<Seq<char>>,
    pub session_id: Seq<char>,
    pub version: Seq<char>,
}

impl Record for ControllerHandshake {
    type Fields = ControllerHandshakeModel;

    open spec fn fields(&self) -> ControllerHandshakeModel {
        ControllerHandshakeModel {
            author: self.author.model(),
            name: self.name.model(),
            secret: opt_model(self.secret),
            session_id: self.session_id.model(),
            version: self.version.model(),
        }
    }

    open spec fn read(members: Members) -> Option<ControllerHandshakeModel> {
        if req::<String>(members, Key::Author) is Some
            && req::<String>(members, Key::Name) is Some
            && opt::<String>(members, Key::Secret) is Some
            && req::<String>(members, Key::SessionId) is Some
            && req::<String>(members, Key::Version) is Some
        {
            Some(
                ControllerHandshakeModel {
                    author: req::<String>(members, Key::Author)->0,
                    name: req::<String>(members, Key::Name)->0,
                    secret: opt::<String>(members, Key::Secret)->0,
                    session_id: req::<String>(members, Key::SessionId)->0,
                    version: req::<String>(members, Key::Version)->0,
                },
            )
        } else {
            None
        }
    }

    open spec fn written(base: Members, f: ControllerHandshakeModel) -> Members {
        let base = put::<String>(base, Key::Author, f.author);
        let base = put::<String>(base, Key::Name, f.name);
        let base = put_opt::<String>(base, Key::Secret, f.secret);
        let base = put::<String>(base, Key::SessionId, f.session_id);
        let base = put::<String>(base, Key::Version, f.version);
        base
    }

    fn read_fields(j: &Json) -> (r: Option<ControllerHandshake>) {
        let author = required::<String>(j, Key::Author)?;
        let name = required::<String>(j, Key::Name)?;
        let secret = optional::<String>(j, Key::Secret)?;
        let session_id = required::<String>(j, Key::SessionId)?;
        let version = required::<String>(j, Key::Version)?;
        Some(ControllerHandshake { author, name, secret, session_id, version })
    }

    fn write_fields(&self, members: &mut Vec<(String, Json)>) {
        emit::<String>(members, Key::Author, &self.author);
        emit::<String>(members, Key::Name, &self.name);
        emit_opt::<String>(members, Key::Secret, &self.secret);
        emit::<String>(members, Key::SessionId, &self.session_id);
        emit::<String>(members, Key::Version, &self.version);
    }

    proof fn lemma_read_written(base: Members, f: ControllerHandshakeModel) {
        let w1 = put::<String>(base, Key::Author, f.author);
        lemma_put::<String>(base, Key::Author, f.author);
        let w2 = put::<String>(w1, Key::Name, f.name);
        lemma_put::<String>(w1, Key::Name, f.name);
        let w3 = put_opt::<String>(w2, Key::Secret, f.secret);
        lemma_put_opt::<String>(w2, Key::Secret, f.secret);
        let w4 = put::<String>(w3, Key::SessionId, f.session_id);
        lemma_put::<String>(w3, Key::SessionId, f.session_id);
        let w5 = put::<String>(w4, Key::Version, f.version);
        lemma_put::<String>(w4, Key::Version, f.version);
        assert(w5 == Self::written(base, f));
    }
}

impl Show for ControllerHandshake {
    open spec fn shown(m: ControllerHandshakeModel) -> Seq<char> {
        "ControllerHandshake { author: "@
            + String::shown(m.author)
            + ", name: "@
            + String::shown(m.name)
            + ", secret: "@
            + shown_opt::<String>(m.secret)
            + ", session_id: "@
            + String::shown(m.session_id)
            + ", version: "@
            + String::shown(m.version)
            + " }"@
    }

    fn show(&self) -> (s: String) {
        let mut s = "ControllerHandshake { author: ".to_owned();
        s.append(self.author.show().as_str());
        s.append(", name: ");
        s.append(self.name.show().as_str());
        s.append(", secret: ");
        s.append(show_opt::<String>(&self.secret).as_str());
        s.append(", session_id: ");
        s.append(self.session_id.show().as_str());
        s.append(", version: ");
        s.append(self.version.show().as_str());
        s.append(" }");
        s
    }
}

/// An observer's answer to the server's handshake.
#[derive(Clone, Debug)]
pub struct ObserverHandshake {
    pub author: String,
    pub name: String,
    pub secret: Option<String>,
    pub session_id: String,
    pub version: String,
}

/// What a [`ObserverHandshake`] stands for.
pub ghost struct ObserverHandshakeModel {
    pub author: Seq<char>,
    pub name: Seq<char>,
    pub secret: Option<Seq<char>>,
    pub session_id: Seq<char>,
    pub version: Seq<char>,
}

impl Record for ObserverHandshake {
    type Fields = ObserverHandshakeModel;

    open spec fn fields(&self) -> ObserverHandshakeModel {
        ObserverHandshakeModel {
            author: self.author.model(),
            name: self.name.model(),
            secret: opt_model(self.secret),
            session_id: self.session_id.model(),
            version: self.version.model(),
        }
    }

    open spec fn read(members: Members) -> Option<ObserverHandshakeModel> {
        if req::<String>(members, Key::Author) is Some
            && req::<String>(members, Key::Name) is Some
            && opt::<String>(members, Key::Secret) is Some
            && req::<String>(members, Key::SessionId) is Some
            && req::<String>(members, Key::Version) is Some
        {
            Some(
                ObserverHandshakeModel {
                    author: req::<String>(members, Key::Author)->0,
                    name: req::<String>(members, Key::Name)->0,
                    secret: opt::<String>(members, Key::Secret)->0,
                    session_id: req::<String>(members, Key::SessionId)->0,
                    version: req::<String>(members, Key::Version)->0,
                },
            )
        } else {
            None
        }
    }

    open spec fn written(base: Members, f: ObserverHandshakeModel) -> Members {
        let base = put::<String>(base, Key::Author, f.author);
        let base = put::<String>(base, Key::Name, f.name);
        let base = put_opt::<String>(base, Key::Secret, f.secret);
        let base = put::<String>(base, Key::SessionId, f.session_id);
        let base = put::<String>(base, Key::Version, f.version);
        base
    }

    fn read_fields(j: &Json) -> (r: Option<ObserverHandshake>) {
        let author = required::<String>(j, Key::Author)?;
        let name = required::<String>(j, Key::Name)?;
        let secret = optional::<String>(j, Key::Secret)?;
        let session_id = required::<String>(j, Key::SessionId)?;
        let version = required::<String>(j, Key::Version)?;
        Some(ObserverHandshake { author, name, secret, session_id, version })
    }

    fn write_fields(&self, members: &mut Vec<(String, Json)>) {
        emit::<String>(members, Key::Author, &self.author);
        emit::<String>(members, Key::Name, &self.name);
        emit_opt::<String>(members, Key::Secret, &self.secret);
        emit::<String>(members, Key::SessionId, &self.session_id);
        emit::<String>(members, Key::Version, &self.version);
    }

    proof fn lemma_read_written(base: Members, f: ObserverHandshakeModel) {
        let w1 = put::<String>(base, Key::Author, f.author);
        lemma_put::<String>(base, Key::Author, f.author);
        let w2 = put::<String>(w1, Key::Name, f.name);
        lemma_put::<String>(w1, Key::Name, f.name);
        let w3 = put_opt::<String>(w2, Key::Secret, f.secret);
        lemma_put_opt::<String>(w2, Key::Secret, f.secret);
        let w4 = put::<String>(w3, Key::SessionId, f.session_id);
        lemma_put::<String>(w3, Key::SessionId, f.session_id);
        let w5 = put::<String>(w4, Key::Version, f.version);
        lemma_put::<String>(w4, Key::Version, f.version);
        assert(w5 == Self::written(base, f));
    }
}

impl Show for ObserverHandshake {
    open spec fn shown(m: ObserverHandshakeModel) -> Seq<char> {
        "ObserverHandshake { author: "@
            + String::shown(m.author)
            + ", name: "@
            + String::shown(m.name)
            + ", secret: "@
            + shown_opt::<String>(m.secret)
            + ", session_id: "@
            + String::shown(m.session_id)
            + ", version: "@
            + String::shown(m.version)
            + " }"@
    }

    fn show(&self) -> (s: String) {
        let mut s = "ObserverHandshake { author: ".to_owned();
        s.append(self.author.show().as_str());
        s.append(", name: ");
        s.append(self.name.show().as_str());
        s.append(", secret: ");
        s.append(show_opt::<String>(&self.secret).as_str());
        s.append(", session_id: ");
        s.append(self.session_id.show().as_str());
        s.append(", version: ");
        s.append(self.version.show().as_str());
        s.append(" }");
        s
    }
}

impl BotHandshake {
    /// The handshake a bot answers the server with: what the bot says of
    /// itself, the session the server assigned, the server's secret as it was
    /// given, and the team where the bot plays for one.
    pub fn from_bot_info(
        session_id: &String,
        bot_info: BotInfo,
        team_info: Option<TeamInfo>,
        is_droid: bool,
        server_secret: String,
    ) -> (r: BotHandshake)
        ensures
            r.model() == BotHandshake::answer(
                session_id@,
                bot_info.model(),
                opt_model(team_info),
                is_droid,
                server_secret@,
            ),
    {
        let (team_id, team_name, team_version) = match team_info {
            Some(team) => (Some(team.id), Some(team.name), Some(team.version)),
            None => (None, None, None),
        };
        BotHandshake {
            authors: bot_info.authors,
            country_codes: bot_info.country_codes,
            description: bot_info.description,
            game_types: bot_info.game_types,
            homepage: bot_info.homepage,
            initial_position: bot_info.initial_position,
            is_droid,
            name: bot_info.name,
            platform: bot_info.platform,
            programming_lang: bot_info.programming_lang,
            secret: Some(server_secret),
            session_id: session_id.clone(),
            team_id,
            team_name,
            team_version,
            version: bot_info.version,
        }
    }

    /// What the handshake says: every part of the bot's own record unchanged,
    /// the session and the secret passed through, and the three team fields
    /// present together or not at all.
    pub open spec fn answer(
        session_id: Seq<char>,
        info: BotInfoModel,
        team: Option<TeamInfoModel>,
        is_droid: bool,
        secret: Seq<char>,
    ) -> BotHandshakeModel {
        BotHandshakeModel {
            authors: info.authors,
            country_codes: info.country_codes,
            description: info.description,
            game_types: info.game_types,
            homepage: info.homepage,
            initial_position: info.initial_position,
            is_droid,
            name: info.name,
            platform: info.platform,
            programming_lang: info.programming_lang,
            secret: Some(secret),
            session_id,
            team_id: match team {
                Some(t) => Some(t.id),
                None => None,
            },
            team_name: match team {
                Some(t) => Some(t.name),
                None => None,
            },
            team_version: match team {
                Some(t) => Some(t.version),
                None => None,
            },
            version: info.version,
        }
    }
}

} // verus!
