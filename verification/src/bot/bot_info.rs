//! What a bot says of itself.

use crate::connection::message_types::common::{InitialPosition, InitialPositionModel};
use crate::json::{Json, Members};
use crate::names::Key;
use crate::show::{Show, show_opt, shown_opt};
use crate::wire::{
    emit,
    emit_opt,
    lemma_put,
    lemma_put_opt,
    opt,
    opt_model,
    optional,
    put,
    put_opt,
    Record,
    req,
    required,
    Wire,
};
use vstd::prelude::*;

verus! {

/// What a bot says of itself. It is given once, at start-up, and never changes.
#[derive(Clone, Debug)]
pub struct BotInfo {
    pub name: String,
    pub version: String,
    pub authors: Vec<String>,
    pub description: String,
    pub homepage: String,
    pub country_codes: Option<Vec<String>>,
    pub game_types: Vec<String>,
    pub platform: String,
    pub programming_lang: String,
    pub initial_position: Option<InitialPosition>,
}

/// What a [`BotInfo`] stands for.
pub ghost struct BotInfoModel {
    pub name: Seq<char>,
    pub version: Seq<char>,
    pub authors: Seq<Seq<char>>,
    pub description: Seq<char>,
    pub homepage: Seq<char>,
    pub country_codes: Option<Seq<Seq<char>>>,
    pub game_types: Seq<Seq<char>>,
    pub platform: Seq<char>,
    pub programming_lang: Seq<char>,
    pub initial_position: Option<InitialPositionModel>,
}

impl Record for BotInfo {
    type Fields = BotInfoModel;

    open spec fn fields(&self) -> BotInfoModel {
        BotInfoModel {
            name: self.name.model(),
            version: self.version.model(),
            authors: self.authors.model(),
            description: self.description.model(),
            homepage: self.homepage.model(),
            country_codes: opt_model(self.country_codes),
            game_types: self.game_types.model(),
            platform: self.platform.model(),
            programming_lang: self.programming_lang.model(),
            initial_position: opt_model(self.initial_position),
        }
    }

    open spec fn read(members: Members) -> Option<BotInfoModel> {
        if req::<String>(members, Key::Name) is Some
            && req::<String>(members, Key::Version) is Some
            && req::<Vec<String>>(members, Key::Authors) is Some
            && req::<String>(members, Key::Description) is Some
            && req::<String>(members, Key::Homepage) is Some
            && opt::<Vec<String>>(members, Key::CountryCodes) is Some
            && req::<Vec<String>>(members, Key::GameTypes) is Some
            && req::<String>(members, Key::Platform) is Some
            && req::<String>(members, Key::ProgrammingLang) is Some
            && opt::<InitialPosition>(members, Key::InitialPosition) is Some
        {
            Some(
                BotInfoModel {
                    name: req::<String>(members, Key::Name)->0,
                    version: req::<String>(members, Key::Version)->0,
                    authors: req::<Vec<String>>(members, Key::Authors)->0,
                    description: req::<String>(members, Key::Description)->0,
                    homepage: req::<String>(members, Key::Homepage)->0,
                    country_codes: opt::<Vec<String>>(members, Key::CountryCodes)->0,
                    game_types: req::<Vec<String>>(members, Key::GameTypes)->0,
                    platform: req::<String>(members, Key::Platform)->0,
                    programming_lang: req::<String>(members, Key::ProgrammingLang)->0,
                    initial_position: opt::<InitialPosition>(members, Key::InitialPosition)->0,
                },
            )
        } else {
            None
        }
    }

    open spec fn written(base: Members, f: BotInfoModel) -> Members {
        let base = put::<String>(base, Key::Name, f.name);
        let base = put::<String>(base, Key::Version, f.version);
        let base = put::<Vec<String>>(base, Key::Authors, f.authors);
        let base = put::<String>(base, Key::Description, f.description);
        let base = put::<String>(base, Key::Homepage, f.homepage);
        let base = put_opt::<Vec<String>>(base, Key::CountryCodes, f.country_codes);
        let base = put::<Vec<String>>(base, Key::GameTypes, f.game_types);
        let base = put::<String>(base, Key::Platform, f.platform);
        let base = put::<String>(base, Key::ProgrammingLang, f.programming_lang);
        let base = put_opt::<InitialPosition>(base, Key::InitialPosition, f.initial_position);
        base
    }

    fn read_fields(j: &Json) -> (r: Option<BotInfo>) {
        let name = required::<String>(j, Key::Name)?;
        let version = required::<String>(j, Key::Version)?;
        let authors = required::<Vec<String>>(j, Key::Authors)?;
        let description = required::<String>(j, Key::Description)?;
        let homepage = required::<String>(j, Key::Homepage)?;
        let country_codes = optional::<Vec<String>>(j, Key::CountryCodes)?;
        let game_types = required::<Vec<String>>(j, Key::GameTypes)?;
        let platform = required::<String>(j, Key::Platform)?;
        let programming_lang = required::<String>(j, Key::ProgrammingLang)?;
        let initial_position = optional::<InitialPosition>(j, Key::InitialPosition)?;
        Some(BotInfo {
            name,
            version,
            authors,
            description,
            homepage,
            country_codes,
            game_types,
            platform,
            programming_lang,
            initial_position,
        })
    }

    fn write_fields(&self, members: &mut Vec<(String, Json)>) {
        emit::<String>(members, Key::Name, &self.name);
        emit::<String>(members, Key::Version, &self.version);
        emit::<Vec<String>>(members, Key::Authors, &self.authors);
        emit::<String>(members, Key::Description, &self.description);
        emit::<String>(members, Key::Homepage, &self.homepage);
        emit_opt::<Vec<String>>(members, Key::CountryCodes, &self.country_codes);
        emit::<Vec<String>>(members, Key::GameTypes, &self.game_types);
        emit::<String>(members, Key::Platform, &self.platform);
        emit::<String>(members, Key::ProgrammingLang, &self.programming_lang);
        emit_opt::<InitialPosition>(members, Key::InitialPosition, &self.initial_position);
    }

    proof fn lemma_read_written(base: Members, f: BotInfoModel) {
        let w1 = put::<String>(base, Key::Name, f.name);
        lemma_put::<String>(base, Key::Name, f.name);
        let w2 = put::<String>(w1, Key::Version, f.version);
        lemma_put::<String>(w1, Key::Version, f.version);
        let w3 = put::<Vec<String>>(w2, Key::Authors, f.authors);
        lemma_put::<Vec<String>>(w2, Key::Authors, f.authors);
        let w4 = put::<String>(w3, Key::Description, f.description);
        lemma_put::<String>(w3, Key::Description, f.description);
        let w5 = put::<String>(w4, Key::Homepage, f.homepage);
        lemma_put::<String>(w4, Key::Homepage, f.homepage);
        let w6 = put_opt::<Vec<String>>(w5, Key::CountryCodes, f.country_codes);
        lemma_put_opt::<Vec<String>>(w5, Key::CountryCodes, f.country_codes);
        let w7 = put::<Vec<String>>(w6, Key::GameTypes, f.game_types);
        lemma_put::<Vec<String>>(w6, Key::GameTypes, f.game_types);
        let w8 = put::<String>(w7, Key::Platform, f.platform);
        lemma_put::<String>(w7, Key::Platform, f.platform);
        let w9 = put::<String>(w8, Key::ProgrammingLang, f.programming_lang);
        lemma_put::<String>(w8, Key::ProgrammingLang, f.programming_lang);
        let w10 = put_opt::<InitialPosition>(w9, Key::InitialPosition, f.initial_position);
        lemma_put_opt::<InitialPosition>(w9, Key::InitialPosition, f.initial_position);
        assert(w10 == Self::written(base, f));
    }
}

impl Show for BotInfo {
    open spec fn shown(m: BotInfoModel) -> Seq<char> {
        "BotInfo { name: "@
            + String::shown(m.name)
            + ", version: "@
            + String::shown(m.version)
            + ", authors: "@
            + <Vec<String> as Show>::shown(m.authors)
            + ", description: "@
            + String::shown(m.description)
            + ", homepage: "@
            + String::shown(m.homepage)
            + ", country_codes: "@
            + shown_opt::<Vec<String>>(m.country_codes)
            + ", game_types: "@
            + <Vec<String> as Show>::shown(m.game_types)
            + ", platform: "@
            + String::shown(m.platform)
            + ", programming_lang: "@
            + String::shown(m.programming_lang)
            + ", initial_position: "@
            + shown_opt::<InitialPosition>(m.initial_position)
            + " }"@
    }

    fn show(&self) -> (s: String) {
        let mut s = "BotInfo { name: ".to_owned();
        s.append(self.name.show().as_str());
        s.append(", version: ");
        s.append(self.version.show().as_str());
        s.append(", authors: ");
        s.append(self.authors.show().as_str());
        s.append(", description: ");
        s.append(self.description.show().as_str());
        s.append(", homepage: ");
        s.append(self.homepage.show().as_str());
        s.append(", country_codes: ");
        s.append(show_opt::<Vec<String>>(&self.country_codes).as_str());
        s.append(", game_types: ");
        s.append(self.game_types.show().as_str());
        s.append(", platform: ");
        s.append(self.platform.show().as_str());
        s.append(", programming_lang: ");
        s.append(self.programming_lang.show().as_str());
        s.append(", initial_position: ");
        s.append(show_opt::<InitialPosition>(&self.initial_position).as_str());
        s.append(" }");
        s
    }
}

} // verus!
