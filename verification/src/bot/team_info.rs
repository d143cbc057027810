//! The team a bot plays for.

use crate::json::{Json, Members};
use crate::names::Key;
use crate::show::Show;
use crate::wire::{emit, lemma_put, put, Record, req, required, Wire};
use vstd::prelude::*;

verus! {

/// The team a bot plays for.
#[derive(Clone, Debug)]
pub struct TeamInfo {
    pub id: i32,
    pub name: String,
    pub version: String,
}

/// What a [`TeamInfo`] stands for.
pub ghost struct TeamInfoModel {
    pub id: i32,
    pub name: Seq<char>,
    pub version: Seq<char>,
}

impl Record for TeamInfo {
    type Fields = TeamInfoModel;

    open spec fn fields(&self) -> TeamInfoModel {
        TeamInfoModel {
            id: self.id.model(),
            name: self.name.model(),
            version: self.version.model(),
        }
    }

    open spec fn read(members: Members) -> Option<TeamInfoModel> {
        if req::<i32>(members, Key::Id) is Some
            && req::<String>(members, Key::Name) is Some
            && req::<String>(members, Key::Version) is Some
        {
            Some(
                TeamInfoModel {
                    id: req::<i32>(members, Key::Id)->0,
                    name: req::<String>(members, Key::Name)->0,
                    version: req::<String>(members, Key::Version)->0,
                },
            )
        } else {
            None
        }
    }

    open spec fn written(base: Members, f: TeamInfoModel) -> Members {
        let base = put::<i32>(base, Key::Id, f.id);
        let base = put::<String>(base, Key::Name, f.name);
        let base = put::<String>(base, Key::Version, f.version);
        base
    }

    fn read_fields(j: &Json) -> (r: Option<TeamInfo>) {
        let id = required::<i32>(j, Key::Id)?;
        let name = required::<String>(j, Key::Name)?;
        let version = required::<String>(j, Key::Version)?;
        Some(TeamInfo { id, name, version })
    }

    fn write_fields(&self, members: &mut Vec<(String, Json)>) {
        emit::<i32>(members, Key::Id, &self.id);
        emit::<String>(members, Key::Name, &self.name);
        emit::<String>(members, Key::Version, &self.version);
    }

    proof fn lemma_read_written(base: Members, f: TeamInfoModel) {
        let w1 = put::<i32>(base, Key::Id, f.id);
        lemma_put::<i32>(base, Key::Id, f.id);
        let w2 = put::<String>(w1, Key::Name, f.name);
        lemma_put::<String>(w1, Key::Name, f.name);
        let w3 = put::<String>(w2, Key::Version, f.version);
        lemma_put::<String>(w2, Key::Version, f.version);
        assert(w3 == Self::written(base, f));
    }
}

impl Show for TeamInfo {
    open spec fn shown(m: TeamInfoModel) -> Seq<char> {
        "TeamInfo { id: "@
            + i32::shown(m.id)
            + ", name: "@
            + String::shown(m.name)
            + ", version: "@
            + String::shown(m.version)
            + " }"@
    }

    fn show(&self) -> (s: String) {
        let mut s = "TeamInfo { id: ".to_owned();
        s.append(self.id.show().as_str());
        s.append(", name: ");
        s.append(self.name.show().as_str());
        s.append(", version: ");
        s.append(self.version.show().as_str());
        s.append(" }");
        s
    }
}

} // verus!
