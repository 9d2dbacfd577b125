//! The reserved `$meta` fields and the entity status machine.
//!
//! Meta fields are always published retained at QoS 1.

use vstd::prelude::*;

use crate::json::{Json, JsonV, spec_num_as_i32, spec_num_of_i32, JsonNum};
use crate::property::{Property, PropertyKind};
use crate::strutil::eq_str;

verus! {

/// A field published under an entity's or capability's `$meta` node.
pub trait MetaField: Property {

}

/// Where an entity stands in its lifecycle:
/// `init -> online -> (disconnected | lost)`.
#[derive(Clone, Copy, Debug, PartialEq, Eq, Structural)]
pub enum EntityStatus {
    /// The entity is online but its data may not yet be valid
    Init,
    /// The entity is online and its data is valid
    Online,
    /// The entity disconnected cleanly
    Disconnected,
    /// The entity was unexpectedly disconnected and its data may not be valid
    Lost,
}

impl EntityStatus {
    pub open spec fn spec_str(self) -> Seq<char> {
        match self {
            EntityStatus::Init => "init"@,
            EntityStatus::Online => "online"@,
            EntityStatus::Disconnected => "disconnected"@,
            EntityStatus::Lost => "lost"@,
        }
    }

    pub open spec fn spec_from_str(s: Seq<char>) -> Option<EntityStatus> {
        if s == "init"@ {
            Some(EntityStatus::Init)
        } else if s == "online"@ {
            Some(EntityStatus::Online)
        } else if s == "disconnected"@ {
            Some(EntityStatus::Disconnected)
        } else if s == "lost"@ {
            Some(EntityStatus::Lost)
        } else {
            None
        }
    }

    pub fn as_str(&self) -> (r: &'static str)
        ensures
            r@ == self.spec_str(),
    {
        match self {
            EntityStatus::Init => "init",
            EntityStatus::Online => "online",
            EntityStatus::Disconnected => "disconnected",
            EntityStatus::Lost => "lost",
        }
    }

    pub fn parse(s: &str) -> (r: Option<EntityStatus>)
        ensures
            r == EntityStatus::spec_from_str(s@),
    {
        if eq_str(s, "init") {
            Some(EntityStatus::Init)
        } else if eq_str(s, "online") {
            Some(EntityStatus::Online)
        } else if eq_str(s, "disconnected") {
            Some(EntityStatus::Disconnected)
        } else if eq_str(s, "lost") {
            Some(EntityStatus::Lost)
        } else {
            None
        }
    }
}

/// Decoding the string form of an [`EntityStatus`] gives the status back.
pub proof fn lemma_entity_status_round_trip(v: EntityStatus)
    ensures
        EntityStatus::spec_from_str(v.spec_str()) == Some(v),
{
    reveal_strlit("init");
    reveal_strlit("online");
    reveal_strlit("disconnected");
    reveal_strlit("lost");
    assert("init"@.len() == 4 && "online"@.len() == 6 && "disconnected"@.len() == 12
        && "lost"@.len() == 4);
    assert("init"@[0] == 'i' && "lost"@[0] == 'l');
}

/// The entity's human-readable name.
#[derive(Clone, Debug, PartialEq)]
pub struct Name(pub String);

impl View for Name {
    type V = Seq<char>;

    open spec fn view(&self) -> Seq<char> {
        self.0@
    }
}

impl Property for Name {
    open spec fn spec_key() -> Seq<char> {
        "name"@
    }

    open spec fn spec_kind() -> PropertyKind {
        PropertyKind::State
    }

    open spec fn spec_to_json(v: Seq<char>) -> JsonV {
        JsonV::Str(v)
    }

    open spec fn spec_from_json(j: JsonV) -> Option<Seq<char>> {
        match j {
            JsonV::Str(s) => Some(s),
            _ => None,
        }
    }

    fn key() -> (r: &'static str) {
        "name"
    }

    fn kind() -> (r: PropertyKind) {
        PropertyKind::State
    }

    fn to_json(&self) -> (j: Json) {
        Json::Str(self.0.clone())
    }

    fn from_json(j: &Json) -> (r: Option<Name>) {
        match j {
            Json::Str(s) => Some(Name(s.clone())),
            _ => None,
        }
    }
}

impl MetaField for Name {

}

/// What kind of thing the entity is.
#[derive(Clone, Debug, PartialEq)]
pub struct Type(pub String);

impl View for Type {
    type V = Seq<char>;

    open spec fn view(&self) -> Seq<char> {
        self.0@
    }
}

impl Property for Type {
    open spec fn spec_key() -> Seq<char> {
        "type"@
    }

    open spec fn spec_kind() -> PropertyKind {
        PropertyKind::State
    }

    open spec fn spec_to_json(v: Seq<char>) -> JsonV {
        JsonV::Str(v)
    }

    open spec fn spec_from_json(j: JsonV) -> Option<Seq<char>> {
        match j {
            JsonV::Str(s) => Some(s),
            _ => None,
        }
    }

    fn key() -> (r: &'static str) {
        "type"
    }

    fn kind() -> (r: PropertyKind) {
        PropertyKind::State
    }

    fn to_json(&self) -> (j: Json) {
        Json::Str(self.0.clone())
    }

    fn from_json(j: &Json) -> (r: Option<Type>) {
        match j {
            Json::Str(s) => Some(Type(s.clone())),
            _ => None,
        }
    }
}

impl MetaField for Type {

}

/// Which program publishes for this entity.
#[derive(Clone, Debug, PartialEq)]
pub struct Provider(pub String);

impl View for Provider {
    type V = Seq<char>;

    open spec fn view(&self) -> Seq<char> {
        self.0@
    }
}

impl Property for Provider {
    open spec fn spec_key() -> Seq<char> {
        "provider"@
    }

    open spec fn spec_kind() -> PropertyKind {
        PropertyKind::State
    }

    open spec fn spec_to_json(v: Seq<char>) -> JsonV {
        JsonV::Str(v)
    }

    open spec fn spec_from_json(j: JsonV) -> Option<Seq<char>> {
        match j {
            JsonV::Str(s) => Some(s),
            _ => None,
        }
    }

    fn key() -> (r: &'static str) {
        "provider"
    }

    fn kind() -> (r: PropertyKind) {
        PropertyKind::State
    }

    fn to_json(&self) -> (j: Json) {
        Json::Str(self.0.clone())
    }

    fn from_json(j: &Json) -> (r: Option<Provider>) {
        match j {
            Json::Str(s) => Some(Provider(s.clone())),
            _ => None,
        }
    }
}

impl MetaField for Provider {

}

/// The entity's lifecycle status.
#[derive(Clone, Copy, Debug, PartialEq, Eq, Structural)]
pub struct Status(pub EntityStatus);

impl View for Status {
    type V = Status;

    open spec fn view(&self) -> Status {
        *self
    }
}

impl Property for Status {
    open spec fn spec_key() -> Seq<char> {
        "status"@
    }

    open spec fn spec_kind() -> PropertyKind {
        PropertyKind::State
    }

    open spec fn spec_to_json(v: Status) -> JsonV {
        JsonV::Str(v.0.spec_str())
    }

    open spec fn spec_from_json(j: JsonV) -> Option<Status> {
        match j {
            JsonV::Str(s) => match EntityStatus::spec_from_str(s) {
                Some(st) => Some(Status(st)),
                None => None,
            },
            _ => None,
        }
    }

    fn key() -> (r: &'static str) {
        "status"
    }

    fn kind() -> (r: PropertyKind) {
        PropertyKind::State
    }

    fn to_json(&self) -> (j: Json) {
        Json::Str(String::from_str(self.0.as_str()))
    }

    fn from_json(j: &Json) -> (r: Option<Status>) {
        match j {
            Json::Str(s) => match EntityStatus::parse(s.as_str()) {
                Some(st) => Some(Status(st)),
                None => None,
            },
            _ => None,
        }
    }
}

impl MetaField for Status {

}

/// Decoding the JSON form of a [`Status`] gives the status back.
pub proof fn lemma_status_round_trip(v: Status)
    ensures
        Status::spec_from_json(Status::spec_to_json(v)) == Some(v),
{
    lemma_entity_status_round_trip(v.0);
}

/// The capability's schema version.
#[derive(Clone, Copy, Debug, PartialEq, Eq, Structural)]
pub struct Version(pub i32);

impl View for Version {
    type V = Version;

    open spec fn view(&self) -> Version {
        *self
    }
}

impl Property for Version {
    open spec fn spec_key() -> Seq<char> {
        "version"@
    }

    open spec fn spec_kind() -> PropertyKind {
        PropertyKind::State
    }

    open spec fn spec_to_json(v: Version) -> JsonV {
        JsonV::Num(spec_num_of_i32(v.0))
    }

    open spec fn spec_from_json(j: JsonV) -> Option<Version> {
        match j {
            JsonV::Num(n) => match spec_num_as_i32(n) {
                Some(v) => Some(Version(v)),
                None => None,
            },
            _ => None,
        }
    }

    fn key() -> (r: &'static str) {
        "version"
    }

    fn kind() -> (r: PropertyKind) {
        PropertyKind::State
    }

    fn to_json(&self) -> (j: Json) {
        Json::Num(JsonNum::from_i32(self.0))
    }

    fn from_json(j: &Json) -> (r: Option<Version>) {
        match j {
            Json::Num(n) => match n.as_i32() {
                Some(v) => Some(Version(v)),
                None => None,
            },
            _ => None,
        }
    }
}

impl MetaField for Version {

}

/// Decoding the JSON form of a [`Version`] gives the version back.
pub proof fn lemma_version_round_trip(v: Version)
    ensures
        Version::spec_from_json(Version::spec_to_json(v)) == Some(v),
{
}

/// Decoding the JSON form of a [`Name`] gives the name back; the same spec
/// serves [`Type`] and [`Provider`].
pub proof fn lemma_name_round_trip(v: Seq<char>)
    ensures
        Name::spec_from_json(Name::spec_to_json(v)) == Some(v),
        Type::spec_from_json(Type::spec_to_json(v)) == Some(v),
        Provider::spec_from_json(Provider::spec_to_json(v)) == Some(v),
{
}

} // verus!
