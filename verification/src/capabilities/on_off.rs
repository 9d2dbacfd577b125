//! Something that can be turned on and off.
//!
//! There are exactly two topics; one for state, and one for commands.
//!
//! ```plain
//! ../tanuki.on_off/$meta/version => 1
//! ../tanuki.on_off/on            -> true
//! ../tanuki.on_off/command       <- "on" | "off" | "toggle"
//! ```

use vstd::prelude::*;

use crate::json::{Json, JsonV};
use crate::property::{Property, PropertyKind};

verus! {

/// A marker for the properties `tanuki.on_off` understands.
pub trait OnOffProperty: Property {

}

/// Whether the entity is on.
#[derive(Clone, Copy, Debug, PartialEq, Eq, Structural)]
pub struct On(pub bool);

impl View for On {
    type V = On;

    open spec fn view(&self) -> On {
        *self
    }
}

impl Property for On {
    open spec fn spec_key() -> Seq<char> {
        "on"@
    }

    open spec fn spec_kind() -> PropertyKind {
        PropertyKind::State
    }

    open spec fn spec_to_json(v: On) -> JsonV {
        JsonV::Bool(v.0)
    }

    open spec fn spec_from_json(j: JsonV) -> Option<On> {
        match j {
            JsonV::Bool(b) => Some(On(b)),
            _ => None,
        }
    }

    fn key() -> (r: &'static str) {
        "on"
    }

    fn kind() -> (r: PropertyKind) {
        PropertyKind::State
    }

    fn to_json(&self) -> (j: Json) {
        Json::Bool(self.0)
    }

    fn from_json(j: &Json) -> (r: Option<On>) {
        match j {
            Json::Bool(b) => Some(On(*b)),
            _ => None,
        }
    }
}

impl OnOffProperty for On {

}

/// Decoding the JSON form of [`On`] gives the value back.
pub proof fn lemma_on_round_trip(v: On)
    ensures
        On::spec_from_json(On::spec_to_json(v)) == Some(v),
{
}

/// A command for `tanuki.on_off`, sent at QoS 2 and not retained.
#[derive(Clone, Copy, Debug, PartialEq, Eq, Structural)]
pub enum OnOffCommand {
    On,
    Off,
    Toggle,
}

impl View for OnOffCommand {
    type V = OnOffCommand;

    open spec fn view(&self) -> OnOffCommand {
        *self
    }
}

impl Property for OnOffCommand {
    open spec fn spec_key() -> Seq<char> {
        "command"@
    }

    open spec fn spec_kind() -> PropertyKind {
        PropertyKind::Command
    }

    open spec fn spec_to_json(v: OnOffCommand) -> JsonV {
        match v {
            OnOffCommand::On => JsonV::Str("on"@),
            OnOffCommand::Off => JsonV::Str("off"@),
            OnOffCommand::Toggle => JsonV::Str("toggle"@),
        }
    }

    open spec fn spec_from_json(j: JsonV) -> Option<OnOffCommand> {
        match j {
            JsonV::Str(s) => if s == "on"@ {
                Some(OnOffCommand::On)
            } else if s == "off"@ {
                Some(OnOffCommand::Off)
            } else if s == "toggle"@ {
                Some(OnOffCommand::Toggle)
            } else {
                None
            },
            _ => None,
        }
    }

    fn key() -> (r: &'static str) {
        "command"
    }

    fn kind() -> (r: PropertyKind) {
        PropertyKind::Command
    }

    fn to_json(&self) -> (j: Json) {
        match self {
            OnOffCommand::On => Json::Str(String::from_str("on")),
            OnOffCommand::Off => Json::Str(String::from_str("off")),
            OnOffCommand::Toggle => Json::Str(String::from_str("toggle")),
        }
    }

    fn from_json(j: &Json) -> (r: Option<OnOffCommand>) {
        match j {
            Json::Str(s) => {
                if crate::strutil::eq_str(s.as_str(), "on") {
                    Some(OnOffCommand::On)
                } else if crate::strutil::eq_str(s.as_str(), "off") {
                    Some(OnOffCommand::Off)
                } else if crate::strutil::eq_str(s.as_str(), "toggle") {
                    Some(OnOffCommand::Toggle)
                } else {
                    None
                }
            },
            _ => None,
        }
    }
}

/// Decoding the JSON form of [`OnOffCommand`] gives the value back.
pub proof fn lemma_on_off_command_round_trip(v: OnOffCommand)
    ensures
        OnOffCommand::spec_from_json(OnOffCommand::spec_to_json(v)) == Some(v),
{
    reveal_strlit("on");
    reveal_strlit("off");
    reveal_strlit("toggle");
    assert("on"@.len() == 2);
    assert("off"@.len() == 3);
    assert("toggle"@.len() == 6);
}

} // verus!
