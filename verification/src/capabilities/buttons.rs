//! Physical buttons that can be pressed.
//!
//! Each topic under the capability names a physical button and carries its
//! press events.
//!
//! ```plain
//! ../tanuki.buttons/$meta/version => 1
//! ../tanuki.buttons/on            -> "pressed"
//! ```

use vstd::prelude::*;

use crate::json::{Json, JsonV};
use crate::strutil::eq_str;

verus! {

/// A press event as published by an entity.
#[derive(Clone, Copy, Debug, PartialEq, Eq, Structural)]
pub enum ButtonEvent {
    /// Button was pressed
    Pressed,
}

impl ButtonEvent {
    pub open spec fn spec_to_json(v: ButtonEvent) -> JsonV {
        JsonV::Str("pressed"@)
    }

    pub open spec fn spec_from_json(j: JsonV) -> Option<ButtonEvent> {
        match j {
            JsonV::Str(s) => if s == "pressed"@ {
                Some(ButtonEvent::Pressed)
            } else {
                None
            },
            _ => None,
        }
    }

    pub fn to_json(&self) -> (j: Json)
        ensures
            j@ == ButtonEvent::spec_to_json(*self),
    {
        Json::Str(String::from_str("pressed"))
    }

    pub fn from_json(j: &Json) -> (r: Option<ButtonEvent>)
        ensures
            match r {
                Some(v) => ButtonEvent::spec_from_json(j@) == Some(v),
                None => ButtonEvent::spec_from_json(j@) is None,
            },
    {
        match j {
            Json::Str(s) => {
                if eq_str(s.as_str(), "pressed") {
                    Some(ButtonEvent::Pressed)
                } else {
                    None
                }
            },
            _ => None,
        }
    }
}

/// Decoding the JSON form of [`ButtonEvent`] gives the value back.
pub proof fn lemma_button_event_round_trip(v: ButtonEvent)
    ensures
        ButtonEvent::spec_from_json(ButtonEvent::spec_to_json(v)) == Some(v),
{
}

/// A press action in the richer form foreign bridges report.
#[derive(Clone, Copy, Debug, PartialEq, Eq, Structural)]
pub enum ButtonAction {
    /// Button was pressed
    Pressed,
    /// Button was held down for some time
    LongPressed,
}

impl ButtonAction {
    pub open spec fn spec_to_json(v: ButtonAction) -> JsonV {
        match v {
            ButtonAction::Pressed => JsonV::Str("pressed"@),
            ButtonAction::LongPressed => JsonV::Str("long_pressed"@),
        }
    }

    pub open spec fn spec_from_json(j: JsonV) -> Option<ButtonAction> {
        match j {
            JsonV::Str(s) => if s == "pressed"@ {
                Some(ButtonAction::Pressed)
            } else if s == "long_pressed"@ {
                Some(ButtonAction::LongPressed)
            } else {
                None
            },
            _ => None,
        }
    }

    pub fn to_json(&self) -> (j: Json)
        ensures
            j@ == ButtonAction::spec_to_json(*self),
    {
        match self {
            ButtonAction::Pressed => Json::Str(String::from_str("pressed")),
            ButtonAction::LongPressed => Json::Str(String::from_str("long_pressed")),
        }
    }

    pub fn from_json(j: &Json) -> (r: Option<ButtonAction>)
        ensures
            match r {
                Some(v) => ButtonAction::spec_from_json(j@) == Some(v),
                None => ButtonAction::spec_from_json(j@) is None,
            },
    {
        match j {
            Json::Str(s) => {
                if eq_str(s.as_str(), "pressed") {
                    Some(ButtonAction::Pressed)
                } else if eq_str(s.as_str(), "long_pressed") {
                    Some(ButtonAction::LongPressed)
                } else {
                    None
                }
            },
            _ => None,
        }
    }
}

/// Decoding the JSON form of [`ButtonAction`] gives the value back.
pub proof fn lemma_button_action_round_trip(v: ButtonAction)
    ensures
        ButtonAction::spec_from_json(ButtonAction::spec_to_json(v)) == Some(v),
{
    reveal_strlit("pressed");
    reveal_strlit("long_pressed");
    assert("pressed"@.len() == 7);
    assert("long_pressed"@.len() == 12);
}

} // verus!
