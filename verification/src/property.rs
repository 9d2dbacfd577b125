use vstd::prelude::*;

use crate::json::{Json, JsonV};

verus! {

/// How a property travels over the data plane.
#[derive(Clone, Copy, Debug, PartialEq, Eq, Structural)]
pub enum PropertyKind {
    /// Persistent state from the entity (e.g. sensor readings); published
    /// retained at QoS 1.
    State,
    /// Transient updates from the entity (e.g. button presses); QoS 2, not
    /// retained.
    Event,
    /// Commands sent to the entity (e.g. turn on/off); QoS 2, not retained.
    Command,
}

/// A named payload type: a key, a kind, and a stable JSON form.
///
/// `spec_to_json` / `spec_from_json` pin the JSON form down at the level of
/// views; the executable codecs are bound to them member for member.
pub trait Property: View + Sized {
    spec fn spec_key() -> Seq<char>;

    spec fn spec_kind() -> PropertyKind;

    spec fn spec_to_json(v: Self::V) -> JsonV;

    spec fn spec_from_json(j: JsonV) -> Option<Self::V>;

    /// The topic segment this property is published under.
    fn key() -> (r: &'static str)
        ensures
            r@ == Self::spec_key(),
    ;

    fn kind() -> (r: PropertyKind)
        ensures
            r == Self::spec_kind(),
    ;

    fn to_json(&self) -> (j: Json)
        ensures
            j@ == Self::spec_to_json(self@),
    ;

    fn from_json(j: &Json) -> (r: Option<Self>)
        ensures
            match r {
                Some(v) => Self::spec_from_json(j@) == Some(v@),
                None => Self::spec_from_json(j@) is None,
            },
    ;
}

} // verus!
