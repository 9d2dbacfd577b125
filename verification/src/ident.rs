use vstd::prelude::*;

use crate::strutil::eq_str;

verus! {

/// An opaque short string naming a logical device. Equality is byte-exact.
#[derive(Debug)]
pub struct EntityId {
    id: String,
}

impl View for EntityId {
    type V = Seq<char>;

    closed spec fn view(&self) -> Seq<char> {
        self.id@
    }
}

impl EntityId {
    pub fn new(id: String) -> (r: EntityId)
        ensures
            r@ == id@,
    {
        EntityId { id }
    }

    pub fn from_str(id: &str) -> (r: EntityId)
        ensures
            r@ == id@,
    {
        EntityId { id: id.to_owned() }
    }

    /// The distinguished wildcard id used in subscription-only topics.
    pub fn wildcard() -> (r: EntityId)
        ensures
            r@ == "+"@,
    {
        EntityId { id: String::from_str("+") }
    }

    pub fn as_str(&self) -> (r: &str)
        ensures
            r@ == self@,
    {
        self.id.as_str()
    }
}

impl Clone for EntityId {
    fn clone(&self) -> (r: Self)
        ensures
            r@ == self@,
    {
        EntityId { id: self.id.clone() }
    }
}

impl PartialEq for EntityId {
    fn eq(&self, other: &Self) -> (r: bool) {
        eq_str(self.id.as_str(), other.id.as_str())
    }
}

impl vstd::std_specs::cmp::PartialEqSpecImpl for EntityId {
    open spec fn obeys_eq_spec() -> bool {
        true
    }

    open spec fn eq_spec(&self, other: &Self) -> bool {
        self@ == other@
    }
}

impl Eq for EntityId {

}

} // verus!
