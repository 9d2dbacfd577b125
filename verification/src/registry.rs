//! Memoises entity and capability initialisation for bridge programs.
//!
//! Bridges look capabilities up by `(EntityId, CapabilityKind)`. The first
//! lookup for an entity asks the caller to run its one-time entity
//! initialisation; the first lookup of a pair asks for the capability's
//! initialisation; later lookups find the pair cached and ask for nothing.

use vstd::prelude::*;

use crate::capabilities::CapabilityKind;
use crate::ident::EntityId;
use crate::strutil::eq_str;

verus! {

/// What a lookup decided: whether the caller must run the per-entity
/// initialisation, and whether the capability itself is new.
#[derive(Clone, Copy, Debug, PartialEq, Eq, Structural)]
pub enum RegistryOutcome {
    /// The pair was already cached; nothing to initialise.
    Cached,
    /// The pair is new; `init_entity` says whether the entity is too.
    NewCapability { init_entity: bool },
}

/// The cache of known entities and initialised `(entity, capability)` pairs.
pub struct Registry {
    entities: Vec<EntityId>,
    caps: Vec<(EntityId, CapabilityKind)>,
}

impl Registry {
    /// The entity is known: its one-time initialisation has run.
    pub closed spec fn knows_entity(self, id: Seq<char>) -> bool {
        exists|i: int| 0 <= i < self.entities@.len() && (#[trigger] self.entities@[i])@ == id
    }

    /// The capability pair is cached.
    pub closed spec fn has_cap(self, id: Seq<char>, kind: CapabilityKind) -> bool {
        exists|i: int|
            0 <= i < self.caps@.len() && (#[trigger] self.caps@[i]).0@ == id && self.caps@[i].1
                == kind
    }

    /// Every cached pair's entity is a known entity.
    pub closed spec fn wf(self) -> bool {
        forall|i: int|
            0 <= i < self.caps@.len() ==> self.knows_entity((#[trigger] self.caps@[i]).0@)
    }

    pub fn new() -> (r: Registry)
        ensures
            r.wf(),
            forall|id: Seq<char>| !r.knows_entity(id),
            forall|id: Seq<char>, kind: CapabilityKind| !r.has_cap(id, kind),
    {
        Registry { entities: Vec::new(), caps: Vec::new() }
    }

    fn find_entity(&self, id: &EntityId) -> (r: bool)
        ensures
            r == self.knows_entity(id@),
    {
        let mut i: usize = 0;
        while i < self.entities.len()
            invariant
                i <= self.entities@.len(),
                forall|j: int| 0 <= j < i ==> (#[trigger] self.entities@[j])@ != id@,
            decreases self.entities@.len() - i,
        {
            if eq_str(self.entities[i].as_str(), id.as_str()) {
                return true;
            }
            i += 1;
        }
        false
    }

    fn find_cap(&self, id: &EntityId, kind: CapabilityKind) -> (r: bool)
        ensures
            r == self.has_cap(id@, kind),
    {
        let mut i: usize = 0;
        while i < self.caps.len()
            invariant
                i <= self.caps@.len(),
                forall|j: int|
                    0 <= j < i ==> !((#[trigger] self.caps@[j]).0@ == id@ && self.caps@[j].1
                        == kind),
            decreases self.caps@.len() - i,
        {
            let same_kind = match (self.caps[i].1, kind) {
                (CapabilityKind::Buttons, CapabilityKind::Buttons) => true,
                (CapabilityKind::Light, CapabilityKind::Light) => true,
                (CapabilityKind::Media, CapabilityKind::Media) => true,
                (CapabilityKind::OnOff, CapabilityKind::OnOff) => true,
                (CapabilityKind::Sensor, CapabilityKind::Sensor) => true,
                _ => false,
            };
            if same_kind && eq_str(self.caps[i].0.as_str(), id.as_str()) {
                return true;
            }
            i += 1;
        }
        false
    }

    /// Looks `(id, kind)` up, recording it as initialised from now on.
    ///
    /// The entity's one-time initialisation is requested at most once per
    /// entity: `NewCapability { init_entity: true }` comes only while the
    /// entity is unknown, and afterwards the entity is known for good —
    /// `get` never forgets an entity or a pair.
    pub fn get(&mut self, id: &EntityId, kind: CapabilityKind) -> (r: RegistryOutcome)
        requires
            old(self).wf(),
        ensures
            final(self).wf(),
            old(self).has_cap(id@, kind) ==> r == RegistryOutcome::Cached && *final(self) == *old(
                self,
            ),
            !old(self).has_cap(id@, kind) ==> r == (RegistryOutcome::NewCapability {
                init_entity: !old(self).knows_entity(id@),
            }),
            final(self).knows_entity(id@),
            final(self).has_cap(id@, kind),
            forall|e: Seq<char>| old(self).knows_entity(e) ==> final(self).knows_entity(e),
            forall|e: Seq<char>, k: CapabilityKind|
                old(self).has_cap(e, k) ==> final(self).has_cap(e, k),
    {
        if self.find_cap(id, kind) {
            proof {
                let i = choose|i: int|
                    0 <= i < self.caps@.len() && (#[trigger] self.caps@[i]).0@ == id@
                        && self.caps@[i].1 == kind;
                assert(self.knows_entity(self.caps@[i].0@));
            }
            return RegistryOutcome::Cached;
        }
        let init_entity = !self.find_entity(id);
        if init_entity {
            self.entities.push(id.clone());
            proof {
                assert(self.entities@[self.entities@.len() - 1]@ == id@);
                assert forall|e: Seq<char>| old(self).knows_entity(e) implies self.knows_entity(
                    e,
                ) by {
                    let j = choose|j: int|
                        0 <= j < old(self).entities@.len() && (#[trigger] old(
                            self,
                        ).entities@[j])@ == e;
                    assert(self.entities@[j]@ == e);
                }
            }
        }
        self.caps.push((id.clone(), kind));
        proof {
            assert((self.caps@[self.caps@.len() - 1]).0@ == id@);
            assert forall|e: Seq<char>, k: CapabilityKind|
                old(self).has_cap(e, k) implies self.has_cap(e, k) by {
                let j = choose|j: int|
                    0 <= j < old(self).caps@.len() && (#[trigger] old(self).caps@[j]).0@ == e
                        && old(self).caps@[j].1 == k;
                assert((self.caps@[j]).0@ == e && self.caps@[j].1 == k);
            }
            assert forall|i: int|
                0 <= i < self.caps@.len() implies self.knows_entity(
                (#[trigger] self.caps@[i]).0@,
            ) by {
                if i < self.caps@.len() - 1 {
                    assert(old(self).knows_entity(old(self).caps@[i].0@));
                    let j = choose|j: int|
                        0 <= j < old(self).entities@.len() && (#[trigger] old(
                            self,
                        ).entities@[j])@ == old(self).caps@[i].0@;
                    assert(self.entities@[j]@ == self.caps@[i].0@);
                }
            }
        }
        RegistryOutcome::NewCapability { init_entity }
    }
}

} // verus!
