//! Payload types for the known capabilities, with their JSON forms.

pub mod buttons;
pub mod light;
pub mod media;
pub mod on_off;
pub mod sensor;

use vstd::prelude::*;

verus! {

/// The closed set of capability names with typed accessors.
#[derive(Clone, Copy, Debug, PartialEq, Eq, Structural)]
pub enum CapabilityKind {
    Buttons,
    Light,
    Media,
    OnOff,
    Sensor,
}

impl CapabilityKind {
    pub open spec fn spec_id(self) -> Seq<char> {
        match self {
            CapabilityKind::Buttons => "tanuki.buttons"@,
            CapabilityKind::Light => "tanuki.light"@,
            CapabilityKind::Media => "tanuki.media"@,
            CapabilityKind::OnOff => "tanuki.on_off"@,
            CapabilityKind::Sensor => "tanuki.sensor"@,
        }
    }

    /// The capability's name on the wire.
    pub fn id(self) -> (r: &'static str)
        ensures
            r@ == self.spec_id(),
    {
        match self {
            CapabilityKind::Buttons => "tanuki.buttons",
            CapabilityKind::Light => "tanuki.light",
            CapabilityKind::Media => "tanuki.media",
            CapabilityKind::OnOff => "tanuki.on_off",
            CapabilityKind::Sensor => "tanuki.sensor",
        }
    }
}

} // verus!
