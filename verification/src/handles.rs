//! Role-parameterised entity and capability handles.
//!
//! A handle binds an entity id (and a capability name) and turns publish,
//! command and listen calls into exact frames for the transport. The role
//! marker decides at compile time who may publish state: only an
//! [`Authority`] handle has the publishing methods.

use core::marker::PhantomData;

use vstd::prelude::*;

use crate::capabilities::CapabilityKind;
use crate::capabilities::buttons::{ButtonAction, ButtonEvent};
use crate::capabilities::light::LightProperty;
use crate::capabilities::light::LightCommand;
use crate::capabilities::media::MediaProperty;
use crate::capabilities::media::MediaCommand;
use crate::capabilities::on_off::{OnOffCommand, OnOffProperty};
use crate::capabilities::sensor::{SensorPayload, spec_sensor_payload_to_json};
use crate::connection::{ConnectionCore, PublishOpts, PublishRequest, Qos, SubscribeRequest};
use crate::ident::EntityId;
use crate::json::{Json, JsonV};
use crate::meta::{MetaField, EntityStatus, Status, Version};
use crate::property::Property;
use crate::topic::{Topic, TopicV, spec_format};

verus! {

/// Who holds the handle: the entity's owner or a consumer.
pub trait EntityRole: Sized {
    spec fn spec_authority() -> bool;

    fn is_authority() -> (r: bool)
        ensures
            r == Self::spec_authority(),
    ;
}

/// The role that owns an entity and publishes its state and meta.
pub struct Authority;

/// The role that observes and commands an entity.
pub struct User;

impl EntityRole for Authority {
    open spec fn spec_authority() -> bool {
        true
    }

    fn is_authority() -> (r: bool) {
        true
    }
}

impl EntityRole for User {
    open spec fn spec_authority() -> bool {
        false
    }

    fn is_authority() -> (r: bool) {
        false
    }
}

impl ConnectionCore {
    /// The frame that publishes one meta field under the entity's `$meta`
    /// node, retained at QoS 1.
    pub fn publish_entity_meta<T: MetaField>(&mut self, entity: &EntityId, meta: &T) -> (r:
        PublishRequest)
        requires
            old(self).wf(),
        ensures
            final(self).wf(),
            r.topic@ == spec_format(
                TopicV::EntityMeta { entity: entity@, key: T::spec_key() },
            ),
            r.payload@ == T::spec_to_json(meta@),
            r.qos == Qos::AtLeastOnce,
            r.retain,
            r.packet_id != 0,
    {
        let topic = Topic::EntityMeta { entity: entity.clone(), key: String::from_str(T::key()) };
        self.plan_publish(&topic, meta.to_json(), PublishOpts::metadata())
    }
}

/// A handle on one entity, bound to a role.
pub struct TanukiEntity<R: EntityRole> {
    id: EntityId,
    role: PhantomData<R>,
}

impl<R: EntityRole> TanukiEntity<R> {
    pub closed spec fn spec_id(self) -> Seq<char> {
        self.id@
    }

    pub fn new(id: EntityId) -> (r: TanukiEntity<R>)
        ensures
            r.spec_id() == id@,
    {
        TanukiEntity { id, role: PhantomData }
    }

    pub fn id(&self) -> (r: &EntityId)
        ensures
            r@ == self.spec_id(),
    {
        &self.id
    }
}

impl TanukiEntity<Authority> {
    /// The frame an owned entity sends at creation: its status set to
    /// `online`, retained.
    pub fn initialize(&self, core: &mut ConnectionCore) -> (r: PublishRequest)
        requires
            old(core).wf(),
        ensures
            final(core).wf(),
            r.topic@ == spec_format(
                TopicV::EntityMeta { entity: self.spec_id(), key: "status"@ },
            ),
            r.payload@ == JsonV::Str("online"@),
            r.qos == Qos::AtLeastOnce,
            r.retain,
    {
        core.publish_entity_meta(&self.id, &Status(EntityStatus::Online))
    }

    /// The frame for one meta field of the entity.
    pub fn publish_meta<T: MetaField>(&self, core: &mut ConnectionCore, meta: &T) -> (r:
        PublishRequest)
        requires
            old(core).wf(),
        ensures
            final(core).wf(),
            r.topic@ == spec_format(
                TopicV::EntityMeta { entity: self.spec_id(), key: T::spec_key() },
            ),
            r.payload@ == T::spec_to_json(meta@),
            r.qos == Qos::AtLeastOnce,
            r.retain,
    {
        core.publish_entity_meta(&self.id, meta)
    }
}

/// A handle on one capability of one entity.
pub struct TanukiCapability<R: EntityRole> {
    entity_id: EntityId,
    capability: String,
    role: PhantomData<R>,
}

impl<R: EntityRole> TanukiCapability<R> {
    pub closed spec fn spec_entity_id(self) -> Seq<char> {
        self.entity_id@
    }

    pub closed spec fn spec_capability(self) -> Seq<char> {
        self.capability@
    }

    pub fn new(entity_id: EntityId, capability: String) -> (r: TanukiCapability<R>)
        ensures
            r.spec_entity_id() == entity_id@,
            r.spec_capability() == capability@,
    {
        TanukiCapability { entity_id, capability, role: PhantomData }
    }

    pub fn entity_id(&self) -> (r: &EntityId)
        ensures
            r@ == self.spec_entity_id(),
    {
        &self.entity_id
    }

    pub fn id(&self) -> (r: &str)
        ensures
            r@ == self.spec_capability(),
    {
        self.capability.as_str()
    }

    /// The frame for one meta field under the capability's `$meta` node.
    pub fn publish_meta<T: MetaField>(&self, core: &mut ConnectionCore, meta: &T) -> (r:
        PublishRequest)
        requires
            old(core).wf(),
        ensures
            final(core).wf(),
            r.topic@ == spec_format(
                TopicV::CapabilityMeta {
                    entity: self.spec_entity_id(),
                    capability: self.spec_capability(),
                    key: T::spec_key(),
                },
            ),
            r.payload@ == T::spec_to_json(meta@),
            r.qos == Qos::AtLeastOnce,
            r.retain,
    {
        let topic = Topic::CapabilityMeta {
            entity: self.entity_id.clone(),
            capability: self.capability.clone(),
            key: String::from_str(T::key()),
        };
        core.plan_publish(&topic, meta.to_json(), PublishOpts::metadata())
    }

    /// The frame that announces the capability's schema version; sent on
    /// first attachment by an authority.
    pub fn initialize(&self, core: &mut ConnectionCore, version: i32) -> (r: PublishRequest)
        requires
            old(core).wf(),
        ensures
            final(core).wf(),
            r.topic@ == spec_format(
                TopicV::CapabilityMeta {
                    entity: self.spec_entity_id(),
                    capability: self.spec_capability(),
                    key: "version"@,
                },
            ),
            r.payload@ == Version::spec_to_json(Version(version)),
            r.qos == Qos::AtLeastOnce,
            r.retain,
    {
        self.publish_meta(core, &Version(version))
    }

    /// The frame for a payload under a caller-chosen data topic.
    pub fn publish_raw(&self, core: &mut ConnectionCore, key: &str, payload: Json,
        opts: PublishOpts) -> (r: PublishRequest)
        requires
            old(core).wf(),
        ensures
            final(core).wf(),
            r.topic@ == spec_format(
                TopicV::CapabilityData {
                    entity: self.spec_entity_id(),
                    capability: self.spec_capability(),
                    rest: key@,
                },
            ),
            r.payload@ == payload@,
            r.qos == opts.qos,
            r.retain == opts.retain,
            r.packet_id != 0,
    {
        let topic = Topic::CapabilityData {
            entity: self.entity_id.clone(),
            capability: self.capability.clone(),
            rest: key.to_owned(),
        };
        core.plan_publish(&topic, payload, opts)
    }

    /// The frame for a typed property under its own key.
    pub fn publish_property<T: Property>(&self, core: &mut ConnectionCore, property: &T,
        opts: PublishOpts) -> (r: PublishRequest)
        requires
            old(core).wf(),
        ensures
            final(core).wf(),
            r.topic@ == spec_format(
                TopicV::CapabilityData {
                    entity: self.spec_entity_id(),
                    capability: self.spec_capability(),
                    rest: T::spec_key(),
                },
            ),
            r.payload@ == T::spec_to_json(property@),
            r.qos == opts.qos,
            r.retain == opts.retain,
    {
        self.publish_raw(core, T::key(), property.to_json(), opts)
    }

    /// The subscribe frame for one data key of this capability, with a
    /// handler slot registered for the new subscription identifier.
    pub fn plan_listen(&self, core: &mut ConnectionCore, key: &str) -> (r: Option<
        SubscribeRequest,
    >)
        requires
            old(core).wf(),
        ensures
            final(core).wf(),
            match r {
                Some(req) => {
                    &&& req.topic@ == spec_format(
                        TopicV::CapabilityData {
                            entity: self.spec_entity_id(),
                            capability: self.spec_capability(),
                            rest: key@,
                        },
                    )
                    &&& req.sub_id != 0
                    &&& final(core).handler_ids() == old(core).handler_ids().push(req.sub_id)
                },
                None => old(core).sub_counter() == 0x1000_0000 && final(core).handler_ids()
                    == old(core).handler_ids(),
            },
    {
        let topic = Topic::CapabilityData {
            entity: self.entity_id.clone(),
            capability: self.capability.clone(),
            rest: key.to_owned(),
        };
        core.plan_subscribe_with_handler(&topic)
    }
}

/// Decides a typed listener's step for one inbound payload: the decoded
/// property when the payload reads as one, and whether the handler stays
/// registered. A payload that does not decode is dropped without
/// unsubscribing; a one-shot listener leaves after its first successful
/// decode.
pub fn handle_property<T: Property>(payload: &Json, oneshot: bool) -> (r: (Option<T>, bool))
    ensures
        match T::spec_from_json(payload@) {
            Some(v) => r.0 matches Some(p) && p@ == v && r.1 == !oneshot,
            None => r.0 is None && r.1,
        },
{
    match T::from_json(payload) {
        Some(p) => (Some(p), !oneshot),
        None => (None, true),
    }
}

/// A typed capability: its wire name and schema version.
pub trait Capability<R: EntityRole>: Sized {
    spec fn spec_kind() -> CapabilityKind;

    fn kind() -> (r: CapabilityKind)
        ensures
            r == Self::spec_kind(),
    ;

    /// The schema version announced on first attachment.
    fn version() -> (r: i32)
        ensures
            r == 0,
    ;
}

/// `tanuki.sensor`: event-style readings keyed by what is measured.
pub struct Sensor<R: EntityRole> {
    cap: TanukiCapability<R>,
}

/// `tanuki.on_off`: a single on/off state and a command topic.
pub struct OnOff<R: EntityRole> {
    cap: TanukiCapability<R>,
}

/// `tanuki.light`: a composite light state and a command topic.
pub struct Light<R: EntityRole> {
    cap: TanukiCapability<R>,
}

/// `tanuki.media`: player capabilities, state, and transport commands.
pub struct Media<R: EntityRole> {
    cap: TanukiCapability<R>,
}

/// `tanuki.buttons`: one event topic per physical button.
pub struct Buttons<R: EntityRole> {
    cap: TanukiCapability<R>,
}

impl<R: EntityRole> Capability<R> for Sensor<R> {
    open spec fn spec_kind() -> CapabilityKind {
        CapabilityKind::Sensor
    }

    fn kind() -> (r: CapabilityKind) {
        CapabilityKind::Sensor
    }

    fn version() -> (r: i32) {
        0
    }
}

impl<R: EntityRole> Capability<R> for OnOff<R> {
    open spec fn spec_kind() -> CapabilityKind {
        CapabilityKind::OnOff
    }

    fn kind() -> (r: CapabilityKind) {
        CapabilityKind::OnOff
    }

    fn version() -> (r: i32) {
        0
    }
}

impl<R: EntityRole> Capability<R> for Light<R> {
    open spec fn spec_kind() -> CapabilityKind {
        CapabilityKind::Light
    }

    fn kind() -> (r: CapabilityKind) {
        CapabilityKind::Light
    }

    fn version() -> (r: i32) {
        0
    }
}

impl<R: EntityRole> Capability<R> for Media<R> {
    open spec fn spec_kind() -> CapabilityKind {
        CapabilityKind::Media
    }

    fn kind() -> (r: CapabilityKind) {
        CapabilityKind::Media
    }

    fn version() -> (r: i32) {
        0
    }
}

impl<R: EntityRole> Capability<R> for Buttons<R> {
    open spec fn spec_kind() -> CapabilityKind {
        CapabilityKind::Buttons
    }

    fn kind() -> (r: CapabilityKind) {
        CapabilityKind::Buttons
    }

    fn version() -> (r: i32) {
        0
    }
}

/// A handle points at one entity and carries its capability's wire name.
pub open spec fn cap_wf<R: EntityRole>(cap: TanukiCapability<R>, kind: CapabilityKind) -> bool {
    cap.spec_capability() == kind.spec_id()
}

/// Attaches a capability handle to an entity. An authority announces the
/// capability's schema version on attachment; a plain user does not.
fn attach_cap<R: EntityRole>(entity: &TanukiEntity<R>, core: &mut ConnectionCore,
    kind: CapabilityKind, version: i32) -> (r: (TanukiCapability<R>, Option<PublishRequest>))
    requires
        old(core).wf(),
    ensures
        final(core).wf(),
        cap_wf(r.0, kind),
        r.0.spec_entity_id() == entity.spec_id(),
        match r.1 {
            Some(req) => R::spec_authority() && req.topic@ == spec_format(
                TopicV::CapabilityMeta {
                    entity: entity.spec_id(),
                    capability: kind.spec_id(),
                    key: "version"@,
                },
            ) && req.payload@ == Version::spec_to_json(Version(version)) && req.qos
                == Qos::AtLeastOnce && req.retain,
            None => !R::spec_authority(),
        },
{
    let cap: TanukiCapability<R> = TanukiCapability::new(
        entity.id().clone(),
        String::from_str(kind.id()),
    );
    let init = if R::is_authority() {
        Some(cap.initialize(core, version))
    } else {
        None
    };
    (cap, init)
}

impl<R: EntityRole> Sensor<R> {
    pub fn attach(entity: &TanukiEntity<R>, core: &mut ConnectionCore) -> (r: (
        Sensor<R>,
        Option<PublishRequest>,
    ))
        requires
            old(core).wf(),
        ensures
            final(core).wf(),
            r.0.wf(),
            r.0.cap().spec_entity_id() == entity.spec_id(),
            match r.1 {
                Some(req) => R::spec_authority() && req.topic@ == spec_format(
                    TopicV::CapabilityMeta {
                        entity: entity.spec_id(),
                        capability: "tanuki.sensor"@,
                        key: "version"@,
                    },
                ) && req.payload@ == Version::spec_to_json(Version(0)) && req.qos
                    == Qos::AtLeastOnce && req.retain,
                None => !R::spec_authority(),
            },
    {
        let (cap, init) = attach_cap(entity, core, CapabilityKind::Sensor, 0);
        (Sensor { cap }, init)
    }

    pub closed spec fn wf(self) -> bool {
        cap_wf(self.cap, CapabilityKind::Sensor)
    }

    pub closed spec fn cap(self) -> TanukiCapability<R> {
        self.cap
    }
}

impl Sensor<Authority> {
    /// The frame for one reading under its measurement topic: retained at
    /// QoS 1, with the payload's exact JSON form.
    pub fn publish(&self, core: &mut ConnectionCore, key: &str, payload: &SensorPayload) -> (r:
        PublishRequest)
        requires
            old(core).wf(),
            self.wf(),
        ensures
            final(core).wf(),
            r.topic@ == spec_format(
                TopicV::CapabilityData {
                    entity: self.cap().spec_entity_id(),
                    capability: "tanuki.sensor"@,
                    rest: key@,
                },
            ),
            r.payload@ == spec_sensor_payload_to_json(payload@),
            r.qos == Qos::AtLeastOnce,
            r.retain,
    {
        self.cap.publish_raw(core, key, payload.to_json(), PublishOpts::entity_data())
    }
}

impl<R: EntityRole> OnOff<R> {
    pub fn attach(entity: &TanukiEntity<R>, core: &mut ConnectionCore) -> (r: (
        OnOff<R>,
        Option<PublishRequest>,
    ))
        requires
            old(core).wf(),
        ensures
            final(core).wf(),
            r.0.wf(),
            r.0.cap().spec_entity_id() == entity.spec_id(),
            match r.1 {
                Some(req) => R::spec_authority() && req.topic@ == spec_format(
                    TopicV::CapabilityMeta {
                        entity: entity.spec_id(),
                        capability: "tanuki.on_off"@,
                        key: "version"@,
                    },
                ) && req.payload@ == Version::spec_to_json(Version(0)) && req.qos
                    == Qos::AtLeastOnce && req.retain,
                None => !R::spec_authority(),
            },
    {
        let (cap, init) = attach_cap(entity, core, CapabilityKind::OnOff, 0);
        (OnOff { cap }, init)
    }

    pub closed spec fn wf(self) -> bool {
        cap_wf(self.cap, CapabilityKind::OnOff)
    }

    pub closed spec fn cap(self) -> TanukiCapability<R> {
        self.cap
    }

    /// The frame for a command: QoS 2, not retained.
    pub fn command(&self, core: &mut ConnectionCore, cmd: &OnOffCommand) -> (r: PublishRequest)
        requires
            old(core).wf(),
            self.wf(),
        ensures
            final(core).wf(),
            r.topic@ == spec_format(
                TopicV::CapabilityData {
                    entity: self.cap().spec_entity_id(),
                    capability: "tanuki.on_off"@,
                    rest: "command"@,
                },
            ),
            r.payload@ == OnOffCommand::spec_to_json(*cmd),
            r.qos == Qos::ExactlyOnce,
            !r.retain,
    {
        self.cap.publish_property(core, cmd, PublishOpts::control())
    }

    /// The subscribe frame for one on/off property.
    pub fn listen<T: OnOffProperty>(&self, core: &mut ConnectionCore) -> (r: Option<
        SubscribeRequest,
    >)
        requires
            old(core).wf(),
            self.wf(),
        ensures
            final(core).wf(),
            match r {
                Some(req) => req.topic@ == spec_format(
                    TopicV::CapabilityData {
                        entity: self.cap().spec_entity_id(),
                        capability: "tanuki.on_off"@,
                        rest: T::spec_key(),
                    },
                ) && final(core).handler_ids() == old(core).handler_ids().push(req.sub_id),
                None => old(core).sub_counter() == 0x1000_0000 && final(core).handler_ids()
                    == old(core).handler_ids(),
            },
    {
        self.cap.plan_listen(core, T::key())
    }
}

impl OnOff<Authority> {
    /// The frame for an on/off property: retained at QoS 1.
    pub fn publish<T: OnOffProperty>(&self, core: &mut ConnectionCore, prop: &T) -> (r:
        PublishRequest)
        requires
            old(core).wf(),
            self.wf(),
        ensures
            final(core).wf(),
            r.topic@ == spec_format(
                TopicV::CapabilityData {
                    entity: self.cap().spec_entity_id(),
                    capability: "tanuki.on_off"@,
                    rest: T::spec_key(),
                },
            ),
            r.payload@ == T::spec_to_json(prop@),
            r.qos == Qos::AtLeastOnce,
            r.retain,
    {
        self.cap.publish_property(core, prop, PublishOpts::entity_data())
    }
}

impl<R: EntityRole> Light<R> {
    pub fn attach(entity: &TanukiEntity<R>, core: &mut ConnectionCore) -> (r: (
        Light<R>,
        Option<PublishRequest>,
    ))
        requires
            old(core).wf(),
        ensures
            final(core).wf(),
            r.0.wf(),
            r.0.cap().spec_entity_id() == entity.spec_id(),
            match r.1 {
                Some(req) => R::spec_authority() && req.topic@ == spec_format(
                    TopicV::CapabilityMeta {
                        entity: entity.spec_id(),
                        capability: "tanuki.light"@,
                        key: "version"@,
                    },
                ) && req.payload@ == Version::spec_to_json(Version(0)) && req.qos
                    == Qos::AtLeastOnce && req.retain,
                None => !R::spec_authority(),
            },
    {
        let (cap, init) = attach_cap(entity, core, CapabilityKind::Light, 0);
        (Light { cap }, init)
    }

    pub closed spec fn wf(self) -> bool {
        cap_wf(self.cap, CapabilityKind::Light)
    }

    pub closed spec fn cap(self) -> TanukiCapability<R> {
        self.cap
    }

    /// The frame for a light command: QoS 2, not retained.
    pub fn command(&self, core: &mut ConnectionCore, cmd: &LightCommand) -> (r: PublishRequest)
        requires
            old(core).wf(),
            self.wf(),
        ensures
            final(core).wf(),
            r.topic@ == spec_format(
                TopicV::CapabilityData {
                    entity: self.cap().spec_entity_id(),
                    capability: "tanuki.light"@,
                    rest: "command"@,
                },
            ),
            r.payload@ == LightCommand::spec_to_json(*cmd),
            r.qos == Qos::ExactlyOnce,
            !r.retain,
    {
        self.cap.publish_property(core, cmd, PublishOpts::control())
    }

    /// The subscribe frame for one light property.
    pub fn listen<T: LightProperty>(&self, core: &mut ConnectionCore) -> (r: Option<
        SubscribeRequest,
    >)
        requires
            old(core).wf(),
            self.wf(),
        ensures
            final(core).wf(),
            match r {
                Some(req) => req.topic@ == spec_format(
                    TopicV::CapabilityData {
                        entity: self.cap().spec_entity_id(),
                        capability: "tanuki.light"@,
                        rest: T::spec_key(),
                    },
                ) && final(core).handler_ids() == old(core).handler_ids().push(req.sub_id),
                None => old(core).sub_counter() == 0x1000_0000 && final(core).handler_ids()
                    == old(core).handler_ids(),
            },
    {
        self.cap.plan_listen(core, T::key())
    }
}

impl Light<Authority> {
    /// The frame for a light property: retained at QoS 1.
    pub fn publish<T: LightProperty>(&self, core: &mut ConnectionCore, prop: &T) -> (r:
        PublishRequest)
        requires
            old(core).wf(),
            self.wf(),
        ensures
            final(core).wf(),
            r.topic@ == spec_format(
                TopicV::CapabilityData {
                    entity: self.cap().spec_entity_id(),
                    capability: "tanuki.light"@,
                    rest: T::spec_key(),
                },
            ),
            r.payload@ == T::spec_to_json(prop@),
            r.qos == Qos::AtLeastOnce,
            r.retain,
    {
        self.cap.publish_property(core, prop, PublishOpts::entity_data())
    }
}

impl<R: EntityRole> Media<R> {
    pub fn attach(entity: &TanukiEntity<R>, core: &mut ConnectionCore) -> (r: (
        Media<R>,
        Option<PublishRequest>,
    ))
        requires
            old(core).wf(),
        ensures
            final(core).wf(),
            r.0.wf(),
            r.0.cap().spec_entity_id() == entity.spec_id(),
            match r.1 {
                Some(req) => R::spec_authority() && req.topic@ == spec_format(
                    TopicV::CapabilityMeta {
                        entity: entity.spec_id(),
                        capability: "tanuki.media"@,
                        key: "version"@,
                    },
                ) && req.payload@ == Version::spec_to_json(Version(0)) && req.qos
                    == Qos::AtLeastOnce && req.retain,
                None => !R::spec_authority(),
            },
    {
        let (cap, init) = attach_cap(entity, core, CapabilityKind::Media, 0);
        (Media { cap }, init)
    }

    pub closed spec fn wf(self) -> bool {
        cap_wf(self.cap, CapabilityKind::Media)
    }

    pub closed spec fn cap(self) -> TanukiCapability<R> {
        self.cap
    }

    /// The frame for a media command: QoS 2, not retained.
    pub fn command(&self, core: &mut ConnectionCore, cmd: &MediaCommand) -> (r: PublishRequest)
        requires
            old(core).wf(),
            self.wf(),
        ensures
            final(core).wf(),
            r.topic@ == spec_format(
                TopicV::CapabilityData {
                    entity: self.cap().spec_entity_id(),
                    capability: "tanuki.media"@,
                    rest: "command"@,
                },
            ),
            r.payload@ == MediaCommand::spec_to_json(*cmd),
            r.qos == Qos::ExactlyOnce,
            !r.retain,
    {
        self.cap.publish_property(core, cmd, PublishOpts::control())
    }

    /// The subscribe frame for one media property.
    pub fn listen<T: MediaProperty>(&self, core: &mut ConnectionCore) -> (r: Option<
        SubscribeRequest,
    >)
        requires
            old(core).wf(),
            self.wf(),
        ensures
            final(core).wf(),
            match r {
                Some(req) => req.topic@ == spec_format(
                    TopicV::CapabilityData {
                        entity: self.cap().spec_entity_id(),
                        capability: "tanuki.media"@,
                        rest: T::spec_key(),
                    },
                ) && final(core).handler_ids() == old(core).handler_ids().push(req.sub_id),
                None => old(core).sub_counter() == 0x1000_0000 && final(core).handler_ids()
                    == old(core).handler_ids(),
            },
    {
        self.cap.plan_listen(core, T::key())
    }
}

impl Media<Authority> {
    /// The frame for a media property: retained at QoS 1.
    pub fn publish<T: MediaProperty>(&self, core: &mut ConnectionCore, prop: &T) -> (r:
        PublishRequest)
        requires
            old(core).wf(),
            self.wf(),
        ensures
            final(core).wf(),
            r.topic@ == spec_format(
                TopicV::CapabilityData {
                    entity: self.cap().spec_entity_id(),
                    capability: "tanuki.media"@,
                    rest: T::spec_key(),
                },
            ),
            r.payload@ == T::spec_to_json(prop@),
            r.qos == Qos::AtLeastOnce,
            r.retain,
    {
        self.cap.publish_property(core, prop, PublishOpts::entity_data())
    }
}

impl<R: EntityRole> Buttons<R> {
    pub fn attach(entity: &TanukiEntity<R>, core: &mut ConnectionCore) -> (r: (
        Buttons<R>,
        Option<PublishRequest>,
    ))
        requires
            old(core).wf(),
        ensures
            final(core).wf(),
            r.0.wf(),
            r.0.cap().spec_entity_id() == entity.spec_id(),
            match r.1 {
                Some(req) => R::spec_authority() && req.topic@ == spec_format(
                    TopicV::CapabilityMeta {
                        entity: entity.spec_id(),
                        capability: "tanuki.buttons"@,
                        key: "version"@,
                    },
                ) && req.payload@ == Version::spec_to_json(Version(0)) && req.qos
                    == Qos::AtLeastOnce && req.retain,
                None => !R::spec_authority(),
            },
    {
        let (cap, init) = attach_cap(entity, core, CapabilityKind::Buttons, 0);
        (Buttons { cap }, init)
    }

    pub closed spec fn wf(self) -> bool {
        cap_wf(self.cap, CapabilityKind::Buttons)
    }

    pub closed spec fn cap(self) -> TanukiCapability<R> {
        self.cap
    }

    /// The subscribe frame spanning every button of the capability.
    pub fn listen(&self, core: &mut ConnectionCore) -> (r: Option<SubscribeRequest>)
        requires
            old(core).wf(),
            self.wf(),
        ensures
            final(core).wf(),
            match r {
                Some(req) => req.topic@ == spec_format(
                    TopicV::CapabilityData {
                        entity: self.cap().spec_entity_id(),
                        capability: "tanuki.buttons"@,
                        rest: "+"@,
                    },
                ) && final(core).handler_ids() == old(core).handler_ids().push(req.sub_id),
                None => old(core).sub_counter() == 0x1000_0000 && final(core).handler_ids()
                    == old(core).handler_ids(),
            },
    {
        self.cap.plan_listen(core, "+")
    }
}

impl Buttons<Authority> {
    /// The frame for one button's press action: QoS 2, not retained.
    pub fn publish_action(&self, core: &mut ConnectionCore, key: &str, action: &ButtonAction)
        -> (r: PublishRequest)
        requires
            old(core).wf(),
            self.wf(),
        ensures
            final(core).wf(),
            r.topic@ == spec_format(
                TopicV::CapabilityData {
                    entity: self.cap().spec_entity_id(),
                    capability: "tanuki.buttons"@,
                    rest: key@,
                },
            ),
            r.payload@ == ButtonAction::spec_to_json(*action),
            r.qos == Qos::ExactlyOnce,
            !r.retain,
    {
        self.cap.publish_raw(core, key, action.to_json(), PublishOpts::event())
    }

    /// The frame for one button's press event: QoS 2, not retained.
    pub fn publish_event(&self, core: &mut ConnectionCore, key: &str, ev: &ButtonEvent) -> (r:
        PublishRequest)
        requires
            old(core).wf(),
            self.wf(),
        ensures
            final(core).wf(),
            r.topic@ == spec_format(
                TopicV::CapabilityData {
                    entity: self.cap().spec_entity_id(),
                    capability: "tanuki.buttons"@,
                    rest: key@,
                },
            ),
            r.payload@ == ButtonEvent::spec_to_json(*ev),
            r.qos == Qos::ExactlyOnce,
            !r.retain,
    {
        self.cap.publish_raw(core, key, ev.to_json(), PublishOpts::event())
    }
}

} // verus!
