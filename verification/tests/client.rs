//! The connection core: identifiers, dispatch, and publish plans.

use tanuki::capabilities::on_off::{On, OnOffCommand};
use tanuki::handles::handle_property;
use tanuki::capabilities::sensor::{SensorPayload, SensorValue};
use tanuki::connection::{ConnectionCore, PublishOpts, Qos};
use tanuki::handles::{Authority, Buttons, OnOff, Sensor, TanukiEntity, User};
use tanuki::capabilities::buttons::ButtonEvent;
use tanuki::ident::EntityId;
use tanuki::ids::{HassPacketIds, PacketIds, SubIds};
use tanuki::json::{Json, JsonNum, json_eq};
use tanuki::registry::{Registry, RegistryOutcome};
use tanuki::capabilities::CapabilityKind;
use tanuki::timeline::{TanukiOnOffState, Timeline};

#[test]
fn packet_ids_skip_zero() {
    let mut ids = PacketIds::new();
    let first = ids.next_payload_id();
    assert_eq!(first, 1);
    // run the counter through a full 16-bit wrap; zero never comes out
    for _ in 0..0x2_0000u32 {
        assert_ne!(ids.next_payload_id(), 0);
    }
}

#[test]
fn sub_ids_unique() {
    let mut ids = SubIds::new();
    let mut seen = Vec::new();
    for _ in 0..1000 {
        let id = ids.next_sub_id().unwrap();
        assert_ne!(id, 0);
        assert!(id <= 0x0FFF_FFFF);
        seen.push(id);
    }
    for i in 0..seen.len() {
        for j in (i + 1)..seen.len() {
            assert_ne!(seen[i], seen[j]);
        }
    }
}

#[test]
fn hass_ids_skip_zero() {
    let mut ids = HassPacketIds::new();
    for _ in 0..100 {
        assert_ne!(ids.next_id(), 0);
    }
}

#[test]
fn publish_opts_presets() {
    assert_eq!(PublishOpts::metadata().qos, Qos::AtLeastOnce);
    assert!(PublishOpts::metadata().retain);
    assert_eq!(PublishOpts::entity_data().qos, Qos::AtLeastOnce);
    assert!(PublishOpts::entity_data().retain);
    assert_eq!(PublishOpts::event().qos, Qos::ExactlyOnce);
    assert!(!PublishOpts::event().retain);
    assert_eq!(PublishOpts::control().qos, Qos::ExactlyOnce);
    assert!(!PublishOpts::control().retain);
}

#[test]
fn handler_deregistration() {
    let mut core = ConnectionCore::new();
    let entity: TanukiEntity<User> = TanukiEntity::new(EntityId::from_str("lamp"));
    let (buttons, init) = Buttons::attach(&entity, &mut core);
    assert!(init.is_none());
    let req = buttons.listen(&mut core).unwrap();
    assert_eq!(req.topic, "tanuki/entities/lamp/tanuki.buttons/+");
    assert!(core.should_dispatch(Some(req.sub_id)));
    assert!(!core.should_dispatch(None));
    // the handler answers true: it stays
    core.after_dispatch(req.sub_id, true);
    assert!(core.should_dispatch(Some(req.sub_id)));
    // the handler answers false: it is gone for good
    core.after_dispatch(req.sub_id, false);
    assert!(!core.should_dispatch(Some(req.sub_id)));
    core.after_dispatch(req.sub_id, false);
    assert!(!core.should_dispatch(Some(req.sub_id)));
}

#[test]
fn sensor_publish_plan() {
    let mut core = ConnectionCore::new();
    let entity: TanukiEntity<Authority> = TanukiEntity::new(EntityId::from_str("vindstyrka"));
    let status = entity.initialize(&mut core);
    // a fresh connection numbers its first frame 1
    assert_eq!(status.packet_id, 1);
    assert_eq!(status.topic, "tanuki/entities/vindstyrka/$meta/status");
    assert!(json_eq(&status.payload, &Json::Str("online".to_string())));

    let (sensor, init) = Sensor::attach(&entity, &mut core);
    let init = init.unwrap();
    assert_eq!(init.topic, "tanuki/entities/vindstyrka/tanuki.sensor/$meta/version");
    assert!(json_eq(&init.payload, &Json::Num(JsonNum { neg: false, mant: 0, scale: 0 })));

    let payload = SensorPayload {
        value: SensorValue::Number(JsonNum { neg: false, mant: 235, scale: 1 }),
        unit: "\u{b0}C".to_string(),
        timestamp: "2024-04-05T22:54:38Z".to_string(),
    };
    let req = sensor.publish(&mut core, "temperature", &payload);
    assert_eq!(req.topic, "tanuki/entities/vindstyrka/tanuki.sensor/temperature");
    assert_eq!(req.qos, Qos::AtLeastOnce);
    assert!(req.retain);
    assert_ne!(req.packet_id, 0);
    let expected = Json::Obj(vec![
        ("value".to_string(), Json::Num(JsonNum { neg: false, mant: 235, scale: 1 })),
        ("unit".to_string(), Json::Str("\u{b0}C".to_string())),
        ("timestamp".to_string(), Json::Str("2024-04-05T22:54:38Z".to_string())),
    ]);
    assert!(json_eq(&req.payload, &expected));
    assert_eq!(
        req.payload.encode(),
        "{\"value\":23.5,\"unit\":\"\u{b0}C\",\"timestamp\":\"2024-04-05T22:54:38Z\"}"
    );
}

#[test]
fn on_off_command_plan() {
    let mut core = ConnectionCore::new();
    let entity: TanukiEntity<User> = TanukiEntity::new(EntityId::from_str("lamp"));
    let (on_off, init) = OnOff::attach(&entity, &mut core);
    assert!(init.is_none());
    let req = on_off.command(&mut core, &OnOffCommand::Toggle);
    assert_eq!(req.topic, "tanuki/entities/lamp/tanuki.on_off/command");
    assert_eq!(req.qos, Qos::ExactlyOnce);
    assert!(!req.retain);
    assert!(json_eq(&req.payload, &Json::Str("toggle".to_string())));
}

#[test]
fn button_event_plan() {
    let mut core = ConnectionCore::new();
    let entity: TanukiEntity<Authority> = TanukiEntity::new(EntityId::from_str("remote"));
    let (buttons, _init) = Buttons::attach(&entity, &mut core);
    let req = buttons.publish_event(&mut core, "on", &ButtonEvent::Pressed);
    assert_eq!(req.topic, "tanuki/entities/remote/tanuki.buttons/on");
    assert_eq!(req.qos, Qos::ExactlyOnce);
    assert!(!req.retain);
}

#[test]
fn registry_memoises() {
    let mut registry = Registry::new();
    let id = EntityId::from_str("atc_balcony");
    assert_eq!(
        registry.get(&id, CapabilityKind::Sensor),
        RegistryOutcome::NewCapability { init_entity: true }
    );
    assert_eq!(registry.get(&id, CapabilityKind::Sensor), RegistryOutcome::Cached);
    // a second capability on the same entity skips the entity initialisation
    assert_eq!(
        registry.get(&id, CapabilityKind::Light),
        RegistryOutcome::NewCapability { init_entity: false }
    );
    let other = EntityId::from_str("other");
    assert_eq!(
        registry.get(&other, CapabilityKind::Sensor),
        RegistryOutcome::NewCapability { init_entity: true }
    );
}

#[test]
fn typed_listener_steps() {
    // a reading decodes: a long-lived listener stays, a one-shot leaves
    let (value, keep) = handle_property::<On>(&Json::Bool(true), false);
    assert_eq!(value, Some(On(true)));
    assert!(keep);
    let (value, keep) = handle_property::<On>(&Json::Bool(false), true);
    assert_eq!(value, Some(On(false)));
    assert!(!keep);
    // an unreadable payload is dropped without unsubscribing
    let (value, keep) = handle_property::<On>(&Json::Str("on".to_string()), false);
    assert_eq!(value, None);
    assert!(keep);
    let (value, keep) = handle_property::<On>(&Json::Null, true);
    assert_eq!(value, None);
    assert!(keep);
}

#[test]
fn timeline_updates() {
    let mut tl: Timeline<bool> = Timeline::default();
    assert!(tl.last().is_none());
    tl.update(true);
    assert_eq!(tl.last(), Some(&true));
    tl.update(false);
    assert_eq!(tl.last(), Some(&false));
    assert_eq!(tl.readings.len(), 2);

    let state = TanukiOnOffState::default();
    assert!(state.on.last().is_none());
}
