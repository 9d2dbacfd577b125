//! The topic schema: parsing, formatting, and the round trip.

use tanuki::ident::EntityId;
use tanuki::topic::Topic;

#[test]
fn topic_parse_capability_data() {
    let t = Topic::parse("tanuki/entities/sensor.temperature/temperature_sensor/current/extra")
        .unwrap();
    match t {
        Topic::CapabilityData { entity, capability, rest } => {
            assert_eq!(entity.as_str(), "sensor.temperature");
            assert_eq!(capability, "temperature_sensor");
            assert_eq!(rest, "current/extra");
        },
        _ => panic!("wrong topic shape"),
    }
}

#[test]
fn topic_parse_meta_trailing_error() {
    let err = Topic::parse("tanuki/entities/x/$meta/name/extra").unwrap_err();
    assert_eq!(err, "tanuki/entities/{id}/$meta/{key}/...");
}

#[test]
fn topic_parse_shapes() {
    match Topic::parse("tanuki/entities/lamp/$meta/name").unwrap() {
        Topic::EntityMeta { entity, key } => {
            assert_eq!(entity.as_str(), "lamp");
            assert_eq!(key, "name");
        },
        _ => panic!("wrong topic shape"),
    }
    match Topic::parse("tanuki/entities/lamp/tanuki.on_off/$meta/version").unwrap() {
        Topic::CapabilityMeta { entity, capability, key } => {
            assert_eq!(entity.as_str(), "lamp");
            assert_eq!(capability, "tanuki.on_off");
            assert_eq!(key, "version");
        },
        _ => panic!("wrong topic shape"),
    }
}

#[test]
fn topic_parse_errors() {
    assert!(Topic::parse("stray/entities/x/y/z").is_err());
    assert!(Topic::parse("tanuki/entities/x").is_err());
    assert!(Topic::parse("tanuki/entities/x/$meta").is_err());
    assert!(Topic::parse("tanuki/entities/x/cap").is_err());
    assert!(Topic::parse("tanuki/entities/x/cap/").is_err());
    assert!(Topic::parse("tanuki/entities/x/cap/$meta").is_err());
    assert!(Topic::parse("tanuki/entities/x/cap/$meta/k/t").is_err());
}

#[test]
fn topic_format_shapes() {
    let t = Topic::CapabilityData {
        entity: EntityId::from_str("vindstyrka"),
        capability: "tanuki.sensor".to_string(),
        rest: "temperature".to_string(),
    };
    assert_eq!(t.format(), "tanuki/entities/vindstyrka/tanuki.sensor/temperature");

    let m = Topic::EntityMeta {
        entity: EntityId::from_str("lamp"),
        key: "status".to_string(),
    };
    assert_eq!(m.format(), "tanuki/entities/lamp/$meta/status");
}

#[test]
fn topic_round_trip() {
    let cases = vec![
        Topic::CapabilityData {
            entity: EntityId::from_str("a.b"),
            capability: "cap".to_string(),
            rest: "x/y/z".to_string(),
        },
        Topic::CapabilityMeta {
            entity: EntityId::from_str("a"),
            capability: "c".to_string(),
            key: "version".to_string(),
        },
        Topic::EntityMeta {
            entity: EntityId::from_str("a"),
            key: "name".to_string(),
        },
    ];
    for t in cases {
        let wire = t.format();
        let back = Topic::parse(wire.as_str()).unwrap();
        match (t, back) {
            (
                Topic::CapabilityData { entity, capability, rest },
                Topic::CapabilityData { entity: e2, capability: c2, rest: r2 },
            ) => {
                assert!(entity == e2);
                assert_eq!(capability, c2);
                assert_eq!(rest, r2);
            },
            (
                Topic::CapabilityMeta { entity, capability, key },
                Topic::CapabilityMeta { entity: e2, capability: c2, key: k2 },
            ) => {
                assert!(entity == e2);
                assert_eq!(capability, c2);
                assert_eq!(key, k2);
            },
            (
                Topic::EntityMeta { entity, key },
                Topic::EntityMeta { entity: e2, key: k2 },
            ) => {
                assert!(entity == e2);
                assert_eq!(key, k2);
            },
            _ => panic!("round trip changed the shape"),
        }
    }
}

#[test]
fn entity_id_serde() {
    let id = EntityId::from_str("test.entity");
    assert_eq!(id.as_str(), "test.entity");
    assert!(id == EntityId::from_str("test.entity"));
    assert!(!(id == EntityId::wildcard()));
    assert_eq!(EntityId::wildcard().as_str(), "+");
}
