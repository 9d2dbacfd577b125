//! The bridges: BTHome decoding and the Home Assistant mapping rules.

use tanuki::bthome::Object;
use tanuki::capabilities::buttons::ButtonAction;
use tanuki::capabilities::light::{Color, ColorMode};
use tanuki::capabilities::sensor::SensorValue;
use tanuki::hass::entity::{
    CapEventMapping, CapMapping, HassAttributes, PropagateAction, SensorState, ServiceCall,
    ServiceMapping, StateChangeEvent, StateEvent, ZhaEventTranslation, zha_first_match,
};
use tanuki::hass::messages::{AuthServerMessage, ClientMessage, ServerMessage, packet_to_json,
    parse_packet};
use tanuki::hass::session::{AuthAction, AuthState, auth_step};
use tanuki::bthome::resolve_device;
use tanuki::rfc3339::format_epoch;
use tanuki::json::{Json, JsonNum, json_eq, parse_decimal};

fn num(mant: u64, scale: u8) -> Json {
    Json::Num(JsonNum { neg: false, mant, scale })
}

fn obj(members: Vec<(&str, Json)>) -> Json {
    Json::Obj(members.into_iter().map(|(k, v)| (k.to_string(), v)).collect())
}

fn plain_attributes() -> HassAttributes {
    HassAttributes {
        unit_of_measurement: String::new(),
        brightness: None,
        color_mode: None,
        rgbww_color: None,
        rgbw_color: None,
        rgb_color: None,
        hs_color: None,
        xy_color: None,
    }
}

#[test]
fn bthome_decode() {
    // device info, then a two-byte unsigned record: battery at 83 percent
    let battery = [0x00, 0x00, 0x00, 0x02, 0x01, 0x53];
    assert_eq!(
        Object::decode(&battery),
        vec![Object::Battery(JsonNum { neg: false, mant: 83, scale: 0 })]
    );

    // a three-byte unsigned record: temperature 0x09E8 = 2536, so 25.36
    let temperature = [0x00, 0x00, 0x00, 0x03, 0x02, 0xE8, 0x09];
    assert_eq!(
        Object::decode(&temperature),
        vec![Object::Temperature(JsonNum { neg: false, mant: 2536, scale: 2 })]
    );

    // a signed record below zero, and power above zero
    let mixed = [
        0x00, 0x00, 0x00, // device info
        0x23, 0x02, 0xF8, 0xFF, // temperature -8 -> -0.08
        0x02, 0x10, 0x01, // power 1 -> true
        0x02, 0x99, 0x07, // unknown object id: skipped
    ];
    assert_eq!(
        Object::decode(&mixed),
        vec![
            Object::Temperature(JsonNum { neg: true, mant: 8, scale: 2 }),
            Object::Power(true),
        ]
    );

    // a truncated record ends the run
    let truncated = [0x00, 0x00, 0x00, 0x05, 0x01];
    assert_eq!(Object::decode(&truncated), vec![]);
    assert_eq!(Object::decode(&[0x00]), vec![]);
}

#[test]
fn bthome_object_tables() {
    let t = Object::Temperature(JsonNum { neg: false, mant: 2536, scale: 2 });
    assert_eq!(t.topic(), "temperature");
    assert_eq!(t.unit(), "\u{b0}C");
    assert_eq!(
        t.value(),
        SensorValue::Number(JsonNum { neg: false, mant: 2536, scale: 2 })
    );
    let p = Object::Power(false);
    assert_eq!(p.topic(), "power");
    assert_eq!(p.unit(), "");
    assert_eq!(p.value(), SensorValue::Boolean(false));
    let r = Object::Rssi(-70);
    assert_eq!(r.topic(), "rssi");
    assert_eq!(r.unit(), "dBm");
    assert_eq!(
        r.value(),
        SensorValue::Number(JsonNum { neg: true, mant: 70, scale: 0 })
    );
}

#[test]
fn parse_decimal_values() {
    assert_eq!(
        parse_decimal("23.5"),
        Some(JsonNum { neg: false, mant: 235, scale: 1 })
    );
    assert_eq!(
        parse_decimal("-0.08"),
        Some(JsonNum { neg: true, mant: 8, scale: 2 })
    );
    assert_eq!(parse_decimal("42"), Some(JsonNum { neg: false, mant: 42, scale: 0 }));
    assert_eq!(parse_decimal("+7"), Some(JsonNum { neg: false, mant: 7, scale: 0 }));
    assert_eq!(parse_decimal(""), None);
    assert_eq!(parse_decimal("on"), None);
    assert_eq!(parse_decimal("1.2.3"), None);
    assert_eq!(parse_decimal("."), None);
    assert_eq!(parse_decimal("99999999999999999999999"), None);
}

#[test]
fn parse_decimal_exponents() {
    assert_eq!(
        parse_decimal("2.5e-3"),
        Some(JsonNum { neg: false, mant: 25, scale: 4 })
    );
    assert_eq!(parse_decimal("1e3"), Some(JsonNum { neg: false, mant: 1000, scale: 0 }));
    assert_eq!(parse_decimal("1E2"), Some(JsonNum { neg: false, mant: 100, scale: 0 }));
    assert_eq!(parse_decimal("1e+2"), Some(JsonNum { neg: false, mant: 100, scale: 0 }));
    assert_eq!(parse_decimal("1.5e1"), Some(JsonNum { neg: false, mant: 15, scale: 0 }));
    assert_eq!(parse_decimal("-2e2"), Some(JsonNum { neg: true, mant: 200, scale: 0 }));
    assert_eq!(parse_decimal("0e99"), Some(JsonNum { neg: false, mant: 0, scale: 0 }));
    // malformed or unrepresentable exponents refuse
    assert_eq!(parse_decimal("1e"), None);
    assert_eq!(parse_decimal("e3"), None);
    assert_eq!(parse_decimal("1e3e2"), None);
    assert_eq!(parse_decimal("2e308"), None);
    assert_eq!(parse_decimal("1e-300"), None);
}

#[test]
fn rfc3339_formatting() {
    assert_eq!(format_epoch(0), "1970-01-01T00:00:00Z");
    assert_eq!(format_epoch(951782400), "2000-02-29T00:00:00Z");
    assert_eq!(format_epoch(1712357678), "2024-04-05T22:54:38Z");
    assert_eq!(format_epoch(1712345678), "2024-04-05T19:34:38Z");
    assert_eq!(format_epoch(253402300799), "9999-12-31T23:59:59Z");
}

#[test]
fn sensor_state_propagation() {
    let mapping = CapMapping::sensor("temperature");
    let mut attributes = plain_attributes();
    attributes.unit_of_measurement = "\u{b0}C".to_string();
    let state = SensorState {
        state: "23.5".to_string(),
        attributes,
        last_updated: "2024-04-05T22:54:38Z".to_string(),
    };
    match mapping.propagate_state(&state) {
        PropagateAction::Sensor { key, payload } => {
            assert_eq!(key, "temperature");
            assert_eq!(
                payload.value,
                SensorValue::Number(JsonNum { neg: false, mant: 235, scale: 1 })
            );
            assert_eq!(payload.unit, "\u{b0}C");
            assert_eq!(payload.timestamp, "2024-04-05T22:54:38Z");
        },
        _ => panic!("expected a sensor publish"),
    }

    // an unreadable number drops
    let bad = SensorState {
        state: "unavailable".to_string(),
        attributes: plain_attributes(),
        last_updated: "2024-04-05T22:54:38Z".to_string(),
    };
    assert!(matches!(mapping.propagate_state(&bad), PropagateAction::Drop));

    // binary sensors accept exactly on and off
    let binary = CapMapping::binary_sensor("motion");
    let on = SensorState {
        state: "on".to_string(),
        attributes: plain_attributes(),
        last_updated: "2024-04-05T22:54:38Z".to_string(),
    };
    match binary.propagate_state(&on) {
        PropagateAction::Sensor { payload, .. } => {
            assert_eq!(payload.value, SensorValue::Boolean(true));
        },
        _ => panic!("expected a sensor publish"),
    }
    let odd = SensorState {
        state: "maybe".to_string(),
        attributes: plain_attributes(),
        last_updated: "2024-04-05T22:54:38Z".to_string(),
    };
    assert!(matches!(binary.propagate_state(&odd), PropagateAction::Drop));
}

#[test]
fn light_state_propagation() {
    let mut attributes = plain_attributes();
    attributes.brightness = Some(127);
    attributes.color_mode = Some(ColorMode::Rgb);
    attributes.rgb_color = Some(vec![
        JsonNum { neg: false, mant: 255, scale: 0 },
        JsonNum { neg: false, mant: 0, scale: 0 },
        JsonNum { neg: false, mant: 128, scale: 0 },
    ]);
    let state = SensorState {
        state: "on".to_string(),
        attributes,
        last_updated: "2024-04-05T22:54:38Z".to_string(),
    };
    match CapMapping::Light.propagate_state(&state) {
        PropagateAction::Light { light, on } => {
            assert!(on);
            assert!(light.on);
            // 127/254 is exactly one half
            assert_eq!(light.brightness, Some(JsonNum { neg: false, mant: 5, scale: 1 }));
            assert_eq!(light.color, Some(Color::Rgb { r: 255, g: 0, b: 128 }));
        },
        _ => panic!("expected a light publish"),
    }

    // a color-temperature mode carries no color
    let mut attributes = plain_attributes();
    attributes.color_mode = Some(ColorMode::ColorTemp);
    let state = SensorState {
        state: "off".to_string(),
        attributes,
        last_updated: "2024-04-05T22:54:38Z".to_string(),
    };
    match CapMapping::Light.propagate_state(&state) {
        PropagateAction::Light { light, on } => {
            assert!(!on);
            assert_eq!(light.brightness, None);
            assert_eq!(light.color, None);
        },
        _ => panic!("expected a light publish"),
    }
}

#[test]
fn zha_button_mapping() {
    let translations = vec![
        ZhaEventTranslation {
            command: "on".to_string(),
            params: obj(vec![]),
            map_to: CapEventMapping::Button {
                button: "on".to_string(),
                event: ButtonAction::Pressed,
            },
        },
        ZhaEventTranslation {
            command: "move_with_on_off".to_string(),
            params: obj(vec![("move_mode", num(0, 0))]),
            map_to: CapEventMapping::Button {
                button: "on".to_string(),
                event: ButtonAction::LongPressed,
            },
        },
    ];
    // the subset check ignores extra event parameters
    let params = obj(vec![("move_mode", num(0, 0)), ("transition_time", num(5, 0))]);
    match zha_first_match(&translations, "move_with_on_off", &params) {
        Some(CapEventMapping::Button { button, event }) => {
            assert_eq!(button, "on");
            assert_eq!(*event, ButtonAction::LongPressed);
        },
        None => panic!("expected a translation"),
    }
    // a differing parameter value refuses the translation
    let other = obj(vec![("move_mode", num(1, 0))]);
    assert!(zha_first_match(&translations, "move_with_on_off", &other).is_none());
    assert!(zha_first_match(&translations, "off", &params).is_none());
}

#[test]
fn translate_commands() {
    let on_off = ServiceMapping::OnOff { domain: "switch".to_string() };
    let call = on_off
        .translate_command("tanuki.on_off", "command", &Json::Str("toggle".to_string()))
        .unwrap();
    assert_eq!(call.domain, "switch");
    assert_eq!(call.service, "toggle");
    assert!(matches!(call.service_data, Json::Null));
    assert!(on_off
        .translate_command("tanuki.light", "command", &Json::Str("toggle".to_string()))
        .is_none());

    let light = ServiceMapping::Light;
    let cmd = obj(vec![
        ("on", Json::Bool(true)),
        ("color", obj(vec![("r", num(255, 0)), ("g", num(0, 0)), ("b", num(128, 0))])),
    ]);
    let call = light.translate_command("tanuki.light", "command", &cmd).unwrap();
    assert_eq!(call.domain, "light");
    assert_eq!(call.service, "turn_on");
    let expected = obj(vec![(
        "rgb_color",
        Json::Arr(vec![num(255, 0), num(0, 0), num(128, 0)]),
    )]);
    assert!(json_eq(&call.service_data, &expected));

    let off = obj(vec![("on", Json::Bool(false))]);
    let call = light.translate_command("tanuki.light", "command", &off).unwrap();
    assert_eq!(call.service, "turn_off");
    assert!(matches!(call.service_data, Json::Null));
}

#[test]
fn service_call_serde() {
    let call = ServiceCall {
        domain: "light".to_string(),
        service: "turn_on".to_string(),
        service_data: obj(vec![("brightness_pct", num(24, 0))]),
    };
    let targeted = call.target_entity("light.living_room");
    let expected = obj(vec![
        ("domain", Json::Str("light".to_string())),
        ("service", Json::Str("turn_on".to_string())),
        ("service_data", obj(vec![("brightness_pct", num(24, 0))])),
        ("target", obj(vec![("entity_id", Json::Str("light.living_room".to_string()))])),
    ]);
    assert!(json_eq(&targeted.to_json(), &expected));
}

#[test]
fn auth_flow() {
    let required = AuthServerMessage::AuthRequired { ha_version: "2024.4".to_string() };
    let (state, action) = auth_step(AuthState::AwaitingRequired, &required);
    assert_eq!(state, AuthState::AwaitingOutcome);
    assert!(matches!(action, AuthAction::SendAuth));

    let ok = AuthServerMessage::AuthOk { ha_version: "2024.4".to_string() };
    let (state, action) = auth_step(state, &ok);
    assert_eq!(state, AuthState::Ready);
    assert!(matches!(action, AuthAction::Done));

    // a rejected token fails with the server's message
    let invalid = AuthServerMessage::AuthInvalid { message: "bad token".to_string() };
    let (_, action) = auth_step(AuthState::AwaitingOutcome, &invalid);
    assert!(matches!(action, AuthAction::Fail(_)));

    // out-of-order messages are protocol failures
    let (_, action) = auth_step(AuthState::AwaitingRequired, &ok);
    assert!(matches!(action, AuthAction::Fail(_)));
}

#[test]
fn session_messages() {
    let frame = packet_to_json(7, ClientMessage::GetStates);
    let expected = obj(vec![
        ("id", num(7, 0)),
        ("type", Json::Str("get_states".to_string())),
    ]);
    assert!(json_eq(&frame, &expected));

    let inbound = obj(vec![
        ("id", num(7, 0)),
        ("type", Json::Str("result".to_string())),
        ("success", Json::Bool(true)),
        ("result", Json::Arr(vec![])),
    ]);
    let (id, msg) = parse_packet(&inbound).unwrap();
    assert_eq!(id, 7);
    match msg {
        ServerMessage::Result { success, result, error } => {
            assert!(success);
            assert!(json_eq(&result, &Json::Arr(vec![])));
            assert!(error.is_none());
        },
        _ => panic!("expected a result message"),
    }

    let auth = AuthServerMessage::from_json(&obj(vec![
        ("type", Json::Str("auth_required".to_string())),
        ("ha_version", Json::Str("2024.4".to_string())),
    ]));
    assert!(matches!(auth, Some(AuthServerMessage::AuthRequired { .. })));
}

#[test]
fn state_event_decoding() {
    let state_obj = obj(vec![
        ("entity_id", Json::Str("sensor.vindstyrka_temperature".to_string())),
        ("state", Json::Str("23.5".to_string())),
        (
            "attributes",
            obj(vec![
                ("unit_of_measurement", Json::Str("\u{b0}C".to_string())),
                ("friendly_name", Json::Str("ignored".to_string())),
            ]),
        ),
        ("last_updated", Json::Str("2024-04-05T22:54:38Z".to_string())),
    ]);
    let ev = StateEvent::from_json(&state_obj).unwrap();
    assert_eq!(ev.entity_id, "sensor.vindstyrka_temperature");
    assert_eq!(ev.state.state, "23.5");
    assert_eq!(ev.state.attributes.unit_of_measurement, "\u{b0}C");
    assert_eq!(ev.state.last_updated, "2024-04-05T22:54:38Z");

    // a state without attributes is refused
    let bare = obj(vec![
        ("entity_id", Json::Str("sensor.x".to_string())),
        ("state", Json::Str("1".to_string())),
        ("last_updated", Json::Str("2024-04-05T22:54:38Z".to_string())),
    ]);
    assert!(StateEvent::from_json(&bare).is_none());

    let attrs = HassAttributes::from_json(&obj(vec![
        ("brightness", num(127, 0)),
        ("color_mode", Json::Str("rgb".to_string())),
        ("rgb_color", Json::Arr(vec![num(255, 0), num(0, 0), num(128, 0)])),
    ]))
    .unwrap();
    assert_eq!(attrs.unit_of_measurement, "");
    assert_eq!(attrs.brightness, Some(127));
    assert_eq!(attrs.color_mode, Some(ColorMode::Rgb));
    assert_eq!(
        attrs.rgb_color,
        Some(vec![
            JsonNum { neg: false, mant: 255, scale: 0 },
            JsonNum { neg: false, mant: 0, scale: 0 },
            JsonNum { neg: false, mant: 128, scale: 0 },
        ])
    );
    // an unknown color-mode name refuses the record
    assert!(HassAttributes::from_json(&obj(vec![(
        "color_mode",
        Json::Str("sepia".to_string())
    )]))
    .is_none());
}

#[test]
fn state_change_decoding() {
    let state = |v: &str| {
        obj(vec![
            ("state", Json::Str(v.to_string())),
            ("attributes", obj(vec![])),
            ("last_updated", Json::Str("2024-04-05T22:54:38Z".to_string())),
        ])
    };
    let data = obj(vec![
        ("entity_id", Json::Str("light.north_light".to_string())),
        ("old_state", state("off")),
        ("new_state", state("on")),
    ]);
    let ev = StateChangeEvent::from_json(&data).unwrap();
    assert_eq!(ev.entity_id, "light.north_light");
    assert_eq!(ev.old_state.state, "off");
    assert_eq!(ev.new_state.state, "on");

    // a null old state drops the whole event
    let fresh = obj(vec![
        ("entity_id", Json::Str("light.north_light".to_string())),
        ("old_state", Json::Null),
        ("new_state", state("on")),
    ]);
    assert!(StateChangeEvent::from_json(&fresh).is_none());
}

#[test]
fn resolve_device_table() {
    let table = vec![
        (
            "ATC_1234".to_string(),
            "atc_balcony".to_string(),
            "Balcony Sensor".to_string(),
        ),
        (
            "aa:bb:cc:dd:ee:ff".to_string(),
            "atc_cellar".to_string(),
            "Cellar Sensor".to_string(),
        ),
    ];
    // keyed by name
    let (id, name) = resolve_device(&table, "ATC_1234", "11:22:33:44:55:66");
    assert_eq!(id, "atc_balcony");
    assert_eq!(name, "Balcony Sensor");
    // keyed by address
    let (id, name) = resolve_device(&table, "ATC_9999", "aa:bb:cc:dd:ee:ff");
    assert_eq!(id, "atc_cellar");
    assert_eq!(name, "Cellar Sensor");
    // unmapped: the id is the snake_case form of the name, not the name itself
    let (id, name) = resolve_device(&table, "ATC Kitchen", "00:00:00:00:00:00");
    assert_eq!(id, "atc_kitchen");
    assert_eq!(name, "ATC Kitchen");
}
