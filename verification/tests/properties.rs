//! Payload types and their JSON forms.

use tanuki::capabilities::buttons::{ButtonAction, ButtonEvent};
use tanuki::capabilities::light::{Color, ColorMode, LightState};
use tanuki::capabilities::media::{MediaCommand, MediaPosition, MediaStatus, Repeat};
use tanuki::capabilities::on_off::{On, OnOffCommand};
use tanuki::capabilities::sensor::{SensorPayload, SensorValue};
use tanuki::json::{Json, JsonNum, json_eq};
use tanuki::meta::{EntityStatus, Status, Version};
use tanuki::property::Property;

fn num(mant: u64, scale: u8) -> Json {
    Json::Num(JsonNum { neg: false, mant, scale })
}

fn obj(members: Vec<(&str, Json)>) -> Json {
    Json::Obj(members.into_iter().map(|(k, v)| (k.to_string(), v)).collect())
}

#[test]
fn button_action_format() {
    assert!(json_eq(
        &ButtonAction::Pressed.to_json(),
        &Json::Str("pressed".to_string()),
    ));
}

#[test]
fn button_event_format() {
    assert!(json_eq(
        &ButtonEvent::Pressed.to_json(),
        &Json::Str("pressed".to_string()),
    ));
}

#[test]
fn parse_colors() {
    assert_eq!(
        Color::from_json(&obj(vec![
            ("r", num(255, 0)),
            ("g", num(0, 0)),
            ("b", num(128, 0)),
            ("cw", num(32, 0)),
            ("ww", num(16, 0)),
        ])),
        Some(Color::Rgbww { r: 255, g: 0, b: 128, cw: 32, ww: 16 })
    );

    assert_eq!(
        Color::from_json(&obj(vec![
            ("r", num(255, 0)),
            ("g", num(0, 0)),
            ("b", num(128, 0)),
            ("w", num(64, 0)),
        ])),
        Some(Color::Rgbw { r: 255, g: 0, b: 128, w: 64 })
    );

    assert_eq!(
        Color::from_json(&obj(vec![
            ("r", num(255, 0)),
            ("g", num(0, 0)),
            ("b", num(128, 0)),
        ])),
        Some(Color::Rgb { r: 255, g: 0, b: 128 })
    );

    assert_eq!(
        Color::from_json(&obj(vec![("h", num(1800, 1)), ("s", num(5, 1))])),
        Some(Color::Hs {
            h: JsonNum { neg: false, mant: 1800, scale: 1 },
            s: JsonNum { neg: false, mant: 5, scale: 1 },
        })
    );

    assert_eq!(
        Color::from_json(&obj(vec![("x", num(3, 1)), ("y", num(6, 1))])),
        Some(Color::Xy {
            x: JsonNum { neg: false, mant: 3, scale: 1 },
            y: JsonNum { neg: false, mant: 6, scale: 1 },
        })
    );
}

#[test]
fn color_foreign_keys_fail() {
    // a foreign key beside a full match
    assert_eq!(
        Color::from_json(&obj(vec![
            ("r", num(1, 0)),
            ("g", num(2, 0)),
            ("b", num(3, 0)),
            ("q", num(4, 0)),
        ])),
        None
    );
    // an incomplete key set
    assert_eq!(
        Color::from_json(&obj(vec![("r", num(1, 0)), ("g", num(2, 0))])),
        None
    );
    // not an object at all
    assert_eq!(Color::from_json(&Json::Str("red".to_string())), None);
}

#[test]
fn on_property_format() {
    assert!(json_eq(&On(true).to_json(), &Json::Bool(true)));
    assert!(json_eq(&On(false).to_json(), &Json::Bool(false)));
}

#[test]
fn on_off_command_format() {
    assert!(json_eq(
        &OnOffCommand::On.to_json(),
        &Json::Str("on".to_string()),
    ));
    assert!(json_eq(
        &OnOffCommand::Off.to_json(),
        &Json::Str("off".to_string()),
    ));
    assert!(json_eq(
        &OnOffCommand::Toggle.to_json(),
        &Json::Str("toggle".to_string()),
    ));
}

#[test]
fn sensor_payload_format() {
    let payload = SensorPayload {
        value: SensorValue::Number(JsonNum { neg: false, mant: 235, scale: 1 }),
        unit: "\u{b0}C".to_string(),
        timestamp: "2024-04-05T19:34:38Z".to_string(),
    };
    let expected = obj(vec![
        ("value", num(235, 1)),
        ("unit", Json::Str("\u{b0}C".to_string())),
        ("timestamp", Json::Str("2024-04-05T19:34:38Z".to_string())),
    ]);
    assert!(json_eq(&payload.to_json(), &expected));
}

#[test]
fn deser_values() {
    assert_eq!(
        SensorValue::from_json(&num(235, 1)),
        Some(SensorValue::Number(JsonNum { neg: false, mant: 235, scale: 1 }))
    );
    assert_eq!(
        SensorValue::from_json(&Json::Bool(true)),
        Some(SensorValue::Boolean(true))
    );
}

#[test]
fn light_state_codec() {
    let state = LightState {
        on: true,
        brightness: Some(JsonNum { neg: false, mant: 5000, scale: 4 }),
        color: Some(Color::Rgb { r: 255, g: 0, b: 128 }),
    };
    let round = LightState::from_json(&state.to_json());
    assert_eq!(round, Some(state));

    let bare = LightState { on: false, brightness: None, color: None };
    assert!(json_eq(&bare.to_json(), &obj(vec![("on", Json::Bool(false))])));
    assert_eq!(LightState::from_json(&bare.to_json()), Some(bare));
}

#[test]
fn color_from_slice_modes() {
    let rgb = [num_v(255), num_v(0), num_v(128)];
    assert_eq!(
        Color::from_slice(ColorMode::Rgb, &rgb),
        Some(Color::Rgb { r: 255, g: 0, b: 128 })
    );
    assert_eq!(Color::from_slice(ColorMode::Rgbww, &rgb), None);
    assert_eq!(Color::from_slice(ColorMode::ColorTemp, &rgb), None);
    assert_eq!(Color::from_slice(ColorMode::Brightness, &[]), None);
    // truncation toward zero and saturation
    let wild = [
        JsonNum { neg: false, mant: 2559, scale: 1 },
        JsonNum { neg: true, mant: 10, scale: 0 },
        JsonNum { neg: false, mant: 9999, scale: 0 },
    ];
    assert_eq!(
        Color::from_slice(ColorMode::Rgb, &wild),
        Some(Color::Rgb { r: 255, g: 0, b: 255 })
    );
}

fn num_v(v: u64) -> JsonNum {
    JsonNum { neg: false, mant: v, scale: 0 }
}

#[test]
fn media_command_codec() {
    let seek = MediaCommand::Seek { position_ms: 42 };
    let expected = obj(vec![
        ("type", Json::Str("seek".to_string())),
        ("position_ms", num(42, 0)),
    ]);
    assert!(json_eq(&seek.to_json(), &expected));
    assert_eq!(MediaCommand::from_json(&seek.to_json()), Some(seek));

    let rep = MediaCommand::SetRepeat { repeat: Repeat::All };
    assert_eq!(MediaCommand::from_json(&rep.to_json()), Some(rep));
    assert!(json_eq(
        &MediaCommand::Play.to_json(),
        &obj(vec![("type", Json::Str("play".to_string()))]),
    ));
}

#[test]
fn media_status_strings() {
    assert_eq!(MediaStatus::parse("playing"), Some(MediaStatus::Playing));
    assert_eq!(MediaStatus::Paused.as_str(), "paused");
    assert_eq!(MediaStatus::parse("sleeping"), None);
    assert_eq!(Repeat::parse("one"), Some(Repeat::One));
}

#[test]
fn media_position_progress() {
    let anchor = MediaPosition {
        position_ms: 10_000,
        timestamp_ms: 1_000,
        rate: JsonNum { neg: false, mant: 15, scale: 1 },
    };
    // 2000 ms at rate 1.5 moves playback 3000 ms forward
    assert_eq!(anchor.current_position(3_000), 13_000);
    // looking back before the anchor moves it backward
    assert_eq!(anchor.current_position(0), 8_500);
}

#[test]
fn number_normalization() {
    assert_eq!(
        (JsonNum { neg: false, mant: 5000, scale: 4 }).normalized(),
        JsonNum { neg: false, mant: 5, scale: 1 }
    );
    assert_eq!(
        (JsonNum { neg: false, mant: 10000, scale: 4 }).normalized(),
        JsonNum { neg: false, mant: 1, scale: 0 }
    );
    assert_eq!(
        (JsonNum { neg: true, mant: 8, scale: 2 }).normalized(),
        JsonNum { neg: true, mant: 8, scale: 2 }
    );
    assert_eq!(
        (JsonNum { neg: false, mant: 0, scale: 3 }).normalized(),
        JsonNum { neg: false, mant: 0, scale: 0 }
    );
}

#[test]
fn meta_fields() {
    assert!(json_eq(
        &Status(EntityStatus::Online).to_json(),
        &Json::Str("online".to_string()),
    ));
    assert_eq!(EntityStatus::parse("lost"), Some(EntityStatus::Lost));
    assert_eq!(EntityStatus::parse("gone"), None);
    assert!(json_eq(&Version(1).to_json(), &num(1, 0)));
    assert_eq!(Version::from_json(&num(1, 0)), Some(Version(1)));
    assert_eq!(<Version as Property>::key(), "version");
}

#[test]
fn json_encoding() {
    let payload = SensorPayload {
        value: SensorValue::Number(JsonNum { neg: false, mant: 235, scale: 1 }),
        unit: "\u{b0}C".to_string(),
        timestamp: "2024-04-05T19:34:38Z".to_string(),
    };
    assert_eq!(
        payload.to_json().encode(),
        "{\"value\":23.5,\"unit\":\"\u{b0}C\",\"timestamp\":\"2024-04-05T19:34:38Z\"}"
    );

    assert_eq!(OnOffCommand::Toggle.to_json().encode(), "\"toggle\"");
    assert_eq!(On(true).to_json().encode(), "true");
    assert_eq!(Json::Null.encode(), "null");
    assert_eq!(Json::Arr(vec![]).encode(), "[]");
    assert_eq!(Json::Obj(vec![]).encode(), "{}");

    // fractions shorter than the scale pad with zeros
    assert_eq!(num(8, 2).encode(), "0.08");
    assert_eq!(Json::Num(JsonNum { neg: true, mant: 8, scale: 2 }).encode(), "-0.08");
    assert_eq!(num(5000, 4).encode(), "0.5000");

    // strings escape quotes, backslashes and control characters
    assert_eq!(
        Json::Str("a\"b\\c\nd\u{1}".to_string()).encode(),
        "\"a\\\"b\\\\c\\nd\\u0001\""
    );

    // nested values keep member and item order
    let light = LightState {
        on: true,
        brightness: Some(JsonNum { neg: false, mant: 5000, scale: 4 }),
        color: Some(Color::Rgb { r: 255, g: 0, b: 128 }),
    };
    assert_eq!(
        light.to_json().encode(),
        "{\"on\":true,\"brightness\":0.5000,\"color\":{\"r\":255,\"g\":0,\"b\":128}}"
    );
}
