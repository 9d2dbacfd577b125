//! Simple numeric/boolean sensor data with unit and timestamp.
//!
//! Topics map to what is measured (e.g. `temperature`), and the payload is a
//! [`SensorPayload`].
//!
//! ```plain
//! ../tanuki.sensor/$meta/version => 1
//! ../tanuki.sensor/temperature   => { value: 23.5, unit: "°C", timestamp: "2024-04-05T19:34:38Z" }
//! ../tanuki.sensor/motion        => { value: true, unit: "",   timestamp: "2024-04-05T19:34:38Z" }
//! ```

use vstd::prelude::*;

use crate::json::{Json, JsonNum, JsonV, get_str, lemma_member_views_len, member_views, obj_get,
    spec_get_str};

verus! {

/// A sensor reading: a number or a truth value, encoded untagged.
#[derive(Clone, Copy, Debug, PartialEq, Eq, Structural)]
pub enum SensorValue {
    Number(JsonNum),
    Boolean(bool),
}

impl SensorValue {
    pub open spec fn spec_to_json(v: SensorValue) -> JsonV {
        match v {
            SensorValue::Number(n) => JsonV::Num(n),
            SensorValue::Boolean(b) => JsonV::Bool(b),
        }
    }

    pub open spec fn spec_from_json(j: JsonV) -> Option<SensorValue> {
        match j {
            JsonV::Num(n) => Some(SensorValue::Number(n)),
            JsonV::Bool(b) => Some(SensorValue::Boolean(b)),
            _ => None,
        }
    }

    pub fn to_json(&self) -> (j: Json)
        ensures
            j@ == SensorValue::spec_to_json(*self),
    {
        match *self {
            SensorValue::Number(n) => Json::Num(n),
            SensorValue::Boolean(b) => Json::Bool(b),
        }
    }

    pub fn from_json(j: &Json) -> (r: Option<SensorValue>)
        ensures
            r == SensorValue::spec_from_json(j@),
    {
        match j {
            Json::Num(n) => Some(SensorValue::Number(*n)),
            Json::Bool(b) => Some(SensorValue::Boolean(*b)),
            _ => None,
        }
    }
}

/// Decoding the JSON form of a [`SensorValue`] gives the value back.
pub proof fn lemma_sensor_value_round_trip(v: SensorValue)
    ensures
        SensorValue::spec_from_json(SensorValue::spec_to_json(v)) == Some(v),
{
}

/// One sensor reading with its unit and an RFC 3339 timestamp.
#[derive(Clone, Debug, PartialEq)]
pub struct SensorPayload {
    /// Value of the sensor
    pub value: SensorValue,
    /// Unit of the sensor value, e.g. "°C", "%", "V"
    pub unit: String,
    /// When the reading was taken, as RFC 3339 text
    pub timestamp: String,
}

/// The mathematical shape of a [`SensorPayload`].
pub ghost struct SensorPayloadV {
    pub value: SensorValue,
    pub unit: Seq<char>,
    pub timestamp: Seq<char>,
}

impl View for SensorPayload {
    type V = SensorPayloadV;

    open spec fn view(&self) -> SensorPayloadV {
        SensorPayloadV { value: self.value, unit: self.unit@, timestamp: self.timestamp@ }
    }
}

pub open spec fn spec_sensor_payload_to_json(v: SensorPayloadV) -> JsonV {
    JsonV::Obj(
        seq![
            ("value"@, SensorValue::spec_to_json(v.value)),
            ("unit"@, JsonV::Str(v.unit)),
            ("timestamp"@, JsonV::Str(v.timestamp)),
        ],
    )
}

pub open spec fn spec_sensor_payload_from_json(j: JsonV) -> Option<SensorPayloadV> {
    match j {
        JsonV::Obj(ms) => {
            let value = match obj_get(ms, "value"@) {
                Some(vj) => SensorValue::spec_from_json(vj),
                None => None,
            };
            let unit = spec_get_str(ms, "unit"@);
            let ts = spec_get_str(ms, "timestamp"@);
            match (value, unit, ts) {
                (Some(value), Some(unit), Some(timestamp)) => Some(
                    SensorPayloadV { value, unit, timestamp },
                ),
                _ => None,
            }
        },
        _ => None,
    }
}

impl SensorPayload {
    pub fn to_json(&self) -> (j: Json)
        ensures
            j@ == spec_sensor_payload_to_json(self@),
    {
        let members: Vec<(String, Json)> = vec![
            (String::from_str("value"), self.value.to_json()),
            (String::from_str("unit"), Json::Str(self.unit.clone())),
            (String::from_str("timestamp"), Json::Str(self.timestamp.clone())),
        ];
        proof {
            lemma_member_views_len(members@);
            assert(member_views(members@) =~= spec_sensor_payload_to_json(self@)->Obj_0);
        }
        Json::Obj(members)
    }

    pub fn from_json(j: &Json) -> (r: Option<SensorPayload>)
        ensures
            match r {
                Some(v) => spec_sensor_payload_from_json(j@) == Some(v@),
                None => spec_sensor_payload_from_json(j@) is None,
            },
    {
        let members = match j {
            Json::Obj(members) => members,
            _ => { return None; },
        };
        let value = match crate::json::obj_lookup(members, "value") {
            Some(i) => match SensorValue::from_json(&members[i].1) {
                Some(v) => v,
                None => { return None; },
            },
            None => { return None; },
        };
        let unit = match get_str(members, "unit") {
            Some(u) => u.to_owned(),
            None => { return None; },
        };
        let timestamp = match get_str(members, "timestamp") {
            Some(t) => t.to_owned(),
            None => { return None; },
        };
        Some(SensorPayload { value, unit, timestamp })
    }
}

/// Decoding the JSON form of a [`SensorPayload`] gives the payload back.
pub proof fn lemma_sensor_payload_round_trip(v: SensorPayloadV)
    ensures
        spec_sensor_payload_from_json(spec_sensor_payload_to_json(v)) == Some(v),
{
    reveal_strlit("value");
    reveal_strlit("unit");
    reveal_strlit("timestamp");
    reveal_with_fuel(obj_get, 5);
    assert("value"@.len() == 5 && "unit"@.len() == 4 && "timestamp"@.len() == 9);
    let ms = spec_sensor_payload_to_json(v)->Obj_0;
    assert(obj_get(ms, "value"@) == Some(SensorValue::spec_to_json(v.value)));
    assert(spec_get_str(ms, "unit"@) == Some(v.unit));
    assert(spec_get_str(ms, "timestamp"@) == Some(v.timestamp));
}

} // verus!
