//! The two-way mapping between Home Assistant entities and the data plane.
//!
//! Inbound: foreign states propagate to sensor, light and on/off publishes;
//! ZHA remote events translate to button actions. Outbound: commands on
//! mapped capabilities become `call_service` frames.

use vstd::prelude::*;

use crate::capabilities::buttons::ButtonAction;
use crate::capabilities::light::{Color, ColorMode, LightCommand, LightState};
use crate::capabilities::on_off::OnOffCommand;
use crate::capabilities::sensor::{SensorPayload, SensorPayloadV, SensorValue};
use crate::foreign::{parse_rfc3339_secs, rfc3339_epoch_of};
use crate::ident::EntityId;
use crate::json::{Json, JsonNum, JsonV, json_view};
use crate::json::{get_str, json_clone, json_eq, json_views, lemma_json_views_len,
    lemma_member_views_len, member_views, obj_get, obj_lookup, parse_decimal, spec_get_str,
    spec_parse_decimal};
use crate::property::Property;
use crate::strutil::eq_str;

verus! {

/// The attributes of a foreign state this bridge reads.
#[derive(Debug)]
pub struct HassAttributes {
    pub unit_of_measurement: String,
    pub brightness: Option<u64>,
    pub color_mode: Option<ColorMode>,
    pub rgbww_color: Option<Vec<JsonNum>>,
    pub rgbw_color: Option<Vec<JsonNum>>,
    pub rgb_color: Option<Vec<JsonNum>>,
    pub hs_color: Option<Vec<JsonNum>>,
    pub xy_color: Option<Vec<JsonNum>>,
}

/// One foreign entity state: its raw state string, attributes, and when it
/// last changed (an RFC 3339 string).
#[derive(Debug)]
pub struct SensorState {
    pub state: String,
    pub attributes: HassAttributes,
    pub last_updated: String,
}

/// The mathematical shape of a [`HassAttributes`].
pub ghost struct HassAttributesV {
    pub unit_of_measurement: Seq<char>,
    pub brightness: Option<u64>,
    pub color_mode: Option<ColorMode>,
    pub rgbww_color: Option<Seq<JsonNum>>,
    pub rgbw_color: Option<Seq<JsonNum>>,
    pub rgb_color: Option<Seq<JsonNum>>,
    pub hs_color: Option<Seq<JsonNum>>,
    pub xy_color: Option<Seq<JsonNum>>,
}

impl View for HassAttributes {
    type V = HassAttributesV;

    open spec fn view(&self) -> HassAttributesV {
        HassAttributesV {
            unit_of_measurement: self.unit_of_measurement@,
            brightness: self.brightness,
            color_mode: self.color_mode,
            rgbww_color: view_opt_nums(self.rgbww_color),
            rgbw_color: view_opt_nums(self.rgbw_color),
            rgb_color: view_opt_nums(self.rgb_color),
            hs_color: view_opt_nums(self.hs_color),
            xy_color: view_opt_nums(self.xy_color),
        }
    }
}

pub open spec fn view_opt_nums(o: Option<Vec<JsonNum>>) -> Option<Seq<JsonNum>> {
    match o {
        Some(v) => Some(v@),
        None => None,
    }
}

/// The mathematical shape of a [`SensorState`].
pub ghost struct SensorStateV {
    pub state: Seq<char>,
    pub attributes: HassAttributesV,
    pub last_updated: Seq<char>,
}

impl View for SensorState {
    type V = SensorStateV;

    open spec fn view(&self) -> SensorStateV {
        SensorStateV {
            state: self.state@,
            attributes: self.attributes@,
            last_updated: self.last_updated@,
        }
    }
}

/// An optional coordinate list: absent or `null` reads as none, an array of
/// numbers as the list, anything else refuses.
pub open spec fn spec_opt_nums(ms: Seq<(Seq<char>, JsonV)>, key: Seq<char>) -> Option<
    Option<Seq<JsonNum>>,
> {
    match obj_get(ms, key) {
        None => Some(None),
        Some(JsonV::Null) => Some(None),
        Some(JsonV::Arr(items)) => match nums_from_items(items) {
            Some(v) => Some(Some(v)),
            None => None,
        },
        Some(_) => None,
    }
}

/// A number list read back from JSON items; any non-number refuses.
pub open spec fn nums_from_items(items: Seq<JsonV>) -> Option<Seq<JsonNum>> {
    if forall|i: int| 0 <= i < items.len() ==> (#[trigger] items[i]) is Num {
        Some(items.map_values(|j: JsonV| j->Num_0))
    } else {
        None
    }
}

fn nums_from_json(items: &Vec<Json>) -> (r: Option<Vec<JsonNum>>)
    ensures
        match r {
            Some(v) => nums_from_items(json_views(items@)) == Some(v@),
            None => nums_from_items(json_views(items@)) is None,
        },
{
    proof {
        lemma_json_views_len(items@);
    }
    let mut out: Vec<JsonNum> = Vec::new();
    let mut i: usize = 0;
    while i < items.len()
        invariant
            i <= items@.len(),
            out@.len() == i,
            json_views(items@).len() == items@.len(),
            forall|j: int| 0 <= j < items@.len() ==> #[trigger] json_views(items@)[j]
                == json_view(items@[j]),
            forall|j: int| 0 <= j < i ==> (#[trigger] json_views(items@)[j]) is Num
                && out@[j] == json_views(items@)[j]->Num_0,
        decreases items@.len() - i,
    {
        match &items[i] {
            Json::Num(n) => {
                out.push(*n);
            },
            _ => {
                proof {
                    assert(!(json_views(items@)[i as int] is Num));
                }
                return None;
            },
        }
        i += 1;
    }
    proof {
        assert(nums_from_items(json_views(items@)) == Some(out@)) by {
            assert(forall|j: int| 0 <= j < items@.len() ==> (#[trigger] json_views(items@)[j])
                is Num);
            assert(json_views(items@).map_values(|j: JsonV| j->Num_0) =~= out@);
        }
    }
    Some(out)
}

fn get_opt_nums(members: &Vec<(String, Json)>, key: &str) -> (r: Option<Option<Vec<JsonNum>>>)
    ensures
        match r {
            Some(v) => spec_opt_nums(member_views(members@), key@) == Some(view_opt_nums(v)),
            None => spec_opt_nums(member_views(members@), key@) is None,
        },
{
    match obj_lookup(members, key) {
        None => Some(None),
        Some(i) => match &members[i].1 {
            Json::Null => Some(None),
            Json::Arr(items) => match nums_from_json(items) {
                Some(v) => Some(Some(v)),
                None => None,
            },
            _ => None,
        },
    }
}

/// The attributes this bridge reads, out of a foreign state's `attributes`
/// object: a missing or null unit reads as empty, an unknown color-mode
/// name or a malformed coordinate list refuses the whole record.
pub open spec fn spec_attributes_from(j: JsonV) -> Option<HassAttributesV> {
    match j {
        JsonV::Obj(ms) => {
            let unit = match obj_get(ms, "unit_of_measurement"@) {
                None => Some(Seq::<char>::empty()),
                Some(JsonV::Null) => Some(Seq::<char>::empty()),
                Some(JsonV::Str(s)) => Some(s),
                Some(_) => None,
            };
            let color_mode = match obj_get(ms, "color_mode"@) {
                None => Some(None),
                Some(JsonV::Null) => Some(None),
                Some(JsonV::Str(s)) => match ColorMode::spec_from_str(s) {
                    Some(m) => Some(Some(m)),
                    None => None,
                },
                Some(_) => None,
            };
            match (
                unit,
                crate::json::spec_opt_num(ms, "brightness"@),
                color_mode,
                spec_opt_nums(ms, "rgbww_color"@),
                spec_opt_nums(ms, "rgbw_color"@),
                spec_opt_nums(ms, "rgb_color"@),
                spec_opt_nums(ms, "hs_color"@),
                spec_opt_nums(ms, "xy_color"@),
            ) {
                (
                    Some(unit_of_measurement),
                    Some(brightness),
                    Some(color_mode),
                    Some(rgbww_color),
                    Some(rgbw_color),
                    Some(rgb_color),
                    Some(hs_color),
                    Some(xy_color),
                ) => Some(
                    HassAttributesV {
                        unit_of_measurement,
                        brightness: match brightness {
                            Some(n) => crate::json::spec_num_as_u64(n),
                            None => None,
                        },
                        color_mode,
                        rgbww_color,
                        rgbw_color,
                        rgb_color,
                        hs_color,
                        xy_color,
                    },
                ),
                _ => None,
            }
        },
        _ => None,
    }
}

impl HassAttributes {
    pub fn from_json(j: &Json) -> (r: Option<HassAttributes>)
        ensures
            match r {
                Some(a) => spec_attributes_from(j@) == Some(a@),
                None => spec_attributes_from(j@) is None,
            },
    {
        let members = match j {
            Json::Obj(members) => members,
            _ => { return None; },
        };
        let unit_of_measurement = match obj_lookup(members, "unit_of_measurement") {
            None => String::new(),
            Some(i) => match &members[i].1 {
                Json::Null => String::new(),
                Json::Str(s) => s.clone(),
                _ => { return None; },
            },
        };
        let brightness = match crate::json::get_opt_num(members, "brightness") {
            Some(Some(n)) => n.as_u64(),
            Some(None) => None,
            None => { return None; },
        };
        let color_mode = match obj_lookup(members, "color_mode") {
            None => None,
            Some(i) => match &members[i].1 {
                Json::Null => None,
                Json::Str(s) => match ColorMode::parse(s.as_str()) {
                    Some(m) => Some(m),
                    None => { return None; },
                },
                _ => { return None; },
            },
        };
        let rgbww_color = match get_opt_nums(members, "rgbww_color") {
            Some(v) => v,
            None => { return None; },
        };
        let rgbw_color = match get_opt_nums(members, "rgbw_color") {
            Some(v) => v,
            None => { return None; },
        };
        let rgb_color = match get_opt_nums(members, "rgb_color") {
            Some(v) => v,
            None => { return None; },
        };
        let hs_color = match get_opt_nums(members, "hs_color") {
            Some(v) => v,
            None => { return None; },
        };
        let xy_color = match get_opt_nums(members, "xy_color") {
            Some(v) => v,
            None => { return None; },
        };
        Some(
            HassAttributes {
                unit_of_measurement,
                brightness,
                color_mode,
                rgbww_color,
                rgbw_color,
                rgb_color,
                hs_color,
                xy_color,
            },
        )
    }
}

/// A foreign state read flat out of one object: its raw state string, its
/// attributes, and when it last changed; all three must be present.
pub open spec fn spec_sensor_state_from(ms: Seq<(Seq<char>, JsonV)>) -> Option<SensorStateV> {
    let attributes = match obj_get(ms, "attributes"@) {
        Some(aj) => spec_attributes_from(aj),
        None => None,
    };
    match (spec_get_str(ms, "state"@), attributes, spec_get_str(ms, "last_updated"@)) {
        (Some(state), Some(attributes), Some(last_updated)) => Some(
            SensorStateV { state, attributes, last_updated },
        ),
        _ => None,
    }
}

impl SensorState {
    /// Reads the `state`, `attributes` and `last_updated` members of a
    /// state object.
    pub fn from_json(j: &Json) -> (r: Option<SensorState>)
        ensures
            match r {
                Some(s) => j@ matches JsonV::Obj(ms) && spec_sensor_state_from(ms) == Some(s@),
                None => !(j@ matches JsonV::Obj(ms) && spec_sensor_state_from(ms) is Some),
            },
    {
        let members = match j {
            Json::Obj(members) => members,
            _ => { return None; },
        };
        let state = match get_str(members, "state") {
            Some(s) => s.to_owned(),
            None => { return None; },
        };
        let attributes = match obj_lookup(members, "attributes") {
            Some(i) => match HassAttributes::from_json(&members[i].1) {
                Some(a) => a,
                None => { return None; },
            },
            None => { return None; },
        };
        let last_updated = match get_str(members, "last_updated") {
            Some(s) => s.to_owned(),
            None => { return None; },
        };
        Some(SensorState { state, attributes, last_updated })
    }
}

/// One entry of a state snapshot: the foreign entity and its state.
#[derive(Debug)]
pub struct StateEvent {
    pub entity_id: String,
    pub state: SensorState,
}

impl StateEvent {
    /// Reads one snapshot entry: the state fields beside an `entity_id`.
    pub fn from_json(j: &Json) -> (r: Option<StateEvent>)
        ensures
            match r {
                Some(ev) => j@ matches JsonV::Obj(ms) && spec_get_str(ms, "entity_id"@) == Some(
                    ev.entity_id@,
                ) && spec_sensor_state_from(ms) == Some(ev.state@),
                None => !(j@ matches JsonV::Obj(ms) && spec_get_str(ms, "entity_id"@) is Some
                    && spec_sensor_state_from(ms) is Some),
            },
    {
        let members = match j {
            Json::Obj(members) => members,
            _ => { return None; },
        };
        let entity_id = match get_str(members, "entity_id") {
            Some(s) => s.to_owned(),
            None => { return None; },
        };
        match SensorState::from_json(j) {
            Some(state) => Some(StateEvent { entity_id, state }),
            None => None,
        }
    }
}

/// A live state change: the foreign entity, where it stood, and where it
/// stands now.
#[derive(Debug)]
pub struct StateChangeEvent {
    pub entity_id: String,
    pub old_state: SensorState,
    pub new_state: SensorState,
}

/// A `state_changed` event's data, when the entity id and both states can
/// be read.
pub open spec fn spec_state_changed_from(j: JsonV) -> Option<
    (Seq<char>, SensorStateV, SensorStateV),
> {
    match j {
        JsonV::Obj(ms) => {
            let old_state = match obj_get(ms, "old_state"@) {
                Some(JsonV::Obj(oms)) => spec_sensor_state_from(oms),
                _ => None,
            };
            let new_state = match obj_get(ms, "new_state"@) {
                Some(JsonV::Obj(nms)) => spec_sensor_state_from(nms),
                _ => None,
            };
            match (spec_get_str(ms, "entity_id"@), old_state, new_state) {
                (Some(entity_id), Some(o), Some(n)) => Some((entity_id, o, n)),
                _ => None,
            }
        },
        _ => None,
    }
}

impl StateChangeEvent {
    /// Reads a `state_changed` event's data; both states must be present
    /// and readable.
    pub fn from_json(j: &Json) -> (r: Option<StateChangeEvent>)
        ensures
            match r {
                Some(ev) => spec_state_changed_from(j@) == Some(
                    (ev.entity_id@, ev.old_state@, ev.new_state@),
                ),
                None => spec_state_changed_from(j@) is None,
            },
    {
        let members = match j {
            Json::Obj(members) => members,
            _ => { return None; },
        };
        let entity_id = match get_str(members, "entity_id") {
            Some(s) => s.to_owned(),
            None => { return None; },
        };
        let old_state = match obj_lookup(members, "old_state") {
            Some(i) => match SensorState::from_json(&members[i].1) {
                Some(st) => st,
                None => { return None; },
            },
            None => { return None; },
        };
        let new_state = match obj_lookup(members, "new_state") {
            Some(i) => match SensorState::from_json(&members[i].1) {
                Some(st) => st,
                None => { return None; },
            },
            None => { return None; },
        };
        Some(StateChangeEvent { entity_id, old_state, new_state })
    }
}

/// Maps one data-plane entity to and from foreign entities.
pub struct MappedEntity {
    pub tanuki_id: EntityId,
    pub from_hass: Vec<EntityDataMapping>,
    pub to_hass: Vec<EntityServiceMapping>,
}

/// One inbound mapping: a foreign state to propagate, or a set of ZHA
/// remote-event translations.
pub enum EntityDataMapping {
    State { from_id: String, map_to: CapMapping },
    ZhaCommands { device_ieee: String, translations: Vec<ZhaEventTranslation> },
}

/// Which capability a foreign state feeds.
pub enum CapMapping {
    Sensor { key: String, binary: bool },
    Light,
}

/// Translates one ZHA remote command into a button action.
pub struct ZhaEventTranslation {
    pub command: String,
    pub params: Json,
    pub map_to: CapEventMapping,
}

/// What a translated remote event emits.
pub enum CapEventMapping {
    Button { button: String, event: ButtonAction },
}

/// One outbound mapping: a foreign entity commanded from the data plane.
pub struct EntityServiceMapping {
    pub hass_id: String,
    pub service: ServiceMapping,
}

/// Which service family the foreign entity takes.
pub enum ServiceMapping {
    OnOff { domain: String },
    Light,
}

impl CapMapping {
    /// A numeric sensor mapping.
    pub fn sensor(key: &str) -> (r: CapMapping)
        ensures
            r matches CapMapping::Sensor { key: k, binary } && k@ == key@ && !binary,
    {
        CapMapping::Sensor { key: key.to_owned(), binary: false }
    }

    /// A binary sensor mapping: only `"on"` and `"off"` states count.
    pub fn binary_sensor(key: &str) -> (r: CapMapping)
        ensures
            r matches CapMapping::Sensor { key: k, binary } && k@ == key@ && binary,
    {
        CapMapping::Sensor { key: key.to_owned(), binary: true }
    }
}

/// What a propagated state asks the bridge to publish.
#[derive(Debug)]
pub enum PropagateAction {
    /// The state could not be read; log and move on.
    Drop,
    /// Publish one sensor reading under `key`.
    Sensor { key: String, payload: SensorPayload },
    /// Publish the composite light state and the plain on/off state.
    Light { light: LightState, on: bool },
}

/// The mathematical shape of a [`PropagateAction`].
pub ghost enum PropagateActionV {
    Drop,
    Sensor { key: Seq<char>, payload: SensorPayloadV },
    Light { light: LightState, on: bool },
}

impl View for PropagateAction {
    type V = PropagateActionV;

    open spec fn view(&self) -> PropagateActionV {
        match self {
            PropagateAction::Drop => PropagateActionV::Drop,
            PropagateAction::Sensor { key, payload } => PropagateActionV::Sensor {
                key: key@,
                payload: payload@,
            },
            PropagateAction::Light { light, on } => PropagateActionV::Light {
                light: *light,
                on: *on,
            },
        }
    }
}

/// Full brightness is 254 in the foreign convention; the level maps to
/// ten-thousandths of 1, clamped to the unit interval, with trailing zeros
/// dropped.
pub open spec fn spec_brightness(b: u64) -> JsonNum {
    if b >= 254 {
        crate::json::spec_normalized(JsonNum { neg: false, mant: 10000, scale: 4 })
    } else {
        crate::json::spec_normalized(
            JsonNum { neg: false, mant: (b * 10000 / 254) as u64, scale: 4 },
        )
    }
}

/// The coordinate list the reported color mode selects; modes without one
/// select the empty list.
pub open spec fn spec_color_list(a: HassAttributes, mode: ColorMode) -> Seq<JsonNum> {
    let arr = match mode {
        ColorMode::Rgbww => a.rgbww_color,
        ColorMode::Rgbw => a.rgbw_color,
        ColorMode::Rgb => a.rgb_color,
        ColorMode::Hs => a.hs_color,
        ColorMode::Xy => a.xy_color,
        _ => None,
    };
    match arr {
        Some(v) => v@,
        None => Seq::empty(),
    }
}

/// How one foreign state propagates:
/// * a numeric sensor reads its state string as a decimal, or drops;
/// * a binary sensor accepts exactly `on` and `off`, or drops;
/// * a light reads `on`/`off`, scales brightness by 1/254, and picks the
///   color from the reported mode's coordinates;
/// * a state whose `last_updated` is not an RFC 3339 date-time drops.
pub open spec fn spec_propagate(m: CapMapping, s: SensorState) -> PropagateActionV {
    match rfc3339_epoch_of(s.last_updated@) {
        None => PropagateActionV::Drop,
        Some(_) => match m {
            CapMapping::Sensor { key, binary } => if !binary {
                match spec_parse_decimal(s.state@) {
                    Some(n) => PropagateActionV::Sensor {
                        key: key@,
                        payload: SensorPayloadV {
                            value: SensorValue::Number(n),
                            unit: s.attributes.unit_of_measurement@,
                            timestamp: s.last_updated@,
                        },
                    },
                    None => PropagateActionV::Drop,
                }
            } else {
                if s.state@ == "on"@ {
                    PropagateActionV::Sensor {
                        key: key@,
                        payload: SensorPayloadV {
                            value: SensorValue::Boolean(true),
                            unit: s.attributes.unit_of_measurement@,
                            timestamp: s.last_updated@,
                        },
                    }
                } else if s.state@ == "off"@ {
                    PropagateActionV::Sensor {
                        key: key@,
                        payload: SensorPayloadV {
                            value: SensorValue::Boolean(false),
                            unit: s.attributes.unit_of_measurement@,
                            timestamp: s.last_updated@,
                        },
                    }
                } else {
                    PropagateActionV::Drop
                }
            },
            CapMapping::Light => {
                let on = if s.state@ == "on"@ {
                    Some(true)
                } else if s.state@ == "off"@ {
                    Some(false)
                } else {
                    None
                };
                match on {
                    None => PropagateActionV::Drop,
                    Some(on) => {
                        let brightness = match s.attributes.brightness {
                            Some(b) => Some(spec_brightness(b)),
                            None => None,
                        };
                        let color = match s.attributes.color_mode {
                            Some(mode) => Color::spec_from_slice(
                                mode,
                                spec_color_list(s.attributes, mode),
                            ),
                            None => None,
                        };
                        PropagateActionV::Light {
                            light: LightState { on, brightness, color },
                            on,
                        }
                    },
                }
            },
        },
    }
}

impl CapMapping {
    /// Decides what one foreign state publishes, as [`spec_propagate`]
    /// says.
    pub fn propagate_state(&self, state: &SensorState) -> (r: PropagateAction)
        ensures
            r@ == spec_propagate(*self, *state),
    {
        match parse_rfc3339_secs(state.last_updated.as_str()) {
            Some(_) => {},
            None => { return PropagateAction::Drop; },
        }
        match self {
            CapMapping::Sensor { key, binary } => {
                let value = if !*binary {
                    match parse_decimal(state.state.as_str()) {
                        Some(n) => SensorValue::Number(n),
                        None => { return PropagateAction::Drop; },
                    }
                } else {
                    if eq_str(state.state.as_str(), "on") {
                        SensorValue::Boolean(true)
                    } else if eq_str(state.state.as_str(), "off") {
                        SensorValue::Boolean(false)
                    } else {
                        return PropagateAction::Drop;
                    }
                };
                PropagateAction::Sensor {
                    key: key.clone(),
                    payload: SensorPayload {
                        value,
                        unit: state.attributes.unit_of_measurement.clone(),
                        timestamp: state.last_updated.clone(),
                    },
                }
            },
            CapMapping::Light => {
                let on = if eq_str(state.state.as_str(), "on") {
                    true
                } else if eq_str(state.state.as_str(), "off") {
                    false
                } else {
                    return PropagateAction::Drop;
                };
                let brightness = match state.attributes.brightness {
                    Some(b) => Some(
                        if b >= 254 {
                            JsonNum { neg: false, mant: 10000, scale: 4 }.normalized()
                        } else {
                            JsonNum { neg: false, mant: b * 10000 / 254, scale: 4 }.normalized()
                        },
                    ),
                    None => None,
                };
                let empty: Vec<JsonNum> = Vec::new();
                let color = match state.attributes.color_mode {
                    Some(mode) => {
                        let list: &Vec<JsonNum> = match mode {
                            ColorMode::Rgbww => match &state.attributes.rgbww_color {
                                Some(v) => v,
                                None => &empty,
                            },
                            ColorMode::Rgbw => match &state.attributes.rgbw_color {
                                Some(v) => v,
                                None => &empty,
                            },
                            ColorMode::Rgb => match &state.attributes.rgb_color {
                                Some(v) => v,
                                None => &empty,
                            },
                            ColorMode::Hs => match &state.attributes.hs_color {
                                Some(v) => v,
                                None => &empty,
                            },
                            ColorMode::Xy => match &state.attributes.xy_color {
                                Some(v) => v,
                                None => &empty,
                            },
                            _ => &empty,
                        };
                        proof {
                            assert(list@ == spec_color_list(state.attributes, mode));
                        }
                        Color::from_slice(mode, list.as_slice())
                    },
                    None => None,
                };
                PropagateAction::Light { light: LightState { on, brightness, color }, on }
            },
        }
    }
}

/// Every member of a translation's parameter object appears in the event's
/// parameters with the same value; extra event members are ignored. A
/// non-object parameter pattern must match the whole value.
pub open spec fn spec_params_subset(small: JsonV, big: JsonV) -> bool {
    match small {
        JsonV::Obj(ms) => big is Obj && forall|i: int|
            0 <= i < ms.len() ==> obj_get(big->Obj_0, (#[trigger] ms[i]).0) == Some(ms[i].1),
        _ => small == big,
    }
}

/// Decides [`spec_params_subset`].
#[verifier::loop_isolation(false)]
pub fn params_subset(small: &Json, big: &Json) -> (r: bool)
    ensures
        r == spec_params_subset(small@, big@),
{
    let ms = match small {
        Json::Obj(ms) => ms,
        _ => { return json_eq(small, big); },
    };
    let big_members = match big {
        Json::Obj(bm) => bm,
        _ => {
            proof {
                crate::json::lemma_member_views_len(ms@);
            }
            return false;
        },
    };
    proof {
        lemma_member_views_len(ms@);
    }
    let mut i: usize = 0;
    while i < ms.len()
        invariant
            i <= ms@.len(),
            member_views(ms@).len() == ms@.len(),
            forall|j: int| 0 <= j < ms@.len() ==> #[trigger] member_views(ms@)[j] == (
                ms@[j].0@,
                json_view(ms@[j].1),
            ),
            big@ == json_view(Json::Obj(*big_members)),
            forall|j: int| 0 <= j < i ==> obj_get(
                member_views(big_members@),
                (#[trigger] member_views(ms@)[j]).0,
            ) == Some(member_views(ms@)[j].1),
        decreases ms@.len() - i,
    {
        match obj_lookup(big_members, ms[i].0.as_str()) {
            Some(k) => {
                if !json_eq(&ms[i].1, &big_members[k].1) {
                    proof {
                        assert(obj_get(member_views(big_members@), member_views(ms@)[i as int].0)
                            != Some(member_views(ms@)[i as int].1));
                    }
                    return false;
                }
            },
            None => {
                proof {
                    assert(obj_get(member_views(big_members@), member_views(ms@)[i as int].0)
                        is None);
                }
                return false;
            },
        }
        i += 1;
    }
    true
}

/// A translation matches an event when the commands are equal and its
/// parameters are a subset of the event's.
pub open spec fn spec_zha_matches(t: ZhaEventTranslation, command: Seq<char>, params: JsonV)
    -> bool {
    t.command@ == command && spec_params_subset(t.params@, params)
}

/// The first matching translation for a remote event, if any.
pub fn zha_first_match<'a>(translations: &'a Vec<ZhaEventTranslation>, command: &str,
    params: &Json) -> (r: Option<&'a CapEventMapping>)
    ensures
        match r {
            Some(m) => exists|i: int|
                0 <= i < translations@.len() && spec_zha_matches(
                    #[trigger] translations@[i],
                    command@,
                    params@,
                ) && *m == translations@[i].map_to && forall|j: int|
                    0 <= j < i ==> !spec_zha_matches(#[trigger] translations@[j], command@, params@),
            None => forall|j: int|
                0 <= j < translations@.len() ==> !spec_zha_matches(
                    #[trigger] translations@[j],
                    command@,
                    params@,
                ),
        },
{
    let mut i: usize = 0;
    while i < translations.len()
        invariant
            i <= translations@.len(),
            forall|j: int| 0 <= j < i ==> !spec_zha_matches(
                #[trigger] translations@[j],
                command@,
                params@,
            ),
        decreases translations@.len() - i,
    {
        let t = &translations[i];
        if eq_str(t.command.as_str(), command) && params_subset(&t.params, params) {
            return Some(&t.map_to);
        }
        i += 1;
    }
    None
}

/// A remote event as carried in a `zha_event`'s data.
#[derive(Debug)]
pub struct ZhaEventData {
    pub device_ieee: String,
    pub command: String,
    pub params: Json,
}

/// The mathematical shape of a [`ZhaEventData`].
pub ghost struct ZhaEventDataV {
    pub device_ieee: Seq<char>,
    pub command: Seq<char>,
    pub params: JsonV,
}

impl View for ZhaEventData {
    type V = ZhaEventDataV;

    open spec fn view(&self) -> ZhaEventDataV {
        ZhaEventDataV {
            device_ieee: self.device_ieee@,
            command: self.command@,
            params: self.params@,
        }
    }
}

pub open spec fn spec_zha_event_from(j: JsonV) -> Option<ZhaEventDataV> {
    match j {
        JsonV::Obj(ms) => {
            let params = match obj_get(ms, "params"@) {
                Some(p) => p,
                None => JsonV::Null,
            };
            match (spec_get_str(ms, "device_ieee"@), spec_get_str(ms, "command"@)) {
                (Some(device_ieee), Some(command)) => Some(
                    ZhaEventDataV { device_ieee, command, params },
                ),
                _ => None,
            }
        },
        _ => None,
    }
}

impl ZhaEventData {
    pub fn from_json(j: &Json) -> (r: Option<ZhaEventData>)
        ensures
            match r {
                Some(d) => spec_zha_event_from(j@) == Some(d@),
                None => spec_zha_event_from(j@) is None,
            },
    {
        let members = match j {
            Json::Obj(members) => members,
            _ => { return None; },
        };
        let device_ieee = match get_str(members, "device_ieee") {
            Some(d) => d.to_owned(),
            None => { return None; },
        };
        let command = match get_str(members, "command") {
            Some(c) => c.to_owned(),
            None => { return None; },
        };
        let params = match obj_lookup(members, "params") {
            Some(i) => json_clone(&members[i].1),
            None => Json::Null,
        };
        Some(ZhaEventData { device_ieee, command, params })
    }
}

/// An outbound service invocation, before it is aimed at an entity.
#[derive(Debug)]
pub struct ServiceCall {
    pub domain: String,
    pub service: String,
    pub service_data: Json,
}

/// The target of a service call.
#[derive(Debug)]
pub enum ServiceCallTarget {
    EntityId(String),
}

/// A service call aimed at one foreign entity.
#[derive(Debug)]
pub struct TargetedServiceCall {
    pub call: ServiceCall,
    pub target: ServiceCallTarget,
}

pub open spec fn spec_target_json(t: ServiceCallTarget) -> JsonV {
    match t {
        ServiceCallTarget::EntityId(id) => JsonV::Obj(seq![("entity_id"@, JsonV::Str(id@))]),
    }
}

impl ServiceCallTarget {
    pub fn to_json(&self) -> (j: Json)
        ensures
            j@ == spec_target_json(*self),
    {
        match self {
            ServiceCallTarget::EntityId(id) => {
                let members: Vec<(String, Json)> = vec![
                    (String::from_str("entity_id"), Json::Str(id.clone())),
                ];
                proof {
                    lemma_member_views_len(members@);
                    assert(member_views(members@) =~= spec_target_json(*self)->Obj_0);
                }
                Json::Obj(members)
            },
        }
    }
}

impl ServiceCall {
    /// Aims the call at one foreign entity.
    pub fn target_entity(self, entity_id: &str) -> (r: TargetedServiceCall)
        ensures
            r.call == self,
            r.target matches ServiceCallTarget::EntityId(id) && id@ == entity_id@,
    {
        TargetedServiceCall { call: self, target: ServiceCallTarget::EntityId(
            entity_id.to_owned(),
        ) }
    }
}

/// The members of a targeted service call's JSON form: `service_data` is
/// left out when null.
pub open spec fn spec_targeted_call_members(domain: Seq<char>, service: Seq<char>,
    service_data: JsonV, target: ServiceCallTarget) -> Seq<(Seq<char>, JsonV)> {
    let base = seq![("domain"@, JsonV::Str(domain)), ("service"@, JsonV::Str(service))];
    let with_data = if service_data is Null {
        base
    } else {
        base.push(("service_data"@, service_data))
    };
    with_data.push(("target"@, spec_target_json(target)))
}

impl TargetedServiceCall {
    pub fn to_json(&self) -> (j: Json)
        ensures
            j@ == JsonV::Obj(
                spec_targeted_call_members(
                    self.call.domain@,
                    self.call.service@,
                    self.call.service_data@,
                    self.target,
                ),
            ),
    {
        let mut members: Vec<(String, Json)> = vec![
            (String::from_str("domain"), Json::Str(self.call.domain.clone())),
            (String::from_str("service"), Json::Str(self.call.service.clone())),
        ];
        let data_null = match &self.call.service_data {
            Json::Null => true,
            _ => false,
        };
        if !data_null {
            members.push((String::from_str("service_data"), json_clone(&self.call.service_data)));
        }
        members.push((String::from_str("target"), self.target.to_json()));
        proof {
            lemma_member_views_len(members@);
            assert(member_views(members@) =~= spec_targeted_call_members(
                self.call.domain@,
                self.call.service@,
                self.call.service_data@,
                self.target,
            ));
        }
        Json::Obj(members)
    }
}

/// What an outbound command translates to:
/// * on/off commands map to `turn_on`, `turn_off` and `toggle` on the
///   configured domain, with no service data;
/// * a light command maps `on=true` to `turn_on` — with the color's
///   coordinate list under its service-data key when a color is present —
///   and `on=false` to `turn_off`;
/// * anything else maps to nothing.
pub open spec fn spec_translate_command(m: ServiceMapping, capability: Seq<char>,
    rest: Seq<char>, payload: JsonV) -> Option<(Seq<char>, Seq<char>, JsonV)> {
    match m {
        ServiceMapping::OnOff { domain } => if capability == "tanuki.on_off"@ && rest
            == "command"@ {
            match OnOffCommand::spec_from_json(payload) {
                Some(OnOffCommand::On) => Some((domain@, "turn_on"@, JsonV::Null)),
                Some(OnOffCommand::Off) => Some((domain@, "turn_off"@, JsonV::Null)),
                Some(OnOffCommand::Toggle) => Some((domain@, "toggle"@, JsonV::Null)),
                None => None,
            }
        } else {
            None
        },
        ServiceMapping::Light => if capability == "tanuki.light"@ && rest == "command"@ {
            match LightCommand::spec_from_json(payload) {
                Some(cmd) => if cmd.on {
                    let data = match cmd.color {
                        Some(c) => JsonV::Obj(
                            seq![
                                (
                                    c.spec_hass_key(),
                                    JsonV::Arr(
                                        c.spec_to_hass().map_values(|n: JsonNum| JsonV::Num(n)),
                                    ),
                                ),
                            ],
                        ),
                        None => JsonV::Null,
                    };
                    Some(("light"@, "turn_on"@, data))
                } else {
                    Some(("light"@, "turn_off"@, JsonV::Null))
                },
                None => None,
            }
        } else {
            None
        },
    }
}

impl ServiceMapping {
    /// Translates one observed command into a service call, as
    /// [`spec_translate_command`] says.
    pub fn translate_command(&self, capability: &str, rest: &str, payload: &Json) -> (r: Option<
        ServiceCall,
    >)
        ensures
            match r {
                Some(call) => spec_translate_command(*self, capability@, rest@, payload@)
                    matches Some(expected) && call.domain@ == expected.0 && call.service@
                    == expected.1 && call.service_data@ == expected.2,
                None => spec_translate_command(*self, capability@, rest@, payload@) is None,
            },
    {
        match self {
            ServiceMapping::OnOff { domain } => {
                if !(eq_str(capability, "tanuki.on_off") && eq_str(rest, "command")) {
                    return None;
                }
                match OnOffCommand::from_json(payload) {
                    Some(OnOffCommand::On) => Some(
                        ServiceCall {
                            domain: domain.clone(),
                            service: String::from_str("turn_on"),
                            service_data: Json::Null,
                        },
                    ),
                    Some(OnOffCommand::Off) => Some(
                        ServiceCall {
                            domain: domain.clone(),
                            service: String::from_str("turn_off"),
                            service_data: Json::Null,
                        },
                    ),
                    Some(OnOffCommand::Toggle) => Some(
                        ServiceCall {
                            domain: domain.clone(),
                            service: String::from_str("toggle"),
                            service_data: Json::Null,
                        },
                    ),
                    None => None,
                }
            },
            ServiceMapping::Light => {
                if !(eq_str(capability, "tanuki.light") && eq_str(rest, "command")) {
                    return None;
                }
                match LightCommand::from_json(payload) {
                    Some(cmd) => if cmd.on {
                        let service_data = match cmd.color {
                            Some(c) => {
                                let nums = c.to_hass();
                                let mut items: Vec<Json> = Vec::new();
                                let mut i: usize = 0;
                                while i < nums.len()
                                    invariant
                                        i <= nums@.len(),
                                        items@.len() == i,
                                        forall|j: int| 0 <= j < i ==> json_view(
                                            #[trigger] items@[j],
                                        ) == JsonV::Num(nums@[j]),
                                    decreases nums@.len() - i,
                                {
                                    items.push(Json::Num(nums[i]));
                                    i += 1;
                                }
                                let members: Vec<(String, Json)> = vec![
                                    (
                                        String::from_str(c.hass_service_data_key()),
                                        Json::Arr(items),
                                    ),
                                ];
                                proof {
                                    lemma_json_views_len(items@);
                                    assert(json_views(items@) =~= c.spec_to_hass().map_values(
                                        |n: JsonNum| JsonV::Num(n),
                                    ));
                                    lemma_member_views_len(members@);
                                    assert(member_views(members@) =~= seq![
                                        (
                                            c.spec_hass_key(),
                                            JsonV::Arr(
                                                c.spec_to_hass().map_values(
                                                    |n: JsonNum| JsonV::Num(n),
                                                ),
                                            ),
                                        ),
                                    ]);
                                }
                                Json::Obj(members)
                            },
                            None => Json::Null,
                        };
                        Some(
                            ServiceCall {
                                domain: String::from_str("light"),
                                service: String::from_str("turn_on"),
                                service_data,
                            },
                        )
                    } else {
                        Some(
                            ServiceCall {
                                domain: String::from_str("light"),
                                service: String::from_str("turn_off"),
                                service_data: Json::Null,
                            },
                        )
                    },
                    None => None,
                }
            },
        }
    }
}

} // verus!
