//! A media player: capabilities, playback state, and transport commands.

use vstd::prelude::*;

use crate::json::{Json, JsonNum, JsonV, get_bool, get_num, get_opt_str, get_str, json_views,
    lemma_json_views_len, lemma_member_views_len, member_views, obj_get, obj_lookup, spec_get_bool,
    spec_get_num, spec_get_str, spec_num_as_i64, spec_num_as_u32, spec_num_as_u64, spec_num_of_i64,
    spec_opt_str};
use crate::property::{Property, PropertyKind};
use crate::strutil::eq_str;

verus! {

/// A marker for the properties `tanuki.media` understands.
pub trait MediaProperty: Property {

}

/// An optional whole-number field: absent or `null` is fine, a fractional or
/// out-of-range number refuses.
pub open spec fn spec_opt_u64(ms: Seq<(Seq<char>, JsonV)>, key: Seq<char>) -> Option<Option<u64>> {
    match obj_get(ms, key) {
        None => Some(None),
        Some(JsonV::Null) => Some(None),
        Some(JsonV::Num(n)) => match spec_num_as_u64(n) {
            Some(u) => Some(Some(u)),
            None => None,
        },
        Some(_) => None,
    }
}

pub fn get_opt_u64(members: &Vec<(String, Json)>, key: &str) -> (r: Option<Option<u64>>)
    ensures
        r == spec_opt_u64(member_views(members@), key@),
{
    match obj_lookup(members, key) {
        None => Some(None),
        Some(i) => match &members[i].1 {
            Json::Null => Some(None),
            Json::Num(n) => match n.as_u64() {
                Some(u) => Some(Some(u)),
                None => None,
            },
            _ => None,
        },
    }
}

pub open spec fn spec_opt_u32(ms: Seq<(Seq<char>, JsonV)>, key: Seq<char>) -> Option<Option<u32>> {
    match obj_get(ms, key) {
        None => Some(None),
        Some(JsonV::Null) => Some(None),
        Some(JsonV::Num(n)) => match spec_num_as_u32(n) {
            Some(u) => Some(Some(u)),
            None => None,
        },
        Some(_) => None,
    }
}

pub fn get_opt_u32(members: &Vec<(String, Json)>, key: &str) -> (r: Option<Option<u32>>)
    ensures
        r == spec_opt_u32(member_views(members@), key@),
{
    match obj_lookup(members, key) {
        None => Some(None),
        Some(i) => match &members[i].1 {
            Json::Null => Some(None),
            Json::Num(n) => match n.as_u32() {
                Some(u) => Some(Some(u)),
                None => None,
            },
            _ => None,
        },
    }
}

/// Encodes an optional string as the string or `null`.
pub open spec fn spec_opt_str_json(v: Option<Seq<char>>) -> JsonV {
    match v {
        Some(s) => JsonV::Str(s),
        None => JsonV::Null,
    }
}

fn opt_str_json(v: &Option<String>) -> (j: Json)
    ensures
        j@ == spec_opt_str_json(match v {
            Some(s) => Some(s@),
            None => None,
        }),
{
    match v {
        Some(s) => Json::Str(s.clone()),
        None => Json::Null,
    }
}

/// Encodes an optional whole number as the number or `null`.
pub open spec fn spec_opt_u64_json(v: Option<u64>) -> JsonV {
    match v {
        Some(u) => JsonV::Num(JsonNum { neg: false, mant: u, scale: 0 }),
        None => JsonV::Null,
    }
}

pub open spec fn spec_opt_u32_json(v: Option<u32>) -> JsonV {
    match v {
        Some(u) => JsonV::Num(JsonNum { neg: false, mant: u as u64, scale: 0 }),
        None => JsonV::Null,
    }
}

/// What the player can do.
#[derive(Clone, Copy, Debug, PartialEq, Eq, Structural)]
pub struct MediaCapabilities {
    pub play: bool,
    pub pause: bool,
    pub stop: bool,
    pub next: bool,
    pub previous: bool,
    pub seek: bool,
    pub repeat: bool,
    pub shuffle: bool,
}

impl Default for MediaCapabilities {
    fn default() -> (r: Self)
        ensures
            r == (MediaCapabilities {
                play: false,
                pause: false,
                stop: false,
                next: false,
                previous: false,
                seek: false,
                repeat: false,
                shuffle: false,
            }),
    {
        MediaCapabilities {
            play: false,
            pause: false,
            stop: false,
            next: false,
            previous: false,
            seek: false,
            repeat: false,
            shuffle: false,
        }
    }
}

impl View for MediaCapabilities {
    type V = MediaCapabilities;

    open spec fn view(&self) -> MediaCapabilities {
        *self
    }
}

pub open spec fn spec_media_capabilities_members(v: MediaCapabilities) -> Seq<(Seq<char>, JsonV)> {
    seq![
        ("play"@, JsonV::Bool(v.play)),
        ("pause"@, JsonV::Bool(v.pause)),
        ("stop"@, JsonV::Bool(v.stop)),
        ("next"@, JsonV::Bool(v.next)),
        ("previous"@, JsonV::Bool(v.previous)),
        ("seek"@, JsonV::Bool(v.seek)),
        ("repeat"@, JsonV::Bool(v.repeat)),
        ("shuffle"@, JsonV::Bool(v.shuffle)),
    ]
}

pub open spec fn spec_media_capabilities_from(j: JsonV) -> Option<MediaCapabilities> {
    match j {
        JsonV::Obj(ms) => match (
            spec_get_bool(ms, "play"@),
            spec_get_bool(ms, "pause"@),
            spec_get_bool(ms, "stop"@),
            spec_get_bool(ms, "next"@),
            spec_get_bool(ms, "previous"@),
            spec_get_bool(ms, "seek"@),
            spec_get_bool(ms, "repeat"@),
            spec_get_bool(ms, "shuffle"@),
        ) {
            (
                Some(play),
                Some(pause),
                Some(stop),
                Some(next),
                Some(previous),
                Some(seek),
                Some(repeat),
                Some(shuffle),
            ) => Some(
                MediaCapabilities { play, pause, stop, next, previous, seek, repeat, shuffle },
            ),
            _ => None,
        },
        _ => None,
    }
}

impl Property for MediaCapabilities {
    open spec fn spec_key() -> Seq<char> {
        "capabilities"@
    }

    open spec fn spec_kind() -> PropertyKind {
        PropertyKind::State
    }

    open spec fn spec_to_json(v: MediaCapabilities) -> JsonV {
        JsonV::Obj(spec_media_capabilities_members(v))
    }

    open spec fn spec_from_json(j: JsonV) -> Option<MediaCapabilities> {
        spec_media_capabilities_from(j)
    }

    fn key() -> (r: &'static str) {
        "capabilities"
    }

    fn kind() -> (r: PropertyKind) {
        PropertyKind::State
    }

    fn to_json(&self) -> (j: Json) {
        let members: Vec<(String, Json)> = vec![
            (String::from_str("play"), Json::Bool(self.play)),
            (String::from_str("pause"), Json::Bool(self.pause)),
            (String::from_str("stop"), Json::Bool(self.stop)),
            (String::from_str("next"), Json::Bool(self.next)),
            (String::from_str("previous"), Json::Bool(self.previous)),
            (String::from_str("seek"), Json::Bool(self.seek)),
            (String::from_str("repeat"), Json::Bool(self.repeat)),
            (String::from_str("shuffle"), Json::Bool(self.shuffle)),
        ];
        proof {
            lemma_member_views_len(members@);
            assert(member_views(members@) =~= spec_media_capabilities_members(*self));
        }
        Json::Obj(members)
    }

    fn from_json(j: &Json) -> (r: Option<MediaCapabilities>) {
        let members = match j {
            Json::Obj(members) => members,
            _ => { return None; },
        };
        match (
            get_bool(members, "play"),
            get_bool(members, "pause"),
            get_bool(members, "stop"),
            get_bool(members, "next"),
            get_bool(members, "previous"),
            get_bool(members, "seek"),
            get_bool(members, "repeat"),
            get_bool(members, "shuffle"),
        ) {
            (
                Some(play),
                Some(pause),
                Some(stop),
                Some(next),
                Some(previous),
                Some(seek),
                Some(repeat),
                Some(shuffle),
            ) => Some(
                MediaCapabilities { play, pause, stop, next, previous, seek, repeat, shuffle },
            ),
            _ => None,
        }
    }
}

impl MediaProperty for MediaCapabilities {

}

/// Decoding the JSON form of [`MediaCapabilities`] gives the value back.
#[verifier::rlimit(100)]
pub proof fn lemma_media_capabilities_round_trip(v: MediaCapabilities)
    ensures
        MediaCapabilities::spec_from_json(MediaCapabilities::spec_to_json(v)) == Some(v),
{
    reveal_strlit("play");
    reveal_strlit("pause");
    reveal_strlit("stop");
    reveal_strlit("next");
    reveal_strlit("previous");
    reveal_strlit("seek");
    reveal_strlit("repeat");
    reveal_strlit("shuffle");
    reveal_with_fuel(obj_get, 10);
    assert("play"@.len() == 4 && "pause"@.len() == 5 && "stop"@.len() == 4 && "next"@.len() == 4
        && "previous"@.len() == 8 && "seek"@.len() == 4 && "repeat"@.len() == 6
        && "shuffle"@.len() == 7);
    assert("play"@[0] == 'p' && "stop"@[0] == 's' && "next"@[0] == 'n' && "seek"@[0] == 's');
    assert("stop"@[1] == 't' && "seek"@[1] == 'e');
}

/// Where playback stands.
#[derive(Clone, Copy, Debug, PartialEq, Eq, Structural)]
pub enum MediaStatus {
    Playing,
    Paused,
    Stopped,
    Buffering,
    Idle,
    Unknown,
}

impl Default for MediaStatus {
    fn default() -> (r: Self)
        ensures
            r == MediaStatus::Unknown,
    {
        MediaStatus::Unknown
    }
}

impl MediaStatus {
    pub open spec fn spec_str(self) -> Seq<char> {
        match self {
            MediaStatus::Playing => "playing"@,
            MediaStatus::Paused => "paused"@,
            MediaStatus::Stopped => "stopped"@,
            MediaStatus::Buffering => "buffering"@,
            MediaStatus::Idle => "idle"@,
            MediaStatus::Unknown => "unknown"@,
        }
    }

    pub open spec fn spec_from_str(s: Seq<char>) -> Option<MediaStatus> {
        if s == "playing"@ {
            Some(MediaStatus::Playing)
        } else if s == "paused"@ {
            Some(MediaStatus::Paused)
        } else if s == "stopped"@ {
            Some(MediaStatus::Stopped)
        } else if s == "buffering"@ {
            Some(MediaStatus::Buffering)
        } else if s == "idle"@ {
            Some(MediaStatus::Idle)
        } else if s == "unknown"@ {
            Some(MediaStatus::Unknown)
        } else {
            None
        }
    }

    pub fn as_str(&self) -> (r: &'static str)
        ensures
            r@ == self.spec_str(),
    {
        match self {
            MediaStatus::Playing => "playing",
            MediaStatus::Paused => "paused",
            MediaStatus::Stopped => "stopped",
            MediaStatus::Buffering => "buffering",
            MediaStatus::Idle => "idle",
            MediaStatus::Unknown => "unknown",
        }
    }

    pub fn parse(s: &str) -> (r: Option<MediaStatus>)
        ensures
            r == MediaStatus::spec_from_str(s@),
    {
        if eq_str(s, "playing") {
            Some(MediaStatus::Playing)
        } else if eq_str(s, "paused") {
            Some(MediaStatus::Paused)
        } else if eq_str(s, "stopped") {
            Some(MediaStatus::Stopped)
        } else if eq_str(s, "buffering") {
            Some(MediaStatus::Buffering)
        } else if eq_str(s, "idle") {
            Some(MediaStatus::Idle)
        } else if eq_str(s, "unknown") {
            Some(MediaStatus::Unknown)
        } else {
            None
        }
    }
}

/// Decoding the string form of a [`MediaStatus`] gives the status back.
pub proof fn lemma_media_status_round_trip(v: MediaStatus)
    ensures
        MediaStatus::spec_from_str(v.spec_str()) == Some(v),
{
    reveal_strlit("playing");
    reveal_strlit("paused");
    reveal_strlit("stopped");
    reveal_strlit("buffering");
    reveal_strlit("idle");
    reveal_strlit("unknown");
    assert("playing"@.len() == 7 && "paused"@.len() == 6 && "stopped"@.len() == 7
        && "buffering"@.len() == 9 && "idle"@.len() == 4 && "unknown"@.len() == 7);
    assert("playing"@[0] == 'p' && "stopped"@[0] == 's' && "unknown"@[0] == 'u');
}

/// Repeat mode.
#[derive(Clone, Copy, Debug, PartialEq, Eq, Structural)]
pub enum Repeat {
    Off,
    One,
    All,
}

impl Default for Repeat {
    fn default() -> (r: Self)
        ensures
            r == Repeat::Off,
    {
        Repeat::Off
    }
}

impl Repeat {
    pub open spec fn spec_str(self) -> Seq<char> {
        match self {
            Repeat::Off => "off"@,
            Repeat::One => "one"@,
            Repeat::All => "all"@,
        }
    }

    pub open spec fn spec_from_str(s: Seq<char>) -> Option<Repeat> {
        if s == "off"@ {
            Some(Repeat::Off)
        } else if s == "one"@ {
            Some(Repeat::One)
        } else if s == "all"@ {
            Some(Repeat::All)
        } else {
            None
        }
    }

    pub fn as_str(&self) -> (r: &'static str)
        ensures
            r@ == self.spec_str(),
    {
        match self {
            Repeat::Off => "off",
            Repeat::One => "one",
            Repeat::All => "all",
        }
    }

    pub fn parse(s: &str) -> (r: Option<Repeat>)
        ensures
            r == Repeat::spec_from_str(s@),
    {
        if eq_str(s, "off") {
            Some(Repeat::Off)
        } else if eq_str(s, "one") {
            Some(Repeat::One)
        } else if eq_str(s, "all") {
            Some(Repeat::All)
        } else {
            None
        }
    }
}

/// Decoding the string form of a [`Repeat`] gives the mode back.
pub proof fn lemma_repeat_round_trip(v: Repeat)
    ensures
        Repeat::spec_from_str(v.spec_str()) == Some(v),
{
    reveal_strlit("off");
    reveal_strlit("one");
    reveal_strlit("all");
    assert("off"@.len() == 3 && "one"@.len() == 3 && "all"@.len() == 3);
    assert("off"@[0] == 'o' && "one"@[0] == 'o' && "all"@[0] == 'a');
    assert("off"@[1] == 'f' && "one"@[1] == 'n');
}

/// A progress anchor: where playback stood at a given wall-clock moment, and
/// how fast it advances.
#[derive(Clone, Copy, Debug, PartialEq, Eq, Structural)]
pub struct MediaPosition {
    pub position_ms: i64,
    pub timestamp_ms: i64,
    pub rate: JsonNum,
}

impl View for MediaPosition {
    type V = MediaPosition;

    open spec fn view(&self) -> MediaPosition {
        *self
    }
}

/// Dividing by ten, `k` times, truncating toward zero.
pub open spec fn spec_div10(m: int, k: nat) -> int
    decreases k,
{
    if k == 0 {
        m
    } else {
        spec_div10(m / 10, (k - 1) as nat)
    }
}

/// Forces an exact position into the `i64` range.
pub open spec fn spec_clamp_i64(x: int) -> i64 {
    if x > i64::MAX {
        i64::MAX
    } else if x < i64::MIN {
        i64::MIN
    } else {
        x as i64
    }
}

/// How far playback has moved since the anchor: the elapsed wall-clock time
/// scaled by the decimal rate, truncated toward zero.
pub open spec fn spec_elapsed(rate: JsonNum, delta: int) -> int {
    let dmag = if delta >= 0 {
        delta
    } else {
        -delta
    };
    let mag = spec_div10(dmag * rate.mant, rate.scale as nat);
    if (delta < 0) != rate.neg {
        -mag
    } else {
        mag
    }
}

impl MediaPosition {
    pub open spec fn spec_current_position(self, now_ms: i64) -> i64 {
        spec_clamp_i64(self.position_ms + spec_elapsed(self.rate, now_ms - self.timestamp_ms))
    }

    /// Where playback stands at `current_timestamp_ms`, saturating at the
    /// ends of the `i64` range.
    pub fn current_position(&self, current_timestamp_ms: i64) -> (r: i64)
        ensures
            r == self.spec_current_position(current_timestamp_ms),
    {
        let delta: i128 = current_timestamp_ms as i128 - self.timestamp_ms as i128;
        let dmag: u128 = if delta < 0 {
            (-delta) as u128
        } else {
            delta as u128
        };
        proof {
            assert(dmag <= 0xFFFF_FFFF_FFFF_FFFFu128);
            assert(dmag * (self.rate.mant as u128) <= 0xFFFF_FFFF_FFFF_FFFFu128
                * 0xFFFF_FFFF_FFFF_FFFFu128) by (nonlinear_arith)
                requires
                    dmag <= 0xFFFF_FFFF_FFFF_FFFFu128,
                    self.rate.mant as u128 <= 0xFFFF_FFFF_FFFF_FFFFu128,
            ;
        }
        let mut mag: u128 = dmag * (self.rate.mant as u128);
        let mut k: u8 = self.rate.scale;
        proof {
            assert(spec_div10(mag as int, k as nat) == spec_div10(
                (dmag * self.rate.mant) as int,
                self.rate.scale as nat,
            ));
        }
        while k > 0
            invariant
                spec_div10(mag as int, k as nat) == spec_div10(
                    (dmag * (self.rate.mant as u128)) as int,
                    self.rate.scale as nat,
                ),
            decreases k,
        {
            mag = mag / 10;
            k = k - 1;
        }
        let negative = (delta < 0) != self.rate.neg;
        if mag > 0xFFFF_FFFF_FFFF_FFFFu128 {
            // the anchor plus such a move lies far outside the i64 range
            if negative {
                return i64::MIN;
            } else {
                return i64::MAX;
            }
        }
        let total: i128 = if negative {
            self.position_ms as i128 - mag as i128
        } else {
            self.position_ms as i128 + mag as i128
        };
        if total > i64::MAX as i128 {
            i64::MAX
        } else if total < i64::MIN as i128 {
            i64::MIN
        } else {
            total as i64
        }
    }
}

pub open spec fn spec_media_position_members(v: MediaPosition) -> Seq<(Seq<char>, JsonV)> {
    seq![
        ("position_ms"@, JsonV::Num(spec_num_of_i64(v.position_ms))),
        ("timestamp_ms"@, JsonV::Num(spec_num_of_i64(v.timestamp_ms))),
        ("rate"@, JsonV::Num(v.rate)),
    ]
}

pub open spec fn spec_media_position_from(j: JsonV) -> Option<MediaPosition> {
    match j {
        JsonV::Obj(ms) => {
            let p = match spec_get_num(ms, "position_ms"@) {
                Some(n) => spec_num_as_i64(n),
                None => None,
            };
            let t = match spec_get_num(ms, "timestamp_ms"@) {
                Some(n) => spec_num_as_i64(n),
                None => None,
            };
            match (p, t, spec_get_num(ms, "rate"@)) {
                (Some(position_ms), Some(timestamp_ms), Some(rate)) => Some(
                    MediaPosition { position_ms, timestamp_ms, rate },
                ),
                _ => None,
            }
        },
        _ => None,
    }
}

impl MediaPosition {
    pub fn to_json(&self) -> (j: Json)
        ensures
            j@ == JsonV::Obj(spec_media_position_members(*self)),
    {
        let members: Vec<(String, Json)> = vec![
            (String::from_str("position_ms"), Json::Num(JsonNum::from_i64(self.position_ms))),
            (String::from_str("timestamp_ms"), Json::Num(JsonNum::from_i64(self.timestamp_ms))),
            (String::from_str("rate"), Json::Num(self.rate)),
        ];
        proof {
            lemma_member_views_len(members@);
            assert(member_views(members@) =~= spec_media_position_members(*self));
        }
        Json::Obj(members)
    }

    pub fn from_json(j: &Json) -> (r: Option<MediaPosition>)
        ensures
            r == spec_media_position_from(j@),
    {
        let members = match j {
            Json::Obj(members) => members,
            _ => { return None; },
        };
        let position_ms = match get_num(members, "position_ms") {
            Some(n) => match n.as_i64() {
                Some(p) => Some(p),
                None => None,
            },
            None => None,
        };
        let timestamp_ms = match get_num(members, "timestamp_ms") {
            Some(n) => match n.as_i64() {
                Some(t) => Some(t),
                None => None,
            },
            None => None,
        };
        match (position_ms, timestamp_ms, get_num(members, "rate")) {
            (Some(position_ms), Some(timestamp_ms), Some(rate)) => Some(
                MediaPosition { position_ms, timestamp_ms, rate },
            ),
            _ => None,
        }
    }
}

/// Decoding the JSON form of a [`MediaPosition`] gives the anchor back.
pub proof fn lemma_media_position_round_trip(v: MediaPosition)
    ensures
        spec_media_position_from(JsonV::Obj(spec_media_position_members(v))) == Some(v),
{
    reveal_strlit("position_ms");
    reveal_strlit("timestamp_ms");
    reveal_strlit("rate");
    reveal_with_fuel(obj_get, 5);
    assert("position_ms"@.len() == 11 && "timestamp_ms"@.len() == 12 && "rate"@.len() == 4);
    let ms = spec_media_position_members(v);
    assert(spec_get_num(ms, "position_ms"@) == Some(spec_num_of_i64(v.position_ms)));
    assert(spec_get_num(ms, "timestamp_ms"@) == Some(spec_num_of_i64(v.timestamp_ms)));
    assert(spec_get_num(ms, "rate"@) == Some(v.rate));
}

/// The JSON items for a list of strings.
pub open spec fn str_items(a: Seq<Seq<char>>) -> Seq<JsonV> {
    a.map_values(|s: Seq<char>| JsonV::Str(s))
}

/// A list of strings read back from JSON items; any non-string refuses.
pub open spec fn strs_from_items(items: Seq<JsonV>) -> Option<Seq<Seq<char>>> {
    if forall|i: int| 0 <= i < items.len() ==> (#[trigger] items[i]) is Str {
        Some(items.map_values(|j: JsonV| j->Str_0))
    } else {
        None
    }
}

pub open spec fn strs_view(v: Seq<String>) -> Seq<Seq<char>> {
    v.map_values(|s: String| s@)
}

fn strs_to_json(items: &Vec<String>) -> (r: Vec<Json>)
    ensures
        json_views(r@) == str_items(strs_view(items@)),
{
    let mut out: Vec<Json> = Vec::new();
    let mut idx: usize = 0;
    while idx < items.len()
        invariant
            idx <= items.len(),
            out@.len() == idx,
            forall|j: int| 0 <= j < idx ==> crate::json::json_view(#[trigger] out@[j])
                == JsonV::Str(items@[j]@),
        decreases items.len() - idx,
    {
        out.push(Json::Str(items[idx].clone()));
        idx += 1;
    }
    proof {
        lemma_json_views_len(out@);
        assert(json_views(out@) =~= str_items(strs_view(items@)));
    }
    out
}

fn strs_from_json(items: &Vec<Json>) -> (r: Option<Vec<String>>)
    ensures
        match r {
            Some(v) => strs_from_items(json_views(items@)) == Some(strs_view(v@)),
            None => strs_from_items(json_views(items@)) is None,
        },
{
    proof {
        lemma_json_views_len(items@);
    }
    let mut out: Vec<String> = Vec::new();
    let mut idx: usize = 0;
    while idx < items.len()
        invariant
            idx <= items.len(),
            out@.len() == idx,
            json_views(items@).len() == items@.len(),
            forall|j: int| 0 <= j < items@.len() ==> #[trigger] json_views(items@)[j]
                == crate::json::json_view(items@[j]),
            forall|j: int| 0 <= j < idx ==> (#[trigger] json_views(items@)[j]) is Str
                && out@[j]@ == json_views(items@)[j]->Str_0,
        decreases items.len() - idx,
    {
        match &items[idx] {
            Json::Str(s) => {
                out.push(s.clone());
            },
            _ => {
                proof {
                    assert(!(json_views(items@)[idx as int] is Str));
                }
                return None;
            },
        }
        idx += 1;
    }
    proof {
        assert(strs_from_items(json_views(items@)) == Some(strs_view(out@))) by {
            assert(forall|i: int| 0 <= i < items@.len() ==> (#[trigger] json_views(items@)[i])
                is Str);
            assert(json_views(items@).map_values(|j: JsonV| j->Str_0) =~= strs_view(out@));
        }
    }
    Some(out)
}

/// What is playing: track metadata.
#[derive(Clone, Debug, PartialEq)]
pub struct MediaInfo {
    pub title: Option<String>,
    pub artists: Vec<String>,
    pub album: Option<String>,
    pub track_number: Option<u32>,
    pub disc_number: Option<u32>,
    pub genre: Option<String>,
    pub artwork_url: Option<String>,
    pub url: Option<String>,
    pub live: bool,
}

/// The mathematical shape of a [`MediaInfo`].
pub ghost struct MediaInfoV {
    pub title: Option<Seq<char>>,
    pub artists: Seq<Seq<char>>,
    pub album: Option<Seq<char>>,
    pub track_number: Option<u32>,
    pub disc_number: Option<u32>,
    pub genre: Option<Seq<char>>,
    pub artwork_url: Option<Seq<char>>,
    pub url: Option<Seq<char>>,
    pub live: bool,
}

pub open spec fn view_opt_str(o: Option<String>) -> Option<Seq<char>> {
    match o {
        Some(s) => Some(s@),
        None => None,
    }
}

impl View for MediaInfo {
    type V = MediaInfoV;

    open spec fn view(&self) -> MediaInfoV {
        MediaInfoV {
            title: view_opt_str(self.title),
            artists: strs_view(self.artists@),
            album: view_opt_str(self.album),
            track_number: self.track_number,
            disc_number: self.disc_number,
            genre: view_opt_str(self.genre),
            artwork_url: view_opt_str(self.artwork_url),
            url: view_opt_str(self.url),
            live: self.live,
        }
    }
}

impl Default for MediaInfo {
    fn default() -> (r: Self)
        ensures
            r@ == (MediaInfoV {
                title: None::<Seq<char>>,
                artists: Seq::<Seq<char>>::empty(),
                album: None::<Seq<char>>,
                track_number: None::<u32>,
                disc_number: None::<u32>,
                genre: None::<Seq<char>>,
                artwork_url: None::<Seq<char>>,
                url: None::<Seq<char>>,
                live: false,
            }),
    {
        let r = MediaInfo {
            title: None,
            artists: Vec::new(),
            album: None,
            track_number: None,
            disc_number: None,
            genre: None,
            artwork_url: None,
            url: None,
            live: false,
        };
        proof {
            assert(strs_view(r.artists@) =~= Seq::<Seq<char>>::empty());
        }
        r
    }
}

pub open spec fn spec_media_info_members(v: MediaInfoV) -> Seq<(Seq<char>, JsonV)> {
    seq![
        ("title"@, spec_opt_str_json(v.title)),
        ("artists"@, JsonV::Arr(str_items(v.artists))),
        ("album"@, spec_opt_str_json(v.album)),
        ("track_number"@, spec_opt_u32_json(v.track_number)),
        ("disc_number"@, spec_opt_u32_json(v.disc_number)),
        ("genre"@, spec_opt_str_json(v.genre)),
        ("artwork_url"@, spec_opt_str_json(v.artwork_url)),
        ("url"@, spec_opt_str_json(v.url)),
        ("live"@, JsonV::Bool(v.live)),
    ]
}

pub open spec fn spec_media_info_from(j: JsonV) -> Option<MediaInfoV> {
    match j {
        JsonV::Obj(ms) => {
            let artists = match obj_get(ms, "artists"@) {
                Some(JsonV::Arr(items)) => strs_from_items(items),
                _ => None,
            };
            match (
                spec_opt_str(ms, "title"@),
                artists,
                spec_opt_str(ms, "album"@),
                spec_opt_u32(ms, "track_number"@),
                spec_opt_u32(ms, "disc_number"@),
                spec_opt_str(ms, "genre"@),
                spec_opt_str(ms, "artwork_url"@),
                spec_opt_str(ms, "url"@),
                spec_get_bool(ms, "live"@),
            ) {
                (
                    Some(title),
                    Some(artists),
                    Some(album),
                    Some(track_number),
                    Some(disc_number),
                    Some(genre),
                    Some(artwork_url),
                    Some(url),
                    Some(live),
                ) => Some(
                    MediaInfoV {
                        title,
                        artists,
                        album,
                        track_number,
                        disc_number,
                        genre,
                        artwork_url,
                        url,
                        live,
                    },
                ),
                _ => None,
            }
        },
        _ => None,
    }
}

fn opt_u32_json(v: &Option<u32>) -> (j: Json)
    ensures
        j@ == spec_opt_u32_json(*v),
{
    match v {
        Some(u) => Json::Num(JsonNum::from_u64(*u as u64)),
        None => Json::Null,
    }
}

impl MediaInfo {
    pub fn to_json(&self) -> (j: Json)
        ensures
            j@ == JsonV::Obj(spec_media_info_members(self@)),
    {
        let members: Vec<(String, Json)> = vec![
            (String::from_str("title"), opt_str_json(&self.title)),
            (String::from_str("artists"), Json::Arr(strs_to_json(&self.artists))),
            (String::from_str("album"), opt_str_json(&self.album)),
            (String::from_str("track_number"), opt_u32_json(&self.track_number)),
            (String::from_str("disc_number"), opt_u32_json(&self.disc_number)),
            (String::from_str("genre"), opt_str_json(&self.genre)),
            (String::from_str("artwork_url"), opt_str_json(&self.artwork_url)),
            (String::from_str("url"), opt_str_json(&self.url)),
            (String::from_str("live"), Json::Bool(self.live)),
        ];
        proof {
            lemma_member_views_len(members@);
            assert(member_views(members@) =~= spec_media_info_members(self@));
        }
        Json::Obj(members)
    }

    pub fn from_json(j: &Json) -> (r: Option<MediaInfo>)
        ensures
            match r {
                Some(v) => spec_media_info_from(j@) == Some(v@),
                None => spec_media_info_from(j@) is None,
            },
    {
        let members = match j {
            Json::Obj(members) => members,
            _ => { return None; },
        };
        let artists = match obj_lookup(members, "artists") {
            Some(i) => match &members[i].1 {
                Json::Arr(items) => match strs_from_json(items) {
                    Some(a) => a,
                    None => { return None; },
                },
                _ => { return None; },
            },
            None => { return None; },
        };
        let title = match get_opt_str(members, "title") {
            Some(t) => t,
            None => { return None; },
        };
        let album = match get_opt_str(members, "album") {
            Some(a) => a,
            None => { return None; },
        };
        let track_number = match get_opt_u32(members, "track_number") {
            Some(t) => t,
            None => { return None; },
        };
        let disc_number = match get_opt_u32(members, "disc_number") {
            Some(d) => d,
            None => { return None; },
        };
        let genre = match get_opt_str(members, "genre") {
            Some(g) => g,
            None => { return None; },
        };
        let artwork_url = match get_opt_str(members, "artwork_url") {
            Some(a) => a,
            None => { return None; },
        };
        let url = match get_opt_str(members, "url") {
            Some(u) => u,
            None => { return None; },
        };
        let live = match get_bool(members, "live") {
            Some(l) => l,
            None => { return None; },
        };
        Some(
            MediaInfo {
                title: match title {
                    Some(t) => Some(t.to_owned()),
                    None => None,
                },
                artists,
                album: match album {
                    Some(a) => Some(a.to_owned()),
                    None => None,
                },
                track_number,
                disc_number,
                genre: match genre {
                    Some(g) => Some(g.to_owned()),
                    None => None,
                },
                artwork_url: match artwork_url {
                    Some(a) => Some(a.to_owned()),
                    None => None,
                },
                url: match url {
                    Some(u) => Some(u.to_owned()),
                    None => None,
                },
                live,
            },
        )
    }
}

/// Decoding the JSON form of a [`MediaInfo`] gives the metadata back.
#[verifier::rlimit(100)]
pub proof fn lemma_media_info_round_trip(v: MediaInfoV)
    ensures
        spec_media_info_from(JsonV::Obj(spec_media_info_members(v))) == Some(v),
{
    reveal_strlit("title");
    reveal_strlit("artists");
    reveal_strlit("album");
    reveal_strlit("track_number");
    reveal_strlit("disc_number");
    reveal_strlit("genre");
    reveal_strlit("artwork_url");
    reveal_strlit("url");
    reveal_strlit("live");
    reveal_with_fuel(obj_get, 10);
    assert("title"@.len() == 5 && "artists"@.len() == 7 && "album"@.len() == 5
        && "track_number"@.len() == 12 && "disc_number"@.len() == 11 && "genre"@.len() == 5
        && "artwork_url"@.len() == 11 && "url"@.len() == 3 && "live"@.len() == 4);
    assert("title"@[0] == 't' && "album"@[0] == 'a' && "genre"@[0] == 'g');
    assert("disc_number"@[0] == 'd' && "artwork_url"@[0] == 'a');
    let ms = spec_media_info_members(v);
    assert(obj_get(ms, "artists"@) == Some(JsonV::Arr(str_items(v.artists))));
    assert(strs_from_items(str_items(v.artists)) == Some(v.artists)) by {
        assert(forall|i: int| 0 <= i < str_items(v.artists).len() ==> (
        #[trigger] str_items(v.artists)[i]) is Str);
        assert(str_items(v.artists).map_values(|j: JsonV| j->Str_0) =~= v.artists);
    }
}

/// The full playback state.
#[derive(Clone, Debug, PartialEq)]
pub struct MediaState {
    pub status: MediaStatus,
    pub duration_ms: Option<u64>,
    pub position_ms: Option<MediaPosition>,
    pub repeat: Repeat,
    pub shuffle: bool,
    pub info: MediaInfo,
    pub message: Option<String>,
}

impl Default for MediaState {
    fn default() -> (r: Self)
        ensures
            r.status == MediaStatus::Unknown,
            r.duration_ms == None::<u64>,
            r.position_ms == None::<MediaPosition>,
            r.repeat == Repeat::Off,
            !r.shuffle,
            r.message == None::<String>,
    {
        MediaState {
            status: MediaStatus::Unknown,
            duration_ms: None,
            position_ms: None,
            repeat: Repeat::Off,
            shuffle: false,
            info: MediaInfo::default(),
            message: None,
        }
    }
}

/// The mathematical shape of a [`MediaState`].
pub ghost struct MediaStateV {
    pub status: MediaStatus,
    pub duration_ms: Option<u64>,
    pub position_ms: Option<MediaPosition>,
    pub repeat: Repeat,
    pub shuffle: bool,
    pub info: MediaInfoV,
    pub message: Option<Seq<char>>,
}

impl View for MediaState {
    type V = MediaStateV;

    open spec fn view(&self) -> MediaStateV {
        MediaStateV {
            status: self.status,
            duration_ms: self.duration_ms,
            position_ms: self.position_ms,
            repeat: self.repeat,
            shuffle: self.shuffle,
            info: self.info@,
            message: view_opt_str(self.message),
        }
    }
}

pub open spec fn spec_media_state_members(v: MediaStateV) -> Seq<(Seq<char>, JsonV)> {
    seq![
        ("status"@, JsonV::Str(v.status.spec_str())),
        ("duration_ms"@, spec_opt_u64_json(v.duration_ms)),
        (
            "position_ms"@,
            match v.position_ms {
                Some(p) => JsonV::Obj(spec_media_position_members(p)),
                None => JsonV::Null,
            },
        ),
        ("repeat"@, JsonV::Str(v.repeat.spec_str())),
        ("shuffle"@, JsonV::Bool(v.shuffle)),
        ("info"@, JsonV::Obj(spec_media_info_members(v.info))),
        ("message"@, spec_opt_str_json(v.message)),
    ]
}

pub open spec fn spec_media_state_from(j: JsonV) -> Option<MediaStateV> {
    match j {
        JsonV::Obj(ms) => {
            let status = match spec_get_str(ms, "status"@) {
                Some(s) => MediaStatus::spec_from_str(s),
                None => None,
            };
            let position_ms = match obj_get(ms, "position_ms"@) {
                None => Some(None),
                Some(JsonV::Null) => Some(None),
                Some(pj) => match spec_media_position_from(pj) {
                    Some(p) => Some(Some(p)),
                    None => None,
                },
            };
            let repeat = match spec_get_str(ms, "repeat"@) {
                Some(s) => Repeat::spec_from_str(s),
                None => None,
            };
            let info = match obj_get(ms, "info"@) {
                Some(ij) => spec_media_info_from(ij),
                None => None,
            };
            match (
                status,
                spec_opt_u64(ms, "duration_ms"@),
                position_ms,
                repeat,
                spec_get_bool(ms, "shuffle"@),
                info,
                spec_opt_str(ms, "message"@),
            ) {
                (
                    Some(status),
                    Some(duration_ms),
                    Some(position_ms),
                    Some(repeat),
                    Some(shuffle),
                    Some(info),
                    Some(message),
                ) => Some(
                    MediaStateV {
                        status,
                        duration_ms,
                        position_ms,
                        repeat,
                        shuffle,
                        info,
                        message,
                    },
                ),
                _ => None,
            }
        },
        _ => None,
    }
}

impl Property for MediaState {
    open spec fn spec_key() -> Seq<char> {
        "state"@
    }

    open spec fn spec_kind() -> PropertyKind {
        PropertyKind::State
    }

    open spec fn spec_to_json(v: MediaStateV) -> JsonV {
        JsonV::Obj(spec_media_state_members(v))
    }

    open spec fn spec_from_json(j: JsonV) -> Option<MediaStateV> {
        spec_media_state_from(j)
    }

    fn key() -> (r: &'static str) {
        "state"
    }

    fn kind() -> (r: PropertyKind) {
        PropertyKind::State
    }

    fn to_json(&self) -> (j: Json) {
        let position_json = match &self.position_ms {
            Some(p) => p.to_json(),
            None => Json::Null,
        };
        let duration_json = match self.duration_ms {
            Some(u) => Json::Num(JsonNum::from_u64(u)),
            None => Json::Null,
        };
        let members: Vec<(String, Json)> = vec![
            (String::from_str("status"), Json::Str(String::from_str(self.status.as_str()))),
            (String::from_str("duration_ms"), duration_json),
            (String::from_str("position_ms"), position_json),
            (String::from_str("repeat"), Json::Str(String::from_str(self.repeat.as_str()))),
            (String::from_str("shuffle"), Json::Bool(self.shuffle)),
            (String::from_str("info"), self.info.to_json()),
            (String::from_str("message"), opt_str_json(&self.message)),
        ];
        proof {
            lemma_member_views_len(members@);
            assert(member_views(members@) =~= spec_media_state_members(self@));
        }
        Json::Obj(members)
    }

    fn from_json(j: &Json) -> (r: Option<MediaState>) {
        let members = match j {
            Json::Obj(members) => members,
            _ => { return None; },
        };
        let status = match get_str(members, "status") {
            Some(s) => match MediaStatus::parse(s) {
                Some(st) => st,
                None => { return None; },
            },
            None => { return None; },
        };
        let duration_ms = match get_opt_u64(members, "duration_ms") {
            Some(d) => d,
            None => { return None; },
        };
        let position_ms = match obj_lookup(members, "position_ms") {
            None => None,
            Some(i) => match &members[i].1 {
                Json::Null => None,
                pj => match MediaPosition::from_json(pj) {
                    Some(p) => Some(p),
                    None => { return None; },
                },
            },
        };
        let repeat = match get_str(members, "repeat") {
            Some(s) => match Repeat::parse(s) {
                Some(rp) => rp,
                None => { return None; },
            },
            None => { return None; },
        };
        let shuffle = match get_bool(members, "shuffle") {
            Some(s) => s,
            None => { return None; },
        };
        let info = match obj_lookup(members, "info") {
            Some(i) => match MediaInfo::from_json(&members[i].1) {
                Some(inf) => inf,
                None => { return None; },
            },
            None => { return None; },
        };
        let message = match get_opt_str(members, "message") {
            Some(Some(m)) => Some(m.to_owned()),
            Some(None) => None,
            None => { return None; },
        };
        Some(MediaState { status, duration_ms, position_ms, repeat, shuffle, info, message })
    }
}

impl MediaProperty for MediaState {

}

/// Decoding the JSON form of a [`MediaState`] gives the state back.
#[verifier::rlimit(100)]
pub proof fn lemma_media_state_round_trip(v: MediaStateV)
    ensures
        MediaState::spec_from_json(MediaState::spec_to_json(v)) == Some(v),
{
    reveal_strlit("status");
    reveal_strlit("duration_ms");
    reveal_strlit("position_ms");
    reveal_strlit("repeat");
    reveal_strlit("shuffle");
    reveal_strlit("info");
    reveal_strlit("message");
    reveal_with_fuel(obj_get, 9);
    assert("status"@.len() == 6 && "duration_ms"@.len() == 11 && "position_ms"@.len() == 11
        && "repeat"@.len() == 6 && "shuffle"@.len() == 7 && "info"@.len() == 4
        && "message"@.len() == 7);
    assert("status"@[0] == 's' && "repeat"@[0] == 'r');
    assert("duration_ms"@[0] == 'd' && "position_ms"@[0] == 'p');
    assert("shuffle"@[0] == 's' && "message"@[0] == 'm');
    let ms = spec_media_state_members(v);
    lemma_media_status_round_trip(v.status);
    lemma_repeat_round_trip(v.repeat);
    lemma_media_info_round_trip(v.info);
    if let Some(p) = v.position_ms {
        lemma_media_position_round_trip(p);
    }
    assert(spec_get_str(ms, "status"@) == Some(v.status.spec_str()));
    assert(spec_get_str(ms, "repeat"@) == Some(v.repeat.spec_str()));
    assert(obj_get(ms, "info"@) == Some(JsonV::Obj(spec_media_info_members(v.info))));
    assert(spec_opt_str(ms, "message"@) == Some(v.message));
    assert(spec_opt_u64(ms, "duration_ms"@) == Some(v.duration_ms));
}

/// A transport command, tagged by its `type` member.
#[derive(Clone, Copy, Debug, PartialEq, Eq, Structural)]
pub enum MediaCommand {
    Play,
    Pause,
    PlayPause,
    Stop,
    Next,
    Previous,
    Seek { position_ms: u64 },
    SetRepeat { repeat: Repeat },
    SetShuffle { shuffle: bool },
}

impl View for MediaCommand {
    type V = MediaCommand;

    open spec fn view(&self) -> MediaCommand {
        *self
    }
}

impl MediaCommand {
    pub open spec fn spec_tag(self) -> Seq<char> {
        match self {
            MediaCommand::Play => "play"@,
            MediaCommand::Pause => "pause"@,
            MediaCommand::PlayPause => "play_pause"@,
            MediaCommand::Stop => "stop"@,
            MediaCommand::Next => "next"@,
            MediaCommand::Previous => "previous"@,
            MediaCommand::Seek { .. } => "seek"@,
            MediaCommand::SetRepeat { .. } => "set_repeat"@,
            MediaCommand::SetShuffle { .. } => "set_shuffle"@,
        }
    }
}

pub open spec fn spec_media_command_members(v: MediaCommand) -> Seq<(Seq<char>, JsonV)> {
    let base = seq![("type"@, JsonV::Str(v.spec_tag()))];
    match v {
        MediaCommand::Seek { position_ms } => base.push(
            ("position_ms"@, JsonV::Num(JsonNum { neg: false, mant: position_ms, scale: 0 })),
        ),
        MediaCommand::SetRepeat { repeat } => base.push(("repeat"@, JsonV::Str(repeat.spec_str()))),
        MediaCommand::SetShuffle { shuffle } => base.push(("shuffle"@, JsonV::Bool(shuffle))),
        _ => base,
    }
}

pub open spec fn spec_media_command_from(j: JsonV) -> Option<MediaCommand> {
    match j {
        JsonV::Obj(ms) => match spec_get_str(ms, "type"@) {
            Some(tag) => if tag == "play"@ {
                Some(MediaCommand::Play)
            } else if tag == "pause"@ {
                Some(MediaCommand::Pause)
            } else if tag == "play_pause"@ {
                Some(MediaCommand::PlayPause)
            } else if tag == "stop"@ {
                Some(MediaCommand::Stop)
            } else if tag == "next"@ {
                Some(MediaCommand::Next)
            } else if tag == "previous"@ {
                Some(MediaCommand::Previous)
            } else if tag == "seek"@ {
                match spec_get_num(ms, "position_ms"@) {
                    Some(n) => match spec_num_as_u64(n) {
                        Some(position_ms) => Some(MediaCommand::Seek { position_ms }),
                        None => None,
                    },
                    None => None,
                }
            } else if tag == "set_repeat"@ {
                match spec_get_str(ms, "repeat"@) {
                    Some(s) => match Repeat::spec_from_str(s) {
                        Some(repeat) => Some(MediaCommand::SetRepeat { repeat }),
                        None => None,
                    },
                    None => None,
                }
            } else if tag == "set_shuffle"@ {
                match spec_get_bool(ms, "shuffle"@) {
                    Some(shuffle) => Some(MediaCommand::SetShuffle { shuffle }),
                    None => None,
                }
            } else {
                None
            },
            None => None,
        },
        _ => None,
    }
}

impl Property for MediaCommand {
    open spec fn spec_key() -> Seq<char> {
        "command"@
    }

    open spec fn spec_kind() -> PropertyKind {
        PropertyKind::Command
    }

    open spec fn spec_to_json(v: MediaCommand) -> JsonV {
        JsonV::Obj(spec_media_command_members(v))
    }

    open spec fn spec_from_json(j: JsonV) -> Option<MediaCommand> {
        spec_media_command_from(j)
    }

    fn key() -> (r: &'static str) {
        "command"
    }

    fn kind() -> (r: PropertyKind) {
        PropertyKind::Command
    }

    fn to_json(&self) -> (j: Json) {
        let tag = match self {
            MediaCommand::Play => "play",
            MediaCommand::Pause => "pause",
            MediaCommand::PlayPause => "play_pause",
            MediaCommand::Stop => "stop",
            MediaCommand::Next => "next",
            MediaCommand::Previous => "previous",
            MediaCommand::Seek { .. } => "seek",
            MediaCommand::SetRepeat { .. } => "set_repeat",
            MediaCommand::SetShuffle { .. } => "set_shuffle",
        };
        let mut members: Vec<(String, Json)> = vec![
            (String::from_str("type"), Json::Str(String::from_str(tag))),
        ];
        match self {
            MediaCommand::Seek { position_ms } => {
                members.push(
                    (String::from_str("position_ms"), Json::Num(JsonNum::from_u64(*position_ms))),
                );
            },
            MediaCommand::SetRepeat { repeat } => {
                members.push(
                    (String::from_str("repeat"), Json::Str(String::from_str(repeat.as_str()))),
                );
            },
            MediaCommand::SetShuffle { shuffle } => {
                members.push((String::from_str("shuffle"), Json::Bool(*shuffle)));
            },
            _ => {},
        }
        proof {
            lemma_member_views_len(members@);
            assert(member_views(members@) =~= spec_media_command_members(*self));
        }
        Json::Obj(members)
    }

    fn from_json(j: &Json) -> (r: Option<MediaCommand>) {
        let members = match j {
            Json::Obj(members) => members,
            _ => { return None; },
        };
        let tag = match get_str(members, "type") {
            Some(t) => t,
            None => { return None; },
        };
        if eq_str(tag, "play") {
            Some(MediaCommand::Play)
        } else if eq_str(tag, "pause") {
            Some(MediaCommand::Pause)
        } else if eq_str(tag, "play_pause") {
            Some(MediaCommand::PlayPause)
        } else if eq_str(tag, "stop") {
            Some(MediaCommand::Stop)
        } else if eq_str(tag, "next") {
            Some(MediaCommand::Next)
        } else if eq_str(tag, "previous") {
            Some(MediaCommand::Previous)
        } else if eq_str(tag, "seek") {
            match get_num(members, "position_ms") {
                Some(n) => match n.as_u64() {
                    Some(position_ms) => Some(MediaCommand::Seek { position_ms }),
                    None => None,
                },
                None => None,
            }
        } else if eq_str(tag, "set_repeat") {
            match get_str(members, "repeat") {
                Some(s) => match Repeat::parse(s) {
                    Some(repeat) => Some(MediaCommand::SetRepeat { repeat }),
                    None => None,
                },
                None => None,
            }
        } else if eq_str(tag, "set_shuffle") {
            match get_bool(members, "shuffle") {
                Some(shuffle) => Some(MediaCommand::SetShuffle { shuffle }),
                None => None,
            }
        } else {
            None
        }
    }
}

impl MediaProperty for MediaCommand {

}

/// Decoding the JSON form of a [`MediaCommand`] gives the command back.
#[verifier::rlimit(100)]
pub proof fn lemma_media_command_round_trip(v: MediaCommand)
    ensures
        MediaCommand::spec_from_json(MediaCommand::spec_to_json(v)) == Some(v),
{
    reveal_strlit("type");
    reveal_strlit("play");
    reveal_strlit("pause");
    reveal_strlit("play_pause");
    reveal_strlit("stop");
    reveal_strlit("next");
    reveal_strlit("previous");
    reveal_strlit("seek");
    reveal_strlit("set_repeat");
    reveal_strlit("set_shuffle");
    reveal_strlit("position_ms");
    reveal_strlit("repeat");
    reveal_strlit("shuffle");
    reveal_with_fuel(obj_get, 4);
    assert("type"@.len() == 4 && "play"@.len() == 4 && "pause"@.len() == 5 && "play_pause"@.len()
        == 10 && "stop"@.len() == 4 && "next"@.len() == 4 && "previous"@.len() == 8
        && "seek"@.len() == 4 && "set_repeat"@.len() == 10 && "set_shuffle"@.len() == 11
        && "position_ms"@.len() == 11 && "repeat"@.len() == 6 && "shuffle"@.len() == 7);
    assert("play"@[0] == 'p' && "stop"@[0] == 's' && "next"@[0] == 'n' && "seek"@[0] == 's'
        && "type"@[0] == 't');
    assert("stop"@[1] == 't' && "seek"@[1] == 'e');
    assert("play_pause"@[0] == 'p' && "set_repeat"@[0] == 's');
    if let MediaCommand::SetRepeat { repeat } = v {
        lemma_repeat_round_trip(repeat);
    }
}

} // verus!
