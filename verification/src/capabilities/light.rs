//! A dimmable, possibly colored light.
//!
//! State is published under `state`; commands travel under `command`. The
//! color is encoded *untagged*: the set of keys present picks the variant,
//! and foreign or missing keys refuse the whole color.

use vstd::prelude::*;

use crate::json::{Json, JsonNum, JsonV, get_bool, get_num, get_opt_num, get_u8_field, has_key,
    lemma_member_views_len, member_views, obj_get, obj_has, spec_get_bool, spec_get_num,
    spec_get_u8, spec_num_as_u8, spec_opt_num};
use crate::property::{Property, PropertyKind};

verus! {

/// A marker for the properties `tanuki.light` understands.
pub trait LightProperty: Property {

}

/// A color, as one of five coordinate systems.
#[derive(Clone, Copy, Debug, PartialEq, Eq, Structural)]
pub enum Color {
    /// Red, green, blue, cool white, warm white, each 0-255
    Rgbww { r: u8, g: u8, b: u8, cw: u8, ww: u8 },
    /// Red, green, blue, white, each 0-255
    Rgbw { r: u8, g: u8, b: u8, w: u8 },
    /// Red, green, blue, each 0-255
    Rgb { r: u8, g: u8, b: u8 },
    /// Hue (0-360), saturation (0-100)
    Hs { h: JsonNum, s: JsonNum },
    /// CIE 1931 color space x,y coordinates (0.0-1.0)
    Xy { x: JsonNum, y: JsonNum },
}

/// A color-mode marker as foreign bridges report it.
#[derive(Clone, Copy, Debug, PartialEq, Eq, Structural)]
pub enum ColorMode {
    Rgbww,
    Rgbw,
    Rgb,
    Hs,
    Xy,
    ColorTemp,
    Brightness,
    OnOff,
}

impl ColorMode {
    pub open spec fn spec_from_str(s: Seq<char>) -> Option<ColorMode> {
        if s == "rgbww"@ {
            Some(ColorMode::Rgbww)
        } else if s == "rgbw"@ {
            Some(ColorMode::Rgbw)
        } else if s == "rgb"@ {
            Some(ColorMode::Rgb)
        } else if s == "hs"@ {
            Some(ColorMode::Hs)
        } else if s == "xy"@ {
            Some(ColorMode::Xy)
        } else if s == "color_temp"@ {
            Some(ColorMode::ColorTemp)
        } else if s == "brightness"@ {
            Some(ColorMode::Brightness)
        } else if s == "on_off"@ || s == "onoff"@ {
            Some(ColorMode::OnOff)
        } else {
            None
        }
    }

    /// Reads a color-mode marker from its wire name; `onoff` is accepted as
    /// an alias of `on_off`.
    pub fn parse(s: &str) -> (r: Option<ColorMode>)
        ensures
            r == ColorMode::spec_from_str(s@),
    {
        if crate::strutil::eq_str(s, "rgbww") {
            Some(ColorMode::Rgbww)
        } else if crate::strutil::eq_str(s, "rgbw") {
            Some(ColorMode::Rgbw)
        } else if crate::strutil::eq_str(s, "rgb") {
            Some(ColorMode::Rgb)
        } else if crate::strutil::eq_str(s, "hs") {
            Some(ColorMode::Hs)
        } else if crate::strutil::eq_str(s, "xy") {
            Some(ColorMode::Xy)
        } else if crate::strutil::eq_str(s, "color_temp") {
            Some(ColorMode::ColorTemp)
        } else if crate::strutil::eq_str(s, "brightness") {
            Some(ColorMode::Brightness)
        } else if crate::strutil::eq_str(s, "on_off") || crate::strutil::eq_str(s, "onoff") {
            Some(ColorMode::OnOff)
        } else {
            None
        }
    }
}

pub open spec fn rgbww_keys() -> Seq<Seq<char>> {
    seq!["r"@, "g"@, "b"@, "cw"@, "ww"@]
}

pub open spec fn rgbw_keys() -> Seq<Seq<char>> {
    seq!["r"@, "g"@, "b"@, "w"@]
}

pub open spec fn rgb_keys() -> Seq<Seq<char>> {
    seq!["r"@, "g"@, "b"@]
}

pub open spec fn hs_keys() -> Seq<Seq<char>> {
    seq!["h"@, "s"@]
}

pub open spec fn xy_keys() -> Seq<Seq<char>> {
    seq!["x"@, "y"@]
}

/// The object binds exactly this set of (distinct) keys: as many members as
/// keys, and every key present.
pub open spec fn keys_exactly(ms: Seq<(Seq<char>, JsonV)>, keys: Seq<Seq<char>>) -> bool {
    ms.len() == keys.len() && forall|i: int| 0 <= i < keys.len() ==> obj_has(ms, #[trigger] keys[i])
}

pub open spec fn spec_color_to_json(c: Color) -> JsonV {
    match c {
        Color::Rgbww { r, g, b, cw, ww } => JsonV::Obj(
            seq![
                ("r"@, JsonV::Num(JsonNum { neg: false, mant: r as u64, scale: 0 })),
                ("g"@, JsonV::Num(JsonNum { neg: false, mant: g as u64, scale: 0 })),
                ("b"@, JsonV::Num(JsonNum { neg: false, mant: b as u64, scale: 0 })),
                ("cw"@, JsonV::Num(JsonNum { neg: false, mant: cw as u64, scale: 0 })),
                ("ww"@, JsonV::Num(JsonNum { neg: false, mant: ww as u64, scale: 0 })),
            ],
        ),
        Color::Rgbw { r, g, b, w } => JsonV::Obj(
            seq![
                ("r"@, JsonV::Num(JsonNum { neg: false, mant: r as u64, scale: 0 })),
                ("g"@, JsonV::Num(JsonNum { neg: false, mant: g as u64, scale: 0 })),
                ("b"@, JsonV::Num(JsonNum { neg: false, mant: b as u64, scale: 0 })),
                ("w"@, JsonV::Num(JsonNum { neg: false, mant: w as u64, scale: 0 })),
            ],
        ),
        Color::Rgb { r, g, b } => JsonV::Obj(
            seq![
                ("r"@, JsonV::Num(JsonNum { neg: false, mant: r as u64, scale: 0 })),
                ("g"@, JsonV::Num(JsonNum { neg: false, mant: g as u64, scale: 0 })),
                ("b"@, JsonV::Num(JsonNum { neg: false, mant: b as u64, scale: 0 })),
            ],
        ),
        Color::Hs { h, s } => JsonV::Obj(seq![("h"@, JsonV::Num(h)), ("s"@, JsonV::Num(s))]),
        Color::Xy { x, y } => JsonV::Obj(seq![("x"@, JsonV::Num(x)), ("y"@, JsonV::Num(y))]),
    }
}

/// Untagged decoding: the present keys must exactly match one variant; the
/// variants are tried in declaration order, and anything else refuses.
pub open spec fn spec_color_from_json(j: JsonV) -> Option<Color> {
    match j {
        JsonV::Obj(ms) => if keys_exactly(ms, rgbww_keys()) {
            match (
                spec_get_u8(ms, "r"@),
                spec_get_u8(ms, "g"@),
                spec_get_u8(ms, "b"@),
                spec_get_u8(ms, "cw"@),
                spec_get_u8(ms, "ww"@),
            ) {
                (Some(r), Some(g), Some(b), Some(cw), Some(ww)) => Some(
                    Color::Rgbww { r, g, b, cw, ww },
                ),
                _ => None,
            }
        } else if keys_exactly(ms, rgbw_keys()) {
            match (
                spec_get_u8(ms, "r"@),
                spec_get_u8(ms, "g"@),
                spec_get_u8(ms, "b"@),
                spec_get_u8(ms, "w"@),
            ) {
                (Some(r), Some(g), Some(b), Some(w)) => Some(Color::Rgbw { r, g, b, w }),
                _ => None,
            }
        } else if keys_exactly(ms, rgb_keys()) {
            match (spec_get_u8(ms, "r"@), spec_get_u8(ms, "g"@), spec_get_u8(ms, "b"@)) {
                (Some(r), Some(g), Some(b)) => Some(Color::Rgb { r, g, b }),
                _ => None,
            }
        } else if keys_exactly(ms, hs_keys()) {
            match (spec_get_num(ms, "h"@), spec_get_num(ms, "s"@)) {
                (Some(h), Some(s)) => Some(Color::Hs { h, s }),
                _ => None,
            }
        } else if keys_exactly(ms, xy_keys()) {
            match (spec_get_num(ms, "x"@), spec_get_num(ms, "y"@)) {
                (Some(x), Some(y)) => Some(Color::Xy { x, y }),
                _ => None,
            }
        } else {
            None
        },
        _ => None,
    }
}

/// Truncating a decimal toward zero: drop `scale` digits.
pub open spec fn spec_num_trunc(mant: u64, scale: u8) -> u64
    decreases scale,
{
    if scale == 0 {
        mant
    } else {
        spec_num_trunc(mant / 10, (scale - 1) as u8)
    }
}

/// What a decimal reads as when forced into `0..=255`: negative values give
/// 0, larger ones give 255, the rest truncate toward zero.
pub open spec fn spec_num_sat_u8(n: JsonNum) -> u8 {
    if n.neg {
        0u8
    } else {
        let t = spec_num_trunc(n.mant, n.scale);
        if t > 255 {
            255u8
        } else {
            t as u8
        }
    }
}

/// Forces a decimal into a color channel, as [`spec_num_sat_u8`] says.
pub fn num_sat_u8(n: JsonNum) -> (r: u8)
    ensures
        r == spec_num_sat_u8(n),
{
    if n.neg {
        return 0;
    }
    let mut m: u64 = n.mant;
    let mut k: u8 = n.scale;
    while k > 0
        invariant
            spec_num_trunc(m, k) == spec_num_trunc(n.mant, n.scale),
        decreases k,
    {
        m = m / 10;
        k = k - 1;
    }
    if m > 255 {
        255
    } else {
        m as u8
    }
}

impl Color {
    pub open spec fn spec_hass_key(self) -> Seq<char> {
        match self {
            Color::Rgbww { .. } => "rgbww_color"@,
            Color::Rgbw { .. } => "rgbw_color"@,
            Color::Rgb { .. } => "rgb_color"@,
            Color::Hs { .. } => "hs_color"@,
            Color::Xy { .. } => "xy_color"@,
        }
    }

    /// The service-data key Home Assistant expects for this color form.
    pub fn hass_service_data_key(&self) -> (r: &'static str)
        ensures
            r@ == self.spec_hass_key(),
    {
        match *self {
            Color::Rgbww { .. } => "rgbww_color",
            Color::Rgbw { .. } => "rgbw_color",
            Color::Rgb { .. } => "rgb_color",
            Color::Hs { .. } => "hs_color",
            Color::Xy { .. } => "xy_color",
        }
    }

    pub open spec fn spec_to_hass(self) -> Seq<JsonNum> {
        match self {
            Color::Rgbww { r, g, b, cw, ww } => seq![
                JsonNum { neg: false, mant: r as u64, scale: 0 },
                JsonNum { neg: false, mant: g as u64, scale: 0 },
                JsonNum { neg: false, mant: b as u64, scale: 0 },
                JsonNum { neg: false, mant: cw as u64, scale: 0 },
                JsonNum { neg: false, mant: ww as u64, scale: 0 },
            ],
            Color::Rgbw { r, g, b, w } => seq![
                JsonNum { neg: false, mant: r as u64, scale: 0 },
                JsonNum { neg: false, mant: g as u64, scale: 0 },
                JsonNum { neg: false, mant: b as u64, scale: 0 },
                JsonNum { neg: false, mant: w as u64, scale: 0 },
            ],
            Color::Rgb { r, g, b } => seq![
                JsonNum { neg: false, mant: r as u64, scale: 0 },
                JsonNum { neg: false, mant: g as u64, scale: 0 },
                JsonNum { neg: false, mant: b as u64, scale: 0 },
            ],
            Color::Hs { h, s } => seq![h, s],
            Color::Xy { x, y } => seq![x, y],
        }
    }

    /// The color as the number list Home Assistant's services take.
    pub fn to_hass(&self) -> (r: Vec<JsonNum>)
        ensures
            r@ == self.spec_to_hass(),
    {
        let r = match *self {
            Color::Rgbww { r, g, b, cw, ww } => vec![
                JsonNum::from_u64(r as u64),
                JsonNum::from_u64(g as u64),
                JsonNum::from_u64(b as u64),
                JsonNum::from_u64(cw as u64),
                JsonNum::from_u64(ww as u64),
            ],
            Color::Rgbw { r, g, b, w } => vec![
                JsonNum::from_u64(r as u64),
                JsonNum::from_u64(g as u64),
                JsonNum::from_u64(b as u64),
                JsonNum::from_u64(w as u64),
            ],
            Color::Rgb { r, g, b } => vec![
                JsonNum::from_u64(r as u64),
                JsonNum::from_u64(g as u64),
                JsonNum::from_u64(b as u64),
            ],
            Color::Hs { h, s } => vec![h, s],
            Color::Xy { x, y } => vec![x, y],
        };
        proof {
            assert(r@ =~= self.spec_to_hass());
        }
        r
    }

    pub open spec fn spec_from_slice(mode: ColorMode, data: Seq<JsonNum>) -> Option<Color> {
        match mode {
            ColorMode::Rgbww => if data.len() == 5 {
                Some(
                    Color::Rgbww {
                        r: spec_num_sat_u8(data[0]),
                        g: spec_num_sat_u8(data[1]),
                        b: spec_num_sat_u8(data[2]),
                        cw: spec_num_sat_u8(data[3]),
                        ww: spec_num_sat_u8(data[4]),
                    },
                )
            } else {
                None
            },
            ColorMode::Rgbw => if data.len() == 4 {
                Some(
                    Color::Rgbw {
                        r: spec_num_sat_u8(data[0]),
                        g: spec_num_sat_u8(data[1]),
                        b: spec_num_sat_u8(data[2]),
                        w: spec_num_sat_u8(data[3]),
                    },
                )
            } else {
                None
            },
            ColorMode::Rgb => if data.len() == 3 {
                Some(
                    Color::Rgb {
                        r: spec_num_sat_u8(data[0]),
                        g: spec_num_sat_u8(data[1]),
                        b: spec_num_sat_u8(data[2]),
                    },
                )
            } else {
                None
            },
            ColorMode::Hs => if data.len() == 2 {
                Some(Color::Hs { h: data[0], s: data[1] })
            } else {
                None
            },
            ColorMode::Xy => if data.len() == 2 {
                Some(Color::Xy { x: data[0], y: data[1] })
            } else {
                None
            },
            _ => None,
        }
    }

    /// Reads a color out of a mode marker and a coordinate list; modes
    /// without coordinates give no color.
    pub fn from_slice(mode: ColorMode, data: &[JsonNum]) -> (r: Option<Color>)
        ensures
            r == Color::spec_from_slice(mode, data@),
    {
        match mode {
            ColorMode::Rgbww => if data.len() == 5 {
                Some(
                    Color::Rgbww {
                        r: num_sat_u8(data[0]),
                        g: num_sat_u8(data[1]),
                        b: num_sat_u8(data[2]),
                        cw: num_sat_u8(data[3]),
                        ww: num_sat_u8(data[4]),
                    },
                )
            } else {
                None
            },
            ColorMode::Rgbw => if data.len() == 4 {
                Some(
                    Color::Rgbw {
                        r: num_sat_u8(data[0]),
                        g: num_sat_u8(data[1]),
                        b: num_sat_u8(data[2]),
                        w: num_sat_u8(data[3]),
                    },
                )
            } else {
                None
            },
            ColorMode::Rgb => if data.len() == 3 {
                Some(
                    Color::Rgb {
                        r: num_sat_u8(data[0]),
                        g: num_sat_u8(data[1]),
                        b: num_sat_u8(data[2]),
                    },
                )
            } else {
                None
            },
            ColorMode::Hs => if data.len() == 2 {
                Some(Color::Hs { h: data[0], s: data[1] })
            } else {
                None
            },
            ColorMode::Xy => if data.len() == 2 {
                Some(Color::Xy { x: data[0], y: data[1] })
            } else {
                None
            },
            ColorMode::ColorTemp => None,
            ColorMode::Brightness => None,
            ColorMode::OnOff => None,
        }
    }

    pub fn to_json(&self) -> (j: Json)
        ensures
            j@ == spec_color_to_json(*self),
    {
        let members: Vec<(String, Json)> = match *self {
            Color::Rgbww { r, g, b, cw, ww } => vec![
                (String::from_str("r"), Json::Num(JsonNum::from_u64(r as u64))),
                (String::from_str("g"), Json::Num(JsonNum::from_u64(g as u64))),
                (String::from_str("b"), Json::Num(JsonNum::from_u64(b as u64))),
                (String::from_str("cw"), Json::Num(JsonNum::from_u64(cw as u64))),
                (String::from_str("ww"), Json::Num(JsonNum::from_u64(ww as u64))),
            ],
            Color::Rgbw { r, g, b, w } => vec![
                (String::from_str("r"), Json::Num(JsonNum::from_u64(r as u64))),
                (String::from_str("g"), Json::Num(JsonNum::from_u64(g as u64))),
                (String::from_str("b"), Json::Num(JsonNum::from_u64(b as u64))),
                (String::from_str("w"), Json::Num(JsonNum::from_u64(w as u64))),
            ],
            Color::Rgb { r, g, b } => vec![
                (String::from_str("r"), Json::Num(JsonNum::from_u64(r as u64))),
                (String::from_str("g"), Json::Num(JsonNum::from_u64(g as u64))),
                (String::from_str("b"), Json::Num(JsonNum::from_u64(b as u64))),
            ],
            Color::Hs { h, s } => vec![
                (String::from_str("h"), Json::Num(h)),
                (String::from_str("s"), Json::Num(s)),
            ],
            Color::Xy { x, y } => vec![
                (String::from_str("x"), Json::Num(x)),
                (String::from_str("y"), Json::Num(y)),
            ],
        };
        proof {
            lemma_member_views_len(members@);
            assert(member_views(members@) =~= spec_color_to_json(*self)->Obj_0);
        }
        Json::Obj(members)
    }

    pub fn from_json(j: &Json) -> (r: Option<Color>)
        ensures
            r == spec_color_from_json(j@),
    {
        let members = match j {
            Json::Obj(members) => members,
            _ => { return None; },
        };
        let ghost ms = member_views(members@);
        proof {
            lemma_member_views_len(members@);
        }
        if members.len() == 5 && has_key(members, "r") && has_key(members, "g") && has_key(
            members,
            "b",
        ) && has_key(members, "cw") && has_key(members, "ww") {
            proof {
                assert(keys_exactly(ms, rgbww_keys()));
            }
            match (
                get_u8_field(members, "r"),
                get_u8_field(members, "g"),
                get_u8_field(members, "b"),
                get_u8_field(members, "cw"),
                get_u8_field(members, "ww"),
            ) {
                (Some(r), Some(g), Some(b), Some(cw), Some(ww)) => Some(
                    Color::Rgbww { r, g, b, cw, ww },
                ),
                _ => None,
            }
        } else {
            proof {
                assert(!keys_exactly(ms, rgbww_keys()));
            }
            if members.len() == 4 && has_key(members, "r") && has_key(members, "g") && has_key(
                members,
                "b",
            ) && has_key(members, "w") {
                proof {
                    assert(keys_exactly(ms, rgbw_keys()));
                }
                match (
                    get_u8_field(members, "r"),
                    get_u8_field(members, "g"),
                    get_u8_field(members, "b"),
                    get_u8_field(members, "w"),
                ) {
                    (Some(r), Some(g), Some(b), Some(w)) => Some(Color::Rgbw { r, g, b, w }),
                    _ => None,
                }
            } else {
                proof {
                    assert(!keys_exactly(ms, rgbw_keys()));
                }
                if members.len() == 3 && has_key(members, "r") && has_key(members, "g") && has_key(
                    members,
                    "b",
                ) {
                    proof {
                        assert(keys_exactly(ms, rgb_keys()));
                    }
                    match (
                        get_u8_field(members, "r"),
                        get_u8_field(members, "g"),
                        get_u8_field(members, "b"),
                    ) {
                        (Some(r), Some(g), Some(b)) => Some(Color::Rgb { r, g, b }),
                        _ => None,
                    }
                } else {
                    proof {
                        assert(!keys_exactly(ms, rgb_keys()));
                    }
                    if members.len() == 2 && has_key(members, "h") && has_key(members, "s") {
                        proof {
                            assert(keys_exactly(ms, hs_keys()));
                        }
                        match (get_num(members, "h"), get_num(members, "s")) {
                            (Some(h), Some(s)) => Some(Color::Hs { h, s }),
                            _ => None,
                        }
                    } else {
                        proof {
                            assert(!keys_exactly(ms, hs_keys()));
                        }
                        if members.len() == 2 && has_key(members, "x") && has_key(members, "y") {
                            proof {
                                assert(keys_exactly(ms, xy_keys()));
                            }
                            match (get_num(members, "x"), get_num(members, "y")) {
                                (Some(x), Some(y)) => Some(Color::Xy { x, y }),
                                _ => None,
                            }
                        } else {
                            proof {
                                assert(!keys_exactly(ms, xy_keys()));
                            }
                            None
                        }
                    }
                }
            }
        }
    }
}

/// Decoding the JSON form of a [`Color`] gives the color back.
pub proof fn lemma_color_round_trip(c: Color)
    ensures
        spec_color_from_json(spec_color_to_json(c)) == Some(c),
{
    reveal_strlit("r");
    reveal_strlit("g");
    reveal_strlit("b");
    reveal_strlit("cw");
    reveal_strlit("ww");
    reveal_strlit("w");
    reveal_strlit("h");
    reveal_strlit("s");
    reveal_strlit("x");
    reveal_strlit("y");
    reveal_with_fuel(obj_get, 8);
    assert("r"@.len() == 1 && "g"@.len() == 1 && "b"@.len() == 1 && "w"@.len() == 1 && "h"@.len()
        == 1 && "s"@.len() == 1 && "x"@.len() == 1 && "y"@.len() == 1);
    assert("cw"@.len() == 2 && "ww"@.len() == 2);
    assert("r"@[0] == 'r' && "g"@[0] == 'g' && "b"@[0] == 'b' && "w"@[0] == 'w' && "h"@[0] == 'h'
        && "s"@[0] == 's' && "x"@[0] == 'x' && "y"@[0] == 'y');
    assert("cw"@[0] == 'c' && "ww"@[0] == 'w' && "ww"@[1] == 'w' && "cw"@[1] == 'w');
    let ms = spec_color_to_json(c)->Obj_0;
    match c {
        Color::Rgbww { r, g, b, cw, ww } => {
            assert(obj_has(ms, "r"@) && obj_has(ms, "g"@) && obj_has(ms, "b"@) && obj_has(
                ms,
                "cw"@,
            ) && obj_has(ms, "ww"@));
            assert(keys_exactly(ms, rgbww_keys()));
        },
        Color::Rgbw { r, g, b, w } => {
            assert(obj_has(ms, "r"@) && obj_has(ms, "g"@) && obj_has(ms, "b"@) && obj_has(
                ms,
                "w"@,
            ));
            assert(keys_exactly(ms, rgbw_keys()));
        },
        Color::Rgb { r, g, b } => {
            assert(obj_has(ms, "r"@) && obj_has(ms, "g"@) && obj_has(ms, "b"@));
            assert(keys_exactly(ms, rgb_keys()));
        },
        Color::Hs { h, s } => {
            assert(obj_has(ms, "h"@) && obj_has(ms, "s"@));
            assert(keys_exactly(ms, hs_keys()));
            assert(!obj_has(ms, "x"@));
        },
        Color::Xy { x, y } => {
            assert(obj_has(ms, "x"@) && obj_has(ms, "y"@));
            assert(keys_exactly(ms, xy_keys()));
            assert(!obj_has(ms, "h"@));
            assert(!keys_exactly(ms, hs_keys()));
        },
    }
}

/// Untagged color disambiguation: an object whose keys exactly match one
/// variant's key set decodes into that variant exactly when its values are
/// admissible; an object whose keys match no variant — in particular one
/// with a foreign or missing key — decodes to nothing.
pub proof fn lemma_color_disambiguation(ms: Seq<(Seq<char>, JsonV)>)
    ensures
        !keys_exactly(ms, rgbww_keys()) && !keys_exactly(ms, rgbw_keys()) && !keys_exactly(
            ms,
            rgb_keys(),
        ) && !keys_exactly(ms, hs_keys()) && !keys_exactly(ms, xy_keys())
            ==> spec_color_from_json(JsonV::Obj(ms)) is None,
        keys_exactly(ms, rgbww_keys()) ==> (match spec_color_from_json(JsonV::Obj(ms)) {
            Some(c) => c is Rgbww,
            None => !(spec_get_u8(ms, "r"@) is Some && spec_get_u8(ms, "g"@) is Some
                && spec_get_u8(ms, "b"@) is Some && spec_get_u8(ms, "cw"@) is Some && spec_get_u8(
                ms,
                "ww"@,
            ) is Some),
        }),
        keys_exactly(ms, rgbw_keys()) ==> (match spec_color_from_json(JsonV::Obj(ms)) {
            Some(c) => c is Rgbw,
            None => !(spec_get_u8(ms, "r"@) is Some && spec_get_u8(ms, "g"@) is Some
                && spec_get_u8(ms, "b"@) is Some && spec_get_u8(ms, "w"@) is Some),
        }),
        keys_exactly(ms, rgb_keys()) ==> (match spec_color_from_json(JsonV::Obj(ms)) {
            Some(c) => c is Rgb,
            None => !(spec_get_u8(ms, "r"@) is Some && spec_get_u8(ms, "g"@) is Some
                && spec_get_u8(ms, "b"@) is Some),
        }),
        keys_exactly(ms, hs_keys()) ==> (match spec_color_from_json(JsonV::Obj(ms)) {
            Some(c) => c is Hs,
            None => !(spec_get_num(ms, "h"@) is Some && spec_get_num(ms, "s"@) is Some),
        }),
        keys_exactly(ms, xy_keys()) && !keys_exactly(ms, hs_keys()) ==> (match
            spec_color_from_json(JsonV::Obj(ms)) {
            Some(c) => c is Xy,
            None => !(spec_get_num(ms, "x"@) is Some && spec_get_num(ms, "y"@) is Some),
        }),
{
    reveal_strlit("r");
    reveal_strlit("g");
    reveal_strlit("b");
    reveal_strlit("cw");
    reveal_strlit("ww");
    reveal_strlit("w");
    reveal_strlit("h");
    reveal_strlit("s");
    reveal_strlit("x");
    reveal_strlit("y");
    assert("r"@.len() == 1 && "g"@.len() == 1 && "b"@.len() == 1 && "w"@.len() == 1 && "h"@.len()
        == 1 && "s"@.len() == 1 && "x"@.len() == 1 && "y"@.len() == 1);
    assert("cw"@.len() == 2 && "ww"@.len() == 2);
}

/// The state of a light; `brightness` ranges over 0.0-1.0.
#[derive(Clone, Copy, Debug, PartialEq)]
pub struct LightState {
    /// Should also be provided by `tanuki.on_off`
    pub on: bool,
    /// Brightness level (0.0-1.0)
    pub brightness: Option<JsonNum>,
    pub color: Option<Color>,
}

impl View for LightState {
    type V = LightState;

    open spec fn view(&self) -> LightState {
        *self
    }
}

pub open spec fn spec_light_state_members(v: LightState) -> Seq<(Seq<char>, JsonV)> {
    let base = seq![("on"@, JsonV::Bool(v.on))];
    let with_b = match v.brightness {
        Some(n) => base.push(("brightness"@, JsonV::Num(n))),
        None => base,
    };
    match v.color {
        Some(c) => with_b.push(("color"@, spec_color_to_json(c))),
        None => with_b,
    }
}

pub open spec fn spec_light_state_from(j: JsonV) -> Option<LightState> {
    match j {
        JsonV::Obj(ms) => match (spec_get_bool(ms, "on"@), spec_opt_num(ms, "brightness"@)) {
            (Some(on), Some(brightness)) => match obj_get(ms, "color"@) {
                None => Some(LightState { on, brightness, color: None }),
                Some(JsonV::Null) => Some(LightState { on, brightness, color: None }),
                Some(cj) => match spec_color_from_json(cj) {
                    Some(c) => Some(LightState { on, brightness, color: Some(c) }),
                    None => None,
                },
            },
            _ => None,
        },
        _ => None,
    }
}

impl Property for LightState {
    open spec fn spec_key() -> Seq<char> {
        "state"@
    }

    open spec fn spec_kind() -> PropertyKind {
        PropertyKind::State
    }

    open spec fn spec_to_json(v: LightState) -> JsonV {
        JsonV::Obj(spec_light_state_members(v))
    }

    open spec fn spec_from_json(j: JsonV) -> Option<LightState> {
        spec_light_state_from(j)
    }

    fn key() -> (r: &'static str) {
        "state"
    }

    fn kind() -> (r: PropertyKind) {
        PropertyKind::State
    }

    fn to_json(&self) -> (j: Json) {
        let mut members: Vec<(String, Json)> = vec![(String::from_str("on"), Json::Bool(self.on))];
        if let Some(n) = self.brightness {
            members.push((String::from_str("brightness"), Json::Num(n)));
        }
        if let Some(c) = self.color {
            members.push((String::from_str("color"), c.to_json()));
        }
        proof {
            lemma_member_views_len(members@);
            assert(member_views(members@) =~= spec_light_state_members(*self));
        }
        Json::Obj(members)
    }

    fn from_json(j: &Json) -> (r: Option<LightState>) {
        let members = match j {
            Json::Obj(members) => members,
            _ => { return None; },
        };
        let on = match get_bool(members, "on") {
            Some(on) => on,
            None => { return None; },
        };
        let brightness = match get_opt_num(members, "brightness") {
            Some(b) => b,
            None => { return None; },
        };
        match crate::json::obj_lookup(members, "color") {
            None => Some(LightState { on, brightness, color: None }),
            Some(i) => match &members[i].1 {
                Json::Null => Some(LightState { on, brightness, color: None }),
                cj => match Color::from_json(cj) {
                    Some(c) => Some(LightState { on, brightness, color: Some(c) }),
                    None => None,
                },
            },
        }
    }
}

impl LightProperty for LightState {

}

/// Decoding the JSON form of a [`LightState`] gives the state back.
pub proof fn lemma_light_state_round_trip(v: LightState)
    ensures
        LightState::spec_from_json(LightState::spec_to_json(v)) == Some(v),
{
    reveal_strlit("on");
    reveal_strlit("brightness");
    reveal_strlit("color");
    reveal_with_fuel(obj_get, 5);
    assert("on"@.len() == 2 && "brightness"@.len() == 10 && "color"@.len() == 5);
    let ms = spec_light_state_members(v);
    if let Some(c) = v.color {
        lemma_color_round_trip(c);
        assert(spec_color_to_json(c) is Obj);
    }
    assert(spec_get_bool(ms, "on"@) == Some(v.on));
    assert(spec_opt_num(ms, "brightness"@) == Some(v.brightness));
}

/// A command for `tanuki.light`: a target on/off state and optionally a
/// color.
#[derive(Clone, Copy, Debug, PartialEq)]
pub struct LightCommand {
    pub on: bool,
    pub color: Option<Color>,
}

impl View for LightCommand {
    type V = LightCommand;

    open spec fn view(&self) -> LightCommand {
        *self
    }
}

pub open spec fn spec_light_command_members(v: LightCommand) -> Seq<(Seq<char>, JsonV)> {
    let base = seq![("on"@, JsonV::Bool(v.on))];
    match v.color {
        Some(c) => base.push(("color"@, spec_color_to_json(c))),
        None => base,
    }
}

pub open spec fn spec_light_command_from(j: JsonV) -> Option<LightCommand> {
    match j {
        JsonV::Obj(ms) => match spec_get_bool(ms, "on"@) {
            Some(on) => match obj_get(ms, "color"@) {
                None => Some(LightCommand { on, color: None }),
                Some(JsonV::Null) => Some(LightCommand { on, color: None }),
                Some(cj) => match spec_color_from_json(cj) {
                    Some(c) => Some(LightCommand { on, color: Some(c) }),
                    None => None,
                },
            },
            None => None,
        },
        _ => None,
    }
}

impl Property for LightCommand {
    open spec fn spec_key() -> Seq<char> {
        "command"@
    }

    open spec fn spec_kind() -> PropertyKind {
        PropertyKind::Command
    }

    open spec fn spec_to_json(v: LightCommand) -> JsonV {
        JsonV::Obj(spec_light_command_members(v))
    }

    open spec fn spec_from_json(j: JsonV) -> Option<LightCommand> {
        spec_light_command_from(j)
    }

    fn key() -> (r: &'static str) {
        "command"
    }

    fn kind() -> (r: PropertyKind) {
        PropertyKind::Command
    }

    fn to_json(&self) -> (j: Json) {
        let mut members: Vec<(String, Json)> = vec![(String::from_str("on"), Json::Bool(self.on))];
        if let Some(c) = self.color {
            members.push((String::from_str("color"), c.to_json()));
        }
        proof {
            lemma_member_views_len(members@);
            assert(member_views(members@) =~= spec_light_command_members(*self));
        }
        Json::Obj(members)
    }

    fn from_json(j: &Json) -> (r: Option<LightCommand>) {
        let members = match j {
            Json::Obj(members) => members,
            _ => { return None; },
        };
        let on = match get_bool(members, "on") {
            Some(on) => on,
            None => { return None; },
        };
        match crate::json::obj_lookup(members, "color") {
            None => Some(LightCommand { on, color: None }),
            Some(i) => match &members[i].1 {
                Json::Null => Some(LightCommand { on, color: None }),
                cj => match Color::from_json(cj) {
                    Some(c) => Some(LightCommand { on, color: Some(c) }),
                    None => None,
                },
            },
        }
    }
}

impl LightProperty for LightCommand {

}

/// Decoding the JSON form of a [`LightCommand`] gives the command back.
pub proof fn lemma_light_command_round_trip(v: LightCommand)
    ensures
        LightCommand::spec_from_json(LightCommand::spec_to_json(v)) == Some(v),
{
    reveal_strlit("on");
    reveal_strlit("color");
    reveal_with_fuel(obj_get, 5);
    assert("on"@.len() == 2 && "color"@.len() == 5);
    let ms = spec_light_command_members(v);
    if let Some(c) = v.color {
        lemma_color_round_trip(c);
        assert(spec_color_to_json(c) is Obj);
    }
    assert(spec_get_bool(ms, "on"@) == Some(v.on));
}

} // verus!
