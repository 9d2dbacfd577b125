use vstd::prelude::*;

use crate::strutil::eq_str;

verus! {

/// A JSON number in decimal form: `(-1)^neg * mant / 10^scale`.
#[derive(Clone, Copy, Debug, PartialEq, Eq, Structural)]
pub struct JsonNum {
    pub neg: bool,
    pub mant: u64,
    pub scale: u8,
}

impl JsonNum {
    /// The whole number `v`.
    pub fn from_u64(v: u64) -> (r: JsonNum)
        ensures
            r == (JsonNum { neg: false, mant: v, scale: 0 }),
    {
        JsonNum { neg: false, mant: v, scale: 0 }
    }

    /// The whole number `v`, of either sign.
    pub fn from_i32(v: i32) -> (r: JsonNum)
        ensures
            r == spec_num_of_i32(v),
    {
        if v < 0 {
            JsonNum { neg: true, mant: (-(v as i64)) as u64, scale: 0 }
        } else {
            JsonNum { neg: false, mant: v as u64, scale: 0 }
        }
    }

    /// The whole number `v`, of either sign.
    pub fn from_i64(v: i64) -> (r: JsonNum)
        ensures
            r == spec_num_of_i64(v),
    {
        if v < 0 {
            JsonNum { neg: true, mant: (-(v as i128)) as u64, scale: 0 }
        } else {
            JsonNum { neg: false, mant: v as u64, scale: 0 }
        }
    }

    /// Reads the number back as an `i64` whole number, if it is one.
    pub fn as_i64(&self) -> (r: Option<i64>)
        ensures
            r == spec_num_as_i64(*self),
    {
        if self.scale != 0 {
            None
        } else if self.neg {
            if self.mant <= 0x8000_0000_0000_0000u64 {
                Some((-(self.mant as i128)) as i64)
            } else {
                None
            }
        } else {
            if self.mant <= 0x7FFF_FFFF_FFFF_FFFFu64 {
                Some(self.mant as i64)
            } else {
                None
            }
        }
    }

    /// Reads the number back as a `u64` whole number, if it is one.
    pub fn as_u64(&self) -> (r: Option<u64>)
        ensures
            r == spec_num_as_u64(*self),
    {
        if self.scale == 0 && (!self.neg || self.mant == 0) {
            Some(self.mant)
        } else {
            None
        }
    }

    /// Reads the number back as an `i32` whole number, if it is one.
    pub fn as_i32(&self) -> (r: Option<i32>)
        ensures
            r == spec_num_as_i32(*self),
    {
        if self.scale != 0 {
            None
        } else if self.neg {
            if self.mant <= 0x8000_0000u64 {
                Some((-(self.mant as i64)) as i32)
            } else {
                None
            }
        } else {
            if self.mant <= 0x7FFF_FFFFu64 {
                Some(self.mant as i32)
            } else {
                None
            }
        }
    }

    /// Reads the number back as a `u32` whole number, if it is one.
    pub fn as_u32(&self) -> (r: Option<u32>)
        ensures
            r == spec_num_as_u32(*self),
    {
        if self.scale == 0 && (!self.neg || self.mant == 0) && self.mant <= 0xFFFF_FFFFu64 {
            Some(self.mant as u32)
        } else {
            None
        }
    }

    /// The same value with trailing zero digits of the fraction dropped.
    pub fn normalized(self) -> (r: JsonNum)
        ensures
            r == spec_normalized(self),
    {
        let mut m: u64 = self.mant;
        let mut k: u8 = self.scale;
        while k > 0 && m % 10 == 0
            invariant
                spec_normalized(JsonNum { neg: self.neg, mant: m, scale: k })
                    == spec_normalized(self),
            decreases k,
        {
            m = m / 10;
            k = k - 1;
        }
        JsonNum { neg: self.neg, mant: m, scale: k }
    }

    /// Reads the number back as a `u8` whole number, if it is one.
    pub fn as_u8(&self) -> (r: Option<u8>)
        ensures
            r == spec_num_as_u8(*self),
    {
        if self.scale == 0 && !self.neg && self.mant <= 255 {
            Some(self.mant as u8)
        } else {
            None
        }
    }
}

pub open spec fn spec_num_of_i64(v: i64) -> JsonNum {
    if v < 0 {
        JsonNum { neg: true, mant: (-(v as int)) as u64, scale: 0 }
    } else {
        JsonNum { neg: false, mant: v as u64, scale: 0 }
    }
}

pub open spec fn spec_num_as_i64(n: JsonNum) -> Option<i64> {
    if n.scale != 0 {
        None
    } else if n.neg {
        if n.mant <= 0x8000_0000_0000_0000u64 {
            Some((-(n.mant as int)) as i64)
        } else {
            None
        }
    } else {
        if n.mant <= 0x7FFF_FFFF_FFFF_FFFFu64 {
            Some(n.mant as i64)
        } else {
            None
        }
    }
}

pub open spec fn spec_num_as_u64(n: JsonNum) -> Option<u64> {
    if n.scale == 0 && (!n.neg || n.mant == 0) {
        Some(n.mant)
    } else {
        None
    }
}

pub open spec fn spec_num_of_i32(v: i32) -> JsonNum {
    if v < 0 {
        JsonNum { neg: true, mant: (-(v as int)) as u64, scale: 0 }
    } else {
        JsonNum { neg: false, mant: v as u64, scale: 0 }
    }
}

pub open spec fn spec_num_as_i32(n: JsonNum) -> Option<i32> {
    if n.scale != 0 {
        None
    } else if n.neg {
        if n.mant <= 0x8000_0000u64 {
            Some((-(n.mant as int)) as i32)
        } else {
            None
        }
    } else {
        if n.mant <= 0x7FFF_FFFFu64 {
            Some(n.mant as i32)
        } else {
            None
        }
    }
}

pub open spec fn spec_num_as_u32(n: JsonNum) -> Option<u32> {
    if n.scale == 0 && (!n.neg || n.mant == 0) && n.mant <= 0xFFFF_FFFFu64 {
        Some(n.mant as u32)
    } else {
        None
    }
}

/// The same value with trailing zero digits of the fraction dropped.
pub open spec fn spec_normalized(n: JsonNum) -> JsonNum
    decreases n.scale,
{
    if n.scale == 0 || n.mant % 10 != 0 {
        n
    } else {
        spec_normalized(JsonNum { neg: n.neg, mant: n.mant / 10, scale: (n.scale - 1) as u8 })
    }
}

pub open spec fn spec_num_as_u8(n: JsonNum) -> Option<u8> {
    if n.scale == 0 && !n.neg && n.mant <= 255 {
        Some(n.mant as u8)
    } else {
        None
    }
}

/// What a decimal string without an exponent part denotes: an optional
/// sign, digits, and an optional fraction. Non-finite forms are not read,
/// nor are values whose digits exceed the `u64` range.
pub open spec fn spec_parse_decimal_plain(s: Seq<char>) -> Option<JsonNum> {
    if s.len() == 0 {
        None
    } else {
        let neg = s[0] == '-';
        let t = if s[0] == '-' || s[0] == '+' {
            s.skip(1)
        } else {
            s
        };
        let dot = crate::strutil::first_at(t, '.');
        if dot == -1 {
            if t.len() > 0 && crate::strutil::all_digits(t) && crate::strutil::dec_val(t)
                <= u64::MAX {
                Some(JsonNum { neg, mant: crate::strutil::dec_val(t) as u64, scale: 0 })
            } else {
                None
            }
        } else {
            let digits = t.take(dot) + t.skip(dot + 1);
            if digits.len() > 0 && crate::strutil::all_digits(digits) && crate::strutil::dec_val(
                digits,
            ) <= u64::MAX && t.len() - dot - 1 <= 255 {
                Some(
                    JsonNum {
                        neg,
                        mant: crate::strutil::dec_val(digits) as u64,
                        scale: (t.len() - dot - 1) as u8,
                    },
                )
            } else {
                None
            }
        }
    }
}

/// Reads a decimal string without an exponent part, as
/// [`spec_parse_decimal_plain`] says.
#[verifier::rlimit(60)]
fn parse_decimal_plain(s: &str) -> (r: Option<JsonNum>)
    ensures
        r == spec_parse_decimal_plain(s@),
{
    let n = s.unicode_len();
    if n == 0 {
        return None;
    }
    let c0 = s.get_char(0);
    let neg = c0 == '-';
    let start: usize = if c0 == '-' || c0 == '+' {
        1
    } else {
        0
    };
    let ghost t = s@.skip(start as int);
    proof {
        if start == 0 {
            assert(t =~= s@);
        }
    }
    match crate::strutil::find_char(s, start, '.') {
        None => {
            proof {
                crate::strutil::lemma_first_at_of_suffix(s@, start as int, '.', -1);
            }
            if start == n {
                return None;
            }
            match crate::strutil::accum_digits(s, start, n, 0, Ghost(Seq::empty())) {
                Some(v) => {
                    proof {
                        assert(Seq::<char>::empty() + s@.subrange(start as int, n as int) =~= t);
                    }
                    Some(JsonNum { neg, mant: v, scale: 0 })
                },
                None => {
                    proof {
                        assert(Seq::<char>::empty() + s@.subrange(start as int, n as int) =~= t);
                    }
                    None
                },
            }
        },
        Some(dot_abs) => {
            proof {
                crate::strutil::lemma_first_at_of_suffix(s@, start as int, '.', dot_abs as int);
            }
            let ghost dot = dot_abs - start;
            let ghost int_part = s@.subrange(start as int, dot_abs as int);
            let ghost frac_part = s@.subrange(dot_abs + 1, n as int);
            let ghost digits = int_part + frac_part;
            proof {
                assert(t.take(dot as int) =~= int_part);
                assert(t.skip(dot + 1) =~= frac_part);
            }
            let frac_len = n - dot_abs - 1;
            if dot_abs == start && frac_len == 0 {
                proof {
                    assert(digits.len() == 0);
                }
                return None;
            }
            if frac_len > 255 {
                return None;
            }
            match crate::strutil::accum_digits(s, start, dot_abs, 0, Ghost(Seq::empty())) {
                None => {
                    proof {
                        assert(Seq::<char>::empty() + int_part =~= int_part);
                        if crate::strutil::all_digits(digits) && crate::strutil::dec_val(digits)
                            <= u64::MAX {
                            assert(crate::strutil::all_digits(int_part)) by {
                                assert(forall|j: int|
                                    0 <= j < int_part.len() ==> int_part[j] == digits[j]);
                            }
                            assert(digits.take(int_part.len() as int) =~= int_part);
                            crate::strutil::lemma_dec_val_mono(digits, int_part.len() as int);
                        }
                    }
                    None
                },
                Some(vi) => {
                    proof {
                        assert(Seq::<char>::empty() + int_part =~= int_part);
                    }
                    match crate::strutil::accum_digits(s, dot_abs + 1, n, vi, Ghost(int_part)) {
                        None => None,
                        Some(v) => Some(JsonNum { neg, mant: v, scale: frac_len as u8 }),
                    }
                },
            }
        },
    }
}

/// The index of the first exponent marker (`e` or `E`), or `-1`.
pub open spec fn spec_exp_marker(s: Seq<char>) -> int {
    let low = crate::strutil::first_at(s, 'e');
    let high = crate::strutil::first_at(s, 'E');
    if low == -1 {
        high
    } else if high == -1 {
        low
    } else if low <= high {
        low
    } else {
        high
    }
}

pub open spec fn spec_pow10(k: nat) -> int
    decreases k,
{
    if k == 0 {
        1
    } else {
        10 * spec_pow10((k - 1) as nat)
    }
}

pub proof fn lemma_pow10_pos(k: nat)
    ensures
        spec_pow10(k) >= 1,
    decreases k,
{
    if k > 0 {
        lemma_pow10_pos((k - 1) as nat);
    }
}

pub proof fn lemma_pow10_mono(a: nat, b: nat)
    requires
        a <= b,
    ensures
        spec_pow10(a) <= spec_pow10(b),
    decreases b,
{
    if a < b {
        lemma_pow10_mono(a, (b - 1) as nat);
        lemma_pow10_pos((b - 1) as nat);
    }
}

/// What an exponent part denotes: an optional sign and digits whose value
/// fits `u64`.
pub open spec fn spec_parse_exp(t: Seq<char>) -> Option<int> {
    if t.len() == 0 {
        None
    } else {
        let eneg = t[0] == '-';
        let d = if t[0] == '-' || t[0] == '+' {
            t.skip(1)
        } else {
            t
        };
        if d.len() > 0 && crate::strutil::all_digits(d) && crate::strutil::dec_val(d)
            <= u64::MAX {
            Some(
                if eneg {
                    -crate::strutil::dec_val(d)
                } else {
                    crate::strutil::dec_val(d)
                },
            )
        } else {
            None
        }
    }
}

/// A plain decimal shifted by a power of ten: the exponent folds into the
/// scale, or into the mantissa when it runs past the decimal point; a shift
/// the representation cannot hold refuses.
pub open spec fn spec_apply_exp(b: JsonNum, e: int) -> Option<JsonNum> {
    if b.mant == 0 {
        Some(JsonNum { neg: b.neg, mant: 0, scale: 0 })
    } else {
        let ns = b.scale - e;
        if ns >= 0 {
            if ns <= 255 {
                Some(JsonNum { neg: b.neg, mant: b.mant, scale: ns as u8 })
            } else {
                None
            }
        } else {
            if b.mant * spec_pow10((-ns) as nat) <= u64::MAX {
                Some(
                    JsonNum {
                        neg: b.neg,
                        mant: (b.mant * spec_pow10((-ns) as nat)) as u64,
                        scale: 0,
                    },
                )
            } else {
                None
            }
        }
    }
}

/// What a decimal string denotes: an optional sign, digits, an optional
/// fraction, and an optional exponent part. Non-finite forms are not read,
/// nor are values whose digits or exponent exceed what the decimal
/// representation holds.
pub open spec fn spec_parse_decimal(s: Seq<char>) -> Option<JsonNum> {
    let i = spec_exp_marker(s);
    if i == -1 {
        spec_parse_decimal_plain(s)
    } else {
        match (spec_parse_decimal_plain(s.take(i)), spec_parse_exp(s.skip(i + 1))) {
            (Some(b), Some(e)) => spec_apply_exp(b, e),
            _ => None,
        }
    }
}

fn parse_exp(s: &str, from: usize) -> (r: Option<(bool, u64)>)
    requires
        from <= s@.len(),
    ensures
        match r {
            Some(v) => spec_parse_exp(s@.skip(from as int)) == Some(
                if v.0 {
                    -(v.1 as int)
                } else {
                    v.1 as int
                },
            ),
            None => spec_parse_exp(s@.skip(from as int)) is None,
        },
{
    let ghost t = s@.skip(from as int);
    let n = s.unicode_len();
    if from == n {
        return None;
    }
    let c0 = s.get_char(from);
    proof {
        assert(t[0] == s@[from as int]);
    }
    let eneg = c0 == '-';
    let start = if c0 == '-' || c0 == '+' {
        from + 1
    } else {
        from
    };
    let ghost d = if c0 == '-' || c0 == '+' {
        t.skip(1)
    } else {
        t
    };
    proof {
        assert(d =~= s@.subrange(start as int, n as int));
    }
    if start == n {
        return None;
    }
    match crate::strutil::accum_digits(s, start, n, 0, Ghost(Seq::empty())) {
        Some(v) => {
            proof {
                assert(Seq::<char>::empty() + s@.subrange(start as int, n as int) =~= d);
            }
            Some((eneg, v))
        },
        None => {
            proof {
                assert(Seq::<char>::empty() + s@.subrange(start as int, n as int) =~= d);
            }
            None
        },
    }
}

fn apply_exp(b: JsonNum, eneg: bool, emag: u64) -> (r: Option<JsonNum>)
    ensures
        r == spec_apply_exp(
            b,
            if eneg {
                -(emag as int)
            } else {
                emag as int
            },
        ),
{
    if b.mant == 0 {
        return Some(JsonNum { neg: b.neg, mant: 0, scale: 0 });
    }
    if eneg {
        if emag <= 255 && b.scale as u64 + emag <= 255 {
            Some(JsonNum { neg: b.neg, mant: b.mant, scale: (b.scale as u64 + emag) as u8 })
        } else {
            None
        }
    } else {
        if emag <= b.scale as u64 {
            Some(JsonNum { neg: b.neg, mant: b.mant, scale: (b.scale as u64 - emag) as u8 })
        } else {
            let k = emag - b.scale as u64;
            if k > 19 {
                proof {
                    lemma_pow10_mono(20, k as nat);
                    assert(spec_pow10(20) > u64::MAX) by {
                        reveal_with_fuel(spec_pow10, 21);
                    }
                    assert(b.mant * spec_pow10(k as nat) > u64::MAX) by (nonlinear_arith)
                        requires
                            b.mant >= 1,
                            spec_pow10(k as nat) > u64::MAX,
                    ;
                }
                return None;
            }
            let mut p: u64 = 1;
            let mut j: u64 = 0;
            proof {
                assert(spec_pow10(19) == 0x8AC7_2304_89E8_0000) by {
                    reveal_with_fuel(spec_pow10, 20);
                }
            }
            while j < k
                invariant
                    j <= k <= 19,
                    p == spec_pow10(j as nat),
                    spec_pow10(19) == 0x8AC7_2304_89E8_0000,
                decreases k - j,
            {
                proof {
                    lemma_pow10_mono(j as nat, 18);
                    assert(spec_pow10(18) * 10 == spec_pow10(19));
                }
                p = p * 10;
                j = j + 1;
            }
            proof {
                lemma_pow10_pos(k as nat);
            }
            let limit = u64::MAX / p;
            if b.mant > limit {
                proof {
                    assert(b.mant * p > u64::MAX) by (nonlinear_arith)
                        requires
                            p >= 1,
                            b.mant > u64::MAX / p,
                            b.mant >= 0,
                            u64::MAX / p >= 0,
                            u64::MAX / p == (u64::MAX as int) / (p as int),
                    ;
                }
                None
            } else {
                proof {
                    assert(b.mant * p <= u64::MAX) by (nonlinear_arith)
                        requires
                            p >= 1,
                            0 <= b.mant <= u64::MAX / p,
                            u64::MAX / p == (u64::MAX as int) / (p as int),
                    ;
                }
                Some(JsonNum { neg: b.neg, mant: b.mant * p, scale: 0 })
            }
        }
    }
}

/// Reads a decimal string, as [`spec_parse_decimal`] says.
pub fn parse_decimal(s: &str) -> (r: Option<JsonNum>)
    ensures
        r == spec_parse_decimal(s@),
{
    let n = s.unicode_len();
    let low = crate::strutil::find_char(s, 0, 'e');
    let high = crate::strutil::find_char(s, 0, 'E');
    proof {
        crate::strutil::lemma_first_at_of_suffix(s@, 0, 'e', match low {
            Some(i) => i as int,
            None => -1,
        });
        crate::strutil::lemma_first_at_of_suffix(s@, 0, 'E', match high {
            Some(i) => i as int,
            None => -1,
        });
        assert(s@.skip(0) =~= s@);
    }
    let marker: Option<usize> = match (low, high) {
        (None, None) => None,
        (Some(a), None) => Some(a),
        (None, Some(b)) => Some(b),
        (Some(a), Some(b)) => Some(
            if a <= b {
                a
            } else {
                b
            },
        ),
    };
    match marker {
        None => parse_decimal_plain(s),
        Some(i) => {
            let base = s.substring_char(0, i);
            proof {
                assert(base@ =~= s@.take(i as int));
            }
            let b = match parse_decimal_plain(base) {
                Some(b) => b,
                None => { return None; },
            };
            match parse_exp(s, i + 1) {
                Some(e) => apply_exp(b, e.0, e.1),
                None => None,
            }
        },
    }
}

/// A JSON document tree; object members keep their order.
#[derive(Debug)]
pub enum Json {
    Null,
    Bool(bool),
    Num(JsonNum),
    Str(String),
    Arr(Vec<Json>),
    Obj(Vec<(String, Json)>),
}

/// The mathematical shape of a [`Json`] tree.
pub ghost enum JsonV {
    Null,
    Bool(bool),
    Num(JsonNum),
    Str(Seq<char>),
    Arr(Seq<JsonV>),
    Obj(Seq<(Seq<char>, JsonV)>),
}

pub open spec fn json_view(j: Json) -> JsonV
    decreases j,
{
    match j {
        Json::Null => JsonV::Null,
        Json::Bool(b) => JsonV::Bool(b),
        Json::Num(n) => JsonV::Num(n),
        Json::Str(s) => JsonV::Str(s@),
        Json::Arr(items) => JsonV::Arr(json_views(items@)),
        Json::Obj(members) => JsonV::Obj(member_views(members@)),
    }
}

pub open spec fn json_views(s: Seq<Json>) -> Seq<JsonV>
    decreases s,
{
    if s.len() == 0 {
        Seq::empty()
    } else {
        seq![json_view(s[0])] + json_views(s.subrange(1, s.len() as int))
    }
}

pub open spec fn member_views(s: Seq<(String, Json)>) -> Seq<(Seq<char>, JsonV)>
    decreases s,
{
    if s.len() == 0 {
        Seq::empty()
    } else {
        seq![(s[0].0@, json_view(s[0].1))] + member_views(s.subrange(1, s.len() as int))
    }
}

impl View for Json {
    type V = JsonV;

    open spec fn view(&self) -> JsonV {
        json_view(*self)
    }
}

pub proof fn lemma_json_views_len(s: Seq<Json>)
    ensures
        json_views(s).len() == s.len(),
        forall|i: int| 0 <= i < s.len() ==> #[trigger] json_views(s)[i] == json_view(s[i]),
    decreases s,
{
    if s.len() > 0 {
        lemma_json_views_len(s.subrange(1, s.len() as int));
        assert forall|i: int| 0 <= i < s.len() implies json_views(s)[i] == json_view(s[i]) by {
            if i > 0 {
                assert(s.subrange(1, s.len() as int)[i - 1] == s[i]);
            }
        }
    }
}

pub proof fn lemma_member_views_len(s: Seq<(String, Json)>)
    ensures
        member_views(s).len() == s.len(),
        forall|i: int| 0 <= i < s.len() ==> #[trigger] member_views(s)[i] == (
            s[i].0@,
            json_view(s[i].1),
        ),
    decreases s,
{
    if s.len() > 0 {
        lemma_member_views_len(s.subrange(1, s.len() as int));
        assert forall|i: int| 0 <= i < s.len() implies member_views(s)[i] == (
            s[i].0@,
            json_view(s[i].1),
        ) by {
            if i > 0 {
                assert(s.subrange(1, s.len() as int)[i - 1] == s[i]);
            }
        }
    }
}

/// First value bound to `key` among object members, if any.
pub open spec fn obj_get(ms: Seq<(Seq<char>, JsonV)>, key: Seq<char>) -> Option<JsonV>
    decreases ms,
{
    if ms.len() == 0 {
        None
    } else if ms[0].0 == key {
        Some(ms[0].1)
    } else {
        obj_get(ms.subrange(1, ms.len() as int), key)
    }
}

pub open spec fn obj_has(ms: Seq<(Seq<char>, JsonV)>, key: Seq<char>) -> bool {
    obj_get(ms, key) is Some
}

pub proof fn lemma_obj_get_first(ms: Seq<(Seq<char>, JsonV)>, key: Seq<char>, i: int)
    requires
        0 <= i < ms.len(),
        ms[i].0 == key,
        forall|j: int| 0 <= j < i ==> ms[j].0 != key,
    ensures
        obj_get(ms, key) == Some(ms[i].1),
    decreases ms,
{
    if i > 0 {
        let tail = ms.subrange(1, ms.len() as int);
        assert forall|j: int| 0 <= j < i - 1 implies tail[j].0 != key by {
            assert(tail[j] == ms[j + 1]);
        }
        assert(tail[i - 1] == ms[i]);
        lemma_obj_get_first(tail, key, i - 1);
    }
}

pub proof fn lemma_obj_get_none(ms: Seq<(Seq<char>, JsonV)>, key: Seq<char>)
    requires
        forall|j: int| 0 <= j < ms.len() ==> ms[j].0 != key,
    ensures
        obj_get(ms, key) == None::<JsonV>,
    decreases ms,
{
    if ms.len() > 0 {
        let tail = ms.subrange(1, ms.len() as int);
        assert forall|j: int| 0 <= j < tail.len() implies tail[j].0 != key by {
            assert(tail[j] == ms[j + 1]);
        }
        lemma_obj_get_none(tail, key);
    }
}

/// Index of the first member named `key`, if any.
pub fn obj_lookup(members: &Vec<(String, Json)>, key: &str) -> (r: Option<usize>)
    ensures
        match r {
            Some(i) => i < members@.len() && members@[i as int].0@ == key@ && obj_get(
                member_views(members@),
                key@,
            ) == Some(json_view(members@[i as int].1)),
            None => obj_get(member_views(members@), key@) == None::<JsonV>,
        },
{
    proof {
        lemma_member_views_len(members@);
    }
    let n = members.len();
    let mut i: usize = 0;
    while i < n
        invariant
            n == members@.len(),
            0 <= i <= n,
            member_views(members@).len() == n,
            forall|k: int| 0 <= k < n ==> member_views(members@)[k] == (
                #[trigger] members@[k].0@,
                json_view(members@[k].1),
            ),
            forall|j: int| 0 <= j < i ==> members@[j].0@ != key@,
        decreases n - i,
    {
        if eq_str(members[i].0.as_str(), key) {
            proof {
                assert forall|j: int| 0 <= j < i implies member_views(members@)[j].0 != key@ by {
                    assert(member_views(members@)[j] == (members@[j].0@, json_view(members@[j].1)));
                }
                assert(member_views(members@)[i as int].0 == key@);
                lemma_obj_get_first(member_views(members@), key@, i as int);
            }
            return Some(i);
        }
        i += 1;
    }
    proof {
        assert forall|j: int| 0 <= j < n implies member_views(members@)[j].0 != key@ by {
            assert(member_views(members@)[j] == (members@[j].0@, json_view(members@[j].1)));
        }
        lemma_obj_get_none(member_views(members@), key@);
    }
    None
}

/// The boolean bound to `key`, if there is exactly such a member.
pub open spec fn spec_get_bool(ms: Seq<(Seq<char>, JsonV)>, key: Seq<char>) -> Option<bool> {
    match obj_get(ms, key) {
        Some(JsonV::Bool(b)) => Some(b),
        _ => None,
    }
}

/// The number bound to `key`, if there is such a member.
pub open spec fn spec_get_num(ms: Seq<(Seq<char>, JsonV)>, key: Seq<char>) -> Option<JsonNum> {
    match obj_get(ms, key) {
        Some(JsonV::Num(n)) => Some(n),
        _ => None,
    }
}

/// The number bound to `key` read back as a `u8`, if it is one.
pub open spec fn spec_get_u8(ms: Seq<(Seq<char>, JsonV)>, key: Seq<char>) -> Option<u8> {
    match spec_get_num(ms, key) {
        Some(n) => spec_num_as_u8(n),
        None => None,
    }
}

/// The string bound to `key`, if there is such a member.
pub open spec fn spec_get_str(ms: Seq<(Seq<char>, JsonV)>, key: Seq<char>) -> Option<Seq<char>> {
    match obj_get(ms, key) {
        Some(JsonV::Str(s)) => Some(s),
        _ => None,
    }
}

/// An optional field: absent or `null` reads as `Some(None)`, a number as
/// `Some(Some(..))`, anything else refuses.
pub open spec fn spec_opt_num(ms: Seq<(Seq<char>, JsonV)>, key: Seq<char>) -> Option<
    Option<JsonNum>,
> {
    match obj_get(ms, key) {
        Some(JsonV::Num(n)) => Some(Some(n)),
        Some(JsonV::Null) => Some(None),
        Some(_) => None,
        None => Some(None),
    }
}

/// An optional string field, read as [`spec_opt_num`] is.
pub open spec fn spec_opt_str(ms: Seq<(Seq<char>, JsonV)>, key: Seq<char>) -> Option<
    Option<Seq<char>>,
> {
    match obj_get(ms, key) {
        Some(JsonV::Str(s)) => Some(Some(s)),
        Some(JsonV::Null) => Some(None),
        Some(_) => None,
        None => Some(None),
    }
}

pub fn get_bool(members: &Vec<(String, Json)>, key: &str) -> (r: Option<bool>)
    ensures
        r == spec_get_bool(member_views(members@), key@),
{
    match obj_lookup(members, key) {
        Some(i) => match &members[i].1 {
            Json::Bool(b) => Some(*b),
            _ => None,
        },
        None => None,
    }
}

pub fn get_num(members: &Vec<(String, Json)>, key: &str) -> (r: Option<JsonNum>)
    ensures
        r == spec_get_num(member_views(members@), key@),
{
    match obj_lookup(members, key) {
        Some(i) => match &members[i].1 {
            Json::Num(n) => Some(*n),
            _ => None,
        },
        None => None,
    }
}

pub fn get_u8_field(members: &Vec<(String, Json)>, key: &str) -> (r: Option<u8>)
    ensures
        r == spec_get_u8(member_views(members@), key@),
{
    match get_num(members, key) {
        Some(n) => n.as_u8(),
        None => None,
    }
}

pub fn get_str<'a>(members: &'a Vec<(String, Json)>, key: &str) -> (r: Option<&'a str>)
    ensures
        match r {
            Some(s) => spec_get_str(member_views(members@), key@) == Some(s@),
            None => spec_get_str(member_views(members@), key@) is None,
        },
{
    match obj_lookup(members, key) {
        Some(i) => match &members[i].1 {
            Json::Str(s) => Some(s.as_str()),
            _ => None,
        },
        None => None,
    }
}

pub fn get_opt_num(members: &Vec<(String, Json)>, key: &str) -> (r: Option<Option<JsonNum>>)
    ensures
        r == spec_opt_num(member_views(members@), key@),
{
    match obj_lookup(members, key) {
        Some(i) => match &members[i].1 {
            Json::Num(n) => Some(Some(*n)),
            Json::Null => Some(None),
            _ => None,
        },
        None => Some(None),
    }
}

pub fn get_opt_str<'a>(members: &'a Vec<(String, Json)>, key: &str) -> (r: Option<
    Option<&'a str>,
>)
    ensures
        match r {
            Some(Some(s)) => spec_opt_str(member_views(members@), key@) == Some(Some(s@)),
            Some(None) => spec_opt_str(member_views(members@), key@) == Some(
                None::<Seq<char>>,
            ),
            None => spec_opt_str(member_views(members@), key@) is None,
        },
{
    match obj_lookup(members, key) {
        Some(i) => match &members[i].1 {
            Json::Str(s) => Some(Some(s.as_str())),
            Json::Null => Some(None),
            _ => None,
        },
        None => Some(None),
    }
}

pub fn has_key(members: &Vec<(String, Json)>, key: &str) -> (r: bool)
    ensures
        r == obj_has(member_views(members@), key@),
{
    match obj_lookup(members, key) {
        Some(_) => true,
        None => false,
    }
}

/// A structurally equal copy of a JSON tree.
#[verifier::loop_isolation(false)]
pub fn json_clone(a: &Json) -> (r: Json)
    ensures
        r@ == a@,
    decreases *a,
{
    match a {
        Json::Null => Json::Null,
        Json::Bool(b) => Json::Bool(*b),
        Json::Num(n) => Json::Num(*n),
        Json::Str(s) => Json::Str(s.clone()),
        Json::Arr(items) => {
            let mut out: Vec<Json> = Vec::new();
            let mut i: usize = 0;
            while i < items.len()
                invariant
                    i <= items@.len(),
                    out@.len() == i,
                    forall|j: int| 0 <= j < i ==> json_view(#[trigger] out@[j]) == json_view(
                        items@[j],
                    ),
                decreases items@.len() - i,
            {
                proof {
                    assert(decreases_to!(*a => a->Arr_0));
                    assert(decreases_to!(a->Arr_0 => a->Arr_0@));
                    assert(decreases_to!(a->Arr_0@ => a->Arr_0@[i as int]));
                }
                out.push(json_clone(&items[i]));
                i += 1;
            }
            proof {
                lemma_json_views_len(out@);
                lemma_json_views_len(items@);
                assert(json_views(out@) =~= json_views(items@));
            }
            Json::Arr(out)
        },
        Json::Obj(members) => {
            let mut out: Vec<(String, Json)> = Vec::new();
            let mut i: usize = 0;
            while i < members.len()
                invariant
                    i <= members@.len(),
                    out@.len() == i,
                    forall|j: int| 0 <= j < i ==> (#[trigger] out@[j]).0@ == members@[j].0@
                        && json_view(out@[j].1) == json_view(members@[j].1),
                decreases members@.len() - i,
            {
                proof {
                    assert(decreases_to!(*a => a->Obj_0));
                    assert(decreases_to!(a->Obj_0 => a->Obj_0@));
                    assert(decreases_to!(a->Obj_0@ => a->Obj_0@[i as int]));
                    assert(decreases_to!(a->Obj_0@[i as int] => a->Obj_0@[i as int].1));
                }
                out.push((members[i].0.clone(), json_clone(&members[i].1)));
                i += 1;
            }
            proof {
                lemma_member_views_len(out@);
                lemma_member_views_len(members@);
                assert(member_views(out@) =~= member_views(members@));
            }
            Json::Obj(out)
        },
    }
}

/// Structural equality of two JSON trees, at the level of their views.
#[verifier::loop_isolation(false)]
pub fn json_eq(a: &Json, b: &Json) -> (r: bool)
    ensures
        r == (a@ == b@),
    decreases *a,
{
    match (a, b) {
        (Json::Null, Json::Null) => true,
        (Json::Bool(x), Json::Bool(y)) => x == y,
        (Json::Num(x), Json::Num(y)) => x == y,
        (Json::Str(x), Json::Str(y)) => eq_str(x.as_str(), y.as_str()),
        (Json::Arr(x), Json::Arr(y)) => {
            proof {
                lemma_json_views_len(x@);
                lemma_json_views_len(y@);
            }
            if x.len() != y.len() {
                proof {
                    assert(json_views(x@).len() != json_views(y@).len());
                }
                return false;
            }
            let mut i: usize = 0;
            while i < x.len()
                invariant
                    i <= x@.len(),
                    x@.len() == y@.len(),
                    json_views(x@).len() == x@.len(),
                    json_views(y@).len() == y@.len(),
                    forall|j: int| 0 <= j < x@.len() ==> #[trigger] json_views(x@)[j]
                        == json_view(x@[j]),
                    forall|j: int| 0 <= j < y@.len() ==> #[trigger] json_views(y@)[j]
                        == json_view(y@[j]),
                    forall|j: int| 0 <= j < i ==> json_view(#[trigger] x@[j]) == json_view(y@[j]),
                decreases x@.len() - i,
            {
                proof {
                    assert(decreases_to!(*a => a->Arr_0));
                    assert(decreases_to!(a->Arr_0 => a->Arr_0@));
                    assert(decreases_to!(a->Arr_0@ => a->Arr_0@[i as int]));
                }
                if !json_eq(&x[i], &y[i]) {
                    proof {
                        assert(json_views(x@)[i as int] != json_views(y@)[i as int]);
                        assert(json_views(x@) != json_views(y@));
                    }
                    return false;
                }
                i += 1;
            }
            proof {
                assert(json_views(x@) =~= json_views(y@));
            }
            true
        },
        (Json::Obj(x), Json::Obj(y)) => {
            proof {
                lemma_member_views_len(x@);
                lemma_member_views_len(y@);
            }
            if x.len() != y.len() {
                proof {
                    assert(member_views(x@).len() != member_views(y@).len());
                }
                return false;
            }
            let mut i: usize = 0;
            while i < x.len()
                invariant
                    i <= x@.len(),
                    x@.len() == y@.len(),
                    member_views(x@).len() == x@.len(),
                    member_views(y@).len() == y@.len(),
                    forall|j: int| 0 <= j < x@.len() ==> #[trigger] member_views(x@)[j] == (
                        x@[j].0@,
                        json_view(x@[j].1),
                    ),
                    forall|j: int| 0 <= j < y@.len() ==> #[trigger] member_views(y@)[j] == (
                        y@[j].0@,
                        json_view(y@[j].1),
                    ),
                    forall|j: int| 0 <= j < i ==> (#[trigger] x@[j]).0@ == y@[j].0@ && json_view(
                        x@[j].1,
                    ) == json_view(y@[j].1),
                decreases x@.len() - i,
            {
                if !eq_str(x[i].0.as_str(), y[i].0.as_str()) {
                    proof {
                        assert(member_views(x@)[i as int] != member_views(y@)[i as int]);
                        assert(member_views(x@) != member_views(y@));
                    }
                    return false;
                }
                proof {
                    assert(decreases_to!(*a => a->Obj_0));
                    assert(decreases_to!(a->Obj_0 => a->Obj_0@));
                    assert(decreases_to!(a->Obj_0@ => a->Obj_0@[i as int]));
                    assert(decreases_to!(a->Obj_0@[i as int] => a->Obj_0@[i as int].1));
                }
                if !json_eq(&x[i].1, &y[i].1) {
                    proof {
                        assert(member_views(x@)[i as int] != member_views(y@)[i as int]);
                        assert(member_views(x@) != member_views(y@));
                    }
                    return false;
                }
                i += 1;
            }
            proof {
                assert(member_views(x@) =~= member_views(y@));
            }
            true
        },
        _ => {
            proof {
                assert(a@ != b@);
            }
            false
        },
    }
}

impl Json {
    /// Looks a key up, treating any non-object as an object without members.
    pub fn get<'a>(&'a self, key: &str) -> (r: Option<&'a Json>)
        ensures
            match r {
                Some(v) => self@ matches JsonV::Obj(ms) && obj_get(ms, key@) == Some(v@),
                None => !(self@ matches JsonV::Obj(ms) && obj_has(ms, key@)),
            },
    {
        match self {
            Json::Obj(members) => {
                match obj_lookup(members, key) {
                    Some(i) => Some(&members[i].1),
                    None => None,
                }
            },
            _ => None,
        }
    }
}

} // verus!
