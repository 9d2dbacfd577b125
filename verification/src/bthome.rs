//! Decoding BTHome v2 service-data blobs into sensor readings.
//!
//! After a three-byte device-info header the blob is a run of records. Each
//! record starts with a header byte — low five bits the record length, high
//! three bits a type code — followed by that many bytes: an object id and
//! the value. Unknown object ids and unsupported length/type pairs are
//! skipped; a truncated or empty record ends the run.

use vstd::prelude::*;

use crate::capabilities::sensor::SensorValue;
use crate::foreign::{snake_case_of, to_snake_case};
use crate::json::JsonNum;
use crate::strutil::eq_str;

verus! {

/// One decoded reading, scaled to its unit.
#[derive(Clone, Copy, Debug, PartialEq, Eq, Structural)]
pub enum Object {
    /// Battery level, raw percent
    Battery(JsonNum),
    /// Temperature, hundredths of a degree Celsius
    Temperature(JsonNum),
    /// Relative humidity, hundredths of a percent
    Humidity(JsonNum),
    /// Voltage, thousandths of a volt
    Voltage(JsonNum),
    /// Power state, true when drawing power
    Power(bool),
    /// Signal strength, dBm
    Rssi(i16),
}

impl Object {
    pub open spec fn spec_topic(self) -> Seq<char> {
        match self {
            Object::Battery(_) => "battery"@,
            Object::Temperature(_) => "temperature"@,
            Object::Humidity(_) => "humidity"@,
            Object::Voltage(_) => "voltage"@,
            Object::Power(_) => "power"@,
            Object::Rssi(_) => "rssi"@,
        }
    }

    /// The measurement topic the reading is published under.
    pub fn topic(&self) -> (r: &'static str)
        ensures
            r@ == self.spec_topic(),
    {
        match self {
            Object::Battery(_) => "battery",
            Object::Temperature(_) => "temperature",
            Object::Humidity(_) => "humidity",
            Object::Voltage(_) => "voltage",
            Object::Power(_) => "power",
            Object::Rssi(_) => "rssi",
        }
    }

    pub open spec fn spec_unit(self) -> Seq<char> {
        match self {
            Object::Battery(_) => "%"@,
            Object::Temperature(_) => "\u{b0}C"@,
            Object::Humidity(_) => "%"@,
            Object::Voltage(_) => "V"@,
            Object::Power(_) => ""@,
            Object::Rssi(_) => "dBm"@,
        }
    }

    /// The unit of the reading.
    pub fn unit(&self) -> (r: &'static str)
        ensures
            r@ == self.spec_unit(),
    {
        match self {
            Object::Battery(_) => "%",
            Object::Temperature(_) => "\u{b0}C",
            Object::Humidity(_) => "%",
            Object::Voltage(_) => "V",
            Object::Power(_) => "",
            Object::Rssi(_) => "dBm",
        }
    }

    pub open spec fn spec_value(self) -> SensorValue {
        match self {
            Object::Battery(v) => SensorValue::Number(v),
            Object::Temperature(v) => SensorValue::Number(v),
            Object::Humidity(v) => SensorValue::Number(v),
            Object::Voltage(v) => SensorValue::Number(v),
            Object::Power(v) => SensorValue::Boolean(v),
            Object::Rssi(v) => SensorValue::Number(spec_num_of_i16(v)),
        }
    }

    /// The reading as a sensor payload value.
    pub fn value(&self) -> (r: SensorValue)
        ensures
            r == self.spec_value(),
    {
        match *self {
            Object::Battery(v) => SensorValue::Number(v),
            Object::Temperature(v) => SensorValue::Number(v),
            Object::Humidity(v) => SensorValue::Number(v),
            Object::Voltage(v) => SensorValue::Number(v),
            Object::Power(v) => SensorValue::Boolean(v),
            Object::Rssi(v) => SensorValue::Number(
                if v < 0 {
                    JsonNum { neg: true, mant: (-(v as i32)) as u64, scale: 0 }
                } else {
                    JsonNum { neg: false, mant: v as u64, scale: 0 }
                },
            ),
        }
    }
}

pub open spec fn spec_num_of_i16(v: i16) -> JsonNum {
    if v < 0 {
        JsonNum { neg: true, mant: (-(v as int)) as u64, scale: 0 }
    } else {
        JsonNum { neg: false, mant: v as u64, scale: 0 }
    }
}

/// A whole-number value as a decimal with the given scale, trailing zeros
/// of the fraction dropped.
pub open spec fn spec_scaled(v: int, scale: u8) -> JsonNum {
    if v < 0 {
        crate::json::spec_normalized(JsonNum { neg: true, mant: (-v) as u64, scale })
    } else {
        crate::json::spec_normalized(JsonNum { neg: false, mant: v as u64, scale })
    }
}

/// The value carried by a record, by its length and type code: unsigned or
/// two's-complement little-endian integers. Type code 2 marks a 32-bit
/// float record, which this decoder does not read.
pub open spec fn spec_record_value(rec: Seq<u8>, ty: u8) -> Option<int> {
    if rec.len() == 2 && ty == 0 {
        Some(rec[1] as int)
    } else if rec.len() == 3 && ty == 0 {
        Some(rec[1] + 256 * rec[2])
    } else if rec.len() == 2 && ty == 1 {
        Some(
            if rec[1] >= 128 {
                rec[1] - 256
            } else {
                rec[1] as int
            },
        )
    } else if rec.len() == 3 && ty == 1 {
        let u = rec[1] + 256 * rec[2];
        Some(
            if u >= 32768 {
                u - 65536
            } else {
                u
            },
        )
    } else {
        None
    }
}

/// The object a record decodes to, if its id and value are understood.
pub open spec fn spec_record_object(rec: Seq<u8>, ty: u8) -> Option<Object> {
    match spec_record_value(rec, ty) {
        None => None,
        Some(v) => if rec[0] == 0x01 {
            Some(Object::Battery(spec_scaled(v, 0)))
        } else if rec[0] == 0x02 {
            Some(Object::Temperature(spec_scaled(v, 2)))
        } else if rec[0] == 0x03 {
            Some(Object::Humidity(spec_scaled(v, 2)))
        } else if rec[0] == 0x0c {
            Some(Object::Voltage(spec_scaled(v, 3)))
        } else if rec[0] == 0x10 {
            Some(Object::Power(v > 0))
        } else {
            None
        },
    }
}

/// The run of records in `rest`: each record is decoded or skipped; an empty
/// or truncated record ends the run.
pub open spec fn spec_records(rest: Seq<u8>) -> Seq<Object>
    decreases rest.len(),
{
    if rest.len() == 0 {
        Seq::empty()
    } else {
        let header = rest[0];
        let len = (header & 0x1F) as int;
        let ty = header >> 5;
        if len == 0 || rest.len() < 1 + len {
            Seq::empty()
        } else {
            let rec = rest.subrange(1, 1 + len);
            let tail = rest.skip(1 + len);
            match spec_record_object(rec, ty) {
                Some(o) => seq![o] + spec_records(tail),
                None => spec_records(tail),
            }
        }
    }
}

/// The 32-bit float records in a run: object id and raw little-endian
/// bits, in input order, under the same framing as [`spec_records`]. Their
/// values are floating point, which this crate does not compute with;
/// callers read the bits and scale.
pub open spec fn spec_float_records(rest: Seq<u8>) -> Seq<(u8, u32)>
    decreases rest.len(),
{
    if rest.len() == 0 {
        Seq::empty()
    } else {
        let header = rest[0];
        let len = (header & 0x1F) as int;
        let ty = header >> 5;
        if len == 0 || rest.len() < 1 + len {
            Seq::empty()
        } else {
            let rec = rest.subrange(1, 1 + len);
            let tail = rest.skip(1 + len);
            if len == 5 && ty == 2 {
                let bits = rec[1] + 256 * rec[2] + 65536 * rec[3] + 16777216 * rec[4];
                seq![(rec[0], bits as u32)] + spec_float_records(tail)
            } else {
                spec_float_records(tail)
            }
        }
    }
}

pub open spec fn spec_decode_floats(data: Seq<u8>) -> Seq<(u8, u32)> {
    if data.len() < 3 {
        Seq::empty()
    } else {
        spec_float_records(data.skip(3))
    }
}

/// A whole blob: three bytes of device info, then records; too short a blob
/// holds nothing.
pub open spec fn spec_decode(data: Seq<u8>) -> Seq<Object> {
    if data.len() < 3 {
        Seq::empty()
    } else {
        spec_records(data.skip(3))
    }
}

impl Object {
    /// Decodes a BTHome service-data blob into readings.
    pub fn decode(data: &[u8]) -> (r: Vec<Object>)
        ensures
            r@ == spec_decode(data@),
    {
        let n = data.len();
        let mut out: Vec<Object> = Vec::new();
        if n < 3 {
            return out;
        }
        let mut pos: usize = 3;
        loop
            invariant
                3 <= pos <= n,
                n == data@.len(),
                out@ + spec_records(data@.skip(pos as int)) == spec_records(data@.skip(3)),
            ensures
                out@ == spec_records(data@.skip(3)),
            decreases n - pos,
        {
            let ghost rest = data@.skip(pos as int);
            if pos >= n {
                proof {
                    assert(rest.len() == 0);
                    assert(out@ + spec_records(rest) =~= out@);
                }
                break;
            }
            let header = data[pos];
            let len = (header & 0x1F) as usize;
            let ty = header >> 5;
            proof {
                assert(rest[0] == data@[pos as int]);
                assert(rest.len() == n - pos);
            }
            if len == 0 || n - pos - 1 < len {
                proof {
                    assert(spec_records(rest) =~= Seq::<Object>::empty());
                    assert(out@ + spec_records(rest) =~= out@);
                }
                break;
            }
            let ghost rec = rest.subrange(1, 1 + len as int);
            proof {
                assert(rec.len() == len as int);
                assert(rec[0] == data@[pos + 1]);
                if len >= 2 {
                    assert(rec[1] == data@[pos + 2]);
                }
                if len >= 3 {
                    assert(rec[2] == data@[pos + 3]);
                }
                assert(rest.skip(1 + len as int) =~= data@.skip(pos + 1 + len as int));
            }
            let id = data[pos + 1];
            let value: Option<i32> = if len == 2 && ty == 0 {
                Some(data[pos + 2] as i32)
            } else if len == 3 && ty == 0 {
                Some(data[pos + 2] as i32 + 256 * (data[pos + 3] as i32))
            } else if len == 2 && ty == 1 {
                let b = data[pos + 2];
                Some(
                    if b >= 128 {
                        b as i32 - 256
                    } else {
                        b as i32
                    },
                )
            } else if len == 3 && ty == 1 {
                let u = data[pos + 2] as i32 + 256 * (data[pos + 3] as i32);
                Some(
                    if u >= 32768 {
                        u - 65536
                    } else {
                        u
                    },
                )
            } else {
                None
            };
            proof {
                assert(match value {
                    Some(v) => spec_record_value(rec, ty) == Some(v as int),
                    None => spec_record_value(rec, ty) is None,
                });
            }
            if let Some(v) = value {
                let num = |scale: u8| -> (r: JsonNum)
                    requires
                        -65536 <= v <= 65535,
                    ensures
                        r == spec_scaled(v as int, scale),
                    {
                        if v < 0 {
                            JsonNum { neg: true, mant: (-v) as u64, scale }.normalized()
                        } else {
                            JsonNum { neg: false, mant: v as u64, scale }.normalized()
                        }
                    };
                let obj: Option<Object> = if id == 0x01 {
                    Some(Object::Battery(num(0)))
                } else if id == 0x02 {
                    Some(Object::Temperature(num(2)))
                } else if id == 0x03 {
                    Some(Object::Humidity(num(2)))
                } else if id == 0x0c {
                    Some(Object::Voltage(num(3)))
                } else if id == 0x10 {
                    Some(Object::Power(v > 0))
                } else {
                    None
                };
                proof {
                    assert(obj == spec_record_object(rec, ty));
                }
                let ghost prev = out@;
                let ghost tail = data@.skip(pos + 1 + len as int);
                if let Some(o) = obj {
                    out.push(o);
                    proof {
                        assert(spec_records(rest) == seq![o] + spec_records(tail));
                        assert(out@ =~= prev + seq![o]);
                        assert(out@ + spec_records(tail) =~= prev + spec_records(rest));
                    }
                } else {
                    proof {
                        assert(spec_records(rest) == spec_records(tail));
                    }
                }
            } else {
                proof {
                    let ghost tail = data@.skip(pos + 1 + len as int);
                    assert(spec_records(rest) == spec_records(tail));
                }
            }
            pos = pos + 1 + len;
        }
        out
    }
}

impl Object {
    /// Collects the 32-bit float records of a blob, as raw bits.
    pub fn float_records(data: &[u8]) -> (r: Vec<(u8, u32)>)
        ensures
            r@ == spec_decode_floats(data@),
    {
        let n = data.len();
        let mut out: Vec<(u8, u32)> = Vec::new();
        if n < 3 {
            return out;
        }
        let mut pos: usize = 3;
        loop
            invariant
                3 <= pos <= n,
                n == data@.len(),
                out@ + spec_float_records(data@.skip(pos as int)) == spec_float_records(
                    data@.skip(3),
                ),
            ensures
                out@ == spec_float_records(data@.skip(3)),
            decreases n - pos,
        {
            let ghost rest = data@.skip(pos as int);
            if pos >= n {
                proof {
                    assert(rest.len() == 0);
                    assert(out@ + spec_float_records(rest) =~= out@);
                }
                break;
            }
            let header = data[pos];
            let len = (header & 0x1F) as usize;
            let ty = header >> 5;
            proof {
                assert(rest[0] == data@[pos as int]);
                assert(rest.len() == n - pos);
            }
            if len == 0 || n - pos - 1 < len {
                proof {
                    assert(spec_float_records(rest) =~= Seq::<(u8, u32)>::empty());
                    assert(out@ + spec_float_records(rest) =~= out@);
                }
                break;
            }
            let ghost rec = rest.subrange(1, 1 + len as int);
            let ghost tail = data@.skip(pos + 1 + len as int);
            proof {
                assert(rec.len() == len as int);
                assert(rec[0] == data@[pos + 1]);
                if len == 5 {
                    assert(rec[1] == data@[pos + 2]);
                    assert(rec[2] == data@[pos + 3]);
                    assert(rec[3] == data@[pos + 4]);
                    assert(rec[4] == data@[pos + 5]);
                }
                assert(rest.skip(1 + len as int) =~= tail);
            }
            if len == 5 && ty == 2 {
                let id = data[pos + 1];
                let bits: u32 = data[pos + 2] as u32 + 256 * (data[pos + 3] as u32) + 65536 * (
                data[pos + 4] as u32) + 16777216 * (data[pos + 5] as u32);
                let ghost prev = out@;
                out.push((id, bits));
                proof {
                    assert(spec_float_records(rest) == seq![(rec[0], bits)] + spec_float_records(
                        tail,
                    ));
                    assert(out@ =~= prev + seq![(rec[0], bits)]);
                    assert(out@ + spec_float_records(tail) =~= prev + spec_float_records(rest));
                }
            } else {
                proof {
                    assert(spec_float_records(rest) == spec_float_records(tail));
                }
            }
            pos = pos + 1 + len;
        }
        out
    }
}

/// The first table entry keyed by `k`, if any; entries are
/// `(key, entity id, display name)`.
pub open spec fn spec_map_lookup(m: Seq<(String, String, String)>, k: Seq<char>) -> Option<
    (Seq<char>, Seq<char>),
>
    decreases m,
{
    if m.len() == 0 {
        None
    } else if m[0].0@ == k {
        Some((m[0].1@, m[0].2@))
    } else {
        spec_map_lookup(m.subrange(1, m.len() as int), k)
    }
}

/// Where a sighted device registers: a table entry keyed by its name, else
/// one keyed by its address, else a fresh id from the snake_case form of
/// its name with the name kept as-is.
pub open spec fn spec_resolve_device(id_map: Seq<(String, String, String)>, name: Seq<char>,
    address: Seq<char>) -> (Seq<char>, Seq<char>) {
    match spec_map_lookup(id_map, name) {
        Some(e) => e,
        None => match spec_map_lookup(id_map, address) {
            Some(e) => e,
            None => (snake_case_of(name), name),
        },
    }
}

fn map_lookup<'a>(id_map: &'a Vec<(String, String, String)>, k: &str) -> (r: Option<
    (&'a String, &'a String),
>)
    ensures
        match r {
            Some(e) => spec_map_lookup(id_map@, k@) == Some((e.0@, e.1@)),
            None => spec_map_lookup(id_map@, k@) is None,
        },
{
    let mut i: usize = 0;
    while i < id_map.len()
        invariant
            i <= id_map@.len(),
            forall|j: int| 0 <= j < i ==> (#[trigger] id_map@[j]).0@ != k@,
        decreases id_map@.len() - i,
    {
        if eq_str(id_map[i].0.as_str(), k) {
            proof {
                lemma_map_lookup_first(id_map@, k@, i as int);
            }
            return Some((&id_map[i].1, &id_map[i].2));
        }
        i += 1;
    }
    proof {
        lemma_map_lookup_none(id_map@, k@);
    }
    None
}

proof fn lemma_map_lookup_first(m: Seq<(String, String, String)>, k: Seq<char>, i: int)
    requires
        0 <= i < m.len(),
        m[i].0@ == k,
        forall|j: int| 0 <= j < i ==> (#[trigger] m[j]).0@ != k,
    ensures
        spec_map_lookup(m, k) == Some((m[i].1@, m[i].2@)),
    decreases m,
{
    if i > 0 {
        let tail = m.subrange(1, m.len() as int);
        assert forall|j: int| 0 <= j < i - 1 implies (#[trigger] tail[j]).0@ != k by {
            assert(tail[j] == m[j + 1]);
        }
        assert(tail[i - 1] == m[i]);
        lemma_map_lookup_first(tail, k, i - 1);
    }
}

proof fn lemma_map_lookup_none(m: Seq<(String, String, String)>, k: Seq<char>)
    requires
        forall|j: int| 0 <= j < m.len() ==> (#[trigger] m[j]).0@ != k,
    ensures
        spec_map_lookup(m, k) is None,
    decreases m,
{
    if m.len() > 0 {
        let tail = m.subrange(1, m.len() as int);
        assert forall|j: int| 0 <= j < tail.len() implies (#[trigger] tail[j]).0@ != k by {
            assert(tail[j] == m[j + 1]);
        }
        lemma_map_lookup_none(tail, k);
    }
}

/// Picks the entity id and display name a sighted device registers under,
/// as [`spec_resolve_device`] says.
pub fn resolve_device(id_map: &Vec<(String, String, String)>, name: &str, address: &str) -> (r: (
    String,
    String,
))
    ensures
        (r.0@, r.1@) == spec_resolve_device(id_map@, name@, address@),
{
    match map_lookup(id_map, name) {
        Some(e) => (e.0.clone(), e.1.clone()),
        None => match map_lookup(id_map, address) {
            Some(e) => (e.0.clone(), e.1.clone()),
            None => (to_snake_case(name), name.to_owned()),
        },
    }
}

} // verus!
