//! Rendering a JSON tree as text.
//!
//! The encoder pins the wire form down to the character: object members in
//! order, numbers in plain decimal, strings with the mandatory escapes.

use vstd::prelude::*;

use crate::json::{Json, JsonNum, JsonV, json_view, json_views, lemma_json_views_len,
    lemma_member_views_len, member_views};

verus! {

/// Relies on String::push: appends exactly the one character.
#[verifier::external_body]
pub(crate) fn push_char(out: &mut String, c: char)
    ensures
        final(out)@ == old(out)@.push(c),
{
    out.push(c);
}

pub open spec fn spec_digit(d: int) -> char {
    if d == 0 {
        '0'
    } else if d == 1 {
        '1'
    } else if d == 2 {
        '2'
    } else if d == 3 {
        '3'
    } else if d == 4 {
        '4'
    } else if d == 5 {
        '5'
    } else if d == 6 {
        '6'
    } else if d == 7 {
        '7'
    } else if d == 8 {
        '8'
    } else {
        '9'
    }
}

/// The decimal digits of a whole number, most significant first.
pub open spec fn spec_digits(m: int) -> Seq<char>
    decreases m,
{
    if m < 10 {
        seq![spec_digit(m)]
    } else {
        spec_digits(m / 10).push(spec_digit(m % 10))
    }
}

fn digit_char(d: u64) -> (c: char)
    requires
        d < 10,
    ensures
        c == spec_digit(d as int),
{
    if d == 0 {
        '0'
    } else if d == 1 {
        '1'
    } else if d == 2 {
        '2'
    } else if d == 3 {
        '3'
    } else if d == 4 {
        '4'
    } else if d == 5 {
        '5'
    } else if d == 6 {
        '6'
    } else if d == 7 {
        '7'
    } else if d == 8 {
        '8'
    } else {
        '9'
    }
}

pub(crate) fn push_digits(out: &mut String, m: u64)
    ensures
        final(out)@ == old(out)@ + spec_digits(m as int),
    decreases m,
{
    if m >= 10 {
        push_digits(out, m / 10);
    }
    let c = digit_char(m % 10);
    push_char(out, c);
    proof {
        if m >= 10 {
            assert(final(out)@ =~= old(out)@ + spec_digits(m as int));
        } else {
            assert(final(out)@ =~= old(out)@ + spec_digits(m as int));
        }
    }
}

pub open spec fn spec_zeros(k: int) -> Seq<char>
    decreases k,
{
    if k <= 0 {
        Seq::empty()
    } else {
        spec_zeros(k - 1).push('0')
    }
}

/// A decimal's wire text: the digits of the mantissa with the decimal point
/// `scale` places from the right, zero-padded when the mantissa is shorter.
pub open spec fn spec_num_text(n: JsonNum) -> Seq<char> {
    let ds = spec_digits(n.mant as int);
    let body = if n.scale == 0 {
        ds
    } else {
        let k = n.scale as int;
        if ds.len() > k {
            ds.take(ds.len() - k) + seq!['.'] + ds.skip(ds.len() - k)
        } else {
            seq!['0', '.'] + spec_zeros(k - ds.len()) + ds
        }
    };
    if n.neg {
        seq!['-'] + body
    } else {
        body
    }
}

fn push_num(out: &mut String, n: JsonNum)
    ensures
        final(out)@ == old(out)@ + spec_num_text(n),
{
    if n.neg {
        push_char(out, '-');
    }
    let mut ds = String::new();
    push_digits(&mut ds, n.mant);
    let k = n.scale as usize;
    if k == 0 {
        out.append(ds.as_str());
        proof {
            assert(final(out)@ =~= old(out)@ + spec_num_text(n));
        }
        return ;
    }
    let len = ds.as_str().unicode_len();
    if len > k {
        out.append(ds.as_str().substring_char(0, len - k));
        push_char(out, '.');
        out.append(ds.as_str().substring_char(len - k, len));
        proof {
            assert(ds@.subrange(0, len - k) =~= ds@.take(len - k));
            assert(ds@.subrange(len - k, len as int) =~= ds@.skip(len - k));
            assert(final(out)@ =~= old(out)@ + spec_num_text(n));
        }
    } else {
        push_char(out, '0');
        push_char(out, '.');
        let mut pad = k - len;
        let ghost total = (k - len) as int;
        while pad > 0
            invariant
                0 <= pad <= total,
                out@ == old(out)@ + (if n.neg {
                    seq!['-']
                } else {
                    Seq::<char>::empty()
                }) + seq!['0', '.'] + spec_zeros(total - pad),
            decreases pad,
        {
            push_char(out, '0');
            pad = pad - 1;
            proof {
                assert(out@ =~= old(out)@ + (if n.neg {
                    seq!['-']
                } else {
                    Seq::<char>::empty()
                }) + seq!['0', '.'] + spec_zeros(total - pad));
            }
        }
        out.append(ds.as_str());
        proof {
            assert(final(out)@ =~= old(out)@ + spec_num_text(n));
        }
    }
}

pub open spec fn spec_hex(d: int) -> char {
    if d < 10 {
        spec_digit(d)
    } else if d == 10 {
        'a'
    } else if d == 11 {
        'b'
    } else if d == 12 {
        'c'
    } else if d == 13 {
        'd'
    } else if d == 14 {
        'e'
    } else {
        'f'
    }
}

/// The wire form of one character inside a JSON string: quotes and
/// backslashes are escaped, control characters take their short escapes or
/// the `\u00..` form, everything else stands as itself.
pub open spec fn spec_esc_char(c: char) -> Seq<char> {
    if c == '"' {
        seq!['\\', '"']
    } else if c == '\\' {
        seq!['\\', '\\']
    } else if c == '\n' {
        seq!['\\', 'n']
    } else if c == '\r' {
        seq!['\\', 'r']
    } else if c == '\t' {
        seq!['\\', 't']
    } else if (c as int) < 32 {
        seq!['\\', 'u', '0', '0', spec_hex(c as int / 16), spec_hex(c as int % 16)]
    } else {
        seq![c]
    }
}

pub open spec fn spec_esc(s: Seq<char>) -> Seq<char>
    decreases s.len(),
{
    if s.len() == 0 {
        Seq::empty()
    } else {
        spec_esc(s.drop_last()) + spec_esc_char(s.last())
    }
}

#[verifier::loop_isolation(false)]
fn push_esc(out: &mut String, s: &str)
    ensures
        final(out)@ == old(out)@ + spec_esc(s@),
{
    let n = s.unicode_len();
    let mut i: usize = 0;
    while i < n
        invariant
            i <= n,
            n == s@.len(),
            out@ == old(out)@ + spec_esc(s@.take(i as int)),
        decreases n - i,
    {
        let c = s.get_char(i);
        proof {
            assert(s@.take(i + 1).drop_last() =~= s@.take(i as int));
            assert(s@.take(i + 1).last() == c);
        }
        if c == '"' {
            push_char(out, '\\');
            push_char(out, '"');
        } else if c == '\\' {
            push_char(out, '\\');
            push_char(out, '\\');
        } else if c == '\n' {
            push_char(out, '\\');
            push_char(out, 'n');
        } else if c == '\r' {
            push_char(out, '\\');
            push_char(out, 'r');
        } else if c == '\t' {
            push_char(out, '\\');
            push_char(out, 't');
        } else if (c as u32) < 32 {
            push_char(out, '\\');
            push_char(out, 'u');
            push_char(out, '0');
            push_char(out, '0');
            let hi = (c as u32) / 16;
            let lo = (c as u32) % 16;
            push_char(out, digit_char(hi as u64));
            let lo_char = if lo < 10 {
                digit_char(lo as u64)
            } else if lo == 10 {
                'a'
            } else if lo == 11 {
                'b'
            } else if lo == 12 {
                'c'
            } else if lo == 13 {
                'd'
            } else if lo == 14 {
                'e'
            } else {
                'f'
            };
            push_char(out, lo_char);
        } else {
            push_char(out, c);
        }
        proof {
            assert(out@ =~= old(out)@ + spec_esc(s@.take(i + 1)));
        }
        i += 1;
    }
    proof {
        assert(s@.take(n as int) =~= s@);
    }
}

/// The wire text of a JSON value: members and items in order, no spacing.
pub open spec fn json_text(j: JsonV) -> Seq<char>
    decreases j,
{
    match j {
        JsonV::Null => "null"@,
        JsonV::Bool(b) => if b {
            "true"@
        } else {
            "false"@
        },
        JsonV::Num(n) => spec_num_text(n),
        JsonV::Str(s) => seq!['"'] + spec_esc(s) + seq!['"'],
        JsonV::Arr(items) => seq!['['] + json_items_text(items) + seq![']'],
        JsonV::Obj(ms) => seq!['{'] + json_members_text(ms) + seq!['}'],
    }
}

pub open spec fn json_items_text(items: Seq<JsonV>) -> Seq<char>
    decreases items,
{
    if items.len() == 0 {
        Seq::empty()
    } else if items.len() == 1 {
        json_text(items[0])
    } else {
        json_items_text(items.drop_last()) + seq![','] + json_text(items.last())
    }
}

pub open spec fn json_members_text(ms: Seq<(Seq<char>, JsonV)>) -> Seq<char>
    decreases ms,
{
    if ms.len() == 0 {
        Seq::empty()
    } else if ms.len() == 1 {
        member_text(ms[0])
    } else {
        json_members_text(ms.drop_last()) + seq![','] + member_text(ms.last())
    }
}

pub open spec fn member_text(m: (Seq<char>, JsonV)) -> Seq<char>
    decreases m,
{
    seq!['"'] + spec_esc(m.0) + seq!['"', ':'] + json_text(m.1)
}

#[verifier::loop_isolation(false)]
#[verifier::rlimit(100)]
fn push_json(out: &mut String, j: &Json)
    ensures
        final(out)@ == old(out)@ + json_text(j@),
    decreases *j,
{
    match j {
        Json::Null => {
            out.append("null");
        },
        Json::Bool(b) => {
            if *b {
                out.append("true");
            } else {
                out.append("false");
            }
        },
        Json::Num(n) => {
            push_num(out, *n);
        },
        Json::Str(s) => {
            push_char(out, '"');
            push_esc(out, s.as_str());
            push_char(out, '"');
            proof {
                assert(final(out)@ =~= old(out)@ + json_text(j@));
            }
        },
        Json::Arr(items) => {
            proof {
                lemma_json_views_len(items@);
            }
            push_char(out, '[');
            let mut i: usize = 0;
            while i < items.len()
                invariant
                    i <= items@.len(),
                    out@ == old(out)@ + seq!['['] + json_items_text(json_views(items@).take(
                        i as int,
                    )),
                decreases items@.len() - i,
            {
                if i > 0 {
                    push_char(out, ',');
                }
                proof {
                    assert(decreases_to!(*j => j->Arr_0));
                    assert(decreases_to!(j->Arr_0 => j->Arr_0@));
                    assert(decreases_to!(j->Arr_0@ => j->Arr_0@[i as int]));
                }
                push_json(out, &items[i]);
                proof {
                    let views = json_views(items@);
                    assert(views.take(i + 1).drop_last() =~= views.take(i as int));
                    assert(views.take(i + 1).last() == json_view(items@[i as int]));
                    assert(out@ =~= old(out)@ + seq!['['] + json_items_text(views.take(i + 1)));
                }
                i += 1;
            }
            push_char(out, ']');
            proof {
                assert(json_views(items@).take(items@.len() as int) =~= json_views(items@));
                assert(final(out)@ =~= old(out)@ + json_text(j@));
            }
        },
        Json::Obj(members) => {
            proof {
                lemma_member_views_len(members@);
            }
            push_char(out, '{');
            let mut i: usize = 0;
            while i < members.len()
                invariant
                    i <= members@.len(),
                    out@ == old(out)@ + seq!['{'] + json_members_text(member_views(members@).take(
                        i as int,
                    )),
                decreases members@.len() - i,
            {
                let ghost before = out@;
                if i > 0 {
                    push_char(out, ',');
                }
                push_char(out, '"');
                push_esc(out, members[i].0.as_str());
                push_char(out, '"');
                push_char(out, ':');
                proof {
                    assert(decreases_to!(*j => j->Obj_0));
                    assert(decreases_to!(j->Obj_0 => j->Obj_0@));
                    assert(decreases_to!(j->Obj_0@ => j->Obj_0@[i as int]));
                    assert(decreases_to!(j->Obj_0@[i as int] => j->Obj_0@[i as int].1));
                }
                push_json(out, &members[i].1);
                proof {
                    let views = member_views(members@);
                    let entry = (members@[i as int].0@, json_view(members@[i as int].1));
                    assert(views[i as int] == entry);
                    assert(out@ =~= before + (if i > 0 {
                        seq![',']
                    } else {
                        Seq::<char>::empty()
                    }) + member_text(entry));
                    assert(views.take(i + 1).drop_last() =~= views.take(i as int));
                    assert(views.take(i + 1).last() == entry);
                    if i == 0 {
                        assert(json_members_text(views.take(1)) == member_text(views.take(1)[0]));
                        assert(views.take(1)[0] == entry);
                    } else {
                        assert(json_members_text(views.take(i + 1)) == json_members_text(
                            views.take(i as int),
                        ) + seq![','] + member_text(entry));
                    }
                    assert(out@ =~= old(out)@ + seq!['{'] + json_members_text(views.take(i + 1)));
                }
                i += 1;
            }
            push_char(out, '}');
            proof {
                assert(member_views(members@).take(members@.len() as int) =~= member_views(
                    members@,
                ));
                assert(final(out)@ =~= old(out)@ + json_text(j@));
            }
        },
    }
}

impl Json {
    /// Renders the value as JSON text.
    pub fn encode(&self) -> (r: String)
        ensures
            r@ == json_text(self@),
    {
        let mut out = String::new();
        push_json(&mut out, self);
        proof {
            assert(out@ =~= json_text(self@));
        }
        out
    }
}

} // verus!
