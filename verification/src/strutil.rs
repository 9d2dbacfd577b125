use vstd::prelude::*;

verus! {

/// Character-exact equality of two string slices.
pub fn eq_str(a: &str, b: &str) -> (r: bool)
    ensures
        r == (a@ == b@),
{
    let na = a.unicode_len();
    let nb = b.unicode_len();
    if na != nb {
        assert(a@ != b@) by {
            assert(a@.len() != b@.len());
        }
        return false;
    }
    let mut i: usize = 0;
    while i < na
        invariant
            na == a@.len(),
            nb == b@.len(),
            na == nb,
            0 <= i <= na,
            forall|j: int| 0 <= j < i ==> a@[j] == b@[j],
        decreases na - i,
    {
        let ca = a.get_char(i);
        let cb = b.get_char(i);
        if ca != cb {
            assert(a@ != b@) by {
                assert(a@[i as int] != b@[i as int]);
            }
            return false;
        }
        i += 1;
    }
    proof {
        assert(a@ =~= b@);
    }
    true
}

/// Index of the first `/` in `s`, or `-1` if there is none.
pub open spec fn first_slash(s: Seq<char>) -> int
    decreases s.len(),
{
    if s.len() == 0 {
        -1
    } else if s[0] == '/' {
        0
    } else {
        let r = first_slash(s.skip(1));
        if r < 0 {
            -1
        } else {
            r + 1
        }
    }
}

/// `first_slash` finds the least index holding `/`, if any.
pub proof fn lemma_first_slash(s: Seq<char>)
    ensures
        first_slash(s) == -1 ==> forall|i: int| 0 <= i < s.len() ==> s[i] != '/',
        first_slash(s) >= 0 ==> 0 <= first_slash(s) < s.len() && s[first_slash(s)] == '/'
            && forall|i: int| 0 <= i < first_slash(s) ==> s[i] != '/',
    decreases s.len(),
{
    if s.len() == 0 {
    } else if s[0] == '/' {
    } else {
        lemma_first_slash(s.skip(1));
        let r = first_slash(s.skip(1));
        if r < 0 {
            assert forall|i: int| 0 <= i < s.len() implies s[i] != '/' by {
                if i > 0 {
                    assert(s.skip(1)[i - 1] == s[i]);
                }
            }
        } else {
            assert(s[r + 1] == s.skip(1)[r]);
            assert forall|i: int| 0 <= i < r + 1 implies s[i] != '/' by {
                if i > 0 {
                    assert(s.skip(1)[i - 1] == s[i]);
                }
            }
        }
    }
}

/// A sequence with no `/` followed by `/` and anything: the first `/` is right
/// after the slash-free part.
pub proof fn lemma_first_slash_concat(a: Seq<char>, b: Seq<char>)
    requires
        forall|i: int| 0 <= i < a.len() ==> a[i] != '/',
    ensures
        first_slash(a + seq!['/'] + b) == a.len(),
    decreases a.len(),
{
    let s = a + seq!['/'] + b;
    if a.len() == 0 {
        assert(s[0] == '/');
    } else {
        assert(s[0] == a[0]);
        assert(s[0] != '/');
        lemma_first_slash_concat(a.skip(1), b);
        assert(s.skip(1) =~= a.skip(1) + seq!['/'] + b);
    }
}

/// Exec search for the first `/` at or after `from`.
pub fn find_slash(s: &str, from: usize) -> (r: Option<usize>)
    requires
        from <= s@.len(),
    ensures
        match r {
            Some(i) => from <= i < s@.len() && s@[i as int] == '/' && forall|j: int|
                from <= j < i ==> s@[j] != '/',
            None => forall|j: int| from <= j < s@.len() ==> s@[j] != '/',
        },
{
    let n = s.unicode_len();
    let mut i: usize = from;
    while i < n
        invariant
            n == s@.len(),
            from <= i <= n,
            forall|j: int| from <= j < i ==> s@[j] != '/',
        decreases n - i,
    {
        if s.get_char(i) == '/' {
            return Some(i);
        }
        i += 1;
    }
    None
}

/// Relates `find_slash`'s answer to the spec-level `first_slash` of a suffix.
pub proof fn lemma_first_slash_of_suffix(s: Seq<char>, from: int, found: int)
    requires
        0 <= from <= s.len(),
        found == -1 ==> forall|j: int| from <= j < s.len() ==> s[j] != '/',
        found >= 0 ==> from <= found < s.len() && s[found] == '/' && forall|j: int|
            from <= j < found ==> s[j] != '/',
    ensures
        found == -1 ==> first_slash(s.skip(from)) == -1,
        found >= 0 ==> first_slash(s.skip(from)) == found - from,
{
    let t = s.skip(from);
    lemma_first_slash(t);
    if found == -1 {
        if first_slash(t) >= 0 {
            assert(s[first_slash(t) + from] == t[first_slash(t)]);
        }
    } else if found >= 0 {
        if first_slash(t) == -1 {
            assert(t[found - from] == s[found]);
        } else {
            let f = first_slash(t);
            if f < found - from {
                assert(s[f + from] == t[f]);
            } else if f > found - from {
                assert(t[found - from] == s[found]);
            }
        }
    }
}

/// Index of the first occurrence of `c` in `s`, or `-1` if there is none.
pub open spec fn first_at(s: Seq<char>, c: char) -> int
    decreases s.len(),
{
    if s.len() == 0 {
        -1
    } else if s[0] == c {
        0
    } else {
        let r = first_at(s.skip(1), c);
        if r < 0 {
            -1
        } else {
            r + 1
        }
    }
}

/// `first_at` finds the least index holding `c`, if any.
pub proof fn lemma_first_at(s: Seq<char>, c: char)
    ensures
        first_at(s, c) == -1 ==> forall|i: int| 0 <= i < s.len() ==> s[i] != c,
        first_at(s, c) >= 0 ==> 0 <= first_at(s, c) < s.len() && s[first_at(s, c)] == c
            && forall|i: int| 0 <= i < first_at(s, c) ==> s[i] != c,
    decreases s.len(),
{
    if s.len() == 0 {
    } else if s[0] == c {
    } else {
        lemma_first_at(s.skip(1), c);
        let r = first_at(s.skip(1), c);
        if r < 0 {
            assert forall|i: int| 0 <= i < s.len() implies s[i] != c by {
                if i > 0 {
                    assert(s.skip(1)[i - 1] == s[i]);
                }
            }
        } else {
            assert(s[r + 1] == s.skip(1)[r]);
            assert forall|i: int| 0 <= i < r + 1 implies s[i] != c by {
                if i > 0 {
                    assert(s.skip(1)[i - 1] == s[i]);
                }
            }
        }
    }
}

/// Exec search for the first `c` at or after `from`.
pub fn find_char(s: &str, from: usize, c: char) -> (r: Option<usize>)
    requires
        from <= s@.len(),
    ensures
        match r {
            Some(i) => from <= i < s@.len() && s@[i as int] == c && forall|j: int|
                from <= j < i ==> s@[j] != c,
            None => forall|j: int| from <= j < s@.len() ==> s@[j] != c,
        },
{
    let n = s.unicode_len();
    let mut i: usize = from;
    while i < n
        invariant
            n == s@.len(),
            from <= i <= n,
            forall|j: int| from <= j < i ==> s@[j] != c,
        decreases n - i,
    {
        if s.get_char(i) == c {
            return Some(i);
        }
        i += 1;
    }
    None
}

/// Relates `find_char`'s answer to `first_at` on a suffix.
pub proof fn lemma_first_at_of_suffix(s: Seq<char>, from: int, c: char, found: int)
    requires
        0 <= from <= s.len(),
        found == -1 ==> forall|j: int| from <= j < s.len() ==> s[j] != c,
        found >= 0 ==> from <= found < s.len() && s[found] == c && forall|j: int|
            from <= j < found ==> s[j] != c,
    ensures
        found == -1 ==> first_at(s.skip(from), c) == -1,
        found >= 0 ==> first_at(s.skip(from), c) == found - from,
{
    let t = s.skip(from);
    lemma_first_at(t, c);
    if found == -1 {
        if first_at(t, c) >= 0 {
            assert(s[first_at(t, c) + from] == t[first_at(t, c)]);
        }
    } else if found >= 0 {
        if first_at(t, c) == -1 {
            assert(t[found - from] == s[found]);
        } else {
            let f = first_at(t, c);
            if f < found - from {
                assert(s[f + from] == t[f]);
            } else if f > found - from {
                assert(t[found - from] == s[found]);
            }
        }
    }
}

/// A decimal digit.
pub open spec fn is_digit(c: char) -> bool {
    '0' <= c && c <= '9'
}

pub open spec fn digit_val(c: char) -> int {
    c as int - '0' as int
}

pub open spec fn all_digits(s: Seq<char>) -> bool {
    forall|i: int| 0 <= i < s.len() ==> is_digit(#[trigger] s[i])
}

/// The whole number a digit string denotes, most significant digit first.
pub open spec fn dec_val(s: Seq<char>) -> int
    decreases s.len(),
{
    if s.len() == 0 {
        0
    } else {
        dec_val(s.drop_last()) * 10 + digit_val(s.last())
    }
}

pub proof fn lemma_dec_val_nonneg(s: Seq<char>)
    requires
        all_digits(s),
    ensures
        dec_val(s) >= 0,
    decreases s.len(),
{
    if s.len() > 0 {
        assert(all_digits(s.drop_last())) by {
            assert(forall|i: int| 0 <= i < s.len() - 1 ==> s.drop_last()[i] == s[i]);
        }
        lemma_dec_val_nonneg(s.drop_last());
        assert(digit_val(s.last()) >= 0);
    }
}

/// A longer digit prefix never denotes a smaller number.
pub proof fn lemma_dec_val_mono(s: Seq<char>, i: int)
    requires
        all_digits(s),
        0 <= i <= s.len(),
    ensures
        dec_val(s.take(i)) <= dec_val(s),
    decreases s.len() - i,
{
    if i < s.len() {
        let t = s.take(i + 1);
        assert(t.drop_last() =~= s.take(i));
        assert(all_digits(s.take(i)) && all_digits(t)) by {
            assert(forall|j: int| 0 <= j < i + 1 ==> t[j] == s[j]);
            assert(forall|j: int| 0 <= j < i ==> s.take(i)[j] == s[j]);
        }
        lemma_dec_val_nonneg(s.take(i));
        assert(dec_val(t) == dec_val(s.take(i)) * 10 + digit_val(t.last()));
        assert(dec_val(s.take(i)) <= dec_val(t)) by {
            lemma_dec_val_nonneg(s.take(i));
            assert(digit_val(t.last()) >= 0);
            assert(dec_val(s.take(i)) * 10 >= dec_val(s.take(i)));
        }
        lemma_dec_val_mono(s, i + 1);
        assert(s.take(s.len() as int) =~= s);
    } else {
        assert(s.take(i) =~= s);
    }
}

/// Accumulates digits of `s[from..to]` onto `acc`, which already denotes
/// the digits of `prefix`. Refuses a non-digit or a value beyond `u64`.
pub(crate) fn accum_digits(s: &str, from: usize, to: usize, acc: u64, Ghost(prefix): Ghost<Seq<char>>) -> (r:
    Option<u64>)
    requires
        from <= to <= s@.len(),
        all_digits(prefix),
        acc == dec_val(prefix),
    ensures
        ({
            let digits = prefix + s@.subrange(from as int, to as int);
            match r {
                Some(v) => all_digits(digits) && dec_val(digits) <= u64::MAX && v == dec_val(
                    digits,
                ),
                None => !(all_digits(digits) && dec_val(digits) <= u64::MAX),
            }
        }),
{
    let ghost digits = prefix + s@.subrange(from as int, to as int);
    let mut acc = acc;
    let mut i: usize = from;
    proof {
        assert(digits.take(prefix.len() as int) =~= prefix);
    }
    while i < to
        invariant
            from <= i <= to <= s@.len(),
            all_digits(prefix),
            digits == prefix + s@.subrange(from as int, to as int),
            digits.len() == prefix.len() + (to - from),
            forall|j: int| from <= j < i ==> s@[j] == digits[prefix.len() + (j - from)],
            forall|j: int| from <= j < i ==> is_digit(#[trigger] s@[j]),
            all_digits(digits.take(prefix.len() + (i - from))),
            acc == dec_val(digits.take(prefix.len() + (i - from))),
        decreases to - i,
    {
        let c = s.get_char(i);
        proof {
            assert(digits[prefix.len() + (i - from)] == s@.subrange(from as int, to as int)[i
                - from]);
            assert(s@.subrange(from as int, to as int)[i - from] == s@[i as int]);
        }
        if !('0' <= c && c <= '9') {
            proof {
                assert(!is_digit(digits[prefix.len() + (i - from)]));
            }
            return None;
        }
        let d: u64 = (c as u32 - '0' as u32) as u64;
        let ghost k = prefix.len() + (i - from);
        proof {
            assert(digits.take(k + 1).drop_last() =~= digits.take(k as int));
            assert(digits.take(k + 1).last() == digits[k as int]);
            assert(all_digits(digits.take(k + 1))) by {
                assert(forall|j: int|
                    0 <= j < k + 1 ==> digits.take(k + 1)[j] == digits.take(k as int)[j] || j
                        == k);
            }
            assert(dec_val(digits.take(k + 1)) == acc * 10 + d);
        }
        if acc > (u64::MAX - d) / 10 {
            proof {
                assert(acc * 10 + d > u64::MAX) by (nonlinear_arith)
                    requires
                        acc > (u64::MAX - d) / 10,
                        0 <= d <= 9,
                        acc >= 0,
                ;
                if all_digits(digits) {
                    lemma_dec_val_mono(digits, k + 1);
                }
            }
            return None;
        }
        proof {
            assert(acc * 10 + d <= u64::MAX) by (nonlinear_arith)
                requires
                    acc <= (u64::MAX - d) / 10,
                    0 <= d <= 9,
                    acc >= 0,
            ;
        }
        acc = acc * 10 + d;
        i += 1;
    }
    proof {
        assert(digits.take(prefix.len() + (i - from)) =~= digits);
    }
    Some(acc)
}

} // verus!
