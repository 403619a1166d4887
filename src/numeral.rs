//! Recognition of decimal real-number literals, as they appear in the
//! coordinate fields of a point entity.
//!
//! The grammar is the decimal form that `f64`'s `FromStr` documents:
//! an optional sign, digits with at most one decimal point (at least one
//! digit in all), and an optional exponent (`e` or `E`, an optional sign,
//! at least one digit). Only ASCII digits count.
use vstd::prelude::*;
use crate::text::char_vec;

verus! {

pub open spec fn is_sign(c: char) -> bool {
    c == '+' || c == '-'
}

pub open spec fn is_digit(c: char) -> bool {
    '0' <= c && c <= '9'
}

pub open spec fn is_exponent_marker(c: char) -> bool {
    c == 'e' || c == 'E'
}

/// The number of decimal digits at the start of `s`.
pub open spec fn leading_digits(s: Seq<char>) -> nat
    decreases s.len(),
{
    if s.len() > 0 && is_digit(s[0]) {
        1 + leading_digits(s.drop_first())
    } else {
        0
    }
}

/// `s` without its first character when that character is a sign.
pub open spec fn without_sign(s: Seq<char>) -> Seq<char> {
    if s.len() > 0 && is_sign(s[0]) {
        s.drop_first()
    } else {
        s
    }
}

pub open spec fn all_digits(s: Seq<char>) -> bool {
    forall|i: int| 0 <= i < s.len() ==> is_digit(#[trigger] s[i])
}

/// An exponent part, possibly empty: a marker, an optional sign, one digit or more.
pub open spec fn exponent_part(s: Seq<char>) -> bool {
    s.len() == 0 || (is_exponent_marker(s[0]) && without_sign(s.drop_first()).len() > 0
        && all_digits(without_sign(s.drop_first())))
}

/// `s` is a decimal real-number literal.
pub open spec fn decimal_literal(s: Seq<char>) -> bool {
    let t = without_sign(s);
    let a = leading_digits(t) as int;
    let rest = t.skip(a);
    if rest.len() > 0 && rest[0] == '.' {
        let frac = rest.drop_first();
        let b = leading_digits(frac) as int;
        a + b > 0 && exponent_part(frac.skip(b))
    } else {
        a > 0 && exponent_part(rest)
    }
}

proof fn lemma_leading_digits(s: Seq<char>)
    ensures
        leading_digits(s) <= s.len(),
        forall|k: int| 0 <= k < leading_digits(s) ==> is_digit(#[trigger] s[k]),
        leading_digits(s) < s.len() ==> !is_digit(s[leading_digits(s) as int]),
        all_digits(s) <==> leading_digits(s) == s.len(),
    decreases s.len(),
{
    if s.len() > 0 && is_digit(s[0]) {
        lemma_leading_digits(s.drop_first());
        assert forall|k: int| 0 <= k < leading_digits(s) implies is_digit(#[trigger] s[k]) by {
            if k > 0 {
                assert(s[k] == s.drop_first()[k - 1]);
            }
        }
        if all_digits(s) {
            assert forall|i: int| 0 <= i < s.drop_first().len() implies is_digit(
                #[trigger] s.drop_first()[i],
            ) by {
                assert(s.drop_first()[i] == s[i + 1]);
            }
        }
        if leading_digits(s) == s.len() {
            assert forall|i: int| 0 <= i < s.len() implies is_digit(#[trigger] s[i]) by {
                if i > 0 {
                    assert(s[i] == s.drop_first()[i - 1]);
                }
            }
        }
    } else if s.len() > 0 {
        assert(!is_digit(s[0]));
    }
}

/// The position just past the run of digits that starts at `from`.
fn skip_digits(v: &Vec<char>, from: usize) -> (r: usize)
    requires
        from <= v.len(),
    ensures
        r == from + leading_digits(v@.skip(from as int)),
        r <= v.len(),
{
    let mut i: usize = from;
    while i < v.len() && '0' <= v[i] && v[i] <= '9'
        invariant
            from <= i <= v.len(),
            from + leading_digits(v@.skip(from as int)) == i + leading_digits(v@.skip(i as int)),
        decreases v.len() - i,
    {
        assert(v@.skip(i as int).drop_first() =~= v@.skip(i + 1));
        i = i + 1;
    }
    proof {
        lemma_leading_digits(v@.skip(i as int));
        if i < v.len() {
            assert(v@.skip(i as int)[0] == v@[i as int]);
        }
    }
    i
}

/// Whether the characters of `v` from `from` on form an exponent part.
fn exponent_from(v: &Vec<char>, from: usize) -> (r: bool)
    requires
        from <= v.len(),
    ensures
        r == exponent_part(v@.skip(from as int)),
{
    let ghost s = v@.skip(from as int);
    if from == v.len() {
        return true;
    }
    assert(s[0] == v@[from as int]);
    if v[from] != 'e' && v[from] != 'E' {
        return false;
    }
    let mut j: usize = from + 1;
    assert(s.drop_first() =~= v@.skip(j as int));
    if j < v.len() && (v[j] == '+' || v[j] == '-') {
        assert(v@.skip(j as int)[0] == v@[j as int]);
        assert(v@.skip(j as int).drop_first() =~= v@.skip(j + 1));
        j = j + 1;
    } else if j < v.len() {
        assert(v@.skip(j as int)[0] == v@[j as int]);
    }
    assert(without_sign(s.drop_first()) =~= v@.skip(j as int));
    let end = skip_digits(v, j);
    proof {
        lemma_leading_digits(v@.skip(j as int));
    }
    j < v.len() && end == v.len()
}

/// Whether `s` is a decimal real-number literal.
pub fn is_decimal_literal(s: &str) -> (r: bool)
    ensures
        r == decimal_literal(s@),
{
    let v = char_vec(s);
    let mut i: usize = 0;
    if v.len() > 0 && (v[0] == '+' || v[0] == '-') {
        i = 1;
    }
    assert(without_sign(v@) =~= v@.skip(i as int));
    let a_end = skip_digits(&v, i);
    let ghost t = v@.skip(i as int);
    assert(t.skip(a_end - i) =~= v@.skip(a_end as int));
    if a_end < v.len() && v[a_end] == '.' {
        assert(v@.skip(a_end as int)[0] == v@[a_end as int]);
        assert(v@.skip(a_end as int).drop_first() =~= v@.skip(a_end + 1));
        let b_end = skip_digits(&v, a_end + 1);
        assert(v@.skip(a_end + 1).skip(b_end - a_end - 1) =~= v@.skip(b_end as int));
        (a_end - i) + (b_end - a_end - 1) > 0 && exponent_from(&v, b_end)
    } else {
        if a_end < v.len() {
            assert(v@.skip(a_end as int)[0] == v@[a_end as int]);
        }
        a_end - i > 0 && exponent_from(&v, a_end)
    }
}

} // verus!
