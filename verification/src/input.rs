//! Validation of the coordinate text fields.
//!
//! The latitude and longitude inputs are free text, edited by the user on
//! every keystroke. Before a fetch is dispatched each field is normalized —
//! surrounding whitespace trimmed, one optional trailing degree mark
//! stripped — and the remainder must be a well-formed floating-point
//! literal: an optional sign followed by a decimal mantissa with an
//! optional exponent, or a case-insensitive `inf`, `infinity` or `nan`.
//! Validation returns the normalized text itself, so parsing the returned
//! text is the same as stripping the input and parsing it directly.

use vstd::prelude::*;
use vstd::string::StrSliceExecFns;

use crate::error::AppError;

verus! {

/// The whitespace characters trimmed from the ends of an input field.
pub open spec fn is_space(c: char) -> bool {
    c == ' ' || c == '\t' || c == '\n' || c == '\r'
}

/// Leading whitespace removed.
pub open spec fn trim_front(s: Seq<char>) -> Seq<char>
    decreases s.len(),
{
    if s.len() > 0 && is_space(s[0]) {
        trim_front(s.drop_first())
    } else {
        s
    }
}

/// Trailing whitespace removed.
pub open spec fn trim_back(s: Seq<char>) -> Seq<char>
    decreases s.len(),
{
    if s.len() > 0 && is_space(s.last()) {
        trim_back(s.drop_last())
    } else {
        s
    }
}

/// Whitespace removed from both ends.
pub open spec fn trimmed(s: Seq<char>) -> Seq<char> {
    trim_back(trim_front(s))
}

/// One trailing degree mark removed, if present.
pub open spec fn strip_degree(s: Seq<char>) -> Seq<char> {
    if s.len() > 0 && s.last() == '°' {
        s.drop_last()
    } else {
        s
    }
}

/// The normal form of an input field: trimmed, degree mark stripped.
pub open spec fn normalize(s: Seq<char>) -> Seq<char> {
    strip_degree(trimmed(s))
}

/// An ASCII decimal digit.
pub open spec fn is_digit(c: char) -> bool {
    48 <= c as u32 <= 57
}

/// A leading sign character.
pub open spec fn is_sign(c: char) -> bool {
    c == '+' || c == '-'
}

/// An exponent marker.
pub open spec fn is_exp_char(c: char) -> bool {
    c == 'e' || c == 'E'
}

/// One optional leading sign removed.
pub open spec fn strip_sign(s: Seq<char>) -> Seq<char> {
    if s.len() > 0 && is_sign(s[0]) {
        s.drop_first()
    } else {
        s
    }
}

/// Number of decimal digits in a sequence.
pub open spec fn digit_count(s: Seq<char>) -> nat
    decreases s.len(),
{
    if s.len() == 0 {
        0
    } else {
        digit_count(s.drop_last()) + if is_digit(s.last()) {
            1nat
        } else {
            0nat
        }
    }
}

/// Number of decimal points in a sequence.
pub open spec fn dot_count(s: Seq<char>) -> nat
    decreases s.len(),
{
    if s.len() == 0 {
        0
    } else {
        dot_count(s.drop_last()) + if s.last() == '.' {
            1nat
        } else {
            0nat
        }
    }
}

/// An unsigned decimal mantissa: digits with at most one decimal point
/// anywhere among them, and at least one digit.
pub open spec fn is_mantissa(s: Seq<char>) -> bool {
    &&& s.len() > 0
    &&& forall|i: int| 0 <= i < s.len() ==> is_digit(s[i]) || s[i] == '.'
    &&& dot_count(s) <= 1
    &&& digit_count(s) >= 1
}

/// An exponent tail (what follows `e`): an optional sign, then digits.
pub open spec fn is_exp_tail(s: Seq<char>) -> bool {
    let d = strip_sign(s);
    d.len() > 0 && forall|i: int| 0 <= i < d.len() ==> is_digit(d[i])
}

/// An exponent marker at position `i` splits `u` into a mantissa and an
/// exponent tail.
pub open spec fn is_exp_split(u: Seq<char>, i: int) -> bool {
    &&& 0 <= i < u.len()
    &&& is_exp_char(u[i])
    &&& is_mantissa(u.subrange(0, i))
    &&& is_exp_tail(u.subrange(i + 1, u.len() as int))
}

/// One character of a keyword, compared case-insensitively: either the
/// lowercase letter itself or its uppercase form (32 less in ASCII).
pub open spec fn char_eq_ci(c: char, lower: char) -> bool {
    c == lower || c as u32 + 32 == lower as u32
}

/// Case-insensitive match of a whole keyword.
pub open spec fn matches_keyword_ci(s: Seq<char>, kw: Seq<char>) -> bool {
    s.len() == kw.len() && forall|i: int| 0 <= i < s.len() ==> char_eq_ci(s[i], kw[i])
}

/// The non-finite spellings accepted by a float parse.
pub open spec fn is_special(s: Seq<char>) -> bool {
    ||| matches_keyword_ci(s, seq!['i', 'n', 'f'])
    ||| matches_keyword_ci(s, seq!['i', 'n', 'f', 'i', 'n', 'i', 't', 'y'])
    ||| matches_keyword_ci(s, seq!['n', 'a', 'n'])
}

/// A well-formed unsigned floating-point literal.
pub open spec fn is_unsigned_float_text(u: Seq<char>) -> bool {
    ||| is_special(u)
    ||| is_mantissa(u)
    ||| exists|i: int| is_exp_split(u, i)
}

/// A well-formed floating-point literal: an optional sign, then either a
/// non-finite spelling, a decimal mantissa, or a mantissa with exponent.
pub open spec fn is_float_text(s: Seq<char>) -> bool {
    is_unsigned_float_text(strip_sign(s))
}

/// The characters of a string, as an indexable vector.
pub(crate) fn chars_of(s: &str) -> (v: Vec<char>)
    ensures
        v@ == s@,
{
    let n = s.unicode_len();
    let mut v: Vec<char> = Vec::new();
    let mut i: usize = 0;
    while i < n
        invariant
            i <= n,
            n == s@.len(),
            v@ == s@.subrange(0, i as int),
        decreases n - i,
    {
        let c = s.get_char(i);
        v.push(c);
        proof {
            assert(s@.subrange(0, i + 1 as int) =~= s@.subrange(0, i as int).push(s@[i as int]));
        }
        i += 1;
    }
    proof {
        assert(v@ =~= s@);
    }
    v
}

fn is_space_exec(c: char) -> (r: bool)
    ensures
        r == is_space(c),
{
    c == ' ' || c == '\t' || c == '\n' || c == '\r'
}

fn is_digit_exec(c: char) -> (r: bool)
    ensures
        r == is_digit(c),
{
    let u = c as u32;
    48 <= u && u <= 57
}

proof fn lemma_trim_front_skip(s: Seq<char>, i: int)
    requires
        0 <= i <= s.len(),
        forall|j: int| 0 <= j < i ==> is_space(s[j]),
        i < s.len() ==> !is_space(s[i]),
    ensures
        trim_front(s) == s.subrange(i, s.len() as int),
    decreases i,
{
    if i == 0 {
        assert(s.subrange(0, s.len() as int) =~= s);
    } else {
        assert(is_space(s[0]));
        let t = s.drop_first();
        assert(t =~= s.subrange(1, s.len() as int));
        assert(forall|j: int| 0 <= j < i - 1 ==> is_space(t[j]));
        lemma_trim_front_skip(t, i - 1);
        assert(t.subrange(i - 1, t.len() as int) =~= s.subrange(i, s.len() as int));
    }
}

proof fn lemma_trim_back_skip(s: Seq<char>, i: int)
    requires
        0 <= i <= s.len(),
        forall|j: int| i <= j < s.len() ==> is_space(s[j]),
        i > 0 ==> !is_space(s[i - 1]),
    ensures
        trim_back(s) == s.subrange(0, i),
    decreases s.len() - i,
{
    if i == s.len() {
        assert(s.subrange(0, s.len() as int) =~= s);
    } else {
        assert(is_space(s.last()));
        let t = s.drop_last();
        assert(t =~= s.subrange(0, s.len() - 1));
        assert(forall|j: int| i <= j < t.len() ==> is_space(t[j]));
        lemma_trim_back_skip(t, i);
        assert(t.subrange(0, i) =~= s.subrange(0, i));
    }
}

/// The bounds of the whitespace-trimmed text inside the character vector,
/// as a contiguous index range.
pub(crate) fn trim_bounds(v: &Vec<char>) -> (r: (usize, usize))
    ensures
        r.0 <= r.1 <= v@.len(),
        trimmed(v@) == v@.subrange(r.0 as int, r.1 as int),
{
    let n = v.len();
    let mut a: usize = 0;
    while a < n && is_space_exec(v[a])
        invariant
            a <= n,
            n == v@.len(),
            forall|j: int| 0 <= j < a ==> is_space(v@[j]),
        decreases n - a,
    {
        a += 1;
    }
    let mut b: usize = n;
    while b > a && is_space_exec(v[b - 1])
        invariant
            a <= b <= n,
            n == v@.len(),
            forall|j: int| b <= j < n ==> is_space(v@[j]),
        decreases b,
    {
        b -= 1;
    }
    proof {
        lemma_trim_front_skip(v@, a as int);
        let t = v@.subrange(a as int, n as int);
        assert(forall|j: int| b - a <= j < t.len() ==> is_space(t[j]));
        lemma_trim_back_skip(t, b - a);
        assert(t.subrange(0, b - a) =~= v@.subrange(a as int, b as int));
        assert(trimmed(v@) == v@.subrange(a as int, b as int));
    }
    (a, b)
}

/// The bounds of the normal form inside the character vector: `trimmed`
/// then `strip_degree`, as a contiguous index range.
fn normal_bounds(v: &Vec<char>) -> (r: (usize, usize))
    ensures
        r.0 <= r.1 <= v@.len(),
        normalize(v@) == v@.subrange(r.0 as int, r.1 as int),
{
    let (a, b) = trim_bounds(v);
    let b2: usize = if b > a && v[b - 1] == '°' {
        b - 1
    } else {
        b
    };
    proof {
        let t = v@.subrange(a as int, b as int);
        if b > a && v@[b - 1] == '°' {
            assert(t.last() == v@[b - 1]);
            assert(t.drop_last() =~= v@.subrange(a as int, b2 as int));
        } else {
            if t.len() > 0 {
                assert(t.last() == v@[b - 1]);
            }
        }
        assert(normalize(v@) == v@.subrange(a as int, b2 as int));
    }
    (a, b2)
}

/// Checks the decimal-mantissa grammar on `v[lo..hi]`.
fn check_mantissa(v: &Vec<char>, lo: usize, hi: usize) -> (r: bool)
    requires
        lo <= hi <= v@.len(),
    ensures
        r == is_mantissa(v@.subrange(lo as int, hi as int)),
{
    let mut digits: usize = 0;
    let mut dots: usize = 0;
    let mut shape_ok = true;
    let mut i = lo;
    while i < hi
        invariant
            lo <= i <= hi <= v@.len(),
            digits <= i - lo,
            dots <= i - lo,
            digits == digit_count(v@.subrange(lo as int, i as int)),
            dots == dot_count(v@.subrange(lo as int, i as int)),
            shape_ok == forall|j: int| lo <= j < i ==> is_digit(v@[j]) || v@[j] == '.',
        decreases hi - i,
    {
        let c = v[i];
        proof {
            let pre = v@.subrange(lo as int, i as int);
            let post = v@.subrange(lo as int, i + 1 as int);
            assert(post.drop_last() =~= pre);
            assert(post.last() == v@[i as int]);
        }
        if is_digit_exec(c) {
            digits += 1;
        } else if c == '.' {
            dots += 1;
        } else {
            shape_ok = false;
        }
        i += 1;
    }
    proof {
        let w = v@.subrange(lo as int, hi as int);
        if shape_ok {
            assert forall|j: int| 0 <= j < w.len() implies is_digit(w[j]) || w[j] == '.' by {
                assert(w[j] == v@[lo + j]);
            }
        } else {
            let j = choose|j: int| lo <= j < hi && !(is_digit(v@[j]) || v@[j] == '.');
            assert(w[j - lo] == v@[j]);
            assert(!(is_digit(w[j - lo]) || w[j - lo] == '.'));
        }
    }
    shape_ok && hi > lo && dots <= 1 && digits >= 1
}

/// Checks the exponent-tail grammar (optional sign, then digits) on
/// `v[lo..hi]`.
fn check_exp_tail(v: &Vec<char>, lo: usize, hi: usize) -> (r: bool)
    requires
        lo <= hi <= v@.len(),
    ensures
        r == is_exp_tail(v@.subrange(lo as int, hi as int)),
{
    let slo: usize = if lo < hi && (v[lo] == '+' || v[lo] == '-') {
        lo + 1
    } else {
        lo
    };
    proof {
        let s = v@.subrange(lo as int, hi as int);
        if s.len() > 0 && is_sign(s[0]) {
            assert(s.drop_first() =~= v@.subrange(slo as int, hi as int));
        }
        assert(strip_sign(s) =~= v@.subrange(slo as int, hi as int));
    }
    let mut all_digits = true;
    let mut i = slo;
    while i < hi
        invariant
            slo <= i <= hi <= v@.len(),
            all_digits == forall|j: int| slo <= j < i ==> is_digit(v@[j]),
        decreases hi - i,
    {
        if !is_digit_exec(v[i]) {
            all_digits = false;
        }
        i += 1;
    }
    proof {
        let d = v@.subrange(slo as int, hi as int);
        if all_digits {
            assert forall|j: int| 0 <= j < d.len() implies is_digit(d[j]) by {
                assert(d[j] == v@[slo + j]);
            }
        } else {
            let j = choose|j: int| slo <= j < hi && !is_digit(v@[j]);
            assert(d[j - slo] == v@[j]);
            assert(!is_digit(d[j - slo]));
        }
    }
    hi > slo && all_digits
}

/// Case-insensitive comparison of one character with a lowercase letter.
fn char_eq_ci_exec(c: char, lower: char) -> (r: bool)
    ensures
        r == char_eq_ci(c, lower),
{
    c == lower || (c as u32) + 32 == (lower as u32)
}

/// Checks the non-finite spellings on `v[lo..hi]`.
fn check_special(v: &Vec<char>, lo: usize, hi: usize) -> (r: bool)
    requires
        lo <= hi <= v@.len(),
    ensures
        r == is_special(v@.subrange(lo as int, hi as int)),
{
    let ghost u = v@.subrange(lo as int, hi as int);
    if hi - lo == 3 {
        let inf = char_eq_ci_exec(v[lo], 'i') && char_eq_ci_exec(v[lo + 1], 'n')
            && char_eq_ci_exec(v[lo + 2], 'f');
        let nan = char_eq_ci_exec(v[lo], 'n') && char_eq_ci_exec(v[lo + 1], 'a')
            && char_eq_ci_exec(v[lo + 2], 'n');
        proof {
            let kw_inf = seq!['i', 'n', 'f'];
            let kw_nan = seq!['n', 'a', 'n'];
            assert(u.len() == 3);
            assert(u[0] == v@[lo as int] && u[1] == v@[lo + 1] && u[2] == v@[lo + 2]);
            if inf {
                assert forall|i: int| 0 <= i < 3 implies char_eq_ci(u[i], kw_inf[i]) by {
                    if i == 0 {
                    } else if i == 1 {
                    } else {
                    }
                }
                assert(matches_keyword_ci(u, kw_inf));
            } else {
                assert(!matches_keyword_ci(u, kw_inf)) by {
                    if matches_keyword_ci(u, kw_inf) {
                        assert(char_eq_ci(u[0], kw_inf[0]));
                        assert(char_eq_ci(u[1], kw_inf[1]));
                        assert(char_eq_ci(u[2], kw_inf[2]));
                    }
                }
            }
            if nan {
                assert forall|i: int| 0 <= i < 3 implies char_eq_ci(u[i], kw_nan[i]) by {
                    if i == 0 {
                    } else if i == 1 {
                    } else {
                    }
                }
                assert(matches_keyword_ci(u, kw_nan));
            } else {
                assert(!matches_keyword_ci(u, kw_nan)) by {
                    if matches_keyword_ci(u, kw_nan) {
                        assert(char_eq_ci(u[0], kw_nan[0]));
                        assert(char_eq_ci(u[1], kw_nan[1]));
                        assert(char_eq_ci(u[2], kw_nan[2]));
                    }
                }
            }
            assert(!matches_keyword_ci(u, seq!['i', 'n', 'f', 'i', 'n', 'i', 't', 'y']));
        }
        inf || nan
    } else if hi - lo == 8 {
        let infy = char_eq_ci_exec(v[lo], 'i') && char_eq_ci_exec(v[lo + 1], 'n')
            && char_eq_ci_exec(v[lo + 2], 'f') && char_eq_ci_exec(v[lo + 3], 'i')
            && char_eq_ci_exec(v[lo + 4], 'n') && char_eq_ci_exec(v[lo + 5], 'i')
            && char_eq_ci_exec(v[lo + 6], 't') && char_eq_ci_exec(v[lo + 7], 'y');
        proof {
            let kw = seq!['i', 'n', 'f', 'i', 'n', 'i', 't', 'y'];
            assert(u.len() == 8);
            assert(forall|i: int| 0 <= i < 8 ==> u[i] == v@[lo + i]);
            if infy {
                assert forall|i: int| 0 <= i < 8 implies char_eq_ci(u[i], kw[i]) by {
                    if i == 0 {
                    } else if i == 1 {
                    } else if i == 2 {
                    } else if i == 3 {
                    } else if i == 4 {
                    } else if i == 5 {
                    } else if i == 6 {
                    } else {
                    }
                }
                assert(matches_keyword_ci(u, kw));
            } else {
                assert(!matches_keyword_ci(u, kw)) by {
                    if matches_keyword_ci(u, kw) {
                        assert(char_eq_ci(u[0], kw[0]));
                        assert(char_eq_ci(u[1], kw[1]));
                        assert(char_eq_ci(u[2], kw[2]));
                        assert(char_eq_ci(u[3], kw[3]));
                        assert(char_eq_ci(u[4], kw[4]));
                        assert(char_eq_ci(u[5], kw[5]));
                        assert(char_eq_ci(u[6], kw[6]));
                        assert(char_eq_ci(u[7], kw[7]));
                    }
                }
            }
            assert(!matches_keyword_ci(u, seq!['i', 'n', 'f']));
            assert(!matches_keyword_ci(u, seq!['n', 'a', 'n']));
        }
        infy
    } else {
        proof {
            assert(u.len() != 3 && u.len() != 8);
        }
        false
    }
}

/// Checks the whole floating-point grammar on `v[lo..hi]`.
fn check_float_text(v: &Vec<char>, lo: usize, hi: usize) -> (r: bool)
    requires
        lo <= hi <= v@.len(),
    ensures
        r == is_float_text(v@.subrange(lo as int, hi as int)),
{
    let ghost s = v@.subrange(lo as int, hi as int);
    let slo: usize = if lo < hi && (v[lo] == '+' || v[lo] == '-') {
        lo + 1
    } else {
        lo
    };
    proof {
        if s.len() > 0 && is_sign(s[0]) {
            assert(s.drop_first() =~= v@.subrange(slo as int, hi as int));
        }
        assert(strip_sign(s) =~= v@.subrange(slo as int, hi as int));
    }
    let ghost u = v@.subrange(slo as int, hi as int);
    // Find the first exponent marker, if any.
    let mut e_at: usize = hi;
    let mut i = slo;
    while i < hi
        invariant
            slo <= i <= hi <= v@.len(),
            e_at == hi || (slo <= e_at < i && is_exp_char(v@[e_at as int])),
            e_at == hi ==> forall|j: int| slo <= j < i ==> !is_exp_char(v@[j]),
            e_at < hi ==> forall|j: int| slo <= j < e_at ==> !is_exp_char(v@[j]),
        decreases hi - i,
    {
        if e_at == hi && (v[i] == 'e' || v[i] == 'E') {
            e_at = i;
        }
        i += 1;
    }
    proof {
        assert(forall|j: int| 0 <= j < u.len() ==> u[j] == v@[slo + j]);
    }
    if e_at == hi {
        // No exponent marker: the text must be a special spelling or a
        // plain mantissa, and no exponent split can exist.
        let r = check_special(v, slo, hi) || check_mantissa(v, slo, hi);
        proof {
            assert(forall|j: int| 0 <= j < u.len() ==> !is_exp_char(u[j]));
            assert(forall|j: int| !is_exp_split(u, j));
        }
        r
    } else {
        let mant = check_mantissa(v, slo, e_at);
        let tail = check_exp_tail(v, e_at + 1, hi);
        let r = mant && tail;
        proof {
            let k = e_at - slo;
            assert(u[k] == v@[e_at as int]);
            assert(is_exp_char(u[k]));
            assert(u.subrange(0, k) =~= v@.subrange(slo as int, e_at as int));
            assert(u.subrange(k + 1, u.len() as int) =~= v@.subrange(e_at + 1 as int, hi as int));
            // The marker makes the whole text neither a mantissa nor a
            // special spelling.
            assert(!is_digit(u[k]) && u[k] != '.');
            assert(!is_mantissa(u));
            lemma_exp_char_not_special(u, k);
            if r {
                assert(is_exp_split(u, k));
            } else {
                assert forall|j: int| !is_exp_split(u, j) by {
                    if 0 <= j < u.len() && is_exp_char(u[j]) {
                        if j < k {
                            assert(!is_exp_char(v@[slo + j]));
                        } else if j == k {
                        } else {
                            // An exponent marker sits inside the would-be
                            // mantissa.
                            assert(u.subrange(0, j)[k] == u[k]);
                            assert(!is_mantissa(u.subrange(0, j)));
                        }
                    }
                }
            }
        }
        r
    }
}

/// A sequence containing an exponent marker matches none of the non-finite
/// keywords, whose letters are all drawn from `i n f t y a`.
proof fn lemma_exp_char_not_special(u: Seq<char>, k: int)
    requires
        0 <= k < u.len(),
        is_exp_char(u[k]),
    ensures
        !is_special(u),
{
    let kw_inf = seq!['i', 'n', 'f'];
    let kw_infinity = seq!['i', 'n', 'f', 'i', 'n', 'i', 't', 'y'];
    let kw_nan = seq!['n', 'a', 'n'];
    if matches_keyword_ci(u, kw_inf) {
        assert(char_eq_ci(u[k], kw_inf[k]));
        assert(k == 0 || k == 1 || k == 2);
        assert(false);
    }
    if matches_keyword_ci(u, kw_infinity) {
        assert(char_eq_ci(u[k], kw_infinity[k]));
        assert(false);
    }
    if matches_keyword_ci(u, kw_nan) {
        assert(char_eq_ci(u[k], kw_nan[k]));
        assert(false);
    }
}

/// Whether one coordinate field would pass validation.
pub open spec fn is_valid_coordinate_text(s: Seq<char>) -> bool {
    is_float_text(normalize(s))
}

proof fn lemma_unsigned_char_safe(u: Seq<char>, j: int)
    requires
        is_unsigned_float_text(u),
        0 <= j < u.len(),
    ensures
        !is_space(u[j]),
        u[j] != '°',
{
    let kw_inf = seq!['i', 'n', 'f'];
    let kw_infinity = seq!['i', 'n', 'f', 'i', 'n', 'i', 't', 'y'];
    let kw_nan = seq!['n', 'a', 'n'];
    if matches_keyword_ci(u, kw_inf) {
        assert(char_eq_ci(u[j], kw_inf[j]));
        assert(j == 0 || j == 1 || j == 2);
    } else if matches_keyword_ci(u, kw_infinity) {
        assert(char_eq_ci(u[j], kw_infinity[j]));
        assert(0 <= j < 8);
    } else if matches_keyword_ci(u, kw_nan) {
        assert(char_eq_ci(u[j], kw_nan[j]));
        assert(j == 0 || j == 1 || j == 2);
    } else if is_mantissa(u) {
        assert(is_digit(u[j]) || u[j] == '.');
    } else {
        let k = choose|k: int| is_exp_split(u, k);
        assert(is_exp_split(u, k));
        if j < k {
            assert(u.subrange(0, k)[j] == u[j]);
            assert(is_digit(u[j]) || u[j] == '.');
        } else if j == k {
            assert(is_exp_char(u[j]));
        } else {
            let tail = u.subrange(k + 1, u.len() as int);
            assert(tail[j - k - 1] == u[j]);
            let d = strip_sign(tail);
            if tail.len() > 0 && is_sign(tail[0]) {
                if j == k + 1 {
                    assert(is_sign(u[j]));
                } else {
                    assert(d[j - k - 2] == tail[j - k - 1]);
                    assert(is_digit(u[j]));
                }
            } else {
                assert(d[j - k - 1] == tail[j - k - 1]);
                assert(is_digit(u[j]));
            }
        }
    }
}

/// A well-formed floating-point literal is its own normal form: it is
/// non-empty, carries no surrounding whitespace and no trailing degree
/// mark, so normalizing it changes nothing.
pub proof fn lemma_float_text_is_normal(t: Seq<char>)
    requires
        is_float_text(t),
    ensures
        normalize(t) == t,
        t.len() > 0,
{
    let u = strip_sign(t);
    assert(u.len() > 0);
    assert(t.len() > 0);
    assert forall|i: int| 0 <= i < t.len() implies !is_space(t[i]) && t[i] != '°' by {
        if t.len() > 0 && is_sign(t[0]) {
            if i == 0 {
                assert(is_sign(t[0]));
            } else {
                assert(u[i - 1] == t[i]);
                lemma_unsigned_char_safe(u, i - 1);
            }
        } else {
            lemma_unsigned_char_safe(u, i);
        }
    }
    assert(!is_space(t[0]));
    assert(!is_space(t[t.len() - 1]));
    assert(trim_front(t) == t);
    assert(trim_back(t) == t);
    assert(t.last() != '°');
    assert(strip_degree(t) == t);
}

/// Validation agrees with parsing directly: the normal form returned for a
/// well-formed input is itself already normal, so validating (or
/// normalizing) it again returns the same text — and hence the same
/// parsed number as stripping the mark and whitespace by hand.
pub proof fn lemma_validation_matches_direct(s: Seq<char>)
    ensures
        is_valid_coordinate_text(s) ==> normalize(normalize(s)) == normalize(s),
        is_valid_coordinate_text(s) ==> is_valid_coordinate_text(normalize(s)),
{
    if is_valid_coordinate_text(s) {
        lemma_float_text_is_normal(normalize(s));
    }
}

/// Validates one coordinate field.
///
/// Succeeds exactly when the normal form of the input — whitespace
/// trimmed, one optional trailing degree mark stripped — is a well-formed
/// floating-point literal, and returns that normal form, so parsing the
/// result is the same as stripping the input and parsing it directly.
pub fn validate_input(s: &str) -> (r: Result<String, AppError>)
    ensures
        r is Ok <==> is_float_text(normalize(s@)),
        r matches Ok(t) ==> t@ == normalize(s@),
        r matches Err(e) ==> e == AppError::InvalidInput,
{
    let v = chars_of(s);
    let (lo, hi) = normal_bounds(&v);
    if check_float_text(&v, lo, hi) {
        Ok(s.substring_char(lo, hi).to_owned())
    } else {
        Err(AppError::InvalidInput)
    }
}

/// Validates the latitude and longitude fields together.
///
/// Returns the two normal forms when both fields hold well-formed numbers;
/// fails with [`AppError::InvalidInput`] as soon as either does not (the
/// latitude is checked first), in which case no fetch may be dispatched.
pub fn validate_lat_lon_input(lat: &str, lon: &str) -> (r: Result<(String, String), AppError>)
    ensures
        r is Ok <==> is_float_text(normalize(lat@)) && is_float_text(normalize(lon@)),
        r matches Ok(p) ==> p.0@ == normalize(lat@) && p.1@ == normalize(lon@),
        r matches Err(e) ==> e == AppError::InvalidInput,
{
    let la = validate_input(lat)?;
    let lo = validate_input(lon)?;
    Ok((la, lo))
}

} // verus!
