//! Small verified string utilities shared by the parsing stages.
//!
//! Everything here is ordinary character-level logic: equality, prefix and
//! substring tests, colon-style field splitting, and decimal conversion.

use vstd::prelude::*;
use vstd::string::*;

verus! {

/// Exact character-wise equality of two string slices.
pub fn str_eq(a: &str, b: &str) -> (r: bool)
    ensures
        r == (a@ == b@),
{
    let na = a.unicode_len();
    let nb = b.unicode_len();
    if na != nb {
        return false;
    }
    let mut i: usize = 0;
    while i < na
        invariant
            na == a@.len(),
            na == b@.len(),
            0 <= i <= na,
            forall|j: int| 0 <= j < i ==> a@[j] == b@[j],
        decreases na - i,
    {
        if a.get_char(i) != b.get_char(i) {
            return false;
        }
        i += 1;
    }
    proof {
        assert(a@ =~= b@);
    }
    true
}

/// Whether `prefix` is a prefix of `s`.
pub open spec fn spec_starts_with(s: Seq<char>, prefix: Seq<char>) -> bool {
    prefix.len() <= s.len() && s.subrange(0, prefix.len() as int) == prefix
}

pub fn starts_with(s: &str, prefix: &str) -> (r: bool)
    ensures
        r == spec_starts_with(s@, prefix@),
{
    let n = s.unicode_len();
    let m = prefix.unicode_len();
    if m > n {
        return false;
    }
    let mut i: usize = 0;
    while i < m
        invariant
            n == s@.len(),
            m == prefix@.len(),
            m <= n,
            0 <= i <= m,
            forall|j: int| 0 <= j < i ==> s@[j] == prefix@[j],
        decreases m - i,
    {
        if s.get_char(i) != prefix.get_char(i) {
            assert(s@.subrange(0, m as int)[i as int] != prefix@[i as int]);
            return false;
        }
        i += 1;
    }
    proof {
        assert(s@.subrange(0, m as int) =~= prefix@);
    }
    true
}

/// Whether `pat` occurs as a contiguous substring of `s`.
pub open spec fn spec_contains(s: Seq<char>, pat: Seq<char>) -> bool {
    exists|i: int|
        0 <= i && i + pat.len() <= s.len() && #[trigger] s.subrange(i, i + pat.len() as int) == pat
}

fn matches_at(s: &str, pat: &str, at: usize) -> (r: bool)
    requires
        at + pat@.len() <= s@.len(),
        s@.len() <= usize::MAX,
    ensures
        r == (s@.subrange(at as int, at + pat@.len() as int) == pat@),
{
    let m = pat.unicode_len();
    let mut j: usize = 0;
    while j < m
        invariant
            m == pat@.len(),
            at + m <= s@.len(),
            s@.len() <= usize::MAX,
            0 <= j <= m,
            forall|k: int| 0 <= k < j ==> s@[at + k] == pat@[k],
        decreases m - j,
    {
        if s.get_char(at + j) != pat.get_char(j) {
            assert(s@.subrange(at as int, at + m as int)[j as int] != pat@[j as int]);
            return false;
        }
        j += 1;
    }
    proof {
        assert(s@.subrange(at as int, at + m as int) =~= pat@);
    }
    true
}

pub fn contains_str(s: &str, pat: &str) -> (r: bool)
    ensures
        r == spec_contains(s@, pat@),
{
    let n = s.unicode_len();
    let m = pat.unicode_len();
    if m > n {
        return false;
    }
    if m == 0 {
        proof {
            assert(s@.subrange(0, 0 + pat@.len() as int) =~= pat@);
            assert(spec_contains(s@, pat@));
        }
        return true;
    }
    let mut i: usize = 0;
    while i <= n - m
        invariant
            n == s@.len(),
            m == pat@.len(),
            1 <= m <= n,
            0 <= i <= n,
            forall|k: int| 0 <= k < i ==> #[trigger] s@.subrange(k, k + m as int) != pat@,
        decreases n - i,
    {
        if matches_at(s, pat, i) {
            assert(spec_contains(s@, pat@));
            return true;
        }
        i += 1;
    }
    false
}

/// `true` exactly on the decimal digits.
pub open spec fn is_digit_char(c: char) -> bool {
    '0' <= c <= '9'
}

pub open spec fn seq_is_digits(s: Seq<char>) -> bool {
    forall|i: int| 0 <= i < s.len() ==> is_digit_char(#[trigger] s[i])
}

/// The integer denoted by a digit sequence read left to right.
pub open spec fn digits_val(s: Seq<char>) -> int
    decreases s.len(),
{
    if s.len() == 0 {
        0
    } else {
        digits_val(s.drop_last()) * 10 + (s.last() as int - '0' as int)
    }
}

proof fn lemma_digits_val_nonneg(s: Seq<char>)
    requires
        seq_is_digits(s),
    ensures
        digits_val(s) >= 0,
    decreases s.len(),
{
    if s.len() > 0 {
        assert(seq_is_digits(s.drop_last()));
        lemma_digits_val_nonneg(s.drop_last());
    }
}

/// For an all-digit string, the value of a prefix never exceeds the value
/// of the whole: each further digit multiplies by ten and adds a
/// non-negative amount.
proof fn lemma_digits_val_prefix_le(s: Seq<char>, k: int)
    requires
        seq_is_digits(s),
        0 <= k <= s.len(),
    ensures
        digits_val(s) >= digits_val(s.subrange(0, k)),
    decreases s.len() - k,
{
    if k == s.len() {
        assert(s.subrange(0, k) =~= s);
    } else {
        let p = s.subrange(0, k);
        let q = s.subrange(0, k + 1);
        assert(q.drop_last() =~= p);
        assert(seq_is_digits(p));
        lemma_digits_val_nonneg(p);
        assert(is_digit_char(s[k]));
        assert(q.last() == s[k]);
        assert(digits_val(q) == digits_val(p) * 10 + (q.last() as int - 48));
        assert(digits_val(p) * 10 >= digits_val(p));
        lemma_digits_val_prefix_le(s, k + 1);
    }
}

/// Parse a decimal `u32`: defined exactly on the non-empty all-digit
/// strings whose value fits.
pub fn parse_u32(s: &str) -> (r: Option<u32>)
    ensures
        match r {
            Some(v) => s@.len() > 0 && seq_is_digits(s@) && v as int == digits_val(s@),
            None => !(s@.len() > 0 && seq_is_digits(s@) && digits_val(s@) <= u32::MAX),
        },
{
    let n = s.unicode_len();
    if n == 0 {
        return None;
    }
    let mut val: u32 = 0;
    let mut i: usize = 0;
    while i < n
        invariant
            n == s@.len(),
            0 <= i <= n,
            seq_is_digits(s@.subrange(0, i as int)),
            val as int == digits_val(s@.subrange(0, i as int)),
        decreases n - i,
    {
        let c = s.get_char(i);
        if c < '0' || c > '9' {
            assert(!is_digit_char(s@[i as int]));
            return None;
        }
        let d: u32 = c as u32 - 48;
        proof {
            assert(s@.subrange(0, i + 1).drop_last() =~= s@.subrange(0, i as int));
        }
        if val > (u32::MAX - d) / 10 {
            proof {
                if seq_is_digits(s@) {
                    let prefix = s@.subrange(0, i + 1);
                    vstd::arithmetic::div_mod::lemma_fundamental_div_mod(
                        (u32::MAX - d) as int,
                        10,
                    );
                    assert(digits_val(prefix) == val as int * 10 + d);
                    assert(digits_val(prefix) > u32::MAX);
                    lemma_digits_val_prefix_le(s@, i + 1);
                }
            }
            return None;
        }
        val = val * 10 + d;
        i += 1;
    }
    proof {
        assert(s@.subrange(0, n as int) =~= s@);
    }
    Some(val)
}

/// The decimal digit characters.
pub open spec fn digit_char(d: int) -> char {
    if d == 0 {
        '0'
    } else if d == 1 {
        '1'
    } else if d == 2 {
        '2'
    } else if d == 3 {
        '3'
    } else if d == 4 {
        '4'
    } else if d == 5 {
        '5'
    } else if d == 6 {
        '6'
    } else if d == 7 {
        '7'
    } else if d == 8 {
        '8'
    } else {
        '9'
    }
}

/// The decimal rendering of a non-negative integer, most significant
/// digit first.
pub open spec fn spec_decimal(n: int) -> Seq<char>
    decreases n,
{
    if n < 10 {
        seq![digit_char(n)]
    } else {
        spec_decimal(n / 10).push(digit_char(n % 10))
    }
}

fn digit_str(d: u32) -> (r: &'static str)
    requires
        d < 10,
    ensures
        r@ =~= seq![digit_char(d as int)],
{
    proof {
        reveal_strlit("0");
        reveal_strlit("1");
        reveal_strlit("2");
        reveal_strlit("3");
        reveal_strlit("4");
        reveal_strlit("5");
        reveal_strlit("6");
        reveal_strlit("7");
        reveal_strlit("8");
        reveal_strlit("9");
    }
    if d == 0 {
        "0"
    } else if d == 1 {
        "1"
    } else if d == 2 {
        "2"
    } else if d == 3 {
        "3"
    } else if d == 4 {
        "4"
    } else if d == 5 {
        "5"
    } else if d == 6 {
        "6"
    } else if d == 7 {
        "7"
    } else if d == 8 {
        "8"
    } else {
        "9"
    }
}

/// Render a `u32` in decimal.
pub fn u32_to_string(n: u32) -> (r: String)
    ensures
        r@ == spec_decimal(n as int),
    decreases n,
{
    if n < 10 {
        String::from_str(digit_str(n))
    } else {
        let mut s = u32_to_string(n / 10);
        s.append(digit_str(n % 10));
        proof {
            assert(spec_decimal(n as int / 10) + seq![digit_char(n as int % 10)] =~= spec_decimal(
                n as int / 10,
            ).push(digit_char(n as int % 10)));
        }
        s
    }
}

/// The index of the last occurrence of `sep`, or `-1` when none occurs.
pub open spec fn spec_last_index(s: Seq<char>, sep: char) -> int
    decreases s.len(),
{
    if s.len() == 0 {
        -1
    } else if s.last() == sep {
        s.len() - 1
    } else {
        spec_last_index(s.drop_last(), sep)
    }
}

proof fn lemma_last_index_is(s: Seq<char>, sep: char, k: int)
    requires
        -1 <= k < s.len(),
        k >= 0 ==> s[k] == sep,
        forall|j: int| k < j < s.len() ==> s[j] != sep,
    ensures
        spec_last_index(s, sep) == k,
    decreases s.len(),
{
    if s.len() > 0 && k < s.len() - 1 {
        lemma_last_index_is(s.drop_last(), sep, k);
    }
}

/// Everything after the last occurrence of `sep`; the whole string when
/// `sep` does not occur.
pub open spec fn spec_last_segment(s: Seq<char>, sep: char) -> Seq<char> {
    s.subrange(spec_last_index(s, sep) + 1, s.len() as int)
}

pub fn last_segment(s: &str, sep: char) -> (r: String)
    ensures
        r@ == spec_last_segment(s@, sep),
{
    let n = s.unicode_len();
    let mut i: usize = n;
    while i > 0
        invariant
            n == s@.len(),
            0 <= i <= n,
            forall|j: int| i <= j < n ==> s@[j] != sep,
        decreases i,
    {
        if s.get_char(i - 1) == sep {
            proof {
                lemma_last_index_is(s@, sep, i - 1);
            }
            return String::from_str(s.substring_char(i, n));
        }
        i -= 1;
    }
    proof {
        lemma_last_index_is(s@, sep, -1);
        assert(s@.subrange(0, n as int) =~= s@);
    }
    String::from_str(s.substring_char(0, n))
}

/// The fields of `s` split on `sep`, defined character by character.
pub open spec fn spec_split(s: Seq<char>, sep: char) -> Seq<Seq<char>>
    decreases s.len(),
{
    if s.len() == 0 {
        seq![Seq::<char>::empty()]
    } else if s[0] == sep {
        seq![Seq::<char>::empty()] + spec_split(s.drop_first(), sep)
    } else {
        let rest = spec_split(s.drop_first(), sep);
        seq![seq![s[0]] + rest[0]] + rest.drop_first()
    }
}

pub proof fn lemma_split_len(s: Seq<char>, sep: char)
    ensures
        spec_split(s, sep).len() >= 1,
    decreases s.len(),
{
    if s.len() > 0 {
        lemma_split_len(s.drop_first(), sep);
    }
}

/// A separator-free string splits into exactly itself.
pub proof fn lemma_split_no_sep(s: Seq<char>, sep: char)
    requires
        forall|j: int| 0 <= j < s.len() ==> s[j] != sep,
    ensures
        spec_split(s, sep) =~= seq![s],
    decreases s.len(),
{
    if s.len() == 0 {
        assert(s =~= Seq::<char>::empty());
    } else {
        lemma_split_no_sep(s.drop_first(), sep);
        assert(seq![s[0]] + s.drop_first() =~= s);
    }
}

/// Splitting at the first separator detaches the head field.
pub proof fn lemma_split_at_first(s: Seq<char>, sep: char, k: int)
    requires
        0 <= k < s.len(),
        s[k] == sep,
        forall|j: int| 0 <= j < k ==> s[j] != sep,
    ensures
        spec_split(s, sep) =~= seq![s.subrange(0, k)] + spec_split(
            s.subrange(k + 1, s.len() as int),
            sep,
        ),
    decreases k,
{
    if k == 0 {
        assert(s.subrange(0, 0) =~= Seq::<char>::empty());
        assert(s.subrange(1, s.len() as int) =~= s.drop_first());
    } else {
        let d = s.drop_first();
        lemma_split_at_first(d, sep, k - 1);
        let rest = spec_split(d, sep);
        assert(rest =~= seq![d.subrange(0, k - 1)] + spec_split(
            d.subrange(k, d.len() as int),
            sep,
        ));
        assert(rest[0] == d.subrange(0, k - 1));
        assert(seq![s[0]] + d.subrange(0, k - 1) =~= s.subrange(0, k));
        assert(d.subrange(k, d.len() as int) =~= s.subrange(k + 1, s.len() as int));
        assert(rest.drop_first() =~= spec_split(s.subrange(k + 1, s.len() as int), sep));
    }
}

/// Split `s` on `sep`, keeping empty fields, as the field-count checks
/// of the lockfile parser require.
pub fn split_char(s: &str, sep: char) -> (r: Vec<String>)
    ensures
        r@.len() == spec_split(s@, sep).len(),
        forall|i: int| 0 <= i < r@.len() ==> #[trigger] r@[i]@ == spec_split(s@, sep)[i],
{
    let n = s.unicode_len();
    let mut r: Vec<String> = Vec::new();
    let mut start: usize = 0;
    let mut i: usize = 0;
    proof {
        assert(s@.subrange(0, n as int) =~= s@);
    }
    while i < n
        invariant
            n == s@.len(),
            0 <= start <= i <= n,
            forall|j: int| start <= j < i ==> s@[j] != sep,
            spec_split(s@, sep).len() == r@.len() + spec_split(
                s@.subrange(start as int, n as int),
                sep,
            ).len(),
            forall|j: int| 0 <= j < r@.len() ==> #[trigger] r@[j]@ == spec_split(s@, sep)[j],
            forall|j: int|
                0 <= j < spec_split(s@.subrange(start as int, n as int), sep).len()
                    ==> #[trigger] spec_split(s@.subrange(start as int, n as int), sep)[j]
                    == spec_split(s@, sep)[r@.len() + j],
        decreases n - i,
    {
        if s.get_char(i) == sep {
            let field = String::from_str(s.substring_char(start, i));
            proof {
                let tail = s@.subrange(start as int, n as int);
                let newtail = s@.subrange(i + 1, n as int);
                lemma_split_at_first(tail, sep, i - start);
                assert(tail.subrange(0, i - start) =~= s@.subrange(start as int, i as int));
                assert(tail.subrange(i - start + 1, tail.len() as int) =~= newtail);
                assert(spec_split(tail, sep) =~= seq![field@] + spec_split(newtail, sep));
                assert(spec_split(tail, sep)[0] == field@);
                assert(field@ == spec_split(s@, sep)[r@.len() as int]);
                assert(forall|j: int|
                    0 <= j < spec_split(newtail, sep).len()
                        ==> #[trigger] spec_split(newtail, sep)[j] == spec_split(tail, sep)[j + 1]);
            }
            r.push(field);
            start = i + 1;
        }
        i += 1;
    }
    let field = String::from_str(s.substring_char(start, n));
    proof {
        let tail = s@.subrange(start as int, n as int);
        lemma_split_no_sep(tail, sep);
        assert(spec_split(tail, sep)[0] == field@);
        assert(field@ == spec_split(s@, sep)[r@.len() as int]);
        assert(spec_split(s@, sep).len() == r@.len() + 1);
    }
    r.push(field);
    r
}

} // verus!
