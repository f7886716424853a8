//! Verified string utilities: character extraction, rebuilding,
//! comparison, case-insensitive search, trimming, and decimal
//! parsing and formatting.

use vstd::prelude::*;

verus! {

use vstd::std_specs::iter::IteratorSpec;

/// Relies on `String::push` of std (not specified by vstd):
/// appends the given `char` to the end of the `String`.
#[verifier::external_body]
pub fn push_char(s: &mut String, c: char)
    ensures
        final(s)@ == old(s)@.push(c),
{
    s.push(c);
}

/// The characters of `s`, in order, as a vector.
pub fn str_chars(s: &str) -> (r: Vec<char>)
    ensures
        r@ == s@,
{
    let mut it = s.chars();
    let mut v: Vec<char> = Vec::new();
    proof {
        vstd::string::axiom_spec_iter(s);
    }
    loop
        invariant
            v@ + it.remaining() == s@,
            it.decrease() is Some,
        ensures
            v@ == s@,
        decreases it.decrease()->0,
    {
        let ghost prev = it;
        let c = it.next();
        proof {
            vstd::string::next_postcondition(&prev, &it, c);
        }
        match c {
            Some(ch) => {
                v.push(ch);
                proof {
                    assert(v@ + it.remaining() =~= s@);
                }
            },
            None => {
                proof {
                    assert(v@ + it.remaining() =~= v@);
                }
                break;
            },
        }
    }
    v
}

/// Rebuilds a `String` from a character vector.
pub fn chars_to_string(v: &Vec<char>) -> (r: String)
    ensures
        r@ == v@,
{
    let mut s = String::new();
    let mut i: usize = 0;
    while i < v.len()
        invariant
            i <= v@.len(),
            s@ == v@.take(i as int),
        decreases v@.len() - i,
    {
        push_char(&mut s, v[i]);
        i = i + 1;
        proof {
            assert(s@ =~= v@.take(i as int));
        }
    }
    proof {
        assert(v@.take(v@.len() as int) =~= v@);
    }
    s
}

/// Whether two string slices hold the same characters.
pub fn str_eq(a: &str, b: &str) -> (r: bool)
    ensures
        r == (a@ == b@),
{
    let sa = a.to_owned();
    let sb = b.to_owned();
    sa == sb
}

/// Whether `c` is a control character (the Unicode `Cc` category:
/// U+0000..=U+001F and U+007F..=U+009F).
pub open spec fn spec_is_control(c: char) -> bool {
    (c as u32) < 0x20 || (0x7f <= (c as u32) && (c as u32) <= 0x9f)
}

/// Executable test for `spec_is_control`.
pub fn is_control_char(c: char) -> (r: bool)
    ensures
        r == spec_is_control(c),
{
    let u = c as u32;
    u < 0x20 || (0x7f <= u && u <= 0x9f)
}

/// Whether `c` is an ASCII whitespace character (space, tab, line
/// feed, or carriage return).
pub open spec fn spec_is_space(c: char) -> bool {
    c == ' ' || c == '\t' || c == '\n' || c == '\r'
}

/// Executable test for `spec_is_space`.
pub fn is_space_char(c: char) -> (r: bool)
    ensures
        r == spec_is_space(c),
{
    c == ' ' || c == '\t' || c == '\n' || c == '\r'
}

/// Whether two characters are equal up to ASCII case.
pub open spec fn spec_eq_ci(a: char, b: char) -> bool {
    ||| a == b
    ||| (65 <= (a as u32) && (a as u32) <= 90 && (b as u32) == (a as u32) + 32)
    ||| (65 <= (b as u32) && (b as u32) <= 90 && (a as u32) == (b as u32) + 32)
}

/// Executable test for `spec_eq_ci`.
pub fn chars_eq_ci(a: char, b: char) -> (r: bool)
    ensures
        r == spec_eq_ci(a, b),
{
    let ua = a as u32;
    let ub = b as u32;
    a == b || (65 <= ua && ua <= 90 && ub == ua + 32) || (65 <= ub && ub <= 90 && ua == ub + 32)
}

/// Whether `needle` occurs in `hay` at offset `at`, comparing
/// characters up to ASCII case.
pub open spec fn spec_matches_ci_at(hay: Seq<char>, needle: Seq<char>, at: int) -> bool {
    &&& 0 <= at
    &&& at + needle.len() <= hay.len()
    &&& forall|j: int| 0 <= j < needle.len() ==> spec_eq_ci(hay[at + j], needle[j])
}

/// Whether `needle` occurs anywhere in `hay`, up to ASCII case.
pub open spec fn spec_contains_ci(hay: Seq<char>, needle: Seq<char>) -> bool {
    exists|at: int| spec_matches_ci_at(hay, needle, at)
}

/// ASCII-case-insensitive substring search.
pub fn contains_ci(hay: &Vec<char>, needle: &Vec<char>) -> (r: bool)
    ensures
        r == spec_contains_ci(hay@, needle@),
{
    if needle.len() > hay.len() {
        proof {
            assert(forall|at: int| !spec_matches_ci_at(hay@, needle@, at));
        }
        return false;
    }
    let mut at: usize = 0;
    while at <= hay.len() - needle.len()
        invariant
            needle@.len() <= hay@.len(),
            at <= hay@.len() - needle@.len() + 1,
            forall|k: int| 0 <= k < at ==> !spec_matches_ci_at(hay@, needle@, k),
        decreases hay@.len() - at,
    {
        let mut j: usize = 0;
        let mut all: bool = true;
        while all && j < needle.len()
            invariant
                at + needle@.len() <= hay@.len(),
                j <= needle@.len(),
                all ==> (forall|k: int| 0 <= k < j ==> spec_eq_ci(hay@[at + k], needle@[k])),
                !all ==> j < needle@.len() && !spec_eq_ci(hay@[at + j], needle@[j as int]),
            decreases needle@.len() - j + (if all { 1int } else { 0int }),
    {
            let hl = hay.len();
            proof {
                assert(at + j < hl);
            }
            let idx = at + j;
            if !chars_eq_ci(hay[idx], needle[j]) {
                all = false;
            } else {
                j = j + 1;
            }
        }
        if all {
            proof {
                assert(spec_matches_ci_at(hay@, needle@, at as int));
            }
            return true;
        }
        proof {
            assert(!spec_matches_ci_at(hay@, needle@, at as int));
        }
        at = at + 1;
    }
    proof {
        assert(forall|k: int| spec_matches_ci_at(hay@, needle@, k) ==> 0 <= k <= hay@.len() - needle@.len());
    }
    false
}

/// Whether `needle` occurs in `hay` at offset `at`, exactly.
pub open spec fn spec_matches_at(hay: Seq<char>, needle: Seq<char>, at: int) -> bool {
    &&& 0 <= at
    &&& at + needle.len() <= hay.len()
    &&& forall|j: int| 0 <= j < needle.len() ==> hay[at + j] == needle[j]
}

/// Whether `needle` occurs anywhere in `hay`, exactly.
pub open spec fn spec_contains(hay: Seq<char>, needle: Seq<char>) -> bool {
    exists|at: int| spec_matches_at(hay, needle, at)
}

/// Exact substring search.
pub fn contains_chars(hay: &Vec<char>, needle: &Vec<char>) -> (r: bool)
    ensures
        r == spec_contains(hay@, needle@),
{
    if needle.len() > hay.len() {
        proof {
            assert(forall|at: int| !spec_matches_at(hay@, needle@, at));
        }
        return false;
    }
    let mut at: usize = 0;
    while at <= hay.len() - needle.len()
        invariant
            needle@.len() <= hay@.len(),
            at <= hay@.len() - needle@.len() + 1,
            forall|k: int| 0 <= k < at ==> !spec_matches_at(hay@, needle@, k),
        decreases hay@.len() - at,
    {
        let mut j: usize = 0;
        let mut all: bool = true;
        while all && j < needle.len()
            invariant
                at + needle@.len() <= hay@.len(),
                j <= needle@.len(),
                all ==> (forall|k: int| 0 <= k < j ==> hay@[at + k] == needle@[k]),
                !all ==> j < needle@.len() && hay@[at + j] != needle@[j as int],
            decreases needle@.len() - j + (if all { 1int } else { 0int }),
        {
            let hl = hay.len();
            proof {
                assert(at + j < hl);
            }
            let idx = at + j;
            if hay[idx] != needle[j] {
                all = false;
            } else {
                j = j + 1;
            }
        }
        if all {
            proof {
                assert(spec_matches_at(hay@, needle@, at as int));
            }
            return true;
        }
        proof {
            assert(!spec_matches_at(hay@, needle@, at as int));
        }
        at = at + 1;
    }
    proof {
        assert(forall|k: int| spec_matches_at(hay@, needle@, k) ==> 0 <= k <= hay@.len()
            - needle@.len());
    }
    false
}

/// Splits at the first occurrence of `c`: the parts before and
/// after it, or nothing when `c` does not occur.
pub fn split_once_char(s: &Vec<char>, c: char) -> (r: Option<(Vec<char>, Vec<char>)>)
    ensures
        match r {
            Some((before, after)) => {
                &&& before@.len() + 1 + after@.len() == s@.len()
                &&& s@ == before@ + seq![c] + after@
                &&& forall|j: int| 0 <= j < before@.len() ==> s@[j] != c
            },
            None => forall|j: int| 0 <= j < s@.len() ==> s@[j] != c,
        },
{
    let mut i: usize = 0;
    while i < s.len()
        invariant
            i <= s@.len(),
            forall|j: int| 0 <= j < i ==> s@[j] != c,
        decreases s@.len() - i,
    {
        if s[i] == c {
            let mut before: Vec<char> = Vec::new();
            let mut j: usize = 0;
            while j < i
                invariant
                    j <= i <= s@.len(),
                    before@ == s@.take(j as int),
                decreases i - j,
            {
                before.push(s[j]);
                j = j + 1;
                proof {
                    assert(before@ =~= s@.take(j as int));
                }
            }
            let mut after: Vec<char> = Vec::new();
            let mut k: usize = i + 1;
            while k < s.len()
                invariant
                    i < k <= s@.len(),
                    after@ == s@.subrange(i + 1, k as int),
                decreases s@.len() - k,
            {
                after.push(s[k]);
                k = k + 1;
                proof {
                    assert(after@ =~= s@.subrange(i + 1, k as int));
                }
            }
            proof {
                assert(s@ =~= before@ + seq![c] + after@);
            }
            return Some((before, after));
        }
        i = i + 1;
    }
    None
}

/// The index of the first non-whitespace character of `s`, or
/// `s.len()` if there is none.
pub open spec fn spec_trim_start_idx(s: Seq<char>) -> int
    decreases s.len(),
{
    if s.len() == 0 {
        0
    } else if spec_is_space(s[0]) {
        1 + spec_trim_start_idx(s.drop_first())
    } else {
        0
    }
}

/// The index just past the last non-whitespace character of `s`, or
/// zero if there is none.
pub open spec fn spec_trim_end_idx(s: Seq<char>) -> int
    decreases s.len(),
{
    if s.len() == 0 {
        0
    } else if spec_is_space(s.last()) {
        spec_trim_end_idx(s.drop_last())
    } else {
        s.len() as int
    }
}

/// `s` with leading and trailing ASCII whitespace removed.
pub open spec fn spec_trim(s: Seq<char>) -> Seq<char> {
    let lo = spec_trim_start_idx(s);
    let hi = spec_trim_end_idx(s);
    if lo <= hi {
        s.subrange(lo, hi)
    } else {
        Seq::empty()
    }
}

proof fn lemma_trim_start_char(s: Seq<char>, lo: int)
    requires
        0 <= lo <= s.len(),
        forall|j: int| 0 <= j < lo ==> spec_is_space(#[trigger] s[j]),
        lo < s.len() ==> !spec_is_space(s[lo]),
    ensures
        spec_trim_start_idx(s) == lo,
    decreases s.len(),
{
    if s.len() == 0 {
    } else if spec_is_space(s[0]) {
        assert(lo > 0) by {
            if lo == 0 {
                assert(!spec_is_space(s[0]));
            }
        }
        let t = s.drop_first();
        assert(forall|j: int| 0 <= j < lo - 1 ==> spec_is_space(#[trigger] t[j]));
        assert(lo - 1 < t.len() ==> !spec_is_space(t[lo - 1]));
        lemma_trim_start_char(t, lo - 1);
    } else {
        assert(lo == 0) by {
            if lo > 0 {
                assert(spec_is_space(s[0]));
            }
        }
    }
}

proof fn lemma_trim_end_char(s: Seq<char>, hi: int)
    requires
        0 <= hi <= s.len(),
        forall|j: int| hi <= j < s.len() ==> spec_is_space(#[trigger] s[j]),
        hi > 0 ==> !spec_is_space(s[hi - 1]),
    ensures
        spec_trim_end_idx(s) == hi,
    decreases s.len(),
{
    if s.len() == 0 {
    } else if spec_is_space(s.last()) {
        assert(hi < s.len()) by {
            if hi == s.len() {
                assert(!spec_is_space(s[s.len() - 1]));
            }
        }
        let t = s.drop_last();
        assert(forall|j: int| hi <= j < t.len() ==> spec_is_space(#[trigger] t[j]));
        lemma_trim_end_char(t, hi);
    } else {
        assert(hi == s.len()) by {
            if hi < s.len() {
                assert(spec_is_space(s[s.len() - 1]));
            }
        }
    }
}

/// Removes leading and trailing ASCII whitespace.
pub fn trim_chars(s: &Vec<char>) -> (r: Vec<char>)
    ensures
        r@ == spec_trim(s@),
        r@.len() <= s@.len(),
        (forall|i: int| 0 <= i < s@.len() ==> !spec_is_space(#[trigger] s@[i])) ==> r@ == s@,
        r@.len() > 0 ==> !spec_is_space(r@[0]) && !spec_is_space(r@[r@.len() - 1]),
{
    let mut lo: usize = 0;
    while lo < s.len() && is_space_char(s[lo])
        invariant
            lo <= s@.len(),
            forall|i: int| 0 <= i < lo ==> spec_is_space(#[trigger] s@[i]),
        decreases s@.len() - lo,
    {
        lo = lo + 1;
    }
    let mut hi: usize = s.len();
    while hi > lo && is_space_char(s[hi - 1])
        invariant
            lo <= hi <= s@.len(),
            forall|i: int| hi <= i < s@.len() ==> spec_is_space(#[trigger] s@[i]),
            lo < s@.len() ==> lo < hi ==> !spec_is_space(s@[lo as int]),
        decreases hi,
    {
        hi = hi - 1;
    }
    let mut r: Vec<char> = Vec::new();
    let mut i: usize = lo;
    while i < hi
        invariant
            lo <= i <= hi <= s@.len(),
            r@ == s@.subrange(lo as int, i as int),
        decreases hi - i,
    {
        r.push(s[i]);
        i = i + 1;
        proof {
            assert(r@ =~= s@.subrange(lo as int, i as int));
        }
    }
    proof {
        assert(r@ == s@.subrange(lo as int, hi as int));
        lemma_trim_start_char(s@, lo as int);
        if lo == s@.len() {
            lemma_trim_end_char(s@, 0);
            assert(r@ =~= spec_trim(s@));
        } else {
            if hi == lo {
                assert(spec_is_space(s@[lo as int]));
                assert(false);
            }
            lemma_trim_end_char(s@, hi as int);
        }
        assert(r@ == spec_trim(s@));
        if r@.len() > 0 {
            assert(!spec_is_space(r@[0]));
            assert(r@[r@.len() - 1] == s@[hi - 1]);
        }
        if forall|k: int| 0 <= k < s@.len() ==> !spec_is_space(#[trigger] s@[k]) {
            if lo != 0 {
                assert(spec_is_space(s@[0]));
                assert(false);
            }
            if hi != s@.len() {
                assert(spec_is_space(s@[s@.len() - 1]));
                assert(false);
            }
            assert(r@ =~= s@);
        }
    }
    r
}

/// The value of a sequence of decimal digits, most significant first.
pub open spec fn spec_digits_val(s: Seq<char>) -> int
    decreases s.len(),
{
    if s.len() == 0 {
        0
    } else {
        spec_digits_val(s.drop_last()) * 10 + (s.last() as u32 - 48)
    }
}

/// Whether every character of `s` is a decimal digit.
pub open spec fn spec_all_digits(s: Seq<char>) -> bool {
    forall|i: int| 0 <= i < s.len() ==> 48 <= (#[trigger] s[i] as u32) && (s[i] as u32) <= 57
}

/// What a strict decimal `i64` parse accepts: an optional sign
/// followed by at least one digit, with the resulting magnitude in
/// range.
pub open spec fn spec_parse_i64(s: Seq<char>) -> Option<int> {
    let (neg, digits) = if s.len() > 0 && (s[0] == '-' || s[0] == '+') {
        (s[0] == '-', s.drop_first())
    } else {
        (false, s)
    };
    if digits.len() == 0 || !spec_all_digits(digits) {
        None
    } else {
        let v = if neg {
            -spec_digits_val(digits)
        } else {
            spec_digits_val(digits)
        };
        if i64::MIN <= v <= i64::MAX {
            Some(v)
        } else {
            None
        }
    }
}

proof fn lemma_digits_val_bounds(s: Seq<char>)
    requires
        spec_all_digits(s),
    ensures
        0 <= spec_digits_val(s),
    decreases s.len(),
{
    if s.len() > 0 {
        assert(spec_all_digits(s.drop_last()));
        lemma_digits_val_bounds(s.drop_last());
    }
}

/// Parses a decimal integer with optional sign, rejecting any other
/// text and any value outside the `i64` range.
pub fn parse_i64_chars(s: &Vec<char>) -> (r: Option<i64>)
    ensures
        match r {
            Some(v) => spec_parse_i64(s@) == Some(v as int),
            None => spec_parse_i64(s@) is None,
        },
{
    let mut i: usize = 0;
    let mut neg: bool = false;
    if s.len() > 0 && (s[0] == '-' || s[0] == '+') {
        neg = s[0] == '-';
        i = 1;
    }
    let ghost digits = s@.subrange(i as int, s@.len() as int);
    proof {
        if i == 1 {
            assert(digits =~= s@.drop_first());
        } else {
            assert(digits =~= s@);
        }
    }
    if i >= s.len() {
        return None;
    }
    let mut val: u64 = 0;
    let mut j: usize = i;
    while j < s.len()
        invariant
            i <= j <= s@.len(),
            i == 0 || i == 1,
            (i == 1) == (s@.len() > 0 && (s@[0] == '-' || s@[0] == '+')),
            neg == (i == 1 && s@[0] == '-'),
            digits == s@.subrange(i as int, s@.len() as int),
            spec_all_digits(s@.subrange(i as int, j as int)),
            val == spec_digits_val(s@.subrange(i as int, j as int)),
            val <= 0x8000_0000_0000_0000u64,
        decreases s@.len() - j,
    {
        proof {
            if i == 1 {
                assert(digits =~= s@.drop_first());
            } else {
                assert(digits =~= s@);
            }
        }
        let c = s[j];
        let u = c as u32;
        if u < 48 || u > 57 {
            proof {
                assert(digits[j - i] == s@[j as int]);
                assert(!spec_all_digits(digits));
            }
            return None;
        }
        let d = (u - 48) as u64;
        if val > 922_337_203_685_477_580u64 || (val == 922_337_203_685_477_580u64 && d > 8) {
            proof {
                lemma_digits_overflow(s@, i as int, j as int, digits);
            }
            return None;
        }
        val = val * 10 + d;
        j = j + 1;
        proof {
            assert(s@.subrange(i as int, j as int).drop_last() =~= s@.subrange(i as int, j - 1));
            assert(s@.subrange(i as int, j as int).last() == s@[j - 1]);
        }
    }
    proof {
        assert(s@.subrange(i as int, j as int) =~= digits);
    }
    if neg {
        if val > 0x8000_0000_0000_0000u64 {
            return None;
        }
        if val == 0x8000_0000_0000_0000u64 {
            return Some(i64::MIN);
        }
        Some(-(val as i64))
    } else {
        if val > 0x7fff_ffff_ffff_ffffu64 {
            return None;
        }
        Some(val as i64)
    }
}

proof fn lemma_digits_val_monotone(s: Seq<char>, k: int)
    requires
        spec_all_digits(s),
        0 <= k <= s.len(),
    ensures
        spec_digits_val(s.take(k)) <= spec_digits_val(s),
    decreases s.len() - k,
{
    if k < s.len() {
        lemma_digits_val_monotone(s, k + 1);
        assert(s.take(k + 1).drop_last() =~= s.take(k));
        assert(s.take(k + 1).last() == s[k]);
        lemma_digits_val_bounds(s.take(k));
    } else {
        assert(s.take(k) =~= s);
    }
}

proof fn lemma_digits_overflow(s: Seq<char>, i: int, j: int, digits: Seq<char>)
    requires
        0 <= i <= j < s.len(),
        digits == s.subrange(i, s.len() as int),
        spec_all_digits(s.subrange(i, j)),
        48 <= (s[j] as u32) <= 57,
        spec_digits_val(s.subrange(i, j)) * 10 + (s[j] as u32 - 48) > 0x8000_0000_0000_0000,
    ensures
        spec_all_digits(digits) ==> spec_digits_val(digits) > 0x8000_0000_0000_0000,
{
    if spec_all_digits(digits) {
        let upto = s.subrange(i, j + 1);
        assert(upto.drop_last() =~= s.subrange(i, j));
        assert(upto.last() == s[j]);
        assert(spec_digits_val(upto) > 0x8000_0000_0000_0000);
        assert(upto =~= digits.take(j + 1 - i));
        lemma_digits_val_monotone(digits, j + 1 - i);
    }
}

/// The decimal digits of `n`, most significant first.
pub open spec fn spec_u64_digits(n: int) -> Seq<char>
    decreases n,
{
    if n <= 0 {
        Seq::empty()
    } else {
        spec_u64_digits(n / 10).push(spec_digit_char(n % 10))
    }
}

/// The digit character for a value in 0..=9.
pub open spec fn spec_digit_char(d: int) -> char {
    if d == 0 {
        '0'
    } else if d == 1 {
        '1'
    } else if d == 2 {
        '2'
    } else if d == 3 {
        '3'
    } else if d == 4 {
        '4'
    } else if d == 5 {
        '5'
    } else if d == 6 {
        '6'
    } else if d == 7 {
        '7'
    } else if d == 8 {
        '8'
    } else {
        '9'
    }
}

/// The decimal rendering of `n`: its digits, or `"0"` for zero.
pub open spec fn spec_u64_string(n: int) -> Seq<char> {
    if n == 0 {
        seq!['0']
    } else {
        spec_u64_digits(n)
    }
}

fn digit_char(d: u64) -> (c: char)
    requires
        d < 10,
    ensures
        c == spec_digit_char(d as int),
{
    if d == 0 {
        '0'
    } else if d == 1 {
        '1'
    } else if d == 2 {
        '2'
    } else if d == 3 {
        '3'
    } else if d == 4 {
        '4'
    } else if d == 5 {
        '5'
    } else if d == 6 {
        '6'
    } else if d == 7 {
        '7'
    } else if d == 8 {
        '8'
    } else {
        '9'
    }
}

/// Renders `n` in decimal.
pub fn u64_to_string(n: u64) -> (r: String)
    ensures
        r@ == spec_u64_string(n as int),
{
    if n == 0 {
        let mut s = String::new();
        push_char(&mut s, '0');
        proof {
            assert(s@ =~= seq!['0']);
        }
        return s;
    }
    let mut rev: Vec<char> = Vec::new();
    let mut m: u64 = n;
    while m > 0
        invariant
            spec_u64_digits(n as int) == spec_u64_digits(m as int) + rev@.reverse(),
        decreases m,
    {
        let ghost old_m = m as int;
        let ghost old_rev = rev@;
        let d = m % 10;
        rev.push(digit_char(d));
        m = m / 10;
        proof {
            assert(spec_u64_digits(old_m) == spec_u64_digits(old_m / 10).push(
                spec_digit_char(old_m % 10),
            ));
            assert(rev@ =~= old_rev.push(spec_digit_char(old_m % 10)));
            assert(rev@.reverse() =~= seq![spec_digit_char(old_m % 10)] + old_rev.reverse());
            assert(spec_u64_digits(old_m / 10).push(spec_digit_char(old_m % 10)) =~= spec_u64_digits(
                old_m / 10,
            ) + seq![spec_digit_char(old_m % 10)]);
            assert(spec_u64_digits(m as int) + rev@.reverse() =~= (spec_u64_digits(m as int)
                + seq![spec_digit_char(old_m % 10)]) + old_rev.reverse());
        }
    }
    let mut s = String::new();
    let mut i: usize = rev.len();
    while i > 0
        invariant
            i <= rev@.len(),
            s@ == rev@.subrange(i as int, rev@.len() as int).reverse(),
        decreases i,
    {
        i = i - 1;
        push_char(&mut s, rev[i]);
        proof {
            let tail = rev@.subrange(i as int, rev@.len() as int);
            assert(tail.reverse() =~= rev@.subrange(i + 1, rev@.len() as int).reverse().push(
                rev@[i as int],
            ));
        }
    }
    proof {
        assert(rev@.subrange(0, rev@.len() as int) =~= rev@);
        assert(s@ == rev@.reverse());
        assert(spec_u64_digits(0) + rev@.reverse() =~= rev@.reverse());
    }
    s
}

/// Appends every character of `src` to `dst`.
pub fn append_chars(dst: &mut Vec<char>, src: &Vec<char>)
    ensures
        final(dst)@ == old(dst)@ + src@,
{
    let mut i: usize = 0;
    while i < src.len()
        invariant
            i <= src@.len(),
            dst@ == old(dst)@ + src@.take(i as int),
        decreases src@.len() - i,
    {
        dst.push(src[i]);
        i = i + 1;
        proof {
            assert(old(dst)@ + src@.take(i as int) =~= (old(dst)@ + src@.take(i - 1)).push(
                src@[i - 1],
            ));
        }
    }
    proof {
        assert(old(dst)@ + src@.take(src@.len() as int) =~= old(dst)@ + src@);
    }
}

/// Appends every character of the slice `src` to the string `dst`.
pub fn append_str(dst: &mut String, src: &str)
    ensures
        final(dst)@ == old(dst)@ + src@,
{
    vstd::string::StringExecFns::append(dst, src);
}

} // verus!
