//! File path detection in text: finding local file paths in chat
//! content so they can be made clickable.
//!
//! A path token starts with `/`, `~/`, `./` or `../` and continues
//! through path characters (letters, digits, `.`, `_`, `-`)
//! separated by single slashes.  Trailing sentence punctuation is
//! stripped, and very short or generic tokens are dropped as false
//! positives.  The whole scan is specified exactly: the result is
//! the sequence of accepted (start, length) pairs of the leftmost,
//! greedy, non-overlapping scan `spec_scan`.

use vstd::prelude::*;
use crate::strutil;

verus! {

/// A detected file path.
#[derive(Debug, Clone, PartialEq, Eq)]
pub struct FilePathMatch {
    /// The detected path text.
    pub path: String,
    /// The character offset where the path starts in the text.
    pub start: usize,
    /// The character offset just past the path.
    pub end: usize,
}

/// Whether `c` may appear inside a path segment.
pub open spec fn spec_is_path_char(c: char) -> bool {
    ||| ('a' <= c && c <= 'z')
    ||| ('A' <= c && c <= 'Z')
    ||| ('0' <= c && c <= '9')
    ||| c == '.'
    ||| c == '_'
    ||| c == '-'
}

/// Executable test for `spec_is_path_char`.
fn is_path_char(c: char) -> (r: bool)
    ensures
        r == spec_is_path_char(c),
{
    ('a' <= c && c <= 'z') || ('A' <= c && c <= 'Z') || ('0' <= c && c <= '9') || c == '.' || c
        == '_' || c == '-'
}

/// Whether `c` is sentence punctuation stripped from a path's end.
pub open spec fn spec_is_trailing_punct(c: char) -> bool {
    c == '.' || c == ',' || c == ':' || c == ';' || c == '!' || c == '?' || c == ')' || c == ']'
        || c == '}' || c == '"' || c == '\''
}

fn is_trailing_punct(c: char) -> (r: bool)
    ensures
        r == spec_is_trailing_punct(c),
{
    c == '.' || c == ',' || c == ':' || c == ';' || c == '!' || c == '?' || c == ')' || c == ']'
        || c == '}' || c == '"' || c == '\''
}

/// Whether every character of `p` may appear in a path token
/// (segment characters, slashes and tildes).
pub open spec fn spec_all_path_token_chars(p: Seq<char>) -> bool {
    forall|i: int| 0 <= i < p.len() ==> spec_is_path_char(#[trigger] p[i]) || p[i] == '/'
        || p[i] == '~'
}

/// The length of the maximal run of path characters starting at `p`.
pub open spec fn spec_path_run(s: Seq<char>, p: int) -> int
    decreases s.len() - p when 0 <= p <= s.len()
{
    if 0 <= p < s.len() && spec_is_path_char(s[p]) {
        1 + spec_path_run(s, p + 1)
    } else {
        0
    }
}

proof fn lemma_path_run_bounds(s: Seq<char>, p: int)
    requires
        0 <= p <= s.len(),
    ensures
        0 <= spec_path_run(s, p),
        p + spec_path_run(s, p) <= s.len(),
    decreases s.len() - p,
{
    if p < s.len() && spec_is_path_char(s[p]) {
        lemma_path_run_bounds(s, p + 1);
    }
}

/// The run of path characters from `p` ends exactly at the first
/// non-path character (or the text's end).
proof fn lemma_path_run_characterize(s: Seq<char>, p: int, q: int)
    requires
        0 <= p <= q <= s.len(),
        forall|u: int| p <= u < q ==> spec_is_path_char(#[trigger] s[u]),
        q == s.len() || !spec_is_path_char(s[q]),
    ensures
        spec_path_run(s, p) == q - p,
    decreases q - p,
{
    if p < q {
        lemma_path_run_characterize(s, p + 1, q);
    }
}

/// The length of `(/seg)+` starting at `p`: pairs of one slash and
/// at least one path character, each segment taken greedily; zero
/// when no such pair starts at `p`.
pub open spec fn spec_segments(s: Seq<char>, p: int) -> int
    decreases s.len() - p when 0 <= p <= s.len() via spec_segments_decreases
{
    if 0 <= p && p + 1 < s.len() && s[p] == '/' && spec_is_path_char(s[p + 1]) {
        let t = p + 2 + spec_path_run(s, p + 2);
        (t - p) + spec_segments(s, t)
    } else {
        0
    }
}

#[via_fn]
proof fn spec_segments_decreases(s: Seq<char>, p: int) {
    if 0 <= p && p + 1 < s.len() && s[p] == '/' && spec_is_path_char(s[p + 1]) {
        lemma_path_run_bounds(s, p + 2);
    }
}

proof fn lemma_segments_bounds(s: Seq<char>, p: int)
    requires
        0 <= p <= s.len(),
    ensures
        0 <= spec_segments(s, p),
        p + spec_segments(s, p) <= s.len(),
    decreases s.len() - p,
{
    if 0 <= p && p + 1 < s.len() && s[p] == '/' && spec_is_path_char(s[p + 1]) {
        lemma_path_run_bounds(s, p + 2);
        let t = p + 2 + spec_path_run(s, p + 2);
        lemma_segments_bounds(s, t);
    }
}

/// The length of the path token starting at `p`: `/seg(/seg)*`,
/// `~/` with optional segments, or `./seg…` / `../seg…`; zero when
/// no token starts there.
pub open spec fn spec_token_len(s: Seq<char>, p: int) -> int {
    if !(0 <= p < s.len()) {
        0
    } else if s[p] == '/' {
        spec_segments(s, p)
    } else if s[p] == '~' {
        if p + 1 < s.len() && s[p + 1] == '/' {
            let e = p + 2 + spec_path_run(s, p + 2);
            (e - p) + spec_segments(s, e)
        } else {
            0
        }
    } else if s[p] == '.' {
        let dots: int = if p + 1 < s.len() && s[p + 1] == '.' {
            2
        } else {
            1
        };
        if p + dots < s.len() && s[p + dots] == '/' && spec_segments(s, p + dots) > 0 {
            dots + spec_segments(s, p + dots)
        } else {
            0
        }
    } else {
        0
    }
}

proof fn lemma_token_len_bounds(s: Seq<char>, p: int)
    requires
        0 <= p <= s.len(),
    ensures
        0 <= spec_token_len(s, p),
        p + spec_token_len(s, p) <= s.len(),
{
    if p < s.len() {
        lemma_segments_bounds(s, p);
        if s[p] == '~' && p + 1 < s.len() && s[p + 1] == '/' {
            lemma_path_run_bounds(s, p + 2);
            let e = p + 2 + spec_path_run(s, p + 2);
            lemma_segments_bounds(s, e);
        }
        if s[p] == '.' {
            let dots: int = if p + 1 < s.len() && s[p + 1] == '.' {
                2
            } else {
                1
            };
            if p + dots < s.len() {
                lemma_segments_bounds(s, p + dots);
            }
        }
    }
}

/// The token length after stripping trailing sentence punctuation.
pub open spec fn spec_strip_len(s: Seq<char>, p: int, tl: int) -> int
    decreases tl,
{
    if tl > 0 && 0 <= p && p + tl <= s.len() && spec_is_trailing_punct(s[p + tl - 1]) {
        spec_strip_len(s, p, tl - 1)
    } else {
        tl
    }
}

/// Equality of two character sequences up to ASCII case.
pub open spec fn spec_seq_eq_ci(a: Seq<char>, b: Seq<char>) -> bool {
    a.len() == b.len() && forall|j: int| 0 <= j < a.len() ==> strutil::spec_eq_ci(a[j], b[j])
}

/// Whether a stripped token is a known false positive: a doubled
/// slash, nothing but dots, slashes and tildes, or one of a small
/// list of path-shaped abbreviations (compared up to ASCII case).
pub open spec fn spec_is_false_positive(p: Seq<char>) -> bool {
    ||| (p.len() >= 2 && p[0] == '/' && p[1] == '/')
    ||| (forall|i: int| 0 <= i < p.len() ==> p[i] == '.' || p[i] == '/' || #[trigger] p[i] == '~')
    ||| spec_seq_eq_ci(p, "/etc"@)
    ||| spec_seq_eq_ci(p, "/a"@)
    ||| spec_seq_eq_ci(p, "/b"@)
    ||| spec_seq_eq_ci(p, "/c"@)
    ||| spec_seq_eq_ci(p, "/d"@)
    ||| spec_seq_eq_ci(p, "/e"@)
    ||| spec_seq_eq_ci(p, "i/o"@)
    ||| spec_seq_eq_ci(p, "/o"@)
}

/// Whether the token at `p` with stripped length `keep` survives:
/// long enough and not a false positive.
pub open spec fn spec_accepted(s: Seq<char>, p: int, keep: int) -> bool {
    keep >= 3 && !spec_is_false_positive(s.subrange(p, p + keep))
}

/// The whole scan: from `i`, skip one character where no token
/// starts; where one does, strip its trailing punctuation, keep it
/// if accepted, and continue after the full (unstripped) token.
pub open spec fn spec_scan(s: Seq<char>, i: int) -> Seq<(int, int)>
    decreases s.len() - i when 0 <= i <= s.len() via spec_scan_decreases
{
    if !(0 <= i < s.len()) {
        Seq::empty()
    } else {
        let tl = spec_token_len(s, i);
        if tl <= 0 {
            spec_scan(s, i + 1)
        } else {
            let keep = spec_strip_len(s, i, tl);
            if spec_accepted(s, i, keep) {
                seq![(i, keep)] + spec_scan(s, i + tl)
            } else {
                spec_scan(s, i + tl)
            }
        }
    }
}

#[via_fn]
proof fn spec_scan_decreases(s: Seq<char>, i: int) {
    if 0 <= i < s.len() {
        lemma_token_len_bounds(s, i);
    }
}

/// Everything `detect_file_paths` guarantees of one returned match:
/// its text stands verbatim at its offsets, is at least three
/// characters of path text starting with `/`, `~` or `.`, does not
/// end in sentence punctuation, and is not a known false positive.
pub open spec fn spec_match_wf(text: Seq<char>, m: FilePathMatch) -> bool {
    &&& m.path@.len() >= 3
    &&& m.start + m.path@.len() == m.end
    &&& m.end <= text.len()
    &&& m.path@ == text.subrange(m.start as int, m.end as int)
    &&& (m.path@[0] == '/' || m.path@[0] == '~' || m.path@[0] == '.')
    &&& spec_all_path_token_chars(m.path@)
    &&& !spec_is_trailing_punct(m.path@[m.path@.len() - 1])
    &&& !spec_is_false_positive(m.path@)
}

/// The (start, length) pairs of a match sequence.
pub open spec fn spec_match_pairs(ms: Seq<FilePathMatch>) -> Seq<(int, int)> {
    ms.map_values(|m: FilePathMatch| (m.start as int, m.end - m.start))
}

/// Whether `sub` is an order-preserving subsequence of `sup`.
pub open spec fn spec_pairs_subsequence(sub: Seq<(int, int)>, sup: Seq<(int, int)>) -> bool
    decreases sup.len(), sub.len(),
{
    if sub.len() == 0 {
        true
    } else if sup.len() == 0 {
        false
    } else if sub[0] == sup[0] {
        spec_pairs_subsequence(sub.drop_first(), sup.drop_first())
    } else {
        spec_pairs_subsequence(sub, sup.drop_first())
    }
}

/// Detects all potential file paths in the text, existing or not:
/// exactly the accepted tokens of the scan, left to right.
pub fn detect_file_paths(text: &str) -> (r: Vec<FilePathMatch>)
    ensures
        spec_match_pairs(r@) == spec_scan(text@, 0),
        forall|k: int| 0 <= k < r@.len() ==> spec_match_wf(text@, #[trigger] r@[k]),
        forall|k: int| 0 <= k < r@.len() - 1 ==> (#[trigger] r@[k]).end <= r@[k + 1].start,
{
    let chars = strutil::str_chars(text);
    let n = chars.len();
    let mut out: Vec<FilePathMatch> = Vec::new();
    let mut i: usize = 0;
    proof {
        assert(spec_match_pairs(out@) =~= Seq::<(int, int)>::empty());
    }
    while i < n
        invariant
            n == chars@.len(),
            chars@ == text@,
            i <= n,
            spec_scan(text@, 0) == spec_match_pairs(out@) + spec_scan(text@, i as int),
            forall|k: int| 0 <= k < out@.len() ==> spec_match_wf(text@, #[trigger] out@[k]),
            forall|k: int| 0 <= k < out@.len() - 1 ==> (#[trigger] out@[k]).end <= out@[k + 1].start,
            forall|k: int| 0 <= k < out@.len() ==> (#[trigger] out@[k]).end <= i,
        decreases n - i,
    {
        let token_len = match_token_at(&chars, i);
        if token_len == 0 {
            proof {
                assert(spec_scan(text@, i as int) == spec_scan(text@, i + 1));
            }
            i = i + 1;
            continue;
        }
        proof {
            assert(i + token_len <= n);
        }
        // Strip trailing sentence punctuation.
        let mut keep: usize = token_len;
        while keep > 0 && is_trailing_punct(chars[i + keep - 1])
            invariant
                i + token_len <= n,
                n == chars@.len(),
                keep <= token_len,
                spec_strip_len(chars@, i as int, token_len as int) == spec_strip_len(
                    chars@,
                    i as int,
                    keep as int,
                ),
            decreases keep,
        {
            keep = keep - 1;
        }
        proof {
            assert(spec_strip_len(chars@, i as int, keep as int) == keep);
        }
        let mut path_chars: Vec<char> = Vec::new();
        let mut j: usize = 0;
        while j < keep
            invariant
                i + keep <= n,
                n == chars@.len(),
                j <= keep,
                path_chars@ == chars@.subrange(i as int, i + j),
            decreases keep - j,
        {
            path_chars.push(chars[i + j]);
            j = j + 1;
            proof {
                assert(path_chars@ =~= chars@.subrange(i as int, i + j));
            }
        }
        let accepted = keep >= 3 && !is_false_positive(&path_chars);
        proof {
            assert(path_chars@ == text@.subrange(i as int, i + keep));
            assert(accepted == spec_accepted(text@, i as int, keep as int));
        }
        if !accepted {
            proof {
                assert(spec_scan(text@, i as int) == spec_scan(text@, i + token_len));
            }
            i = i + token_len;
            continue;
        }
        proof {
            lemma_token_chars(chars@, i as int, token_len as int);
            assert(forall|t: int|
                0 <= t < path_chars@.len() ==> spec_is_path_char(#[trigger] path_chars@[t])
                    || path_chars@[t] == '/' || path_chars@[t] == '~');
            assert(!spec_is_trailing_punct(path_chars@[keep - 1]));
        }
        let ghost prev = out@;
        let m = FilePathMatch {
            path: strutil::chars_to_string(&path_chars),
            start: i,
            end: i + keep,
        };
        out.push(m);
        proof {
            assert(spec_match_pairs(out@) =~= spec_match_pairs(prev).push(
                (i as int, keep as int),
            ));
            assert(spec_scan(text@, i as int) =~= seq![(i as int, keep as int)] + spec_scan(
                text@,
                i + token_len,
            ));
            assert(spec_match_pairs(prev) + spec_scan(text@, i as int) =~= spec_match_pairs(out@)
                + spec_scan(text@, i + token_len));
        }
        i = i + token_len;
    }
    proof {
        assert(spec_scan(text@, i as int) =~= Seq::<(int, int)>::empty());
        assert(spec_match_pairs(out@) + spec_scan(text@, i as int) =~= spec_match_pairs(out@));
    }
    out
}

/// Detects paths and keeps only those that exist on the
/// filesystem: an order-preserving subsequence of the scan's
/// accepted tokens.  Which members survive is the filesystem's
/// answer.
pub fn detect_existing_paths(text: &str) -> (r: Vec<FilePathMatch>)
    ensures
        spec_pairs_subsequence(spec_match_pairs(r@), spec_scan(text@, 0)),
        forall|k: int| 0 <= k < r@.len() ==> spec_match_wf(text@, #[trigger] r@[k]),
        forall|k: int| 0 <= k < r@.len() - 1 ==> (#[trigger] r@[k]).end <= r@[k + 1].start,
{
    let all = detect_file_paths(text);
    let mut out: Vec<FilePathMatch> = Vec::new();
    let mut i: usize = 0;
    proof {
        assert(spec_match_pairs(out@) =~= Seq::<(int, int)>::empty());
        assert(spec_match_pairs(all@.take(0)) =~= Seq::<(int, int)>::empty());
    }
    while i < all.len()
        invariant
            i <= all@.len(),
            spec_match_pairs(all@) == spec_scan(text@, 0),
            spec_pairs_subsequence(
                spec_match_pairs(out@),
                spec_match_pairs(all@.take(i as int)),
            ),
            forall|k: int| 0 <= k < all@.len() ==> spec_match_wf(text@, #[trigger] all@[k]),
            forall|k: int|
                0 <= k < all@.len() - 1 ==> (#[trigger] all@[k]).end <= all@[k + 1].start,
            forall|k: int| 0 <= k < out@.len() ==> spec_match_wf(text@, #[trigger] out@[k]),
            forall|k: int| 0 <= k < out@.len() - 1 ==> (#[trigger] out@[k]).end <= out@[k + 1].start,
            forall|k: int, k2: int|
                0 <= k < out@.len() && i <= k2 < all@.len() ==> (#[trigger] out@[k]).end <= (
                #[trigger] all@[k2]).start,
        decreases all@.len() - i,
    {
        let ghost prev_out = out@;
        if match_exists(&all[i]) {
            out.push(clone_match(&all[i]));
            proof {
                assert(spec_match_pairs(out@) =~= spec_match_pairs(prev_out).push(
                    (all@[i as int].start as int, all@[i as int].end - all@[i as int].start),
                ));
                assert(spec_match_pairs(all@.take(i + 1)) =~= spec_match_pairs(
                    all@.take(i as int),
                ).push((all@[i as int].start as int, all@[i as int].end - all@[i as int].start)));
                lemma_pairs_subseq_push_both(
                    spec_match_pairs(prev_out),
                    spec_match_pairs(all@.take(i as int)),
                    (all@[i as int].start as int, all@[i as int].end - all@[i as int].start),
                );
                if out@.len() >= 2 {
                    assert(out@[out@.len() - 2].end <= all@[i as int].start);
                }
            }
        } else {
            proof {
                assert(spec_match_pairs(all@.take(i + 1)) =~= spec_match_pairs(
                    all@.take(i as int),
                ).push((all@[i as int].start as int, all@[i as int].end - all@[i as int].start)));
                lemma_pairs_subseq_extend_sup(
                    spec_match_pairs(out@),
                    spec_match_pairs(all@.take(i as int)),
                    (all@[i as int].start as int, all@[i as int].end - all@[i as int].start),
                );
            }
        }
        proof {
            assert forall|k: int, k2: int|
                0 <= k < out@.len() && i + 1 <= k2 < all@.len() implies (#[trigger] out@[k]).end
                <= (#[trigger] all@[k2]).start by {
                if k < prev_out.len() {
                    assert(out@[k] == prev_out[k]);
                } else {
                    assert(out@[k] == all@[i as int]);
                    lemma_starts_ascend(all@, i as int, k2);
                }
            }
        }
        i = i + 1;
    }
    proof {
        assert(all@.take(all@.len() as int) =~= all@);
    }
    out
}

/// In an end-before-start-ordered match list, every later match
/// starts at or after an earlier one's end.
proof fn lemma_starts_ascend(ms: Seq<FilePathMatch>, a: int, b: int)
    requires
        0 <= a < b < ms.len(),
        forall|k: int| 0 <= k < ms.len() - 1 ==> (#[trigger] ms[k]).end <= ms[k + 1].start,
        forall|k: int| 0 <= k < ms.len() ==> (#[trigger] ms[k]).start <= ms[k].end,
    ensures
        ms[a].end <= ms[b].start,
    decreases b - a,
{
    if a + 1 < b {
        lemma_starts_ascend(ms, a + 1, b);
    }
}

proof fn lemma_pairs_subseq_extend_sup(sub: Seq<(int, int)>, sup: Seq<(int, int)>, x: (int, int))
    requires
        spec_pairs_subsequence(sub, sup),
    ensures
        spec_pairs_subsequence(sub, sup.push(x)),
    decreases sup.len(),
{
    if sub.len() == 0 {
    } else if sup.len() == 0 {
    } else {
        assert(sup.push(x)[0] == sup[0]);
        assert(sup.push(x).drop_first() =~= sup.drop_first().push(x));
        if sub[0] == sup[0] {
            lemma_pairs_subseq_extend_sup(sub.drop_first(), sup.drop_first(), x);
        } else {
            lemma_pairs_subseq_extend_sup(sub, sup.drop_first(), x);
        }
    }
}

proof fn lemma_pairs_subseq_push_both(sub: Seq<(int, int)>, sup: Seq<(int, int)>, x: (int, int))
    requires
        spec_pairs_subsequence(sub, sup),
    ensures
        spec_pairs_subsequence(sub.push(x), sup.push(x)),
    decreases sup.len(),
{
    if sub.len() == 0 {
        lemma_pairs_single_in_pushed(sup, x);
        assert(sub.push(x) =~= seq![x]);
    } else if sup.len() == 0 {
    } else {
        assert(sub.push(x)[0] == sub[0]);
        assert(sup.push(x)[0] == sup[0]);
        assert(sub.push(x).drop_first() =~= sub.drop_first().push(x));
        assert(sup.push(x).drop_first() =~= sup.drop_first().push(x));
        if sub[0] == sup[0] {
            lemma_pairs_subseq_push_both(sub.drop_first(), sup.drop_first(), x);
        } else {
            lemma_pairs_subseq_push_both(sub, sup.drop_first(), x);
        }
    }
}

proof fn lemma_pairs_single_in_pushed(sup: Seq<(int, int)>, x: (int, int))
    ensures
        spec_pairs_subsequence(seq![x], sup.push(x)),
    decreases sup.len(),
{
    assert(seq![x][0] == x);
    if sup.len() == 0 {
        assert(sup.push(x)[0] == x);
        assert(seq![x].drop_first() =~= Seq::<(int, int)>::empty());
        assert(sup.push(x).drop_first() =~= Seq::<(int, int)>::empty());
        assert(spec_pairs_subsequence(seq![x].drop_first(), sup.push(x).drop_first()));
    } else {
        assert(sup.push(x)[0] == sup[0]);
        assert(sup.push(x).drop_first() =~= sup.drop_first().push(x));
        if x == sup[0] {
            assert(seq![x].drop_first() =~= Seq::<(int, int)>::empty());
            assert(spec_pairs_subsequence(
                seq![x].drop_first(),
                sup.push(x).drop_first(),
            ));
        } else {
            lemma_pairs_single_in_pushed(sup.drop_first(), x);
        }
    }
}

/// The length of the path token starting at `p`, or zero when no
/// token starts there, exactly as `spec_token_len` defines it.
fn match_token_at(chars: &Vec<char>, p: usize) -> (len: usize)
    requires
        p <= chars@.len(),
    ensures
        p + len <= chars@.len(),
        len == spec_token_len(chars@, p as int),
        len > 0 ==> (chars@[p as int] == '/' || chars@[p as int] == '~' || chars@[p as int] == '.'),
        len > 0 ==> spec_token_chars(chars@, p as int, len as int),
{
    let n = chars.len();
    if p >= n {
        return 0;
    }
    let c = chars[p];
    if c == '/' {
        // `/seg(/seg)*`: at least one segment character must follow.
        let body = segments_len(chars, p);
        return body;
    }
    if c == '~' {
        if p + 1 < n && chars[p + 1] == '/' {
            // `~/` then optional leading segment, then `(/seg)*`.
            let mut e: usize = p + 2;
            while e < n && is_path_char(chars[e])
                invariant
                    p + 2 <= e <= n,
                    n == chars@.len(),
                    forall|t: int| p + 2 <= t < e ==> spec_is_path_char(#[trigger] chars@[t]),
                decreases n - e,
            {
                e = e + 1;
            }
            proof {
                lemma_path_run_characterize(chars@, p + 2, e as int);
            }
            let ext = segments_len(chars, e);
            proof {
                lemma_token_tail(chars@, p as int, e as int, ext as int);
            }
            return e - p + ext;
        }
        return 0;
    }
    if c == '.' {
        // `./seg…` or `../seg…`.
        let dots: usize = if p + 1 < n && chars[p + 1] == '.' {
            2
        } else {
            1
        };
        if p + dots < n && chars[p + dots] == '/' {
            let body = segments_len(chars, p + dots);
            if body == 0 {
                return 0;
            }
            proof {
                lemma_token_dots(chars@, p as int, dots as int, body as int);
            }
            return dots + body;
        }
        return 0;
    }
    0
}

/// Every character of the token starting at `p` with length `len`
/// is a path character, a slash, or a tilde.
pub open spec fn spec_token_chars(s: Seq<char>, p: int, len: int) -> bool {
    forall|t: int|
        p <= t < p + len ==> spec_is_path_char(#[trigger] s[t]) || s[t] == '/' || s[t] == '~'
}

/// The length of `(/seg)+` starting at `from`, exactly as
/// `spec_segments` defines it.
fn segments_len(chars: &Vec<char>, from: usize) -> (len: usize)
    requires
        from <= chars@.len(),
    ensures
        from + len <= chars@.len(),
        len == spec_segments(chars@, from as int),
        spec_token_chars(chars@, from as int, len as int),
{
    let n = chars.len();
    let mut e: usize = from;
    loop
        invariant
            from <= e <= n,
            n == chars@.len(),
            spec_segments(chars@, from as int) == (e - from) + spec_segments(chars@, e as int),
            spec_token_chars(chars@, from as int, e - from),
        ensures
            from <= e <= n,
            e - from == spec_segments(chars@, from as int),
            spec_token_chars(chars@, from as int, e - from),
        decreases n - e,
    {
        // One more `/seg` pair, or stop.
        if e < n && chars[e] == '/' && e + 1 < n && is_path_char(chars[e + 1]) {
            let ghost e0 = e as int;
            let mut t: usize = e + 2;
            while t < n && is_path_char(chars[t])
                invariant
                    e + 2 <= t <= n,
                    n == chars@.len(),
                    spec_token_chars(chars@, from as int, e - from),
                    chars@[e as int] == '/',
                    spec_segments(chars@, from as int) == (e - from) + spec_segments(
                        chars@,
                        e as int,
                    ),
                    forall|u: int| e + 2 <= u < t ==> spec_is_path_char(#[trigger] chars@[u]),
                    spec_is_path_char(chars@[e + 1]),
                decreases n - t,
            {
                t = t + 1;
            }
            proof {
                lemma_path_run_characterize(chars@, e + 2, t as int);
                assert(spec_segments(chars@, e as int) == (t - e) + spec_segments(
                    chars@,
                    t as int,
                ));
            }
            e = t;
        } else {
            proof {
                assert(spec_segments(chars@, e as int) == 0);
            }
            break;
        }
    }
    e - from
}

proof fn lemma_token_chars(s: Seq<char>, p: int, len: int)
    requires
        spec_token_chars(s, p, len),
    ensures
        forall|t: int|
            p <= t < p + len ==> spec_is_path_char(#[trigger] s[t]) || s[t] == '/' || s[t] == '~',
{
}

proof fn lemma_token_tail(s: Seq<char>, p: int, e: int, ext: int)
    requires
        p + 2 <= e <= s.len(),
        s[p] == '~',
        s[p + 1] == '/',
        forall|t: int| p + 2 <= t < e ==> spec_is_path_char(#[trigger] s[t]) || s[t] == '/',
        spec_token_chars(s, e, ext),
    ensures
        spec_token_chars(s, p, e - p + ext),
{
}

proof fn lemma_token_dots(s: Seq<char>, p: int, dots: int, body: int)
    requires
        1 <= dots <= 2,
        p >= 0,
        p + dots <= s.len(),
        forall|t: int| p <= t < p + dots ==> s[t] == '.',
        spec_token_chars(s, p + dots, body),
    ensures
        spec_token_chars(s, p, dots + body),
{
}

/// Whether a detected token is a known false positive, exactly as
/// `spec_is_false_positive` defines it.
fn is_false_positive(path: &Vec<char>) -> (r: bool)
    ensures
        r == spec_is_false_positive(path@),
{
    // Protocol-like `//…`.
    if path.len() >= 2 && path[0] == '/' && path[1] == '/' {
        return true;
    }
    // Strip leading '.', '/' and '~'; nothing left means no real
    // path.
    let mut i: usize = 0;
    while i < path.len() && (path[i] == '.' || path[i] == '/' || path[i] == '~')
        invariant
            i <= path@.len(),
            forall|j: int|
                0 <= j < i ==> path@[j] == '.' || path@[j] == '/' || #[trigger] path@[j] == '~',
        decreases path@.len() - i,
    {
        i = i + 1;
    }
    if i >= path.len() {
        return true;
    }
    // A small list of lowercase abbreviations that look like paths.
    if eq_ci_lit(path, "/etc") || eq_ci_lit(path, "/a") || eq_ci_lit(path, "/b") || eq_ci_lit(
        path,
        "/c",
    ) || eq_ci_lit(path, "/d") || eq_ci_lit(path, "/e") || eq_ci_lit(path, "i/o") || eq_ci_lit(
        path,
        "/o",
    ) {
        return true;
    }
    proof {
        assert(!(path@[i as int] == '.' || path@[i as int] == '/' || path@[i as int] == '~'));
    }
    false
}

/// ASCII-case-insensitive equality against a literal.
fn eq_ci_lit(path: &Vec<char>, lit: &str) -> (r: bool)
    ensures
        r == spec_seq_eq_ci(path@, lit@),
{
    let l = strutil::str_chars(lit);
    if path.len() != l.len() {
        return false;
    }
    let mut i: usize = 0;
    while i < path.len()
        invariant
            i <= path@.len(),
            path@.len() == l@.len(),
            l@ == lit@,
            forall|j: int| 0 <= j < i ==> strutil::spec_eq_ci(path@[j], #[trigger] l@[j]),
        decreases path@.len() - i,
    {
        if !strutil::chars_eq_ci(path[i], l[i]) {
            return false;
        }
        i = i + 1;
    }
    true
}

/// Expands a leading tilde to the user's home directory, when one
/// is known; any other path comes back unchanged.  A tilde-led path
/// always keeps its tail after the tilde: the result is some prefix
/// (the home directory, or the tilde itself) followed by it.
pub fn expand_tilde(path: &str) -> (r: String)
    ensures
        (path@.len() == 0 || path@[0] != '~') ==> r@ == path@,
        (path@.len() > 0 && path@[0] == '~') ==> r@.len() + 1 >= path@.len() && r@.subrange(
            r@.len() - (path@.len() - 1),
            r@.len() as int,
        ) == path@.skip(1),
{
    let chars = strutil::str_chars(path);
    if chars.len() == 0 {
        return strutil::chars_to_string(&chars);
    }
    if chars[0] != '~' {
        return strutil::chars_to_string(&chars);
    }
    match home_dir_string() {
        Some(home) => {
            let mut out = String::new();
            strutil::append_str(&mut out, home.as_str());
            let mut rest: Vec<char> = Vec::new();
            let mut i: usize = 1;
            while i < chars.len()
                invariant
                    1 <= i <= chars@.len(),
                    chars@ == path@,
                    rest@ == path@.subrange(1, i as int),
                decreases chars@.len() - i,
            {
                rest.push(chars[i]);
                i = i + 1;
                proof {
                    assert(rest@ =~= path@.subrange(1, i as int));
                }
            }
            let rest_s = strutil::chars_to_string(&rest);
            strutil::append_str(&mut out, rest_s.as_str());
            proof {
                assert(rest@ =~= path@.skip(1));
                assert(out@.subrange(out@.len() - (path@.len() - 1), out@.len() as int) =~= path@.skip(1));
            }
            out
        },
        None => {
            let r = strutil::chars_to_string(&chars);
            proof {
                assert(r@.subrange(r@.len() - (path@.len() - 1), r@.len() as int) =~= path@.skip(
                    1,
                ));
            }
            r
        },
    }
}

/// Whether a path (tilde-expanded first) exists on the filesystem.
/// The answer is the outside world's.
pub fn path_exists(path: &str) -> (r: bool) {
    let expanded = expand_tilde(path);
    fs_path_exists(expanded.as_str())
}

impl FilePathMatch {
    /// The path with a leading tilde expanded.
    pub fn expanded_path(&self) -> (r: String)
        ensures
            (self.path@.len() == 0 || self.path@[0] != '~') ==> r@ == self.path@,
    {
        expand_tilde(self.path.as_str())
    }

    /// Whether the path exists on the filesystem.
    pub fn exists_on_disk(&self) -> (r: bool) {
        path_exists(self.path.as_str())
    }
}

fn match_exists(m: &FilePathMatch) -> (r: bool) {
    m.exists_on_disk()
}

fn clone_match(m: &FilePathMatch) -> (r: FilePathMatch)
    ensures
        r == *m,
{
    FilePathMatch { path: m.path.clone(), start: m.start, end: m.end }
}

/// Relies on `dirs::home_dir`: the user's home directory, if the
/// platform knows one.  The answer depends on the environment, so
/// nothing more is promised of it.
#[verifier::external_body]
fn home_dir_string() -> (r: Option<String>) {
    dirs::home_dir().map(|p| p.display().to_string())
}

/// Relies on `std::path::Path::exists`: whether the path points at
/// an existing entity on disk.  The answer depends on the
/// filesystem, so nothing more is promised of it.
#[verifier::external_body]
fn fs_path_exists(path: &str) -> (r: bool) {
    std::path::Path::new(path).exists()
}

} // verus!
