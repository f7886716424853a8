//! Display width of text in terminal columns.

use vstd::prelude::*;
use crate::strutil;

verus! {

/// The displayed width in columns of one character, or nothing for
/// a control character.
pub uninterp spec fn char_columns(c: char) -> Option<usize>;

/// Relies on unicode-width's `UnicodeWidthChar::width`: the
/// character's displayed width in columns, `None` exactly for a
/// control character; the result depends on the character alone.
#[verifier::external_body]
pub fn char_width(c: char) -> (r: Option<usize>)
    ensures
        r == char_columns(c),
        r is None <==> strutil::spec_is_control(c),
{
    unicode_width::UnicodeWidthChar::width(c)
}

/// The width of one character for layout purposes: its columns, or
/// zero for a control character.
pub open spec fn spec_char_cells(c: char) -> nat {
    match char_columns(c) {
        Some(w) => w as nat,
        None => 0,
    }
}

/// The total display width of a character sequence.
pub open spec fn spec_width_sum(s: Seq<char>) -> nat
    decreases s.len(),
{
    if s.len() == 0 {
        0
    } else {
        spec_width_sum(s.drop_last()) + spec_char_cells(s.last())
    }
}

/// The display width of a text, saturating at the top of the range.
pub fn display_width(v: &Vec<char>) -> (r: usize)
    ensures
        r == if spec_width_sum(v@) <= usize::MAX {
            spec_width_sum(v@)
        } else {
            usize::MAX as nat
        },
{
    let mut acc: usize = 0;
    let mut i: usize = 0;
    while i < v.len()
        invariant
            i <= v@.len(),
            acc == if spec_width_sum(v@.take(i as int)) <= usize::MAX {
                spec_width_sum(v@.take(i as int))
            } else {
                usize::MAX as nat
            },
        decreases v@.len() - i,
    {
        let w = match char_width(v[i]) {
            Some(w) => w,
            None => 0,
        };
        if acc > usize::MAX - w {
            acc = usize::MAX;
        } else {
            acc = acc + w;
        }
        i = i + 1;
        proof {
            assert(v@.take(i as int).drop_last() =~= v@.take(i - 1));
            assert(v@.take(i as int).last() == v@[i - 1]);
        }
    }
    proof {
        assert(v@.take(v@.len() as int) =~= v@);
    }
    acc
}

/// The display width of a string slice, saturating at the top of
/// the range.
pub fn str_display_width(s: &str) -> (r: usize)
    ensures
        r == if spec_width_sum(s@) <= usize::MAX {
            spec_width_sum(s@)
        } else {
            usize::MAX as nat
        },
{
    let chars = strutil::str_chars(s);
    display_width(&chars)
}

} // verus!
