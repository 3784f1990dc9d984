//! Recognizer for the fixed set of block-level tag names.
//!
//! A block-tag occurrence is a `<`, followed immediately by one of the fixed
//! tag names, followed by one closing delimiter character (whitespace, `/` or
//! `>`). The delimiter is part of the match. At any position at most one name
//! from the set can complete a match, since two names where one is a prefix of
//! the other cannot both be followed by a delimiter at their own end.

use vstd::prelude::*;
use crate::text::{is_delim, is_delim_exec};

verus! {

broadcast use vstd::seq_lib::group_seq_properties;

/// A block-tag occurrence with name `t` starts at the beginning of `s`:
/// `<`, the name itself, then one delimiter character.
pub open spec fn tag_here(s: Seq<char>, t: Seq<char>) -> bool {
    &&& s.len() >= t.len() + 2
    &&& s[0] == '<'
    &&& s.subrange(1, 1 + t.len() as int) == t
    &&& is_delim(s[1 + t.len() as int])
}

/// Match length at offset `i` of `s` for the single name `t` (`t@.len() + 2`
/// on a match, `0` otherwise).
#[verifier::loop_isolation(false)]
pub fn try_tag(s: &Vec<char>, i: usize, t: &str) -> (l: usize)
    requires
        i <= s@.len(),
    ensures
        tag_here(s@.skip(i as int), t@) ==> l == t@.len() + 2,
        !tag_here(s@.skip(i as int), t@) ==> l == 0,
        i + l <= s@.len(),
{
    let n = s.len();
    let tl = t.unicode_len();
    let ghost sfx = s@.skip(i as int);
    proof {
        assert(sfx.len() == n - i);
    }
    if n - i < 2 || tl > n - i - 2 {
        return 0;
    }
    if s[i] != '<' {
        proof {
            assert(sfx[0] == s@[i as int]);
        }
        return 0;
    }
    let mut k: usize = 0;
    while k < tl
        invariant
            0 <= k <= tl,
            forall|m: int| 0 <= m < k ==> s@[i + 1 + m] == t@[m],
        decreases tl - k,
    {
        if s[i + 1 + k] != t.get_char(k) {
            proof {
                if tag_here(sfx, t@) {
                    assert(sfx.subrange(1, 1 + tl as int)[k as int] == t@[k as int]);
                    assert(sfx[1 + k] == s@[i + 1 + k]);
                }
            }
            return 0;
        }
        k += 1;
    }
    if !is_delim_exec(s[i + 1 + tl]) {
        proof {
            assert(sfx[1 + tl] == s@[i + 1 + tl]);
        }
        return 0;
    }
    proof {
        assert(sfx[0] == s@[i as int]);
        assert(sfx[1 + tl] == s@[i + 1 + tl]);
        assert(sfx.subrange(1, 1 + tl as int) =~= t@) by {
            assert(forall|m: int|
                0 <= m < tl ==> #[trigger] sfx.subrange(1, 1 + tl as int)[m] == s@[i + 1 + m]);
        }
    }
    tl + 2
}

/// Length of the block-tag occurrence at the start of `s` (`<`, name,
/// delimiter), or `0` if no name from the fixed set matches there.
#[verifier::opaque]
pub open spec fn block_len(s: Seq<char>) -> int {
    if tag_here(s, "table"@) { "table"@.len() + 2int }
    else if tag_here(s, "thead"@) { "thead"@.len() + 2int }
    else if tag_here(s, "tfoot"@) { "tfoot"@.len() + 2int }
    else if tag_here(s, "caption"@) { "caption"@.len() + 2int }
    else if tag_here(s, "col"@) { "col"@.len() + 2int }
    else if tag_here(s, "colgroup"@) { "colgroup"@.len() + 2int }
    else if tag_here(s, "tbody"@) { "tbody"@.len() + 2int }
    else if tag_here(s, "tr"@) { "tr"@.len() + 2int }
    else if tag_here(s, "td"@) { "td"@.len() + 2int }
    else if tag_here(s, "th"@) { "th"@.len() + 2int }
    else if tag_here(s, "div"@) { "div"@.len() + 2int }
    else if tag_here(s, "dl"@) { "dl"@.len() + 2int }
    else if tag_here(s, "dd"@) { "dd"@.len() + 2int }
    else if tag_here(s, "dt"@) { "dt"@.len() + 2int }
    else if tag_here(s, "ul"@) { "ul"@.len() + 2int }
    else if tag_here(s, "ol"@) { "ol"@.len() + 2int }
    else if tag_here(s, "li"@) { "li"@.len() + 2int }
    else if tag_here(s, "pre"@) { "pre"@.len() + 2int }
    else if tag_here(s, "form"@) { "form"@.len() + 2int }
    else if tag_here(s, "map"@) { "map"@.len() + 2int }
    else if tag_here(s, "area"@) { "area"@.len() + 2int }
    else if tag_here(s, "blockquote"@) { "blockquote"@.len() + 2int }
    else if tag_here(s, "address"@) { "address"@.len() + 2int }
    else if tag_here(s, "math"@) { "math"@.len() + 2int }
    else if tag_here(s, "style"@) { "style"@.len() + 2int }
    else if tag_here(s, "p"@) { "p"@.len() + 2int }
    else if tag_here(s, "h1"@) { "h1"@.len() + 2int }
    else if tag_here(s, "h2"@) { "h2"@.len() + 2int }
    else if tag_here(s, "h3"@) { "h3"@.len() + 2int }
    else if tag_here(s, "h4"@) { "h4"@.len() + 2int }
    else if tag_here(s, "h5"@) { "h5"@.len() + 2int }
    else if tag_here(s, "h6"@) { "h6"@.len() + 2int }
    else if tag_here(s, "hr"@) { "hr"@.len() + 2int }
    else if tag_here(s, "fieldset"@) { "fieldset"@.len() + 2int }
    else if tag_here(s, "legend"@) { "legend"@.len() + 2int }
    else if tag_here(s, "section"@) { "section"@.len() + 2int }
    else if tag_here(s, "article"@) { "article"@.len() + 2int }
    else if tag_here(s, "aside"@) { "aside"@.len() + 2int }
    else if tag_here(s, "hgroup"@) { "hgroup"@.len() + 2int }
    else if tag_here(s, "header"@) { "header"@.len() + 2int }
    else if tag_here(s, "footer"@) { "footer"@.len() + 2int }
    else if tag_here(s, "nav"@) { "nav"@.len() + 2int }
    else if tag_here(s, "figure"@) { "figure"@.len() + 2int }
    else if tag_here(s, "figcaption"@) { "figcaption"@.len() + 2int }
    else if tag_here(s, "details"@) { "details"@.len() + 2int }
    else if tag_here(s, "menu"@) { "menu"@.len() + 2int }
    else if tag_here(s, "summary"@) { "summary"@.len() + 2int }
    else { 0 }
}

pub proof fn lemma_block_len_bounds(s: Seq<char>)
    ensures
        0 <= block_len(s) <= s.len(),
        block_len(s) == 0 || block_len(s) >= 2,
{
    reveal(block_len);
}

#[verifier::rlimit(30)]
pub fn block_len_exec(s: &Vec<char>, i: usize) -> (l: usize)
    requires
        i <= s@.len(),
    ensures
        l as int == block_len(s@.skip(i as int)),
        i + l <= s@.len(),
{
    proof {
        reveal(block_len);
    }
    let l = try_tag(s, i, "table"); if l > 0 { return l; }
    let l = try_tag(s, i, "thead"); if l > 0 { return l; }
    let l = try_tag(s, i, "tfoot"); if l > 0 { return l; }
    let l = try_tag(s, i, "caption"); if l > 0 { return l; }
    let l = try_tag(s, i, "col"); if l > 0 { return l; }
    let l = try_tag(s, i, "colgroup"); if l > 0 { return l; }
    let l = try_tag(s, i, "tbody"); if l > 0 { return l; }
    let l = try_tag(s, i, "tr"); if l > 0 { return l; }
    let l = try_tag(s, i, "td"); if l > 0 { return l; }
    let l = try_tag(s, i, "th"); if l > 0 { return l; }
    let l = try_tag(s, i, "div"); if l > 0 { return l; }
    let l = try_tag(s, i, "dl"); if l > 0 { return l; }
    let l = try_tag(s, i, "dd"); if l > 0 { return l; }
    let l = try_tag(s, i, "dt"); if l > 0 { return l; }
    let l = try_tag(s, i, "ul"); if l > 0 { return l; }
    let l = try_tag(s, i, "ol"); if l > 0 { return l; }
    let l = try_tag(s, i, "li"); if l > 0 { return l; }
    let l = try_tag(s, i, "pre"); if l > 0 { return l; }
    let l = try_tag(s, i, "form"); if l > 0 { return l; }
    let l = try_tag(s, i, "map"); if l > 0 { return l; }
    let l = try_tag(s, i, "area"); if l > 0 { return l; }
    let l = try_tag(s, i, "blockquote"); if l > 0 { return l; }
    let l = try_tag(s, i, "address"); if l > 0 { return l; }
    let l = try_tag(s, i, "math"); if l > 0 { return l; }
    let l = try_tag(s, i, "style"); if l > 0 { return l; }
    let l = try_tag(s, i, "p"); if l > 0 { return l; }
    let l = try_tag(s, i, "h1"); if l > 0 { return l; }
    let l = try_tag(s, i, "h2"); if l > 0 { return l; }
    let l = try_tag(s, i, "h3"); if l > 0 { return l; }
    let l = try_tag(s, i, "h4"); if l > 0 { return l; }
    let l = try_tag(s, i, "h5"); if l > 0 { return l; }
    let l = try_tag(s, i, "h6"); if l > 0 { return l; }
    let l = try_tag(s, i, "hr"); if l > 0 { return l; }
    let l = try_tag(s, i, "fieldset"); if l > 0 { return l; }
    let l = try_tag(s, i, "legend"); if l > 0 { return l; }
    let l = try_tag(s, i, "section"); if l > 0 { return l; }
    let l = try_tag(s, i, "article"); if l > 0 { return l; }
    let l = try_tag(s, i, "aside"); if l > 0 { return l; }
    let l = try_tag(s, i, "hgroup"); if l > 0 { return l; }
    let l = try_tag(s, i, "header"); if l > 0 { return l; }
    let l = try_tag(s, i, "footer"); if l > 0 { return l; }
    let l = try_tag(s, i, "nav"); if l > 0 { return l; }
    let l = try_tag(s, i, "figure"); if l > 0 { return l; }
    let l = try_tag(s, i, "figcaption"); if l > 0 { return l; }
    let l = try_tag(s, i, "details"); if l > 0 { return l; }
    let l = try_tag(s, i, "menu"); if l > 0 { return l; }
    let l = try_tag(s, i, "summary"); if l > 0 { return l; }
    0
}

} // verus!
