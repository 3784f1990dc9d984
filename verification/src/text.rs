//! Character-level pattern matchers for the conversion pipeline.
//!
//! Each pattern is given as a spec function that reports the length of a
//! match at the start of a character sequence (`0` when nothing matches
//! there), together with a verified executable matcher that examines a
//! `Vec<char>` at a given offset.

use vstd::prelude::*;

verus! {

broadcast use vstd::seq_lib::group_seq_properties;

/// A character the rewrite patterns treat as whitespace: the Unicode
/// white-space set.
pub open spec fn is_space(c: char) -> bool {
    c == ' ' || c == '\t' || c == '\n' || c == '\u{0B}' || c == '\u{0C}' || c == '\r'
        || c == '\u{85}' || c == '\u{A0}' || c == '\u{1680}' || c == '\u{2000}'
        || c == '\u{2001}' || c == '\u{2002}' || c == '\u{2003}' || c == '\u{2004}'
        || c == '\u{2005}' || c == '\u{2006}' || c == '\u{2007}' || c == '\u{2008}'
        || c == '\u{2009}' || c == '\u{200A}' || c == '\u{2028}' || c == '\u{2029}'
        || c == '\u{202F}' || c == '\u{205F}' || c == '\u{3000}'
}

pub fn is_space_exec(c: char) -> (r: bool)
    ensures
        r == is_space(c),
{
    c == ' ' || c == '\t' || c == '\n' || c == '\u{0B}' || c == '\u{0C}' || c == '\r'
        || c == '\u{85}' || c == '\u{A0}' || c == '\u{1680}' || c == '\u{2000}'
        || c == '\u{2001}' || c == '\u{2002}' || c == '\u{2003}' || c == '\u{2004}'
        || c == '\u{2005}' || c == '\u{2006}' || c == '\u{2007}' || c == '\u{2008}'
        || c == '\u{2009}' || c == '\u{200A}' || c == '\u{2028}' || c == '\u{2029}'
        || c == '\u{202F}' || c == '\u{205F}' || c == '\u{3000}'
}

/// A character that may close a block-tag name: whitespace, `/`, or `>`.
pub open spec fn is_delim(c: char) -> bool {
    is_space(c) || c == '/' || c == '>'
}

pub fn is_delim_exec(c: char) -> (r: bool)
    ensures
        r == is_delim(c),
{
    c == '/' || c == '>' || is_space_exec(c)
}

/// Length of the maximal whitespace run at the start of `s`.
pub open spec fn ws_len(s: Seq<char>) -> int
    decreases s.len(),
{
    if s.len() > 0 && is_space(s[0]) {
        1 + ws_len(s.skip(1))
    } else {
        0
    }
}

#[verifier::loop_isolation(false)]
pub fn ws_len_exec(s: &Vec<char>, i: usize) -> (l: usize)
    requires
        i <= s@.len(),
    ensures
        l as int == ws_len(s@.skip(i as int)),
        i + l <= s@.len(),
    decreases s@.len() - i,
{
    if i < s.len() && is_space_exec(s[i]) {
        let rest = ws_len_exec(s, i + 1);
        proof {
            vstd::seq_lib::lemma_seq_skip_of_skip(s@, i as int, 1);
            assert(s@.skip(i as int)[0] == s@[i as int]);
        }
        1 + rest
    } else {
        0
    }
}

/// Length of a void tag at the start of `s` whose name is the two given
/// characters: `<`, the name, an optional whitespace run, an optional `/`,
/// then `>` (so `<XY>`, `<XY/>`, `<XY  >`, `<XY  />`); `0` if none is there.
pub open spec fn void_tag_len(s: Seq<char>, c1: char, c2: char) -> int {
    if s.len() >= 4 && s[0] == '<' && s[1] == c1 && s[2] == c2 {
        let w = ws_len(s.skip(3));
        if 3 + w < s.len() && s[3 + w] == '>' {
            3 + w + 1
        } else if 3 + w + 1 < s.len() && s[3 + w] == '/' && s[3 + w + 1] == '>' {
            3 + w + 2
        } else {
            0
        }
    } else {
        0
    }
}

pub fn void_tag_len_exec(s: &Vec<char>, i: usize, c1: char, c2: char) -> (l: usize)
    requires
        i <= s@.len(),
    ensures
        l as int == void_tag_len(s@.skip(i as int), c1, c2),
        i + l <= s@.len(),
{
    let n = s.len();
    proof {
        assert(s@.skip(i as int).len() == n - i);
    }
    if n - i >= 4 && s[i] == '<' && s[i + 1] == c1 && s[i + 2] == c2 {
        proof {
            assert(s@.skip(i as int)[0] == s@[i as int]);
            assert(s@.skip(i as int)[1] == s@[i + 1]);
            assert(s@.skip(i as int)[2] == s@[i + 2]);
            vstd::seq_lib::lemma_seq_skip_of_skip(s@, i as int, 3);
        }
        let w = ws_len_exec(s, i + 3);
        let j = i + 3 + w;
        if j < n && s[j] == '>' {
            proof {
                assert(s@.skip(i as int)[3 + w] == s@[j as int]);
            }
            j + 1 - i
        } else if j < n - 1 && s[j] == '/' && s[j + 1] == '>' {
            proof {
                assert(s@.skip(i as int)[3 + w] == s@[j as int]);
                assert(s@.skip(i as int)[3 + w + 1] == s@[j + 1]);
            }
            j + 2 - i
        } else {
            proof {
                if j < n {
                    assert(s@.skip(i as int)[3 + w] == s@[j as int]);
                }
                if j + 1 < n {
                    assert(s@.skip(i as int)[3 + w + 1] == s@[j + 1]);
                }
            }
            0
        }
    } else {
        0
    }
}

/// Length of a pair of line-break tags separated by optional whitespace
/// (`<br>`, `<br/>` or `<br />` twice over) at the start of `s`; `0` if none.
pub open spec fn double_br_len(s: Seq<char>) -> int {
    let b1 = void_tag_len(s, 'b', 'r');
    if b1 > 0 {
        let w = ws_len(s.skip(b1));
        let b2 = void_tag_len(s.skip(b1 + w), 'b', 'r');
        if b2 > 0 {
            b1 + w + b2
        } else {
            0
        }
    } else {
        0
    }
}

pub fn double_br_len_exec(s: &Vec<char>, i: usize) -> (l: usize)
    requires
        i <= s@.len(),
    ensures
        l as int == double_br_len(s@.skip(i as int)),
        i + l <= s@.len(),
{
    let n = s.len();
    let b1 = void_tag_len_exec(s, i, 'b', 'r');
    if b1 > 0 {
        proof {
            vstd::seq_lib::lemma_seq_skip_of_skip(s@, i as int, b1 as int);
        }
        let w = ws_len_exec(s, i + b1);
        proof {
            vstd::seq_lib::lemma_seq_skip_of_skip(s@, i as int, b1 + w);
        }
        let b2 = void_tag_len_exec(s, i + b1 + w, 'b', 'r');
        if b2 > 0 {
            b1 + w + b2
        } else {
            0
        }
    } else {
        0
    }
}

} // verus!
