//! The rewrite steps of the conversion pipeline and a verified driver that
//! applies one step globally over a string.
//!
//! A step rewrites every match of its pattern, scanning left to right over
//! non-overlapping matches; text between matches is copied unchanged, and
//! replacement text is never rescanned within the same step.

use vstd::prelude::*;
use crate::tags::{block_len, block_len_exec, lemma_block_len_bounds};
use crate::text::{double_br_len, double_br_len_exec, void_tag_len, void_tag_len_exec};

verus! {

/// One global substitution pass of the conversion pipeline.
#[derive(Clone, Copy)]
pub enum Step {
    /// Two line-break tags separated by optional whitespace become two
    /// newlines.
    DoubleBreak,
    /// A block-tag occurrence becomes two newlines followed by `<name>`;
    /// the matched delimiter character is dropped.
    BlockBefore,
    /// A block-tag occurrence becomes `<name>` followed by two newlines;
    /// the matched delimiter character is dropped.
    BlockAfter,
    /// A horizontal-rule tag is kept verbatim and two newlines follow it.
    HorizontalRule,
    /// The four-character literal text `\r\n` becomes one newline.
    LiteralCrlf,
    /// The two-character literal text `\r` becomes one newline.
    LiteralCr,
}

/// Length of the match of `st`'s pattern at the start of `s`; `0` if none.
pub open spec fn step_len(st: Step, s: Seq<char>) -> int {
    match st {
        Step::DoubleBreak => double_br_len(s),
        Step::BlockBefore => block_len(s),
        Step::BlockAfter => block_len(s),
        Step::HorizontalRule => void_tag_len(s, 'h', 'r'),
        Step::LiteralCrlf => if s.len() >= 4 && s[0] == '\\' && s[1] == 'r' && s[2] == '\\'
            && s[3] == 'n' { 4int } else { 0int },
        Step::LiteralCr => if s.len() >= 2 && s[0] == '\\' && s[1] == 'r' { 2int } else { 0int },
    }
}

/// The text that replaces a match of `st`'s pattern at the start of `s`.
pub open spec fn step_repl(st: Step, s: Seq<char>) -> Seq<char> {
    match st {
        Step::DoubleBreak => seq!['\n', '\n'],
        Step::BlockBefore => seq!['\n', '\n', '<'] + s.subrange(1, block_len(s) - 1)
            + seq!['>'],
        Step::BlockAfter => seq!['<'] + s.subrange(1, block_len(s) - 1) + seq!['>', '\n', '\n'],
        Step::HorizontalRule => s.subrange(0, void_tag_len(s, 'h', 'r')) + seq!['\n', '\n'],
        Step::LiteralCrlf => seq!['\n'],
        Step::LiteralCr => seq!['\n'],
    }
}

/// One global pass of step `st` over `s`: at each position, either the
/// pattern matches and its replacement is emitted while the match is
/// consumed, or one character is copied through.
pub open spec fn rewrite(st: Step, s: Seq<char>) -> Seq<char>
    decreases s.len(),
{
    if s.len() == 0 {
        Seq::empty()
    } else if 0 < step_len(st, s) <= s.len() {
        step_repl(st, s) + rewrite(st, s.skip(step_len(st, s)))
    } else {
        seq![s[0]] + rewrite(st, s.skip(1))
    }
}

/// Match length of step `st` at offset `i` of `s`.
fn step_match(st: Step, s: &Vec<char>, i: usize) -> (l: usize)
    requires
        i <= s@.len(),
    ensures
        l as int == step_len(st, s@.skip(i as int)),
        i + l <= s@.len(),
{
    let n = s.len();
    let ghost sfx = s@.skip(i as int);
    proof {
        assert(sfx.len() == n - i);
        assert(forall|m: int| 0 <= m < sfx.len() ==> sfx[m] == s@[i + m]);
    }
    match st {
        Step::DoubleBreak => double_br_len_exec(s, i),
        Step::BlockBefore => block_len_exec(s, i),
        Step::BlockAfter => block_len_exec(s, i),
        Step::HorizontalRule => void_tag_len_exec(s, i, 'h', 'r'),
        Step::LiteralCrlf => {
            if n - i >= 4 && s[i] == '\\' && s[i + 1] == 'r' && s[i + 2] == '\\'
                && s[i + 3] == 'n' {
                4
            } else {
                0
            }
        },
        Step::LiteralCr => {
            if n - i >= 2 && s[i] == '\\' && s[i + 1] == 'r' {
                2
            } else {
                0
            }
        },
    }
}

/// Appends `s[from..to]` to `out`.
#[verifier::loop_isolation(false)]
fn copy_range(s: &Vec<char>, from: usize, to: usize, out: &mut Vec<char>)
    requires
        from <= to <= s@.len(),
    ensures
        final(out)@ == old(out)@ + s@.subrange(from as int, to as int),
{
    let mut k: usize = from;
    while k < to
        invariant
            from <= k <= to,
            out@ == old(out)@ + s@.subrange(from as int, k as int),
        decreases to - k,
    {
        out.push(s[k]);
        proof {
            assert(out@ =~= old(out)@ + s@.subrange(from as int, k + 1));
        }
        k += 1;
    }
    proof {
        assert(out@ =~= old(out)@ + s@.subrange(from as int, to as int));
    }
}

/// Appends the replacement for the match of `st` at offset `i` of `s`.
#[verifier::rlimit(100)]
fn push_repl(st: Step, s: &Vec<char>, i: usize, l: usize, out: &mut Vec<char>)
    requires
        i <= s@.len(),
        l as int == step_len(st, s@.skip(i as int)),
        0 < l,
        i + l <= s@.len(),
    ensures
        final(out)@ == old(out)@ + step_repl(st, s@.skip(i as int)),
{
    let n = s.len();
    let ghost sfx = s@.skip(i as int);
    proof {
        assert(sfx.len() == n - i);
        assert(forall|m: int| 0 <= m < sfx.len() ==> sfx[m] == s@[i + m]);
        lemma_block_len_bounds(sfx);
    }
    match st {
        Step::DoubleBreak => {
            out.push('\n');
            out.push('\n');
            proof {
                assert(out@ =~= old(out)@ + step_repl(st, sfx));
            }
        },
        Step::BlockBefore => {
            out.push('\n');
            out.push('\n');
            out.push('<');
            copy_range(s, i + 1, i + l - 1, out);
            out.push('>');
            proof {
                assert(s@.subrange(i + 1, i + l - 1) =~= sfx.subrange(1, l - 1));
                assert(out@ =~= old(out)@ + step_repl(st, sfx));
            }
        },
        Step::BlockAfter => {
            out.push('<');
            copy_range(s, i + 1, i + l - 1, out);
            out.push('>');
            out.push('\n');
            out.push('\n');
            proof {
                assert(s@.subrange(i + 1, i + l - 1) =~= sfx.subrange(1, l - 1));
                assert(out@ =~= old(out)@ + step_repl(st, sfx));
            }
        },
        Step::HorizontalRule => {
            copy_range(s, i, i + l, out);
            out.push('\n');
            out.push('\n');
            proof {
                assert(s@.subrange(i as int, i + l) =~= sfx.subrange(0, l as int));
                assert(out@ =~= old(out)@ + step_repl(st, sfx));
            }
        },
        Step::LiteralCrlf => {
            out.push('\n');
            proof {
                assert(out@ =~= old(out)@ + step_repl(st, sfx));
            }
        },
        Step::LiteralCr => {
            out.push('\n');
            proof {
                assert(out@ =~= old(out)@ + step_repl(st, sfx));
            }
        },
    }
}

/// Applies one global pass of step `st` to the whole of `s`.
#[verifier::loop_isolation(false)]
#[verifier::rlimit(100)]
pub fn apply_step(st: Step, s: &Vec<char>) -> (r: Vec<char>)
    ensures
        r@ == rewrite(st, s@),
{
    let n = s.len();
    let mut out: Vec<char> = Vec::new();
    let mut i: usize = 0;
    proof {
        assert(s@.skip(0) =~= s@);
        assert(out@ + rewrite(st, s@) =~= rewrite(st, s@));
    }
    while i < n
        invariant
            i <= n,
            rewrite(st, s@) == out@ + rewrite(st, s@.skip(i as int)),
        decreases n - i,
    {
        let ghost sfx = s@.skip(i as int);
        let l = step_match(st, s, i);
        if l > 0 {
            push_repl(st, s, i, l, &mut out);
            proof {
                vstd::seq_lib::lemma_seq_skip_of_skip(s@, i as int, l as int);
                assert(rewrite(st, sfx) == step_repl(st, sfx) + rewrite(st, sfx.skip(l as int)));
                assert(rewrite(st, s@) =~= out@ + rewrite(st, s@.skip(i + l)));
            }
            i += l;
        } else {
            out.push(s[i]);
            proof {
                vstd::seq_lib::lemma_seq_skip_of_skip(s@, i as int, 1);
                assert(sfx[0] == s@[i as int]);
                assert(rewrite(st, sfx) == seq![sfx[0]] + rewrite(st, sfx.skip(1)));
                assert(rewrite(st, s@) =~= out@ + rewrite(st, s@.skip(i + 1)));
            }
            i += 1;
        }
    }
    proof {
        assert(s@.skip(n as int) =~= Seq::<char>::empty());
        assert(rewrite(st, s@.skip(n as int)) == Seq::<char>::empty());
        assert(out@ + Seq::<char>::empty() =~= out@);
    }
    out
}

} // verus!
