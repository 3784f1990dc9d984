//! The text converter: a fixed sequence of rewrite steps over one cell.
//!
//! The pipeline, in order: a first step with no observable effect, a
//! trailing-newline append, the collapse of doubled line-break tags, the two
//! block-tag spacing passes over one and the same pattern, horizontal-rule
//! spacing, and the normalization of the literal texts `\r\n` and `\r`.

use vstd::prelude::*;
use crate::steps::{apply_step, rewrite, Step};
use crate::tags::block_len;

verus! {

/// The converter's first step. It has no observable effect on any input: the
/// conversion dialect's first stage conditionally builds an empty string and
/// then discards it, a quirk kept here as specified behavior.
pub open spec fn first_step(s: Seq<char>) -> Seq<char> {
    s
}

/// Every pipeline stage after the first: append one newline, then run the
/// six substitution passes in their fixed order.
pub open spec fn steps_after_first(s: Seq<char>) -> Seq<char> {
    rewrite(
        Step::LiteralCr,
        rewrite(
            Step::LiteralCrlf,
            rewrite(
                Step::HorizontalRule,
                rewrite(
                    Step::BlockAfter,
                    rewrite(Step::BlockBefore, rewrite(Step::DoubleBreak, s + seq!['\n'])),
                ),
            ),
        ),
    )
}

/// What `convert` returns: the whole pipeline, first step included.
pub open spec fn convert_spec(s: Seq<char>) -> Seq<char> {
    steps_after_first(first_step(s))
}

/// The first pipeline step changes nothing: on every input, the whole
/// pipeline returns exactly what the remaining steps alone return.
pub proof fn lemma_first_step_no_effect(s: Seq<char>)
    ensures
        first_step(s) == s,
        convert_spec(s) == steps_after_first(s),
{
}

/// No step's pattern matches inside a string that is one bare newline, so
/// each rewrite pass leaves it as it is.
proof fn lemma_rewrite_single_newline(st: Step)
    ensures
        rewrite(st, seq!['\n']) == seq!['\n'],
{
    reveal(block_len);
    let s: Seq<char> = seq!['\n'];
    assert(crate::steps::step_len(st, s) == 0);
    assert(s.skip(1) =~= Seq::<char>::empty());
    assert(rewrite(st, Seq::<char>::empty()) == Seq::<char>::empty());
    assert(rewrite(st, s) =~= seq![s[0]]);
    assert(rewrite(st, s) =~= s);
}

/// Converting the empty string yields exactly one newline: the append step
/// contributes it, and no later step finds anything to rewrite.
pub proof fn lemma_convert_empty()
    ensures
        convert_spec(Seq::<char>::empty()) == seq!['\n'],
{
    let nl: Seq<char> = seq!['\n'];
    assert(Seq::<char>::empty() + nl =~= nl);
    lemma_rewrite_single_newline(Step::DoubleBreak);
    lemma_rewrite_single_newline(Step::BlockBefore);
    lemma_rewrite_single_newline(Step::BlockAfter);
    lemma_rewrite_single_newline(Step::HorizontalRule);
    lemma_rewrite_single_newline(Step::LiteralCrlf);
    lemma_rewrite_single_newline(Step::LiteralCr);
}

/// The characters of `s`, in order.
#[verifier::loop_isolation(false)]
fn str_to_chars(s: &str) -> (r: Vec<char>)
    ensures
        r@ == s@,
{
    let n = s.unicode_len();
    let mut r: Vec<char> = Vec::new();
    let mut i: usize = 0;
    while i < n
        invariant
            i <= n,
            r@ == s@.take(i as int),
        decreases n - i,
    {
        r.push(s.get_char(i));
        proof {
            assert(r@ =~= s@.take(i + 1));
        }
        i += 1;
    }
    proof {
        assert(s@.take(n as int) =~= s@);
    }
    r
}

/// Relies on std's `String: FromIterator<char>` (through `Iterator::collect`):
/// the collected string holds exactly the characters of the iterator, in
/// order.
#[verifier::external_body]
fn chars_to_string(v: &Vec<char>) -> (r: String)
    ensures
        r@ == v@,
{
    v.iter().collect()
}

/// Converts one cell of markup text: appends a trailing newline, collapses
/// doubled line-break tags to two newlines, sets two newlines around
/// block-tag occurrences over two passes of one and the same pattern, puts
/// two newlines after each horizontal-rule tag, and turns the literal texts
/// `\r\n` and `\r` into single newlines. Pure and total; the first pipeline
/// step has no effect (see `lemma_first_step_no_effect`).
pub fn convert(text: String) -> (r: String)
    ensures
        r@ == convert_spec(text@),
{
    let mut v: Vec<char> = str_to_chars(text.as_str());
    v.push('\n');
    proof {
        assert(v@ =~= first_step(text@) + seq!['\n']);
    }
    let v = apply_step(Step::DoubleBreak, &v);
    let v = apply_step(Step::BlockBefore, &v);
    let v = apply_step(Step::BlockAfter, &v);
    let v = apply_step(Step::HorizontalRule, &v);
    let v = apply_step(Step::LiteralCrlf, &v);
    let v = apply_step(Step::LiteralCr, &v);
    chars_to_string(&v)
}

} // verus!
