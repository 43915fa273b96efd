//! The equality evaluator.
//!
//! Two operand units are equal when they hold the same number of tokens and
//! each corresponding pair of tokens has the same trimmed textual rendering,
//! compared positionally left to right. The comparison is purely textual: a
//! delimited group takes part through its full rendering, never through a
//! recursive walk of its contents.

use crate::text::chars_equal;
use crate::text::is_space;
use crate::text::trim_chars;
use crate::text::trimmed;
use crate::token::token_text;
use crate::token::Token;
use vstd::prelude::*;

verus! {

/// Two tokens match when their trimmed textual renderings are the same
/// characters.
pub open spec fn token_matches(a: Token, b: Token) -> bool {
    trimmed(a.text()) == trimmed(b.text())
}

/// Two operand units match when they have the same token count and the
/// tokens match pairwise.
pub open spec fn units_match(a: Seq<Token>, b: Seq<Token>) -> bool {
    a.len() == b.len() && forall|i: int| 0 <= i < a.len() ==> token_matches(a[i], b[i])
}

/// Decides `token_matches`.
pub fn token_eq(a: &Token, b: &Token) -> (r: bool)
    ensures
        r == token_matches(*a, *b),
{
    let ta = token_text(a);
    let tb = token_text(b);
    let tta = trim_chars(&ta);
    let ttb = trim_chars(&tb);
    chars_equal(&tta, &ttb)
}

/// Decides `units_match`, short-circuiting on a length mismatch.
pub fn units_equal(lhs: &Vec<Token>, rhs: &Vec<Token>) -> (r: bool)
    ensures
        r == units_match(lhs@, rhs@),
{
    if lhs.len() != rhs.len() {
        return false;
    }
    let mut i: usize = 0;
    while i < lhs.len()
        invariant
            i <= lhs@.len(),
            lhs@.len() == rhs@.len(),
            forall|j: int| 0 <= j < i ==> token_matches(lhs@[j], rhs@[j]),
        decreases lhs@.len() - i,
    {
        if !token_eq(&lhs[i], &rhs[i]) {
            return false;
        }
        i = i + 1;
    }
    true
}

/// Comparing a unit against itself always yields true.
pub proof fn lemma_compare_reflexive(a: Seq<Token>)
    ensures
        units_match(a, a),
{
}

/// Comparing `a` against `b` yields the same answer as comparing `b`
/// against `a`.
pub proof fn lemma_compare_symmetric(a: Seq<Token>, b: Seq<Token>)
    ensures
        units_match(a, b) == units_match(b, a),
{
}

/// Units of differing token count never match, regardless of content.
pub proof fn lemma_differing_lengths_never_match(a: Seq<Token>, b: Seq<Token>)
    requires
        a.len() != b.len(),
    ensures
        !units_match(a, b),
{
}

/// Whitespace-only differences in token rendering do not affect equality:
/// two tokens whose renderings are the same characters up to leading and
/// trailing whitespace always match.
pub proof fn lemma_padding_never_affects_match(
    a: Token,
    b: Token,
    s: Seq<char>,
    pre_a: Seq<char>,
    post_a: Seq<char>,
    pre_b: Seq<char>,
    post_b: Seq<char>,
)
    requires
        forall|i: int| 0 <= i < pre_a.len() ==> is_space(pre_a[i]),
        forall|i: int| 0 <= i < post_a.len() ==> is_space(post_a[i]),
        forall|i: int| 0 <= i < pre_b.len() ==> is_space(pre_b[i]),
        forall|i: int| 0 <= i < post_b.len() ==> is_space(post_b[i]),
        a.text() == pre_a + s + post_a,
        b.text() == pre_b + s + post_b,
    ensures
        token_matches(a, b),
{
    crate::text::lemma_trimmed_ignores_padding(pre_a, s, post_a);
    crate::text::lemma_trimmed_ignores_padding(pre_b, s, post_b);
}

/// Two punctuation tokens match exactly when they carry the same character,
/// whenever neither character is whitespace; the joinedness flag plays no
/// part in the comparison.
pub proof fn lemma_punct_tokens_match_iff_same_char(a: char, aj: bool, b: char, bj: bool)
    requires
        !is_space(a),
        !is_space(b),
    ensures
        token_matches((Token::Punct { ch: a, joint: aj }), (Token::Punct { ch: b, joint: bj }))
            == (a == b),
{
    let sa = seq![a];
    let sb = seq![b];
    assert(trimmed(sa) == sa);
    assert(trimmed(sb) == sb);
    if a == b {
        assert(sa =~= sb);
    } else {
        assert(sa[0] != sb[0]);
    }
}

} // verus!
