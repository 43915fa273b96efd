//! A token-for-token equality predicate for a macro-dispatch calling
//! convention.
//!
//! Given a raw token sequence of the fixed shape
//! `continuation input = [ { lhs rhs } ]`, the library validates the shape,
//! compares the two operand units by their trimmed textual rendering, and
//! produces the fixed continuation-passing response
//! `tt_call :: tt_return ! { continuation is_equal = [ { bool } ] }`.

use vstd::prelude::*;

mod compare;
mod encode;
mod text;
mod token;
mod validate;

pub use compare::lemma_compare_reflexive;
pub use compare::lemma_compare_symmetric;
pub use compare::lemma_differing_lengths_never_match;
pub use compare::lemma_padding_never_affects_match;
pub use compare::lemma_punct_tokens_match_iff_same_char;
pub use compare::token_eq;
pub use compare::token_matches;
pub use compare::units_equal;
pub use compare::units_match;
pub use encode::encoded_output;
pub use encode::return_to_tt;
pub use text::lemma_trimmed_ignores_padding;
pub use text::trim_chars;
pub use text::trimmed;
pub use token::token_text;
pub use token::Delim;
pub use token::Token;
pub use validate::expect_group;
pub use validate::get_next_joint_token;
pub use validate::spec_validate;
pub use validate::validate;
pub use validate::Error;

verus! {

/// The whole predicate: validate the input shape, compare the two operand
/// units, and encode the boolean answer for the continuation.
///
/// On well-shaped input the result is exactly the encoded response built
/// from the continuation token and the comparison outcome; on malformed
/// input the result is the error that `spec_validate` assigns to it, and no
/// output tokens are produced.
pub fn tt_equal(item: Vec<Token>) -> (r: Result<Vec<Token>, Error>)
    ensures
        match r {
            Ok(out) => {
                &&& spec_validate(item@) matches Ok(t)
                &&& encoded_output(out@, t.0, units_match(t.1, t.2))
            },
            Err(e) => spec_validate(item@) == Err::<(Token, Seq<Token>, Seq<Token>), Error>(e),
        },
{
    let (caller, lhs, rhs) = match validate(item) {
        Ok(t) => t,
        Err(e) => {
            return Err(e);
        },
    };
    assert(lhs@.len() > 0);
    assert(rhs@.len() > 0);
    let eq = units_equal(&lhs, &rhs);
    Ok(return_to_tt(caller, eq))
}

} // verus!
