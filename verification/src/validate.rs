//! The input validator.
//!
//! The raw input must be exactly: a continuation token, the key `input`, a
//! `=` separator, and a bracket-delimited value holding one brace-delimited
//! payload of exactly two operand units. Validation is fail-fast and every
//! way a malformed input can be rejected has its own error.

use crate::text::chars_equal;
use crate::text::trim_chars;
use crate::text::trimmed;
use crate::token::is_punct_token;
use crate::token::punct_is_joint;
use crate::token::spec_is_joint;
use crate::token::spec_is_punct;
use crate::token::token_text;
use crate::token::Delim;
use crate::token::Token;
use vstd::prelude::*;

verus! {

/// Everything that can be wrong with the input shape. Validation never
/// recovers: the first violated expectation is reported.
#[derive(Clone, Copy, Debug, PartialEq, Eq, Structural)]
pub enum Error {
    /// The input was empty: no continuation token.
    MissingContinuation,
    /// Nothing followed the continuation token.
    MissingKey,
    /// The key token's trimmed text was not `input`.
    UnexpectedKey,
    /// Nothing followed the key.
    MissingSeparator,
    /// The separator token's text was not `=`.
    UnexpectedSeparator,
    /// Nothing followed the separator.
    MissingValue,
    /// Tokens were left over where the shape allows none.
    TrailingInput,
    /// A delimited group was expected and something else stood there, or
    /// its delimiter was of the wrong kind.
    WrongDelimiter,
    /// The bracket-delimited value was empty.
    MissingPayload,
    /// The payload held no operand unit.
    MissingLeftOperand,
    /// The payload held only one operand unit.
    MissingRightOperand,
}

/// The required key text.
pub open spec fn key_input() -> Seq<char> {
    seq!['i', 'n', 'p', 'u', 't']
}

/// The required separator text.
pub open spec fn eq_sign() -> Seq<char> {
    seq!['=']
}

/// The length of the joint punctuation run that starts the sequence: the
/// run keeps extending while the token taken last is joined to its
/// successor and that successor is itself punctuation.
pub open spec fn run_len(s: Seq<Token>) -> int
    recommends
        s.len() > 0,
        spec_is_punct(s[0]),
    decreases s.len(),
{
    if spec_is_joint(s[0]) && s.len() > 1 && spec_is_punct(s[1]) {
        1 + run_len(s.drop_first())
    } else {
        1
    }
}

/// The length of the first logical operand unit of the sequence: a joint
/// punctuation run when the sequence starts with punctuation, one token
/// otherwise.
pub open spec fn unit_len(s: Seq<Token>) -> int
    recommends
        s.len() > 0,
{
    if spec_is_punct(s[0]) {
        run_len(s)
    } else {
        1
    }
}

proof fn lemma_run_len_bounds(s: Seq<Token>)
    requires
        s.len() > 0,
    ensures
        1 <= run_len(s) <= s.len(),
    decreases s.len(),
{
    if spec_is_joint(s[0]) && s.len() > 1 && spec_is_punct(s[1]) {
        lemma_run_len_bounds(s.drop_first());
    }
}

/// A unit taken from a non-empty sequence holds at least one token and at
/// most all of them.
pub proof fn lemma_unit_len_bounds(s: Seq<Token>)
    requires
        s.len() > 0,
    ensures
        1 <= unit_len(s) <= s.len(),
{
    if spec_is_punct(s[0]) {
        lemma_run_len_bounds(s);
    }
}

/// What extracting the two operand units from the payload sequence gives:
/// the units in order, or the first missing piece.
pub open spec fn spec_extract_operands(caller: Token, payload: Seq<Token>) -> Result<
    (Token, Seq<Token>, Seq<Token>),
    Error,
> {
    if payload.len() == 0 {
        Err(Error::MissingLeftOperand)
    } else {
        let l = unit_len(payload);
        let rest = payload.skip(l);
        if rest.len() == 0 {
            Err(Error::MissingRightOperand)
        } else {
            let r = unit_len(rest);
            if rest.len() > r {
                Err(Error::TrailingInput)
            } else {
                Ok((caller, payload.take(l), rest.take(r)))
            }
        }
    }
}

/// What unwrapping the value token gives: the value must be a bracket
/// group holding exactly one brace group, whose contents are the payload.
pub open spec fn spec_unwrap_value(caller: Token, value: Token) -> Result<
    (Token, Seq<Token>, Seq<Token>),
    Error,
> {
    match value {
        Token::Group { delim: Delim::Bracket, tokens: bt, text: _ } => {
            if bt@.len() == 0 {
                Err(Error::MissingPayload)
            } else if bt@.len() > 1 {
                Err(Error::TrailingInput)
            } else {
                match bt@[0] {
                    Token::Group { delim: Delim::Brace, tokens: pt, text: _ } => {
                        spec_extract_operands(caller, pt@)
                    },
                    _ => Err(Error::WrongDelimiter),
                }
            }
        },
        _ => Err(Error::WrongDelimiter),
    }
}

/// What validation of the whole input gives: the continuation token and
/// the two operand units, or the error for the first violated expectation.
pub open spec fn spec_validate(item: Seq<Token>) -> Result<
    (Token, Seq<Token>, Seq<Token>),
    Error,
> {
    if item.len() == 0 {
        Err(Error::MissingContinuation)
    } else if item.len() == 1 {
        Err(Error::MissingKey)
    } else if trimmed(item[1].text()) != key_input() {
        Err(Error::UnexpectedKey)
    } else if item.len() == 2 {
        Err(Error::MissingSeparator)
    } else if item[2].text() != eq_sign() {
        Err(Error::UnexpectedSeparator)
    } else if item.len() == 3 {
        Err(Error::MissingValue)
    } else if item.len() > 4 {
        Err(Error::TrailingInput)
    } else {
        spec_unwrap_value(item[0], item[3])
    }
}

fn key_input_chars() -> (v: Vec<char>)
    ensures
        v@ == key_input(),
{
    let mut v: Vec<char> = Vec::new();
    v.push('i');
    v.push('n');
    v.push('p');
    v.push('u');
    v.push('t');
    proof {
        assert(v@ =~= key_input());
    }
    v
}

fn eq_sign_chars() -> (v: Vec<char>)
    ensures
        v@ == eq_sign(),
{
    let mut v: Vec<char> = Vec::new();
    v.push('=');
    proof {
        assert(v@ =~= eq_sign());
    }
    v
}

/// Unwraps a delimited group token, checking its delimiter kind, and
/// returns its contents.
pub fn expect_group(tt: Token, expected_delimiter: Delim) -> (r: Result<Vec<Token>, Error>)
    ensures
        match r {
            Ok(v) => tt matches Token::Group { delim, tokens, text: _ } && delim
                == expected_delimiter && v@ == tokens@,
            Err(e) => {
                &&& e == Error::WrongDelimiter
                &&& !(tt matches Token::Group { delim, tokens: _, text: _ } && delim
                    == expected_delimiter)
            },
        },
{
    match tt {
        Token::Group { delim, tokens, text: _ } => {
            if delim == expected_delimiter {
                Ok(tokens)
            } else {
                Err(Error::WrongDelimiter)
            }
        },
        _ => Err(Error::WrongDelimiter),
    }
}

/// Pops the next logical operand unit from the front of the stream.
///
/// A non-punctuation token is a unit by itself. A punctuation token opens
/// a joint run: tokens keep being popped while the token popped last is
/// joined to its successor and that successor is punctuation; the run
/// stops at the first token that is not joined, or at stream end.
pub fn get_next_joint_token(stream: &mut Vec<Token>) -> (r: Option<Vec<Token>>)
    ensures
        old(stream)@.len() == 0 ==> r is None && final(stream)@ == old(stream)@,
        old(stream)@.len() > 0 ==> ({
            let ul = unit_len(old(stream)@);
            &&& r matches Some(v)
            &&& v@ == old(stream)@.take(ul)
            &&& final(stream)@ == old(stream)@.skip(ul)
        }),
{
    let ghost orig = stream@;
    if stream.len() == 0 {
        return None;
    }
    let first = stream.remove(0);
    proof {
        assert(orig.remove(0) =~= orig.skip(1));
    }
    let first_is_punct = is_punct_token(&first);
    let mut tokens: Vec<Token> = Vec::new();
    tokens.push(first);
    if !first_is_punct {
        proof {
            assert(unit_len(orig) == 1);
            assert(tokens@ =~= orig.take(1));
        }
        return Some(tokens);
    }
    proof {
        assert(orig.skip(0) =~= orig);
        assert(tokens@ =~= orig.take(1));
    }
    while punct_is_joint(&tokens[tokens.len() - 1]) && stream.len() > 0 && is_punct_token(
        &stream[0],
    )
        invariant
            1 <= tokens@.len() <= orig.len(),
            tokens@ == orig.take(tokens@.len() as int),
            stream@ == orig.skip(tokens@.len() as int),
            spec_is_punct(orig[0]),
            run_len(orig) == tokens@.len() - 1 + run_len(orig.skip(tokens@.len() - 1)),
        decreases orig.len() - tokens@.len(),
    {
        let ghost k = tokens@.len() as int;
        proof {
            assert(tokens@[k - 1] == orig[k - 1]);
            assert(stream@[0] == orig[k as int]);
            let suf = orig.skip(k - 1);
            assert(suf[0] == orig[k - 1]);
            assert(suf[1] == orig[k as int]);
            assert(run_len(suf) == 1 + run_len(suf.drop_first()));
            assert(suf.drop_first() =~= orig.skip(k));
        }
        let nxt = stream.remove(0);
        tokens.push(nxt);
        proof {
            assert(stream@ =~= orig.skip(k + 1));
            assert(tokens@ =~= orig.take(k + 1));
        }
    }
    proof {
        let k = tokens@.len() as int;
        let suf = orig.skip(k - 1);
        assert(suf[0] == orig[k - 1]);
        assert(tokens@[k - 1] == orig[k - 1]);
        if k < orig.len() {
            assert(suf[1] == orig[k as int]);
            assert(stream@[0] == orig[k as int]);
        }
        assert(run_len(suf) == 1);
        assert(unit_len(orig) == k);
    }
    Some(tokens)
}

/// Destructures the raw input into the continuation token and the two
/// operand units, enforcing the exact calling-convention shape; the result
/// is exactly what `spec_validate` assigns to the input. Both returned
/// units are non-empty.
pub fn validate(item: Vec<Token>) -> (r: Result<(Token, Vec<Token>, Vec<Token>), Error>)
    ensures
        match r {
            Ok((c, l, rr)) => {
                &&& spec_validate(item@) matches Ok(t) && t.0 == c && t.1 == l@ && t.2 == rr@
                &&& l@.len() > 0
                &&& rr@.len() > 0
            },
            Err(e) => spec_validate(item@) == Err::<(Token, Seq<Token>, Seq<Token>), Error>(e),
        },
{
    let ghost orig = item@;
    let mut item = item;
    if item.len() == 0 {
        return Err(Error::MissingContinuation);
    }
    let caller = item.remove(0);
    proof {
        assert(caller == orig[0]);
        assert(item@ =~= orig.skip(1));
    }
    if item.len() == 0 {
        return Err(Error::MissingKey);
    }
    let key = item.remove(0);
    proof {
        assert(key == orig[1]);
        assert(item@ =~= orig.skip(2));
    }
    let key_text = token_text(&key);
    let key_trim = trim_chars(&key_text);
    let expected_key = key_input_chars();
    if !chars_equal(&key_trim, &expected_key) {
        return Err(Error::UnexpectedKey);
    }
    if item.len() == 0 {
        return Err(Error::MissingSeparator);
    }
    let sep = item.remove(0);
    proof {
        assert(sep == orig[2]);
        assert(item@ =~= orig.skip(3));
    }
    let sep_text = token_text(&sep);
    let expected_sep = eq_sign_chars();
    if !chars_equal(&sep_text, &expected_sep) {
        return Err(Error::UnexpectedSeparator);
    }
    if item.len() == 0 {
        return Err(Error::MissingValue);
    }
    let value = item.remove(0);
    proof {
        assert(value == orig[3]);
        assert(item@ =~= orig.skip(4));
    }
    if item.len() > 0 {
        return Err(Error::TrailingInput);
    }
    proof {
        assert(orig.len() == 4);
    }
    let mut bracket_contents = match expect_group(value, Delim::Bracket) {
        Ok(v) => v,
        Err(e) => {
            return Err(e);
        },
    };
    if bracket_contents.len() == 0 {
        return Err(Error::MissingPayload);
    }
    if bracket_contents.len() > 1 {
        return Err(Error::TrailingInput);
    }
    let ghost bts = bracket_contents@;
    let braced = bracket_contents.remove(0);
    proof {
        assert(braced == bts[0]);
    }
    let payload = match expect_group(braced, Delim::Brace) {
        Ok(v) => v,
        Err(e) => {
            return Err(e);
        },
    };
    let mut payload = payload;
    let ghost p0 = payload@;
    let lhs = match get_next_joint_token(&mut payload) {
        Some(v) => v,
        None => {
            return Err(Error::MissingLeftOperand);
        },
    };
    proof {
        if p0.len() > 0 {
            lemma_unit_len_bounds(p0);
        }
    }
    let ghost rest = p0.skip(unit_len(p0));
    let rhs = match get_next_joint_token(&mut payload) {
        Some(v) => v,
        None => {
            return Err(Error::MissingRightOperand);
        },
    };
    proof {
        lemma_unit_len_bounds(rest);
    }
    if payload.len() > 0 {
        return Err(Error::TrailingInput);
    }
    proof {
        assert(rest.len() <= unit_len(rest));
        lemma_unit_len_bounds(rest);
    }
    Ok((caller, lhs, rhs))
}

} // verus!
