//! The predicate invoked through the full calling convention, on pairs of
//! punctuation operands.

use tt_equal::tt_equal;
use tt_equal::Delim;
use tt_equal::Token;

fn chars(s: &str) -> Vec<char> {
    s.chars().collect()
}

fn ident(s: &str) -> Token {
    Token::Ident { text: chars(s) }
}

fn punct(ch: char, joint: bool) -> Token {
    Token::Punct { ch, joint }
}

fn caller() -> Token {
    Token::group(Delim::Parenthesis, vec![ident("caller")])
}

/// Builds the full request shape `caller input = [ { lhs rhs } ]`.
fn request(lhs: Vec<Token>, rhs: Vec<Token>) -> Vec<Token> {
    let mut payload = lhs;
    payload.extend(rhs);
    vec![
        caller(),
        ident("input"),
        punct('=', false),
        Token::group(
            Delim::Bracket,
            vec![Token::group(Delim::Brace, payload)],
        ),
    ]
}

/// Reads the boolean bound to `is_equal` out of the response tokens.
fn is_equal_answer(out: &[Token]) -> bool {
    let body = match &out[5] {
        Token::Group { tokens, .. } => tokens,
        _ => panic!("response has no body group"),
    };
    let value = match &body[3] {
        Token::Group { tokens, .. } => tokens,
        _ => panic!("response has no value group"),
    };
    let braced = match &value[0] {
        Token::Group { tokens, .. } => tokens,
        _ => panic!("response value has no braces"),
    };
    match &braced[0] {
        Token::Ident { text } => text.iter().collect::<String>() == "true",
        _ => panic!("response holds no boolean literal"),
    }
}

fn invoke(lhs: Vec<Token>, rhs: Vec<Token>) -> bool {
    let out = tt_equal(request(lhs, rhs)).expect("well-formed request");
    is_equal_answer(&out)
}

///
/// Tests that `tt_equal` produces the correct equality result for all invocations.
///
#[test]
fn test_tt_equal_invocations() {
    let colons = invoke(vec![punct(':', false)], vec![punct(':', false)]);
    let colon_equal = invoke(vec![punct(':', false)], vec![punct('=', false)]);
    let double_single_colon = invoke(
        vec![punct(':', true), punct(':', false)],
        vec![punct(':', false)],
    );
    let single_double_colon = invoke(
        vec![punct(':', false)],
        vec![punct(':', true), punct(':', false)],
    );
    let double_double_colon = invoke(
        vec![punct(':', true), punct(':', false)],
        vec![punct(':', true), punct(':', false)],
    );
    let inclusive_range_double_colon = invoke(
        vec![punct('.', true), punct('.', true), punct('=', false)],
        vec![punct(':', true), punct(':', false)],
    );
    assert!(colons);
    assert!(!colon_equal);
    assert!(!double_single_colon);
    assert!(!single_double_colon);
    assert!(double_double_colon);
    assert!(!inclusive_range_double_colon);
}
