//! A predicate operand that reaches the comparison wrapped by a nested
//! macro arrives as an invisible group, so its rendering carries
//! surrounding spaces ("  some_placeholder  " instead of
//! "some_placeholder"). The trimmed comparison must still recognise it, or
//! a placeholder-replacement macro built on this predicate would never
//! match its own placeholder.

use tt_equal::tt_equal;
use tt_equal::Delim;
use tt_equal::Token;

fn chars(s: &str) -> Vec<char> {
    s.chars().collect()
}

fn ident(s: &str) -> Token {
    Token::Ident { text: chars(s) }
}

fn punct(ch: char, joint: bool) -> Token {
    Token::Punct { ch, joint }
}

fn request(lhs: Vec<Token>, rhs: Vec<Token>) -> Vec<Token> {
    let mut payload = lhs;
    payload.extend(rhs);
    vec![
        Token::group(Delim::Parenthesis, vec![ident("caller")]),
        ident("input"),
        punct('=', false),
        Token::group(
            Delim::Bracket,
            vec![Token::group(Delim::Brace, payload)],
        ),
    ]
}

fn is_equal_answer(out: &[Token]) -> bool {
    let body = match &out[5] {
        Token::Group { tokens, .. } => tokens,
        _ => panic!("response has no body group"),
    };
    let value = match &body[3] {
        Token::Group { tokens, .. } => tokens,
        _ => panic!("response has no value group"),
    };
    let braced = match &value[0] {
        Token::Group { tokens, .. } => tokens,
        _ => panic!("response value has no braces"),
    };
    match &braced[0] {
        Token::Ident { text } => text.iter().collect::<String>() == "true",
        _ => panic!("response holds no boolean literal"),
    }
}

fn invoke(lhs: Vec<Token>, rhs: Vec<Token>) -> bool {
    let out = tt_equal(request(lhs, rhs)).expect("well-formed request");
    is_equal_answer(&out)
}

#[test]
fn test_duplicate() {
    // The placeholder as the comparison sees it: an invisibly grouped
    // token whose rendering keeps the surrounding spaces.
    let padded_placeholder = Token::Literal {
        text: chars("  some_placeholder  "),
    };
    let is_placeholder = invoke(vec![padded_placeholder], vec![ident("some_placeholder")]);
    // A replacement macro substitutes its replacement value exactly where
    // the predicate answers true: once with `true`, once with `false`.
    let bool_for_true = is_placeholder && true;
    let bool_for_false = is_placeholder && false;
    assert!(bool_for_true);
    assert!(!bool_for_false);
}
