//! Scenario tests: equality outcomes, whitespace handling, group operands,
//! every validation error, and the exact response shape.

use tt_equal::return_to_tt;
use tt_equal::tt_equal;
use tt_equal::validate;
use tt_equal::Delim;
use tt_equal::Error;
use tt_equal::Token;

fn chars(s: &str) -> Vec<char> {
    s.chars().collect()
}

fn ident(s: &str) -> Token {
    Token::Ident { text: chars(s) }
}

fn punct(ch: char, joint: bool) -> Token {
    Token::Punct { ch, joint }
}

fn caller() -> Token {
    Token::group(Delim::Parenthesis, vec![ident("caller")])
}

fn request(lhs: Vec<Token>, rhs: Vec<Token>) -> Vec<Token> {
    let mut payload = lhs;
    payload.extend(rhs);
    request_with_payload(payload)
}

fn request_with_payload(payload: Vec<Token>) -> Vec<Token> {
    vec![
        caller(),
        ident("input"),
        punct('=', false),
        Token::group(
            Delim::Bracket,
            vec![Token::group(Delim::Brace, payload)],
        ),
    ]
}

fn is_equal_answer(out: &[Token]) -> bool {
    let body = match &out[5] {
        Token::Group { tokens, .. } => tokens,
        _ => panic!("response has no body group"),
    };
    let value = match &body[3] {
        Token::Group { tokens, .. } => tokens,
        _ => panic!("response has no value group"),
    };
    let braced = match &value[0] {
        Token::Group { tokens, .. } => tokens,
        _ => panic!("response value has no braces"),
    };
    match &braced[0] {
        Token::Ident { text } => text.iter().collect::<String>() == "true",
        _ => panic!("response holds no boolean literal"),
    }
}

fn invoke(lhs: Vec<Token>, rhs: Vec<Token>) -> bool {
    let out = tt_equal(request(lhs, rhs)).expect("well-formed request");
    is_equal_answer(&out)
}

fn text_of(t: &Token) -> String {
    match t {
        Token::Ident { text } => text.iter().collect(),
        Token::Literal { text } => text.iter().collect(),
        Token::Punct { ch, .. } => ch.to_string(),
        Token::Group { text, .. } => text.iter().collect(),
    }
}

#[test]
fn comparing_a_unit_against_itself_yields_true() {
    assert!(invoke(vec![ident("same_ident")], vec![ident("same_ident")]));
    assert!(invoke(
        vec![punct('.', true), punct('.', true), punct('=', false)],
        vec![punct('.', true), punct('.', true), punct('=', false)],
    ));
}

#[test]
fn comparison_is_symmetric() {
    let a = || vec![punct(':', true), punct(':', false)];
    let b = || vec![punct('.', true), punct('.', true), punct('=', false)];
    assert_eq!(invoke(a(), b()), invoke(b(), a()));
    assert_eq!(invoke(a(), a()), invoke(a(), a()));
}

#[test]
fn differing_token_counts_yield_false() {
    assert!(!invoke(
        vec![punct(':', true), punct(':', false)],
        vec![punct(':', false)],
    ));
    assert!(!invoke(
        vec![punct('.', true), punct('.', true), punct('=', false)],
        vec![punct(':', true), punct(':', false)],
    ));
}

#[test]
fn joint_runs_compare_as_one_operator() {
    // Same three-character operator, lexed as three joined marks.
    assert!(invoke(
        vec![punct('.', true), punct('.', true), punct('=', false)],
        vec![punct('.', true), punct('.', true), punct('=', false)],
    ));
    // Same length, different operator.
    assert!(!invoke(
        vec![punct(':', true), punct(':', false)],
        vec![punct(':', true), punct('=', false)],
    ));
    // The joinedness flag itself does not take part in the comparison of
    // the characters.
    assert!(invoke(vec![punct('+', false)], vec![punct('+', false)]));
}

#[test]
fn whitespace_only_differences_do_not_affect_equality() {
    assert!(invoke(
        vec![Token::Literal { text: chars("  padded  ") }],
        vec![ident("padded")],
    ));
    assert!(invoke(
        vec![Token::Ident { text: chars("\tname\n") }],
        vec![Token::Ident { text: chars(" name ") }],
    ));
    assert!(!invoke(
        vec![Token::Ident { text: chars(" inner gap ") }],
        vec![Token::Ident { text: chars("inner  gap") }],
    ));
}

#[test]
fn group_operands_compare_by_rendering() {
    let two = || {
        Token::group(
            Delim::Parenthesis,
            vec![ident("Two"), ident("tokens")],
        )
    };
    let three = || {
        Token::group(
            Delim::Parenthesis,
            vec![ident("Three"), ident("tokens"), ident("here")],
        )
    };
    assert!(invoke(vec![two()], vec![two()]));
    assert!(!invoke(vec![two()], vec![three()]));
}

#[test]
fn joint_punctuation_stops_at_stream_end_or_non_punctuation() {
    // A run whose last mark claims a successor that is not punctuation:
    // the run ends before the identifier, giving two units.
    assert!(!invoke(vec![punct('\'', true)], vec![ident("a")]));
    // A trailing joined mark at stream end leaves only one unit in the
    // payload.
    let r = tt_equal(request_with_payload(vec![punct(':', true)]));
    assert!(matches!(r, Err(Error::MissingRightOperand)));
}

#[test]
fn missing_or_wrong_key_fails_without_output() {
    let r = tt_equal(vec![caller()]);
    assert!(matches!(r, Err(Error::MissingKey)));
    let r = tt_equal(vec![
        caller(),
        ident("output"),
        punct('=', false),
        Token::group(
            Delim::Bracket,
            vec![Token::group(Delim::Brace, vec![ident("a"), ident("b")])],
        ),
    ]);
    assert!(matches!(r, Err(Error::UnexpectedKey)));
}

#[test]
fn every_malformed_shape_reports_its_own_error() {
    assert!(matches!(
        tt_equal(vec![]),
        Err(Error::MissingContinuation)
    ));
    assert!(matches!(
        tt_equal(vec![caller(), ident("input")]),
        Err(Error::MissingSeparator)
    ));
    assert!(matches!(
        tt_equal(vec![caller(), ident("input"), punct(':', false), ident("x")]),
        Err(Error::UnexpectedSeparator)
    ));
    assert!(matches!(
        tt_equal(vec![caller(), ident("input"), punct('=', false)]),
        Err(Error::MissingValue)
    ));
    assert!(matches!(
        tt_equal(vec![
            caller(),
            ident("input"),
            punct('=', false),
            ident("x"),
            ident("extra"),
        ]),
        Err(Error::TrailingInput)
    ));
    // The value is not a group at all.
    assert!(matches!(
        tt_equal(vec![caller(), ident("input"), punct('=', false), ident("x")]),
        Err(Error::WrongDelimiter)
    ));
    // The value is a group of the wrong delimiter kind.
    assert!(matches!(
        tt_equal(vec![
            caller(),
            ident("input"),
            punct('=', false),
            Token::group(Delim::Parenthesis, vec![]),
        ]),
        Err(Error::WrongDelimiter)
    ));
    // The bracket group is empty.
    assert!(matches!(
        tt_equal(vec![
            caller(),
            ident("input"),
            punct('=', false),
            Token::group(Delim::Bracket, vec![]),
        ]),
        Err(Error::MissingPayload)
    ));
    // The bracket group holds more than the one brace group.
    assert!(matches!(
        tt_equal(vec![
            caller(),
            ident("input"),
            punct('=', false),
            Token::group(
                Delim::Bracket,
                vec![
                    Token::group(Delim::Brace, vec![ident("a"), ident("b")]),
                    ident("extra"),
                ],
            ),
        ]),
        Err(Error::TrailingInput)
    ));
    // The bracket group holds something other than a brace group.
    assert!(matches!(
        tt_equal(vec![
            caller(),
            ident("input"),
            punct('=', false),
            Token::group(Delim::Bracket, vec![ident("x")]),
        ]),
        Err(Error::WrongDelimiter)
    ));
    // The payload has no operand.
    assert!(matches!(
        tt_equal(request_with_payload(vec![])),
        Err(Error::MissingLeftOperand)
    ));
    // The payload has only one operand.
    assert!(matches!(
        tt_equal(request_with_payload(vec![ident("only")])),
        Err(Error::MissingRightOperand)
    ));
    // The payload has a third operand.
    assert!(matches!(
        tt_equal(request_with_payload(vec![
            ident("a"),
            ident("b"),
            ident("c"),
        ])),
        Err(Error::TrailingInput)
    ));
}

#[test]
fn validate_hands_back_continuation_and_units() {
    let (cont, lhs, rhs) = validate(request(
        vec![punct(':', true), punct(':', false)],
        vec![ident("x")],
    ))
    .expect("well-formed request");
    assert_eq!(text_of(&cont), "(caller)");
    assert_eq!(lhs.len(), 2);
    assert_eq!(text_of(&lhs[0]), ":");
    assert_eq!(text_of(&lhs[1]), ":");
    assert_eq!(rhs.len(), 1);
    assert_eq!(text_of(&rhs[0]), "x");
}

#[test]
fn response_has_the_fixed_continuation_shape() {
    let out = return_to_tt(caller(), true);
    assert_eq!(out.len(), 6);
    assert_eq!(text_of(&out[0]), "tt_call");
    assert!(matches!(out[1], Token::Punct { ch: ':', joint: true }));
    assert!(matches!(out[2], Token::Punct { ch: ':', joint: false }));
    assert_eq!(text_of(&out[3]), "tt_return");
    assert!(matches!(out[4], Token::Punct { ch: '!', joint: false }));
    let body = match &out[5] {
        Token::Group { delim: Delim::Brace, tokens, .. } => tokens,
        _ => panic!("response has no brace-delimited body"),
    };
    assert_eq!(body.len(), 4);
    assert_eq!(text_of(&body[0]), "(caller)");
    assert_eq!(text_of(&body[1]), "is_equal");
    assert!(matches!(body[2], Token::Punct { ch: '=', joint: false }));
    assert_eq!(text_of(&body[3]), "[{true}]");
    let out_false = return_to_tt(caller(), false);
    let body_false = match &out_false[5] {
        Token::Group { tokens, .. } => tokens,
        _ => panic!("response has no body group"),
    };
    assert_eq!(text_of(&body_false[3]), "[{false}]");
}
