//! The result encoder.
//!
//! The boolean answer is serialized into the fixed continuation-passing
//! response shape: the continuation-invocation tokens `tt_call :: tt_return !`
//! followed by one brace-delimited group holding the continuation token and
//! the key/value pair `is_equal = [ { true } ]` (or `false`). Encoding is a
//! pure construction and cannot fail.

use crate::token::group_text;
use crate::token::Delim;
use crate::token::Token;
use vstd::prelude::*;

verus! {

/// The text of the first continuation-invocation identifier.
pub open spec fn tt_call_text() -> Seq<char> {
    seq!['t', 't', '_', 'c', 'a', 'l', 'l']
}

/// The text of the second continuation-invocation identifier.
pub open spec fn tt_return_text() -> Seq<char> {
    seq!['t', 't', '_', 'r', 'e', 't', 'u', 'r', 'n']
}

/// The text of the response key.
pub open spec fn is_equal_text() -> Seq<char> {
    seq!['i', 's', '_', 'e', 'q', 'u', 'a', 'l']
}

/// The textual rendering of the boolean answer.
pub open spec fn bool_text(b: bool) -> Seq<char> {
    if b {
        seq!['t', 'r', 'u', 'e']
    } else {
        seq!['f', 'a', 'l', 's', 'e']
    }
}

/// The token is an identifier with exactly this text.
pub open spec fn is_ident_with(t: Token, s: Seq<char>) -> bool {
    t matches Token::Ident { text } && text@ == s
}

/// The token is the bracket-and-brace wrapping of the boolean answer:
/// `[ { true } ]` or `[ { false } ]`, each group carrying its canonical
/// rendering.
pub open spec fn encoded_value(t: Token, eq: bool) -> bool {
    &&& t matches Token::Group { delim: Delim::Bracket, tokens: bt, text: btext }
    &&& bt@.len() == 1
    &&& encoded_braced_bool(bt@[0], eq)
    &&& btext@ == group_text(Delim::Bracket, bt@)
}

/// The token is the brace-delimited group holding the boolean literal.
pub open spec fn encoded_braced_bool(t: Token, eq: bool) -> bool {
    &&& t matches Token::Group { delim: Delim::Brace, tokens: it, text: itext }
    &&& it@.len() == 1
    &&& is_ident_with(it@[0], bool_text(eq))
    &&& itext@ == group_text(Delim::Brace, it@)
}

/// The contents of the response's outer brace group: the continuation
/// token, then `is_equal = [ { bool } ]`.
pub open spec fn encoded_body(ts: Seq<Token>, caller: Token, eq: bool) -> bool {
    &&& ts.len() == 4
    &&& ts[0] == caller
    &&& is_ident_with(ts[1], is_equal_text())
    &&& ts[2] == (Token::Punct { ch: '=', joint: false })
    &&& encoded_value(ts[3], eq)
}

/// The whole output token sequence: `tt_call :: tt_return !` followed by
/// the brace-delimited response body, with the continuation token forwarded
/// verbatim and the boolean answer bound to `is_equal`.
pub open spec fn encoded_output(out: Seq<Token>, caller: Token, eq: bool) -> bool {
    &&& out.len() == 6
    &&& is_ident_with(out[0], tt_call_text())
    &&& out[1] == (Token::Punct { ch: ':', joint: true })
    &&& out[2] == (Token::Punct { ch: ':', joint: false })
    &&& is_ident_with(out[3], tt_return_text())
    &&& out[4] == (Token::Punct { ch: '!', joint: false })
    &&& out[5] matches Token::Group { delim: Delim::Brace, tokens: body, text: gtext }
    &&& encoded_body(body@, caller, eq)
    &&& gtext@ == group_text(Delim::Brace, body@)
}

fn tt_call_chars() -> (v: Vec<char>)
    ensures
        v@ == tt_call_text(),
{
    let mut v: Vec<char> = Vec::new();
    v.push('t');
    v.push('t');
    v.push('_');
    v.push('c');
    v.push('a');
    v.push('l');
    v.push('l');
    proof {
        assert(v@ =~= tt_call_text());
    }
    v
}

fn tt_return_chars() -> (v: Vec<char>)
    ensures
        v@ == tt_return_text(),
{
    let mut v: Vec<char> = Vec::new();
    v.push('t');
    v.push('t');
    v.push('_');
    v.push('r');
    v.push('e');
    v.push('t');
    v.push('u');
    v.push('r');
    v.push('n');
    proof {
        assert(v@ =~= tt_return_text());
    }
    v
}

fn is_equal_chars() -> (v: Vec<char>)
    ensures
        v@ == is_equal_text(),
{
    let mut v: Vec<char> = Vec::new();
    v.push('i');
    v.push('s');
    v.push('_');
    v.push('e');
    v.push('q');
    v.push('u');
    v.push('a');
    v.push('l');
    proof {
        assert(v@ =~= is_equal_text());
    }
    v
}

fn bool_chars(b: bool) -> (v: Vec<char>)
    ensures
        v@ == bool_text(b),
{
    let mut v: Vec<char> = Vec::new();
    if b {
        v.push('t');
        v.push('r');
        v.push('u');
        v.push('e');
    } else {
        v.push('f');
        v.push('a');
        v.push('l');
        v.push('s');
        v.push('e');
    }
    proof {
        assert(v@ =~= bool_text(b));
    }
    v
}

/// Constructs the response token sequence for the given continuation token
/// and boolean answer.
pub fn return_to_tt(caller: Token, b: bool) -> (r: Vec<Token>)
    ensures
        encoded_output(r@, caller, b),
{
    let mut braced_bool: Vec<Token> = Vec::new();
    braced_bool.push(Token::Ident { text: bool_chars(b) });
    let braced_bool_group = Token::group(Delim::Brace, braced_bool);
    let mut value_tokens: Vec<Token> = Vec::new();
    value_tokens.push(braced_bool_group);
    let value_group = Token::group(Delim::Bracket, value_tokens);
    let mut body: Vec<Token> = Vec::new();
    body.push(caller);
    body.push(Token::Ident { text: is_equal_chars() });
    body.push(Token::Punct { ch: '=', joint: false });
    body.push(value_group);
    let body_group = Token::group(Delim::Brace, body);
    let mut out: Vec<Token> = Vec::new();
    out.push(Token::Ident { text: tt_call_chars() });
    out.push(Token::Punct { ch: ':', joint: true });
    out.push(Token::Punct { ch: ':', joint: false });
    out.push(Token::Ident { text: tt_return_chars() });
    out.push(Token::Punct { ch: '!', joint: false });
    out.push(body_group);
    out
}

} // verus!
