//! The token model.
//!
//! A token is an opaque lexical unit: an identifier, a literal, a single
//! punctuation character with a joinedness flag, or a delimited group
//! wrapping an inner token sequence. Every token except a punctuation
//! character carries its textual rendering as data; the host engine that
//! produced the token decides that rendering, and this library only reads
//! and re-emits it.

use crate::text::copy_chars;
use vstd::prelude::*;

verus! {

/// The delimiter kind of a delimited group.
#[derive(Clone, Copy, Debug, PartialEq, Eq, Structural)]
pub enum Delim {
    Parenthesis,
    Bracket,
    Brace,
}

/// One lexical token.
#[derive(Debug)]
pub enum Token {
    /// An identifier, rendered as its carried text.
    Ident { text: Vec<char> },
    /// A literal, rendered as its carried text.
    Literal { text: Vec<char> },
    /// A single punctuation character; `joint` says it is lexically joined
    /// to the following token (no whitespace in between).
    Punct { ch: char, joint: bool },
    /// A delimited group: a delimiter kind, the inner token sequence, and
    /// the group's full textual rendering.
    Group { delim: Delim, tokens: Vec<Token>, text: Vec<char> },
}

impl Token {
    /// The textual rendering of this token.
    pub open spec fn text(self) -> Seq<char> {
        match self {
            Token::Ident { text } => text@,
            Token::Literal { text } => text@,
            Token::Punct { ch, joint: _ } => seq![ch],
            Token::Group { delim: _, tokens: _, text } => text@,
        }
    }
}

/// Whether the token is a punctuation character.
pub open spec fn spec_is_punct(t: Token) -> bool {
    t is Punct
}

/// Whether the token is a punctuation character joined to its successor.
pub open spec fn spec_is_joint(t: Token) -> bool {
    t matches Token::Punct { ch: _, joint: true }
}

/// The opening character of a delimiter.
pub open spec fn open_char(d: Delim) -> char {
    match d {
        Delim::Parenthesis => '(',
        Delim::Bracket => '[',
        Delim::Brace => '{',
    }
}

/// The closing character of a delimiter.
pub open spec fn close_char(d: Delim) -> char {
    match d {
        Delim::Parenthesis => ')',
        Delim::Bracket => ']',
        Delim::Brace => '}',
    }
}

/// The separator the canonical rendering places after a token: nothing
/// after a joined punctuation character, one space otherwise.
pub open spec fn sep_after(t: Token) -> Seq<char> {
    if spec_is_joint(t) {
        Seq::<char>::empty()
    } else {
        seq![' ']
    }
}

/// The canonical rendering of a token sequence: the tokens' own renderings,
/// separated by `sep_after` of the preceding token.
pub open spec fn join_texts(ts: Seq<Token>) -> Seq<char>
    decreases ts.len(),
{
    if ts.len() == 0 {
        Seq::<char>::empty()
    } else if ts.len() == 1 {
        ts[0].text()
    } else {
        join_texts(ts.drop_last()) + sep_after(ts[ts.len() - 2]) + ts.last().text()
    }
}

/// The canonical rendering of a delimited group built by this library:
/// the inner rendering wrapped in the delimiter characters.
pub open spec fn group_text(d: Delim, ts: Seq<Token>) -> Seq<char> {
    seq![open_char(d)] + join_texts(ts) + seq![close_char(d)]
}

/// Returns the textual rendering of a token.
pub fn token_text(t: &Token) -> (r: Vec<char>)
    ensures
        r@ == t.text(),
{
    match t {
        Token::Ident { text } => copy_chars(text),
        Token::Literal { text } => copy_chars(text),
        Token::Punct { ch, joint: _ } => {
            let mut v: Vec<char> = Vec::new();
            v.push(*ch);
            proof {
                assert(v@ =~= seq![*ch]);
            }
            v
        },
        Token::Group { delim: _, tokens: _, text } => copy_chars(text),
    }
}

/// Decides whether the token is a punctuation character.
pub fn is_punct_token(t: &Token) -> (b: bool)
    ensures
        b == spec_is_punct(*t),
{
    match t {
        Token::Punct { ch: _, joint: _ } => true,
        _ => false,
    }
}

/// Decides whether the token is a punctuation character joined to its
/// successor.
pub fn punct_is_joint(t: &Token) -> (b: bool)
    ensures
        b == spec_is_joint(*t),
{
    match t {
        Token::Punct { ch: _, joint } => *joint,
        _ => false,
    }
}

/// Returns the canonical rendering of a group with the given delimiter and
/// inner tokens.
pub fn render_group_text(delim: Delim, tokens: &Vec<Token>) -> (r: Vec<char>)
    ensures
        r@ == group_text(delim, tokens@),
{
    let mut r: Vec<char> = Vec::new();
    let oc = match delim {
        Delim::Parenthesis => '(',
        Delim::Bracket => '[',
        Delim::Brace => '{',
    };
    r.push(oc);
    let mut i: usize = 0;
    while i < tokens.len()
        invariant
            i <= tokens@.len(),
            r@ == seq![open_char(delim)] + join_texts(tokens@.take(i as int)),
        decreases tokens@.len() - i,
    {
        if i > 0 && !punct_is_joint(&tokens[i - 1]) {
            r.push(' ');
        }
        let mut t = token_text(&tokens[i]);
        r.append(&mut t);
        proof {
            let pre = tokens@.take(i as int);
            let cur = tokens@.take(i + 1);
            assert(cur.drop_last() =~= pre);
            assert(cur.last() == tokens@[i as int]);
            if i > 0 {
                assert(cur[cur.len() - 2] == tokens@[i - 1]);
            }
        }
        i = i + 1;
    }
    let cc = match delim {
        Delim::Parenthesis => ')',
        Delim::Bracket => ']',
        Delim::Brace => '}',
    };
    r.push(cc);
    proof {
        assert(tokens@.take(tokens@.len() as int) =~= tokens@);
        assert(r@ =~= seq![open_char(delim)] + join_texts(tokens@) + seq![close_char(delim)]);
    }
    r
}

impl Token {
    /// Builds a delimited group around the given tokens, carrying the
    /// canonical rendering of its contents.
    pub fn group(delim: Delim, tokens: Vec<Token>) -> (t: Token)
        ensures
            t matches Token::Group { delim: d, tokens: ts, text } && d == delim && ts@ == tokens@
                && text@ == group_text(delim, tokens@),
    {
        let text = render_group_text(delim, &tokens);
        Token::Group { delim, tokens, text }
    }
}

} // verus!
