//! Token trees as plain values: what a lexer hands to the attribute parser.

use vstd::prelude::*;

verus! {

/// The delimiter of a group of tokens.
#[derive(Clone, Copy, Debug, PartialEq, Eq, Structural)]
pub enum Delimiter {
    /// `( ... )`
    Parenthesis,
    /// `{ ... }`
    Brace,
    /// `[ ... ]`
    Bracket,
    /// An invisible delimiter.
    Invisible,
}

/// Whether a punctuation character is followed at once by another one.
#[derive(Clone, Copy, Debug, PartialEq, Eq, Structural)]
pub enum Spacing {
    Alone,
    Joint,
}

/// One token tree: a delimited group or a single token.
#[derive(Debug, PartialEq, Eq)]
pub enum TokenTree {
    Group(Delimiter, Vec<TokenTree>),
    Ident(String),
    Punct(char, Spacing),
    Literal(String),
}

/// `t` is the punctuation character `c`, with any spacing.
pub open spec fn is_punct(t: TokenTree, c: char) -> bool {
    t matches TokenTree::Punct(ch, _) && ch == c
}

/// `t` is the punctuation character `c` joined to the character after it.
pub open spec fn is_joint_punct(t: TokenTree, c: char) -> bool {
    t matches TokenTree::Punct(ch, sp) && ch == c && sp == Spacing::Joint
}

/// `t` is a group in square brackets.
pub open spec fn is_bracket_group(t: TokenTree) -> bool {
    t matches TokenTree::Group(d, _) && d == Delimiter::Bracket
}

/// The tokens inside a group.
pub open spec fn group_body(t: TokenTree) -> Seq<TokenTree> {
    match t {
        TokenTree::Group(_, v) => v@,
        _ => Seq::empty(),
    }
}

/// The tokens of `s` start at `i` with a `::` separator: a `:` joined to
/// a second `:`.
pub open spec fn path_sep_at(s: Seq<TokenTree>, i: int) -> bool {
    &&& 0 <= i
    &&& i + 1 < s.len()
    &&& is_joint_punct(s[i], ':')
    &&& is_punct(s[i + 1], ':')
}

/// Tells whether `t` is the punctuation character `c`.
pub fn token_is_punct(t: &TokenTree, c: char) -> (r: bool)
    ensures
        r == is_punct(*t, c),
{
    match t {
        TokenTree::Punct(ch, _) => *ch == c,
        _ => false,
    }
}

/// Tells whether `t` is the punctuation character `c` with joint spacing.
pub fn token_is_joint_punct(t: &TokenTree, c: char) -> (r: bool)
    ensures
        r == is_joint_punct(*t, c),
{
    match t {
        TokenTree::Punct(ch, sp) => *ch == c && *sp == Spacing::Joint,
        _ => false,
    }
}

/// Tells whether `s` holds a `::` separator at `i`.
pub fn has_path_sep_at(s: &[TokenTree], i: usize) -> (r: bool)
    ensures
        r == path_sep_at(s@, i as int),
{
    i < s.len() && s.len() - i >= 2 && token_is_joint_punct(&s[i], ':') && token_is_punct(
        &s[i + 1],
        ':',
    )
}

} // verus!
