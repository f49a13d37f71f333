//! The compatible shape of an outer attribute: a general attribute record,
//! with a style field fixed to outer and a path read with syn's general path
//! grammar, which admits generic arguments.

use vstd::prelude::*;
use crate::cursor::{Bracket, Error, ErrorKind, Pound, TokenCursor, pound_tree};
use crate::text::{text_of, text_of_prefix};
use crate::token::{Delimiter, TokenTree, is_bracket_group, is_punct, group_body};

verus! {

/// Whether syn reads the whole text as a path, generic arguments allowed.
pub uninterp spec fn general_path_text(s: Seq<char>) -> bool;

/// Relies on `syn::parse_str::<syn::Path>`: whether the text is one path, in
/// syn's general grammar, and nothing more.
#[verifier::external_body]
fn is_general_path_text(s: &str) -> (r: bool)
    ensures
        r == general_path_text(s@),
{
    syn::parse_str::<syn::Path>(s).is_ok()
}

/// Whether an attribute is bound to the item after it or to the one around it.
#[derive(Clone, Copy, Debug, PartialEq, Eq, Structural)]
pub enum AttrStyle {
    /// `#[...]`
    Outer,
    /// `#![...]`
    Inner,
}

/// A general attribute record.
#[derive(Debug, PartialEq, Eq)]
pub struct Attribute {
    pub pound_token: Pound,
    pub style: AttrStyle,
    pub bracket_token: Bracket,
    /// The tokens of the path, read with the general path grammar.
    pub path: Vec<TokenTree>,
    /// What follows the path inside the brackets, untouched.
    pub tokens: Vec<TokenTree>,
}

/// An outer attribute in the compatible shape.
#[derive(Debug, PartialEq, Eq)]
pub struct OuterAttribute(pub Attribute);

/// Where the general path at the front of `body` ends: the longest prefix of
/// at most `k` token trees, and of at least one, whose text the general
/// grammar reads whole.
pub open spec fn longest_path_within(body: Seq<TokenTree>, k: int) -> Result<int, ErrorKind>
    decreases k,
{
    if k <= 0 {
        Err(ErrorKind::ExpectedPath)
    } else if general_path_text(text_of(body.take(k))) {
        Ok(k)
    } else {
        longest_path_within(body, k - 1)
    }
}

/// Where the general path at the front of `body` ends, or why there is none.
pub open spec fn general_path_end(body: Seq<TokenTree>) -> Result<int, ErrorKind> {
    longest_path_within(body, body.len() as int)
}

/// `a` is what the front of `s` reads as.
pub open spec fn reads_as(s: Seq<TokenTree>, a: OuterAttribute) -> bool {
    &&& s.len() >= 2
    &&& s[0] == pound_tree(a.0.pound_token)
    &&& a.0.style == AttrStyle::Outer
    &&& is_bracket_group(s[1])
    &&& group_body(s[1]) == a.0.path@ + a.0.tokens@
    &&& general_path_end(group_body(s[1])) == Ok::<int, ErrorKind>(a.0.path@.len() as int)
}

/// The error that reading an attribute from the front of `s` meets, where
/// `pos` is the index of `s[0]`; `None` where it succeeds.
pub open spec fn parse_error(s: Seq<TokenTree>, pos: int) -> Option<(ErrorKind, int)> {
    if s.len() == 0 || !is_punct(s[0], '#') {
        Some((ErrorKind::ExpectedPound, pos))
    } else if s.len() < 2 || !is_bracket_group(s[1]) {
        Some((ErrorKind::ExpectedBracket, pos + 1))
    } else {
        match general_path_end(group_body(s[1])) {
            Err(k) => Some((k, pos + 1)),
            Ok(_) => None,
        }
    }
}

/// Reads a general path from the front of `body`, and hands back its
/// tokens and the tokens that follow it.
pub fn split_general_path(body: Vec<TokenTree>) -> (r: Result<(Vec<TokenTree>, Vec<TokenTree>), ErrorKind>)
    ensures
        match r {
            Ok((path, rest)) => {
                &&& body@ == path@ + rest@
                &&& general_path_end(body@) == Ok::<int, ErrorKind>(path@.len() as int)
            },
            Err(e) => {
                &&& general_path_end(body@) == Err::<int, ErrorKind>(e)
                &&& e == ErrorKind::ExpectedPath
            },
        },
{
    let mut k: usize = body.len();
    while k > 0
        invariant
            k <= body@.len(),
            general_path_end(body@) == longest_path_within(body@, k as int),
        decreases k,
    {
        let text = text_of_prefix(body.as_slice(), k);
        if is_general_path_text(text.as_str()) {
            let mut path = body;
            let rest = path.split_off(k);
            assert(body@ =~= path@ + rest@);
            return Ok((path, rest));
        }
        k = k - 1;
    }
    Err(ErrorKind::ExpectedPath)
}

impl OuterAttribute {
    /// Reads an outer attribute that makes up the whole of `tokens`; tokens
    /// left over after it are an error.
    pub fn parse_all(tokens: Vec<TokenTree>) -> (r: Result<OuterAttribute, Error>)
        ensures
            match parse_error(tokens@, 0) {
                Some((kind, pos)) => r == Err::<OuterAttribute, Error>(
                    Error { kind, position: pos as usize },
                ),
                None => if tokens@.len() > 2 {
                    r == Err::<OuterAttribute, Error>(
                        Error { kind: ErrorKind::UnexpectedToken, position: 2 },
                    )
                } else {
                    r is Ok
                },
            },
            match r {
                Ok(a) => reads_as(tokens@, a) && tokens@.len() == 2,
                Err(_) => true,
            },
    {
        let mut input = TokenCursor::new(tokens);
        let a = match OuterAttribute::parse(&mut input) {
            Ok(a) => a,
            Err(e) => return Err(e),
        };
        if !input.is_empty() {
            return Err(Error { kind: ErrorKind::UnexpectedToken, position: input.position });
        }
        Ok(a)
    }

    /// The token trees that the attribute is written with: the marker and
    /// one bracket group holding the path and the argument tokens.
    pub fn into_tokens(self) -> (r: Vec<TokenTree>)
        ensures
            written_as(self, r@),
    {
        let mut body = self.0.path;
        let mut tokens = self.0.tokens;
        body.append(&mut tokens);
        let mut r: Vec<TokenTree> = Vec::new();
        r.push(TokenTree::Punct('#', self.0.pound_token.spacing));
        r.push(TokenTree::Group(Delimiter::Bracket, body));
        r
    }

    /// Reads an outer attribute from the front of the cursor: the `#`
    /// marker, a group in square brackets, a general path at the front of
    /// its body, and the rest of the body as argument tokens. The style is
    /// set to outer.
    pub fn parse(input: &mut TokenCursor) -> (r: Result<OuterAttribute, Error>)
        requires
            old(input).wf(),
        ensures
            final(input).wf(),
            match parse_error(old(input).tokens@, old(input).position as int) {
                Some((kind, pos)) => r == Err::<OuterAttribute, Error>(
                    Error { kind, position: pos as usize },
                ),
                None => r is Ok,
            },
            match r {
                Ok(a) => {
                    &&& reads_as(old(input).tokens@, a)
                    &&& final(input).tokens@ == old(input).tokens@.subrange(
                        2,
                        old(input).tokens@.len() as int,
                    )
                    &&& final(input).position == old(input).position + 2
                },
                Err(e) => {
                    &&& e.kind == ErrorKind::ExpectedPound ==> *final(input) == *old(input)
                    &&& e.kind == ErrorKind::ExpectedBracket ==> {
                        &&& final(input).tokens@ == old(input).tokens@.drop_first()
                        &&& final(input).position == old(input).position + 1
                    }
                    &&& e.kind != ErrorKind::ExpectedPound && e.kind != ErrorKind::ExpectedBracket
                        ==> {
                        &&& final(input).tokens@ == old(input).tokens@.subrange(
                            2,
                            old(input).tokens@.len() as int,
                        )
                        &&& final(input).position == old(input).position + 2
                    }
                },
            },
    {
        let pound_token = match input.parse_pound() {
            Ok(p) => p,
            Err(e) => return Err(e),
        };
        let ghost mid = *input;
        let (bracket_token, body) = match input.parse_bracketed() {
            Ok(b) => b,
            Err(e) => return Err(e),
        };
        assert(mid.tokens@ == old(input).tokens@.drop_first());
        assert(old(input).tokens@[1] == mid.tokens@[0]);
        assert(old(input).tokens@.subrange(2, old(input).tokens@.len() as int) =~= input.tokens@);
        match split_general_path(body) {
            Ok((path, tokens)) => {
                let attr = Attribute {
                    pound_token,
                    style: AttrStyle::Outer,
                    bracket_token,
                    path,
                    tokens,
                };
                Ok(OuterAttribute(attr))
            },
            Err(kind) => Err(Error { kind, position: input.position - 1 }),
        }
    }
}

/// `r` is the token trees that `a` is written with.
pub open spec fn written_as(a: OuterAttribute, r: Seq<TokenTree>) -> bool {
    &&& r.len() == 2
    &&& r[0] == pound_tree(a.0.pound_token)
    &&& is_bracket_group(r[1])
    &&& group_body(r[1]) == a.0.path@ + a.0.tokens@
}

/// Writing out an attribute that was read from `s` gives back the tokens it
/// was read from: the same marker, and a bracket group with the same body.
pub proof fn lemma_round_trip(s: Seq<TokenTree>, a: OuterAttribute, r: Seq<TokenTree>)
    requires
        reads_as(s, a),
        written_as(a, r),
    ensures
        r.len() == 2,
        r[0] == s[0],
        is_bracket_group(r[1]) && is_bracket_group(s[1]),
        group_body(r[1]) == group_body(s[1]),
{
}

} // verus!
