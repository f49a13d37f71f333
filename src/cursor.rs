//! A cursor over owned token trees, the error it reports, and the two steps
//! that every outer attribute starts with: the `#` marker and the bracket group.

use vstd::prelude::*;
use crate::token::{Delimiter, Spacing, TokenTree, is_punct, is_bracket_group, group_body};

verus! {

/// What went wrong while reading an outer attribute.
#[derive(Clone, Copy, Debug, PartialEq, Eq, Structural)]
pub enum ErrorKind {
    /// The `#` marker is missing.
    ExpectedPound,
    /// The marker is not followed by a group in square brackets.
    ExpectedBracket,
    /// The bracket body does not begin with a path.
    ExpectedPath,
    /// A `::` separator in the path is not followed by a segment.
    ExpectedPathSegment,
    /// Tokens are left over after a complete attribute.
    UnexpectedToken,
}

/// A syntax error: its kind, and the index of the offending top-level token
/// (the bracket group, where the path inside it is at fault).
#[derive(Clone, Copy, Debug, PartialEq, Eq, Structural)]
pub struct Error {
    pub kind: ErrorKind,
    pub position: usize,
}

impl Error {
    /// A human-readable message for the error.
    pub fn message(&self) -> (r: String)
        ensures
            r@ == message_of(self.kind),
    {
        let r = match self.kind {
            ErrorKind::ExpectedPound => "expected `#`".to_owned(),
            ErrorKind::ExpectedBracket => "expected square brackets".to_owned(),
            ErrorKind::ExpectedPath => "expected path".to_owned(),
            ErrorKind::ExpectedPathSegment => "expected path segment".to_owned(),
            ErrorKind::UnexpectedToken => "unexpected token".to_owned(),
        };
        r
    }
}

/// The message that goes with each kind of error.
pub open spec fn message_of(k: ErrorKind) -> Seq<char> {
    match k {
        ErrorKind::ExpectedPound => "expected `#`"@,
        ErrorKind::ExpectedBracket => "expected square brackets"@,
        ErrorKind::ExpectedPath => "expected path"@,
        ErrorKind::ExpectedPathSegment => "expected path segment"@,
        ErrorKind::UnexpectedToken => "unexpected token"@,
    }
}

/// The `#` marker that opens an attribute, with the spacing it was lexed with.
#[derive(Clone, Copy, Debug, PartialEq, Eq, Structural)]
pub struct Pound {
    pub spacing: Spacing,
}

/// The square brackets around an attribute's body.
#[derive(Clone, Copy, Debug, PartialEq, Eq, Structural)]
pub struct Bracket {}

/// The token tree that a marker stands for.
pub open spec fn pound_tree(p: Pound) -> TokenTree {
    TokenTree::Punct('#', p.spacing)
}

/// A cursor over the token trees not read yet, with the number already read.
#[derive(Debug)]
pub struct TokenCursor {
    pub tokens: Vec<TokenTree>,
    pub position: usize,
}

impl TokenCursor {
    /// The position can still advance past every remaining token.
    pub open spec fn wf(&self) -> bool {
        self.position + self.tokens.len() <= usize::MAX
    }

    /// A cursor at the start of `tokens`.
    pub fn new(tokens: Vec<TokenTree>) -> (r: TokenCursor)
        ensures
            r.tokens@ == tokens@,
            r.position == 0,
            r.wf(),
    {
        TokenCursor { tokens, position: 0 }
    }

    /// Whether every token has been read.
    pub fn is_empty(&self) -> (r: bool)
        ensures
            r == (self.tokens@.len() == 0),
    {
        self.tokens.len() == 0
    }

    /// Reads the `#` marker; on failure the cursor is left as it was.
    pub fn parse_pound(&mut self) -> (r: Result<Pound, Error>)
        requires
            old(self).wf(),
        ensures
            final(self).wf(),
            match r {
                Ok(p) => {
                    &&& old(self).tokens@.len() > 0
                    &&& old(self).tokens@[0] == pound_tree(p)
                    &&& final(self).tokens@ == old(self).tokens@.drop_first()
                    &&& final(self).position == old(self).position + 1
                },
                Err(e) => {
                    &&& (old(self).tokens@.len() == 0 || !is_punct(old(self).tokens@[0], '#'))
                    &&& e == Error { kind: ErrorKind::ExpectedPound, position: old(self).position }
                    &&& *final(self) == *old(self)
                },
            },
    {
        let ok = self.tokens.len() > 0 && crate::token::token_is_punct(&self.tokens[0], '#');
        if !ok {
            return Err(Error { kind: ErrorKind::ExpectedPound, position: self.position });
        }
        let t = self.tokens.remove(0);
        self.position = self.position + 1;
        match t {
            TokenTree::Punct(_, spacing) => Ok(Pound { spacing }),
            _ => {
                assert(false);
                Err(Error { kind: ErrorKind::ExpectedPound, position: self.position })
            },
        }
    }

    /// Reads a group in square brackets and hands back its body; on failure
    /// the cursor is left as it was.
    pub fn parse_bracketed(&mut self) -> (r: Result<(Bracket, Vec<TokenTree>), Error>)
        requires
            old(self).wf(),
        ensures
            final(self).wf(),
            match r {
                Ok((_, body)) => {
                    &&& old(self).tokens@.len() > 0
                    &&& is_bracket_group(old(self).tokens@[0])
                    &&& body@ == group_body(old(self).tokens@[0])
                    &&& final(self).tokens@ == old(self).tokens@.drop_first()
                    &&& final(self).position == old(self).position + 1
                },
                Err(e) => {
                    &&& (old(self).tokens@.len() == 0 || !is_bracket_group(old(self).tokens@[0]))
                    &&& e == Error { kind: ErrorKind::ExpectedBracket, position: old(self).position }
                    &&& *final(self) == *old(self)
                },
            },
    {
        let ok = self.tokens.len() > 0 && match &self.tokens[0] {
            TokenTree::Group(d, _) => *d == Delimiter::Bracket,
            _ => false,
        };
        if !ok {
            return Err(Error { kind: ErrorKind::ExpectedBracket, position: self.position });
        }
        let t = self.tokens.remove(0);
        self.position = self.position + 1;
        match t {
            TokenTree::Group(_, body) => Ok((Bracket {}, body)),
            _ => {
                assert(false);
                Err(Error { kind: ErrorKind::ExpectedBracket, position: self.position })
            },
        }
    }
}

} // verus!
