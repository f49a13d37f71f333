//! The compact shape of an outer attribute: marker, brackets, a mod-style
//! path and the argument tokens, with no style field.

use vstd::prelude::*;
use crate::cursor::{Bracket, Error, ErrorKind, Pound, TokenCursor, pound_tree};
use crate::path::{
    Path, end_after_path, lemma_path_tokens_injective, lemma_read_past_path, mod_path_end, path_tokens, path_wf,
    segments_accepted, sep_tokens,
};
use crate::token::{Delimiter, Spacing, TokenTree, is_bracket_group, is_punct, group_body, path_sep_at};

verus! {

/// An outer attribute such as `#[repr(C)]`, in the compact shape.
#[derive(Debug, PartialEq, Eq)]
pub struct OuterAttribute {
    pub pound_token: Pound,
    pub bracket_token: Bracket,
    pub path: Path,
    /// What follows the path inside the brackets, untouched: `(C)` in `#[repr(C)]`.
    pub tokens: Vec<TokenTree>,
}

/// `a` is what the front of `s` reads as: the marker, then a bracket group
/// whose body is the path's tokens followed by the argument tokens, where the
/// mod-style grammar ends the path exactly there.
pub open spec fn reads_as(s: Seq<TokenTree>, a: OuterAttribute) -> bool {
    &&& s.len() >= 2
    &&& s[0] == pound_tree(a.pound_token)
    &&& is_bracket_group(s[1])
    &&& group_body(s[1]) == path_tokens(a.path) + a.tokens@
    &&& path_wf(a.path)
    &&& mod_path_end(group_body(s[1])) == Ok::<int, ErrorKind>(path_tokens(a.path).len() as int)
}

/// The error that reading an attribute from the front of `s` meets, where
/// `pos` is the index of `s[0]`; `None` where it succeeds.
pub open spec fn parse_error(s: Seq<TokenTree>, pos: int) -> Option<(ErrorKind, int)> {
    if s.len() == 0 || !is_punct(s[0], '#') {
        Some((ErrorKind::ExpectedPound, pos))
    } else if s.len() < 2 || !is_bracket_group(s[1]) {
        Some((ErrorKind::ExpectedBracket, pos + 1))
    } else {
        match mod_path_end(group_body(s[1])) {
            Err(k) => Some((k, pos + 1)),
            Ok(_) => None,
        }
    }
}

/// `r` is the token trees that `a` is written with.
pub open spec fn written_as(a: OuterAttribute, r: Seq<TokenTree>) -> bool {
    &&& r.len() == 2
    &&& r[0] == pound_tree(a.pound_token)
    &&& is_bracket_group(r[1])
    &&& group_body(r[1]) == path_tokens(a.path) + a.tokens@
}

impl OuterAttribute {
    /// Reads an outer attribute that makes up the whole of `tokens`; tokens
    /// left over after it are an error.
    pub fn parse_all(tokens: Vec<TokenTree>) -> (r: Result<OuterAttribute, Error>)
        ensures
            match parse_error(tokens@, 0) {
                Some((kind, pos)) => r == Err::<OuterAttribute, Error>(
                    Error { kind, position: pos as usize },
                ),
                None => if tokens@.len() > 2 {
                    r == Err::<OuterAttribute, Error>(
                        Error { kind: ErrorKind::UnexpectedToken, position: 2 },
                    )
                } else {
                    r is Ok
                },
            },
            match r {
                Ok(a) => reads_as(tokens@, a) && tokens@.len() == 2,
                Err(_) => true,
            },
    {
        let mut input = TokenCursor::new(tokens);
        let a = match OuterAttribute::parse(&mut input) {
            Ok(a) => a,
            Err(e) => return Err(e),
        };
        if !input.is_empty() {
            return Err(Error { kind: ErrorKind::UnexpectedToken, position: input.position });
        }
        Ok(a)
    }

    /// Reads an outer attribute from the front of the cursor: the `#`
    /// marker, a group in square brackets, a mod-style path at the front of
    /// its body, and the rest of the body as argument tokens.
    pub fn parse(input: &mut TokenCursor) -> (r: Result<OuterAttribute, Error>)
        requires
            old(input).wf(),
        ensures
            final(input).wf(),
            match parse_error(old(input).tokens@, old(input).position as int) {
                Some((kind, pos)) => r == Err::<OuterAttribute, Error>(
                    Error { kind, position: pos as usize },
                ),
                None => r is Ok,
            },
            match r {
                Ok(a) => {
                    &&& reads_as(old(input).tokens@, a)
                    &&& final(input).tokens@ == old(input).tokens@.subrange(
                        2,
                        old(input).tokens@.len() as int,
                    )
                    &&& final(input).position == old(input).position + 2
                },
                Err(e) => {
                    &&& e.kind == ErrorKind::ExpectedPound ==> *final(input) == *old(input)
                    &&& e.kind == ErrorKind::ExpectedBracket ==> {
                        &&& final(input).tokens@ == old(input).tokens@.drop_first()
                        &&& final(input).position == old(input).position + 1
                    }
                    &&& e.kind != ErrorKind::ExpectedPound && e.kind != ErrorKind::ExpectedBracket
                        ==> {
                        &&& final(input).tokens@ == old(input).tokens@.subrange(
                            2,
                            old(input).tokens@.len() as int,
                        )
                        &&& final(input).position == old(input).position + 2
                    }
                },
            },
    {
        let pound_token = match input.parse_pound() {
            Ok(p) => p,
            Err(e) => return Err(e),
        };
        let ghost mid = *input;
        let (bracket_token, body) = match input.parse_bracketed() {
            Ok(b) => b,
            Err(e) => return Err(e),
        };
        assert(mid.tokens@ == old(input).tokens@.drop_first());
        assert(old(input).tokens@.subrange(2, old(input).tokens@.len() as int) =~= input.tokens@);
        match Path::parse_mod_style(body) {
            Ok((path, tokens)) => {
                let a = OuterAttribute { pound_token, bracket_token, path, tokens };
                assert(old(input).tokens@[1] == mid.tokens@[0]);
                Ok(a)
            },
            Err(kind) => {
                Err(Error { kind, position: input.position - 1 })
            },
        }
    }

    /// The token trees that the attribute is written with: the marker and
    /// one bracket group holding the path and the argument tokens.
    pub fn into_tokens(self) -> (r: Vec<TokenTree>)
        ensures
            written_as(self, r@),
    {
        let mut body = self.path.into_tokens();
        let mut tokens = self.tokens;
        body.append(&mut tokens);
        let mut r: Vec<TokenTree> = Vec::new();
        r.push(TokenTree::Punct('#', self.pound_token.spacing));
        r.push(TokenTree::Group(Delimiter::Bracket, body));
        r
    }
}

/// Writing out an attribute that was read from `s` gives back the tokens it
/// was read from: the same marker, and a bracket group with the same body.
pub proof fn lemma_round_trip(s: Seq<TokenTree>, a: OuterAttribute, r: Seq<TokenTree>)
    requires
        reads_as(s, a),
        written_as(a, r),
    ensures
        r.len() == 2,
        r[0] == s[0],
        is_bracket_group(r[1]) && is_bracket_group(s[1]),
        group_body(r[1]) == group_body(s[1]),
{
}

/// An attribute written as `#[path]` or `#[path(args)]`, with a well-formed
/// mod-style path, is read without error, and every reading of it gives back
/// that path, segment for segment, and exactly those argument tokens.
pub proof fn lemma_well_formed_attribute(
    s: Seq<TokenTree>,
    pos: int,
    p: Path,
    args: Seq<TokenTree>,
)
    requires
        s.len() >= 2,
        is_punct(s[0], '#'),
        is_bracket_group(s[1]),
        group_body(s[1]) == path_tokens(p) + args,
        path_wf(p),
        segments_accepted(p),
        args.len() == 0 || args[0] matches TokenTree::Group(Delimiter::Parenthesis, _),
    ensures
        parse_error(s, pos) is None,
        forall|a: OuterAttribute| #[trigger] reads_as(s, a) ==> {
            &&& a.path.leading_colon == p.leading_colon
            &&& a.path.segments@ == p.segments@
            &&& a.tokens@ == args
        },
{
    lemma_read_past_path(p, args);
    assert(!path_sep_at(args, 0));
    let body = group_body(s[1]);
    assert forall|a: OuterAttribute| #[trigger] reads_as(s, a) implies {
        &&& a.path.leading_colon == p.leading_colon
        &&& a.path.segments@ == p.segments@
        &&& a.tokens@ == args
    } by {
        let n = path_tokens(p).len() as int;
        assert(path_tokens(a.path) =~= body.subrange(0, n));
        assert(path_tokens(p) =~= body.subrange(0, n));
        assert(a.tokens@ =~= body.subrange(n, body.len() as int));
        assert(args =~= body.subrange(n, body.len() as int));
        lemma_path_tokens_injective(a.path, p);
    }
}

/// A path with a segment of generic arguments, such as `a::<b>`, is refused
/// by the mod-style grammar: after the `::` a segment is expected and `<`
/// stands there instead.
pub proof fn lemma_generic_segment_rejected(
    s: Seq<TokenTree>,
    pos: int,
    p: Path,
    sp: Spacing,
    lt: Spacing,
    rest: Seq<TokenTree>,
)
    requires
        s.len() >= 2,
        is_punct(s[0], '#'),
        is_bracket_group(s[1]),
        group_body(s[1]) == path_tokens(p) + sep_tokens(sp) + seq![TokenTree::Punct('<', lt)]
            + rest,
        path_wf(p),
        segments_accepted(p),
    ensures
        parse_error(s, pos) == Some((ErrorKind::ExpectedPathSegment, pos + 1)),
{
    let tail = sep_tokens(sp) + seq![TokenTree::Punct('<', lt)] + rest;
    assert(group_body(s[1]) =~= path_tokens(p) + tail);
    lemma_read_past_path(p, tail);
    assert(path_sep_at(tail, 0));
    let body = group_body(s[1]);
    let n = path_tokens(p).len() as int;
    assert(body[n + 2] == tail[2]);
    assert(end_after_path(body, n, tail) == Err::<int, ErrorKind>(ErrorKind::ExpectedPathSegment));
}

} // verus!
