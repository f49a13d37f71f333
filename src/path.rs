//! Mod-style paths: segments joined by `::`, with no generic arguments.

use vstd::prelude::*;
use crate::cursor::ErrorKind;
use crate::token::{Spacing, TokenTree, path_sep_at, has_path_sep_at};

verus! {

/// Whether syn reads the whole text as a mod-style path.
pub uninterp spec fn mod_style_path_text(s: Seq<char>) -> bool;

/// Relies on `syn::Path::parse_mod_style`, run by `syn::parse::Parser::parse_str`:
/// whether the text is one mod-style path and nothing more. On the text of a
/// single identifier this holds for `super`, `self`, `Self`, `crate` and for
/// every identifier that is neither a keyword nor `_`.
#[verifier::external_body]
fn is_mod_style_path_text(s: &str) -> (r: bool)
    ensures
        r == mod_style_path_text(s@),
{
    syn::parse::Parser::parse_str(syn::Path::parse_mod_style, s).is_ok()
}

/// One segment of a path, with the `::` that follows it, if any: the spacing
/// of the separator's second colon.
#[derive(Debug, PartialEq, Eq)]
pub struct PathSegment {
    pub ident: String,
    pub separator: Option<Spacing>,
}

/// A mod-style path such as `a::b::c` or `::std::fmt`.
#[derive(Debug, PartialEq, Eq)]
pub struct Path {
    /// The spacing of the second colon of a leading `::`.
    pub leading_colon: Option<Spacing>,
    pub segments: Vec<PathSegment>,
}

/// A token that may stand as a segment of a mod-style path.
pub open spec fn is_segment(t: TokenTree) -> bool {
    t matches TokenTree::Ident(s) && mod_style_path_text(s@)
}

/// The two tokens of a `::` whose second colon has spacing `sp`.
pub open spec fn sep_tokens(sp: Spacing) -> Seq<TokenTree> {
    seq![TokenTree::Punct(':', Spacing::Joint), TokenTree::Punct(':', sp)]
}

/// The tokens of an optional separator.
pub open spec fn opt_sep_tokens(sp: Option<Spacing>) -> Seq<TokenTree> {
    match sp {
        Some(sp) => sep_tokens(sp),
        None => Seq::empty(),
    }
}

/// The tokens of one segment and its separator.
pub open spec fn segment_tokens(s: PathSegment) -> Seq<TokenTree> {
    seq![TokenTree::Ident(s.ident)] + opt_sep_tokens(s.separator)
}

/// The tokens of a run of segments, in order.
pub open spec fn segments_tokens(s: Seq<PathSegment>) -> Seq<TokenTree>
    decreases s.len(),
{
    if s.len() == 0 {
        Seq::empty()
    } else {
        segments_tokens(s.drop_last()) + segment_tokens(s.last())
    }
}

/// The tokens that a path is written with.
pub open spec fn path_tokens(p: Path) -> Seq<TokenTree> {
    opt_sep_tokens(p.leading_colon) + segments_tokens(p.segments@)
}

/// Every segment but the last is followed by `::`, and the last is not.
pub open spec fn path_wf(p: Path) -> bool {
    &&& p.segments@.len() > 0
    &&& forall|i: int| 0 <= i < p.segments@.len() ==>
        (#[trigger] p.segments@[i]).separator.is_some() == (i < p.segments@.len() - 1)
}

/// Reading `s` with the mod-style grammar from index `i`, where a segment
/// must stand: where the path ends, or why it fails. `first` tells whether
/// no segment has been read yet.
pub open spec fn mod_segments_end(s: Seq<TokenTree>, i: int, first: bool) -> Result<int, ErrorKind>
    decreases s.len() - i,
{
    if i < 0 || i >= s.len() || !is_segment(s[i]) {
        Err(if first { ErrorKind::ExpectedPath } else { ErrorKind::ExpectedPathSegment })
    } else if path_sep_at(s, i + 1) {
        mod_segments_end(s, i + 3, false)
    } else {
        Ok(i + 1)
    }
}

/// Where the mod-style path at the front of `s` ends, or why there is none:
/// an optional leading `::`, then segments joined by `::`, read greedily.
pub open spec fn mod_path_end(s: Seq<TokenTree>) -> Result<int, ErrorKind> {
    mod_segments_end(s, if path_sep_at(s, 0) { 2 } else { 0 }, true)
}

proof fn lemma_segments_tokens_push(s: Seq<PathSegment>, x: PathSegment)
    ensures
        segments_tokens(s.push(x)) == segments_tokens(s) + segment_tokens(x),
{
    assert(s.push(x).drop_last() =~= s);
}

/// Tells whether `t` may stand as a segment of a mod-style path.
fn token_is_segment(t: &TokenTree) -> (r: bool)
    ensures
        r == is_segment(*t),
{
    match t {
        TokenTree::Ident(s) => is_mod_style_path_text(s.as_str()),
        _ => false,
    }
}

/// Removes a `::` from the front of `v`, which must start with one, and
/// gives the spacing of its second colon.
fn take_sep(v: &mut Vec<TokenTree>) -> (sp: Spacing)
    requires
        path_sep_at(old(v)@, 0),
    ensures
        old(v)@ == sep_tokens(sp) + final(v)@,
{
    let a = v.remove(0);
    let b = v.remove(0);
    match (a, b) {
        (TokenTree::Punct(_, _), TokenTree::Punct(_, sp)) => {
            assert(old(v)@ =~= sep_tokens(sp) + v@);
            sp
        },
        _ => {
            assert(false);
            Spacing::Alone
        },
    }
}

/// Removes one segment, and the `::` after it if there is one, from the
/// front of `v`.
fn take_segment(v: &mut Vec<TokenTree>) -> (seg: PathSegment)
    requires
        old(v)@.len() > 0,
        is_segment(old(v)@[0]),
    ensures
        old(v)@ == segment_tokens(seg) + final(v)@,
        seg.separator.is_some() == path_sep_at(old(v)@, 1),
{
    let ghost r0 = v@;
    let t = v.remove(0);
    assert(r0 =~= seq![t] + v@);
    let ghost r1 = v@;
    assert(path_sep_at(r0, 1) == path_sep_at(r1, 0));
    let ident = match t {
        TokenTree::Ident(x) => x,
        _ => {
            assert(false);
            String::new()
        },
    };
    let separator = if has_path_sep_at(v.as_slice(), 0) {
        Some(take_sep(v))
    } else {
        None
    };
    let seg = PathSegment { ident, separator };
    assert(r1 =~= opt_sep_tokens(separator) + v@);
    assert(r0 =~= segment_tokens(seg) + v@);
    seg
}

impl Path {
    /// Reads a mod-style path from the front of `body`, and hands back the
    /// path with the tokens that follow it, untouched.
    pub fn parse_mod_style(body: Vec<TokenTree>) -> (r: Result<(Path, Vec<TokenTree>), ErrorKind>)
        ensures
            match r {
                Ok((p, rest)) => {
                    &&& path_wf(p)
                    &&& body@ == path_tokens(p) + rest@
                    &&& mod_path_end(body@) == Ok::<int, ErrorKind>(path_tokens(p).len() as int)
                },
                Err(e) => {
                    &&& mod_path_end(body@) == Err::<int, ErrorKind>(e)
                    &&& (e == ErrorKind::ExpectedPath || e == ErrorKind::ExpectedPathSegment)
                },
            },
    {
        let ghost s = body@;
        let mut rest = body;
        let leading_colon = if has_path_sep_at(rest.as_slice(), 0) {
            Some(take_sep(&mut rest))
        } else {
            None
        };
        let ghost start = opt_sep_tokens(leading_colon).len() as int;
        let ghost mut consumed: int = start;
        assert(s.subrange(0, consumed) =~= opt_sep_tokens(leading_colon));
        assert(rest@ =~= s.subrange(consumed, s.len() as int));
        let mut segments: Vec<PathSegment> = Vec::new();
        loop
            invariant
                s == body@,
                0 <= consumed <= s.len(),
                start == opt_sep_tokens(leading_colon).len(),
                consumed == start + segments_tokens(segments@).len(),
                s.subrange(0, consumed) == opt_sep_tokens(leading_colon) + segments_tokens(segments@),
                rest@ == s.subrange(consumed, s.len() as int),
                mod_path_end(s) == mod_segments_end(s, consumed, segments@.len() == 0),
                forall|i: int| 0 <= i < segments@.len() ==> (#[trigger] segments@[i]).separator.is_some(),
            decreases rest@.len(),
        {
            if rest.len() == 0 || !token_is_segment(&rest[0]) {
                let kind = if segments.len() == 0 {
                    ErrorKind::ExpectedPath
                } else {
                    ErrorKind::ExpectedPathSegment
                };
                return Err(kind);
            }
            let ghost r0 = rest@;
            let seg = take_segment(&mut rest);
            let separator = seg.separator;
            let ghost k = segment_tokens(seg).len() as int;
            assert(s.subrange(consumed, consumed + k) =~= segment_tokens(seg));
            assert(s.subrange(0, consumed + k) =~= s.subrange(0, consumed) + s.subrange(
                consumed,
                consumed + k,
            ));
            proof {
                lemma_segments_tokens_push(segments@, seg);
                consumed = consumed + k;
            }
            segments.push(seg);
            assert(rest@ =~= s.subrange(consumed, s.len() as int)) by {
                assert(rest@ =~= r0.subrange(k, r0.len() as int));
            }
            assert(s.subrange(0, consumed) =~= opt_sep_tokens(leading_colon) + segments_tokens(
                segments@,
            ));
            if separator.is_none() {
                let p = Path { leading_colon, segments };
                assert(s =~= s.subrange(0, consumed) + rest@);
                assert(path_wf(p));
                return Ok((p, rest));
            }
        }
    }

    /// The tokens that the path is written with.
    pub fn into_tokens(self) -> (r: Vec<TokenTree>)
        ensures
            r@ == path_tokens(self),
    {
        let ghost orig = self.segments@;
        let mut out: Vec<TokenTree> = Vec::new();
        push_sep(&mut out, self.leading_colon);
        let mut segments = self.segments;
        let ghost mut i: int = 0;
        assert(orig.take(0) =~= Seq::<PathSegment>::empty());
        assert(segments@ =~= orig.skip(0));
        while segments.len() > 0
            invariant
                0 <= i <= orig.len(),
                segments@ == orig.skip(i),
                out@ == opt_sep_tokens(self.leading_colon) + segments_tokens(orig.take(i)),
            decreases segments@.len(),
        {
            let seg = segments.remove(0);
            assert(orig.take(i + 1).drop_last() =~= orig.take(i));
            out.push(TokenTree::Ident(seg.ident));
            push_sep(&mut out, seg.separator);
            proof {
                i = i + 1;
            }
            assert(segments@ =~= orig.skip(i));
            assert(out@ =~= opt_sep_tokens(self.leading_colon) + segments_tokens(orig.take(i)));
        }
        assert(orig.take(i) =~= orig);
        out
    }
}

/// Appends the tokens of an optional separator.
fn push_sep(out: &mut Vec<TokenTree>, sp: Option<Spacing>)
    ensures
        final(out)@ == old(out)@ + opt_sep_tokens(sp),
{
    if let Some(sp) = sp {
        out.push(TokenTree::Punct(':', Spacing::Joint));
        out.push(TokenTree::Punct(':', sp));
        assert(out@ =~= old(out)@ + opt_sep_tokens(Some(sp)));
    } else {
        assert(out@ =~= old(out)@ + opt_sep_tokens(sp));
    }
}

/// Every segment of `p` is an identifier that the mod-style grammar accepts.
pub open spec fn segments_accepted(p: Path) -> bool {
    forall|i: int| 0 <= i < p.segments@.len() ==> mod_style_path_text(
        (#[trigger] p.segments@[i]).ident@,
    )
}

proof fn lemma_segments_prefix(segs: Seq<PathSegment>, j: int)
    requires
        0 <= j <= segs.len(),
    ensures
        segments_tokens(segs.take(j)).len() <= segments_tokens(segs).len(),
        segments_tokens(segs).subrange(0, segments_tokens(segs.take(j)).len() as int)
            == segments_tokens(segs.take(j)),
    decreases segs.len(),
{
    if j == segs.len() {
        assert(segs.take(j) =~= segs);
    } else {
        lemma_segments_prefix(segs.drop_last(), j);
        assert(segs.drop_last().take(j) =~= segs.take(j));
        let a = segments_tokens(segs.drop_last());
        assert(segments_tokens(segs) == a + segment_tokens(segs.last()));
        assert(segments_tokens(segs).subrange(0, segments_tokens(segs.take(j)).len() as int)
            =~= a.subrange(0, segments_tokens(segs.take(j)).len() as int));
    }
}

/// Where the mod-style reading of `s` ends after a path whose tokens stand
/// at its front, when the tokens after the path are `tail`.
pub open spec fn end_after_path(s: Seq<TokenTree>, path_len: int, tail: Seq<TokenTree>) -> Result<int, ErrorKind> {
    if path_sep_at(tail, 0) {
        mod_segments_end(s, path_len + 2, false)
    } else {
        Ok(path_len)
    }
}

proof fn lemma_read_from_segment(p: Path, tail: Seq<TokenTree>, j: int)
    requires
        path_wf(p),
        segments_accepted(p),
        0 <= j < p.segments@.len(),
    ensures
        mod_segments_end(
            path_tokens(p) + tail,
            (opt_sep_tokens(p.leading_colon).len() + segments_tokens(p.segments@.take(j)).len()) as int,
            j == 0,
        ) == end_after_path(path_tokens(p) + tail, path_tokens(p).len() as int, tail),
    decreases p.segments@.len() - j,
{
    let s = path_tokens(p) + tail;
    let segs = p.segments@;
    let n = segs.len() as int;
    let lead = opt_sep_tokens(p.leading_colon);
    let big_l = path_tokens(p).len() as int;
    let pos = (lead.len() + segments_tokens(segs.take(j)).len()) as int;
    lemma_segments_prefix(segs, j);
    lemma_segments_prefix(segs, j + 1);
    assert(segs.take(j + 1).drop_last() =~= segs.take(j));
    let seg = segs[j];
    assert(segments_tokens(segs.take(j + 1)) == segments_tokens(segs.take(j)) + segment_tokens(seg));
    let next = pos + segment_tokens(seg).len() as int;
    let st = segments_tokens(segs);
    assert forall|k: int| pos <= k < next implies s[k] == segment_tokens(seg)[k - pos] by {
        assert(s[k] == st[k - lead.len()]);
        assert(st[k - lead.len()] == segments_tokens(segs.take(j + 1))[k - lead.len()]);
    }
    assert(s[pos] == TokenTree::Ident(seg.ident));
    assert(mod_style_path_text(seg.ident@));
    if j == n - 1 {
        assert(segs.take(n) =~= segs);
        assert(next == big_l);
        assert forall|k: int| 0 <= k < tail.len() implies s[big_l + k] == tail[k] by {}
        assert(path_sep_at(s, pos + 1) == path_sep_at(tail, 0));
    } else {
        assert(seg.separator.is_some());
        assert(s[pos + 1] == segment_tokens(seg)[1]);
        assert(s[pos + 2] == segment_tokens(seg)[2]);
        assert(path_sep_at(s, pos + 1));
        lemma_read_from_segment(p, tail, j + 1);
    }
}

/// Reading the tokens of a well-formed path followed by `tail` with the
/// mod-style grammar: the path ends where its tokens end, unless `tail`
/// opens with `::`, in which case reading goes on after that separator.
pub proof fn lemma_read_past_path(p: Path, tail: Seq<TokenTree>)
    requires
        path_wf(p),
        segments_accepted(p),
    ensures
        mod_path_end(path_tokens(p) + tail) == end_after_path(
            path_tokens(p) + tail,
            path_tokens(p).len() as int,
            tail,
        ),
{
    let s = path_tokens(p) + tail;
    let segs = p.segments@;
    lemma_read_from_segment(p, tail, 0);
    assert(segs.take(0) =~= Seq::<PathSegment>::empty());
    if p.leading_colon.is_some() {
        assert(path_sep_at(s, 0));
    } else {
        lemma_segments_prefix(segs, 1);
        assert(segs.take(1).drop_last() =~= segs.take(0));
        assert(s[0] == segments_tokens(segs)[0]);
        assert(segments_tokens(segs)[0] == segments_tokens(segs.take(1))[0]);
        assert(!path_sep_at(s, 0));
    }
}

proof fn lemma_segments_tokens_injective(s1: Seq<PathSegment>, s2: Seq<PathSegment>)
    requires
        segments_tokens(s1) == segments_tokens(s2),
        forall|i: int| 0 <= i < s1.len() - 1 ==> (#[trigger] s1[i]).separator.is_some(),
        forall|i: int| 0 <= i < s2.len() - 1 ==> (#[trigger] s2[i]).separator.is_some(),
        s1.len() > 0 && s2.len() > 0 ==> s1.last().separator.is_some() == s2.last().separator.is_some(),
    ensures
        s1 == s2,
    decreases s1.len(),
{
    if s1.len() == 0 || s2.len() == 0 {
        if s1.len() > 0 {
            assert(segments_tokens(s1).len() > 0);
        }
        if s2.len() > 0 {
            assert(segments_tokens(s2).len() > 0);
        }
        assert(s1 =~= s2);
    } else {
        let t = segments_tokens(s1);
        let k1 = segment_tokens(s1.last()).len() as int;
        let a1 = segments_tokens(s1.drop_last());
        let a2 = segments_tokens(s2.drop_last());
        assert(t == a1 + segment_tokens(s1.last()));
        assert(t == a2 + segment_tokens(s2.last()));
        assert(a1 =~= t.subrange(0, t.len() - k1));
        assert(a2 =~= t.subrange(0, t.len() - k1));
        assert(segment_tokens(s1.last()) =~= t.subrange(t.len() - k1, t.len() as int));
        assert(segment_tokens(s2.last()) =~= t.subrange(t.len() - k1, t.len() as int));
        assert(segment_tokens(s1.last())[0] == segment_tokens(s2.last())[0]);
        if s1.last().separator.is_some() {
            assert(segment_tokens(s1.last())[2] == segment_tokens(s2.last())[2]);
        }
        assert(s1.last() == s2.last());
        if s1.len() > 1 && s2.len() > 1 {
            assert(s1.drop_last().last() == s1[s1.len() - 2]);
            assert(s2.drop_last().last() == s2[s2.len() - 2]);
        }
        lemma_segments_tokens_injective(s1.drop_last(), s2.drop_last());
        assert(s1 =~= s2.drop_last().push(s2.last()));
        assert(s2 =~= s2.drop_last().push(s2.last()));
    }
}

/// Two well-formed paths written with the same tokens are the same path,
/// segment for segment.
pub proof fn lemma_path_tokens_injective(p1: Path, p2: Path)
    requires
        path_wf(p1),
        path_wf(p2),
        path_tokens(p1) == path_tokens(p2),
    ensures
        p1.leading_colon == p2.leading_colon,
        p1.segments@ == p2.segments@,
{
    let t = path_tokens(p1);
    let s1 = p1.segments@;
    let s2 = p2.segments@;
    lemma_segments_prefix(s1, 1);
    lemma_segments_prefix(s2, 1);
    assert(s1.take(1).drop_last() =~= s1.take(0));
    assert(s2.take(1).drop_last() =~= s2.take(0));
    assert(s1.take(0) =~= Seq::<PathSegment>::empty());
    assert(s2.take(0) =~= Seq::<PathSegment>::empty());
    assert(segments_tokens(s1.take(0)) =~= Seq::<TokenTree>::empty());
    assert(segments_tokens(s2.take(0)) =~= Seq::<TokenTree>::empty());
    assert(s1.take(1).last() == s1[0]);
    assert(s2.take(1).last() == s2[0]);
    assert(segments_tokens(s1.take(1)) =~= segment_tokens(s1[0]));
    assert(segments_tokens(s2.take(1)) =~= segment_tokens(s2[0]));
    assert(segments_tokens(s1)[0] == segments_tokens(s1.take(1))[0]);
    assert(segments_tokens(s2)[0] == segments_tokens(s2.take(1))[0]);
    assert(segments_tokens(s1)[0] is Ident);
    assert(segments_tokens(s2)[0] is Ident);
    let k = opt_sep_tokens(p1.leading_colon).len() as int;
    if p1.leading_colon.is_some() {
        assert(t[0] == opt_sep_tokens(p1.leading_colon)[0]);
    } else {
        assert(t[0] == segments_tokens(s1)[0]);
    }
    if p2.leading_colon.is_some() {
        assert(t[0] == opt_sep_tokens(p2.leading_colon)[0]);
    } else {
        assert(t[0] == segments_tokens(s2)[0]);
    }
    assert(p1.leading_colon.is_some() == p2.leading_colon.is_some());
    if p1.leading_colon.is_some() {
        assert(t[1] == opt_sep_tokens(p1.leading_colon)[1]);
        assert(t[1] == opt_sep_tokens(p2.leading_colon)[1]);
    }
    assert(opt_sep_tokens(p1.leading_colon) =~= opt_sep_tokens(p2.leading_colon));
    assert(segments_tokens(s1) =~= t.subrange(k, t.len() as int));
    assert(segments_tokens(s2) =~= t.subrange(k, t.len() as int));
    assert(s1.last() == s1[s1.len() - 1]);
    assert(s2.last() == s2[s2.len() - 1]);
    lemma_segments_tokens_injective(s1, s2);
}

} // verus!
