//! Token trees written back as source text.

use vstd::prelude::*;
use crate::token::{Delimiter, Spacing, TokenTree};

verus! {

/// The opening text of a delimiter.
pub open spec fn open_text(d: Delimiter) -> Seq<char> {
    match d {
        Delimiter::Parenthesis => seq!['('],
        Delimiter::Brace => seq!['{'],
        Delimiter::Bracket => seq!['['],
        Delimiter::Invisible => Seq::empty(),
    }
}

/// The closing text of a delimiter.
pub open spec fn close_text(d: Delimiter) -> Seq<char> {
    match d {
        Delimiter::Parenthesis => seq![')'],
        Delimiter::Brace => seq!['}'],
        Delimiter::Bracket => seq![']'],
        Delimiter::Invisible => Seq::empty(),
    }
}

/// The text of a run of token trees: each token is followed by a space,
/// but for a punctuation character joined to the next one.
pub open spec fn text_of(s: Seq<TokenTree>) -> Seq<char>
    decreases s,
{
    if s.len() == 0 {
        Seq::empty()
    } else {
        text_of(s.drop_last()) + match s.last() {
            TokenTree::Group(d, v) => open_text(d) + text_of(v@) + close_text(d) + seq![' '],
            TokenTree::Ident(x) => x@ + seq![' '],
            TokenTree::Literal(x) => x@ + seq![' '],
            TokenTree::Punct(c, sp) => if sp == Spacing::Joint {
                seq![c]
            } else {
                seq![c, ' ']
            },
        }
    }
}

/// Relies on `String::push_str`: appends the text of `t`.
#[verifier::external_body]
fn append_str(out: &mut String, t: &str)
    ensures
        final(out)@ == old(out)@ + t@,
{
    out.push_str(t)
}

/// Relies on `String::push`: appends one character.
#[verifier::external_body]
fn append_char(out: &mut String, c: char)
    ensures
        final(out)@ == old(out)@.push(c),
{
    out.push(c)
}

/// Appends the opening text of a delimiter.
fn write_open(out: &mut String, d: Delimiter)
    ensures
        final(out)@ == old(out)@ + open_text(d),
{
    match d {
        Delimiter::Parenthesis => append_char(out, '('),
        Delimiter::Brace => append_char(out, '{'),
        Delimiter::Bracket => append_char(out, '['),
        Delimiter::Invisible => {},
    }
    assert(out@ =~= old(out)@ + open_text(d));
}

/// Appends the closing text of a delimiter.
fn write_close(out: &mut String, d: Delimiter)
    ensures
        final(out)@ == old(out)@ + close_text(d),
{
    match d {
        Delimiter::Parenthesis => append_char(out, ')'),
        Delimiter::Brace => append_char(out, '}'),
        Delimiter::Bracket => append_char(out, ']'),
        Delimiter::Invisible => {},
    }
    assert(out@ =~= old(out)@ + close_text(d));
}

/// Appends the text of the first `n` token trees of `v`.
pub fn write_trees(v: &[TokenTree], n: usize, out: &mut String)
    requires
        n <= v@.len(),
    ensures
        final(out)@ == old(out)@ + text_of(v@.take(n as int)),
    decreases v@,
{
    let mut i: usize = 0;
    assert(v@.take(0) =~= Seq::<TokenTree>::empty());
    assert(out@ =~= old(out)@ + text_of(v@.take(0)));
    while i < n
        invariant
            n <= v@.len(),
            i <= n,
            out@ == old(out)@ + text_of(v@.take(i as int)),
        decreases n - i,
    {
        let ghost before = out@;
        assert(v@.take(i + 1).drop_last() =~= v@.take(i as int));
        assert(v@.take(i + 1).last() == v@[i as int]);
        match &v[i] {
            TokenTree::Group(d, inner) => {
                write_open(out, *d);
                proof {
                    assert(decreases_to!(v@ => v@[i as int]));
                    assert(decreases_to!(inner => inner@));
                }
                write_trees(inner.as_slice(), inner.len(), out);
                assert(inner@.take(inner@.len() as int) =~= inner@);
                write_close(out, *d);
                append_char(out, ' ');
            },
            TokenTree::Ident(x) => {
                append_str(out, x.as_str());
                append_char(out, ' ');
            },
            TokenTree::Literal(x) => {
                append_str(out, x.as_str());
                append_char(out, ' ');
            },
            TokenTree::Punct(c, sp) => {
                append_char(out, *c);
                if *sp != Spacing::Joint {
                    append_char(out, ' ');
                }
            },
        }
        assert(out@ =~= old(out)@ + text_of(v@.take(i + 1)));
        i = i + 1;
    }
}

/// The text of the first `n` token trees of `v`.
pub fn text_of_prefix(v: &[TokenTree], n: usize) -> (r: String)
    requires
        n <= v@.len(),
    ensures
        r@ == text_of(v@.take(n as int)),
{
    let mut out = String::new();
    write_trees(v, n, &mut out);
    assert(out@ =~= text_of(v@.take(n as int)));
    out
}

} // verus!
