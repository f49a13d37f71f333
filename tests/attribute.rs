use std::str::FromStr;

use outer_attribute::cursor::{Error, ErrorKind, Pound, TokenCursor};
use outer_attribute::different_layout;
use outer_attribute::path::Path;
use outer_attribute::same_layout;
use outer_attribute::text::text_of_prefix;
use outer_attribute::token::{Delimiter, Spacing, TokenTree};

fn convert(tree: proc_macro2::TokenTree) -> TokenTree {
    match tree {
        proc_macro2::TokenTree::Group(g) => {
            let d = match g.delimiter() {
                proc_macro2::Delimiter::Parenthesis => Delimiter::Parenthesis,
                proc_macro2::Delimiter::Brace => Delimiter::Brace,
                proc_macro2::Delimiter::Bracket => Delimiter::Bracket,
                proc_macro2::Delimiter::None => Delimiter::Invisible,
            };
            TokenTree::Group(d, g.stream().into_iter().map(convert).collect())
        }
        proc_macro2::TokenTree::Ident(i) => TokenTree::Ident(i.to_string()),
        proc_macro2::TokenTree::Punct(p) => {
            let sp = match p.spacing() {
                proc_macro2::Spacing::Alone => Spacing::Alone,
                proc_macro2::Spacing::Joint => Spacing::Joint,
            };
            TokenTree::Punct(p.as_char(), sp)
        }
        proc_macro2::TokenTree::Literal(l) => TokenTree::Literal(l.to_string()),
    }
}

fn lex(s: &str) -> Vec<TokenTree> {
    let ts = proc_macro2::TokenStream::from_str(s).expect("test input lexes");
    ts.into_iter().map(convert).collect()
}

fn idents(p: &Path) -> Vec<String> {
    p.segments.iter().map(|s| s.ident.clone()).collect()
}

fn compact(s: &str) -> Result<different_layout::OuterAttribute, Error> {
    different_layout::OuterAttribute::parse_all(lex(s))
}

fn compatible(s: &str) -> Result<same_layout::OuterAttribute, Error> {
    same_layout::OuterAttribute::parse_all(lex(s))
}

#[test]
fn repr_c_compact() {
    let a = compact("#[repr(C)]").unwrap();
    assert_eq!(idents(&a.path), vec!["repr".to_string()]);
    assert_eq!(a.path.leading_colon, None);
    assert_eq!(a.tokens, lex("(C)"));
    assert_eq!(a.pound_token, Pound { spacing: Spacing::Alone });
}

#[test]
fn derive_debug_clone_compact() {
    let a = compact("#[derive(Debug, Clone)]").unwrap();
    assert_eq!(idents(&a.path), vec!["derive".to_string()]);
    assert_eq!(a.tokens, lex("(Debug, Clone)"));
}

#[test]
fn bare_attribute_has_no_arguments() {
    let a = compact("#[foo]").unwrap();
    assert_eq!(idents(&a.path), vec!["foo".to_string()]);
    assert!(a.tokens.is_empty());
}

#[test]
fn not_an_outer_attribute_fails() {
    let e = compact("Not an outer attribute").unwrap_err();
    assert_eq!(e, Error { kind: ErrorKind::ExpectedPound, position: 0 });
    let e = compatible("Not an outer attribute").unwrap_err();
    assert_eq!(e, Error { kind: ErrorKind::ExpectedPound, position: 0 });
}

#[test]
fn empty_input_fails() {
    let e = compact("").unwrap_err();
    assert_eq!(e.kind, ErrorKind::ExpectedPound);
}

#[test]
fn marker_without_brackets_fails() {
    let e = compact("#foo").unwrap_err();
    assert_eq!(e, Error { kind: ErrorKind::ExpectedBracket, position: 1 });
    let e = compact("# repr(C)").unwrap_err();
    assert_eq!(e, Error { kind: ErrorKind::ExpectedBracket, position: 1 });
    let e = compatible("#foo").unwrap_err();
    assert_eq!(e, Error { kind: ErrorKind::ExpectedBracket, position: 1 });
}

#[test]
fn parenthesized_body_is_no_bracket_group() {
    let e = compact("#(repr)").unwrap_err();
    assert_eq!(e.kind, ErrorKind::ExpectedBracket);
}

#[test]
fn inner_attribute_is_refused() {
    let e = compact("#![allow(dead_code)]").unwrap_err();
    assert_eq!(e.kind, ErrorKind::ExpectedBracket);
}

#[test]
fn body_without_path_fails() {
    let e = compact("#[123]").unwrap_err();
    assert_eq!(e, Error { kind: ErrorKind::ExpectedPath, position: 1 });
    let e = compatible("#[123]").unwrap_err();
    assert_eq!(e, Error { kind: ErrorKind::ExpectedPath, position: 1 });
    let e = compact("#[]").unwrap_err();
    assert_eq!(e.kind, ErrorKind::ExpectedPath);
}

#[test]
fn keyword_is_no_path_segment() {
    let e = compact("#[fn]").unwrap_err();
    assert_eq!(e.kind, ErrorKind::ExpectedPath);
    let a = compact("#[self::a]").unwrap();
    assert_eq!(idents(&a.path), vec!["self".to_string(), "a".to_string()]);
}

#[test]
fn generic_segment_refused_by_mod_style() {
    let e = compact("#[a::<b>]").unwrap_err();
    assert_eq!(e, Error { kind: ErrorKind::ExpectedPathSegment, position: 1 });
}

#[test]
fn generic_segment_accepted_by_general_grammar() {
    let a = compatible("#[a::<b>]").unwrap();
    assert_eq!(a.0.path, lex("a::<b>"));
    assert!(a.0.tokens.is_empty());
}

#[test]
fn trailing_separator_fails() {
    let e = compact("#[a::]").unwrap_err();
    assert_eq!(e.kind, ErrorKind::ExpectedPathSegment);
}

#[test]
fn multi_segment_path_with_leading_colon() {
    let a = compact("#[::a::b(c)]").unwrap();
    assert_eq!(a.path.leading_colon, Some(Spacing::Alone));
    assert_eq!(idents(&a.path), vec!["a".to_string(), "b".to_string()]);
    assert_eq!(a.path.segments[0].separator, Some(Spacing::Alone));
    assert_eq!(a.path.segments[1].separator, None);
    assert_eq!(a.tokens, lex("(c)"));
}

#[test]
fn name_value_arguments_are_kept() {
    let a = compact("#[doc = \"hi\"]").unwrap();
    assert_eq!(idents(&a.path), vec!["doc".to_string()]);
    assert_eq!(a.tokens, lex("= \"hi\""));
}

#[test]
fn repr_c_compatible() {
    let a = compatible("#[repr(C)]").unwrap();
    assert_eq!(a.0.style, same_layout::AttrStyle::Outer);
    assert_eq!(a.0.path, lex("repr"));
    assert_eq!(a.0.tokens, lex("(C)"));
}

#[test]
fn derive_and_bare_compatible() {
    let a = compatible("#[derive(Debug, Clone)]").unwrap();
    assert_eq!(a.0.path, lex("derive"));
    assert_eq!(a.0.tokens, lex("(Debug, Clone)"));
    let b = compatible("#[foo]").unwrap();
    assert_eq!(b.0.path, lex("foo"));
    assert!(b.0.tokens.is_empty());
}

#[test]
fn round_trip_compact() {
    for s in ["#[repr(C)]", "#[derive(Debug, Clone)]", "#[foo]", "#[::a::b(c = 1)]"] {
        let a = compact(s).unwrap();
        assert_eq!(a.into_tokens(), lex(s));
    }
}

#[test]
fn round_trip_compatible() {
    for s in ["#[repr(C)]", "#[a::<b>(x)]", "#[foo]"] {
        let a = compatible(s).unwrap();
        assert_eq!(a.into_tokens(), lex(s));
    }
}

#[test]
fn leftover_tokens_fail_whole_input() {
    let e = compact("#[a] struct S;").unwrap_err();
    assert_eq!(e, Error { kind: ErrorKind::UnexpectedToken, position: 2 });
}

#[test]
fn cursor_stops_after_attribute() {
    let mut input = TokenCursor::new(lex("#[a] struct S;"));
    let a = different_layout::OuterAttribute::parse(&mut input).unwrap();
    assert_eq!(idents(&a.path), vec!["a".to_string()]);
    assert_eq!(input.tokens, lex("struct S;"));
    assert_eq!(input.position, 2);
    let b = same_layout::OuterAttribute::parse(&mut input);
    assert_eq!(b.unwrap_err(), Error { kind: ErrorKind::ExpectedPound, position: 2 });
    assert_eq!(input.position, 2);
}

#[test]
fn two_attributes_in_a_row() {
    let mut input = TokenCursor::new(lex("#[a] #[b(1)]"));
    let a = different_layout::OuterAttribute::parse(&mut input).unwrap();
    let b = different_layout::OuterAttribute::parse(&mut input).unwrap();
    assert_eq!(idents(&a.path), vec!["a".to_string()]);
    assert_eq!(idents(&b.path), vec!["b".to_string()]);
    assert_eq!(b.tokens, lex("(1)"));
    assert!(input.is_empty());
}

#[test]
fn error_messages() {
    let e = Error { kind: ErrorKind::ExpectedPound, position: 0 };
    assert_eq!(e.message(), "expected `#`");
    let e = Error { kind: ErrorKind::ExpectedPathSegment, position: 1 };
    assert_eq!(e.message(), "expected path segment");
}

#[test]
fn text_of_tokens() {
    let t = lex("a::<b>");
    assert_eq!(text_of_prefix(&t, t.len()), "a ::< b > ");
    assert_eq!(text_of_prefix(&t, 1), "a ");
    let g = lex("f(x, [1])");
    assert_eq!(text_of_prefix(&g, g.len()), "f (x , [1 ] ) ");
}

#[test]
fn mod_style_path_alone() {
    let (p, rest) = Path::parse_mod_style(lex("a::b = 1")).unwrap();
    assert_eq!(idents(&p), vec!["a".to_string(), "b".to_string()]);
    assert_eq!(rest, lex("= 1"));
    assert_eq!(p.into_tokens(), lex("a::b"));
}

#[test]
fn general_path_alone() {
    let (p, rest) = same_layout::split_general_path(lex("Vec<u8>::new(3)")).unwrap();
    assert_eq!(p, lex("Vec<u8>::new"));
    assert_eq!(rest, lex("(3)"));
}
