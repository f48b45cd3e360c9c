//! Tokens of macro input, as proc-macro2 lexes them, and the text that a run
//! of tokens is written as when it is handed back to syn.
//!
//! Every call into proc-macro2 or syn first forces proc-macro2's own lexer
//! and printer, so what the calls give back depends on the text alone, inside
//! a procedural macro as outside one.

use vstd::prelude::*;
use proc_macro2::{Delimiter, Spacing, TokenStream, TokenTree};
use quote::ToTokens;
use crate::syntax::Ident;
use crate::text::push_char;

verus! {

/// The delimiter of a group.
#[derive(Debug, PartialEq, Eq, Clone, Copy)]
pub enum Delim {
    Paren,
    Brace,
    Bracket,
    Invisible,
}

/// One token tree at the top level of a token stream: an identifier, a
/// punctuation character (joined to the next one or not), a literal, or a
/// delimited group with the text of what it encloses.
pub enum Tok {
    Ident(String),
    Punct(char, bool),
    Literal(String),
    Group(Delim, String),
}

/// The top-level token trees that proc-macro2's own (fallback) lexer lexes
/// from a text.
pub uninterp spec fn lexed(text: Seq<char>) -> Option<Vec<Tok>>;

/// Whether syn, over proc-macro2's own lexer, reads the text as one
/// identifier (keywords and `_` are not).
pub uninterp spec fn syn_ident(text: Seq<char>) -> bool;

/// What syn, over proc-macro2's own lexer, reads from an expression's text:
/// its tokens as proc-macro2's own printer writes them.
pub uninterp spec fn syn_expr(text: Seq<char>) -> Option<String>;

/// `TokenStream::from_str` of proc-macro2, then its top-level token trees in
/// order, each turned into a `Tok`; `None` where the text does not lex.
/// proc-macro2's own lexer and printer are forced first
/// (`proc_macro2::fallback::force`), so the result does not depend on whether
/// the process runs inside a procedural macro.
#[verifier::external_body]
pub(crate) fn lex(text: &str) -> (r: Option<Vec<Tok>>)
    ensures
        r == lexed(text@),
{
    proc_macro2::fallback::force();
    let stream: TokenStream = text.parse().ok()?;
    Some(stream.into_iter().map(|tt| match tt {
        TokenTree::Ident(i) => Tok::Ident(i.to_string()),
        TokenTree::Punct(p) => Tok::Punct(p.as_char(), matches!(p.spacing(), Spacing::Joint)),
        TokenTree::Literal(l) => Tok::Literal(l.to_string()),
        TokenTree::Group(g) => Tok::Group(match g.delimiter() {
            Delimiter::Parenthesis => Delim::Paren,
            Delimiter::Brace => Delim::Brace,
            Delimiter::Bracket => Delim::Bracket,
            Delimiter::None => Delim::Invisible,
        }, g.stream().to_string()),
    }).collect())
}

/// `syn::parse_str::<syn::Ident>`: whether the text is one identifier.
/// proc-macro2's own lexer and printer are forced first
/// (`proc_macro2::fallback::force`), so the result does not depend on whether
/// the process runs inside a procedural macro.
#[verifier::external_body]
pub(crate) fn parse_ident(text: &str) -> (r: bool)
    ensures
        r == syn_ident(text@),
{
    proc_macro2::fallback::force();
    syn::parse_str::<syn::Ident>(text).is_ok()
}

/// `syn::parse_str::<syn::Expr>`: the expression's tokens as text, or `None`
/// where the text is no expression.
/// proc-macro2's own lexer and printer are forced first
/// (`proc_macro2::fallback::force`), so the result does not depend on whether
/// the process runs inside a procedural macro.
#[verifier::external_body]
pub(crate) fn parse_expr(text: &str) -> (r: Option<String>)
    ensures
        r == syn_expr(text@),
{
    proc_macro2::fallback::force();
    Some(syn::parse_str::<syn::Expr>(text).ok()?.to_token_stream().to_string())
}

/// The opening character of a group.
pub open spec fn open_text(d: Delim) -> Seq<char> {
    match d {
        Delim::Paren => seq!['('],
        Delim::Brace => seq!['{'],
        Delim::Bracket => seq!['['],
        Delim::Invisible => seq![],
    }
}

/// The closing character of a group.
pub open spec fn close_text(d: Delim) -> Seq<char> {
    match d {
        Delim::Paren => seq![')'],
        Delim::Brace => seq!['}'],
        Delim::Bracket => seq![']'],
        Delim::Invisible => seq![],
    }
}

/// How a token is written.
pub open spec fn tok_text(t: Tok) -> Seq<char> {
    match t {
        Tok::Ident(s) => s@,
        Tok::Punct(c, _) => seq![c],
        Tok::Literal(s) => s@,
        Tok::Group(d, s) => open_text(d) + seq![' '] + s@ + seq![' '] + close_text(d),
    }
}

/// What follows a token: nothing after a punctuation character joined to the
/// next one, else a space.
pub open spec fn gap(t: Tok) -> Seq<char> {
    if t matches Tok::Punct(_, true) {
        seq![]
    } else {
        seq![' ']
    }
}

/// How a run of tokens is written.
pub open spec fn tokens_text(ts: Seq<Tok>) -> Seq<char>
    decreases ts.len(),
{
    if ts.len() == 0 {
        seq![]
    } else {
        tokens_text(ts.drop_last()) + tok_text(ts.last()) + gap(ts.last())
    }
}

fn push_delim(out: &mut String, d: Delim, open: bool)
    ensures
        final(out)@ == old(out)@ + (if open { open_text(d) } else { close_text(d) }),
{
    let c = match (d, open) {
        (Delim::Paren, true) => '(',
        (Delim::Paren, false) => ')',
        (Delim::Brace, true) => '{',
        (Delim::Brace, false) => '}',
        (Delim::Bracket, true) => '[',
        (Delim::Bracket, false) => ']',
        (Delim::Invisible, _) => {
            assert(out@ =~= old(out)@ + (if open { open_text(d) } else { close_text(d) }));
            return;
        },
    };
    push_char(out, c);
    assert(out@ =~= old(out)@ + (if open { open_text(d) } else { close_text(d) }));
}

/// Appends a token and what follows it.
fn push_tok(out: &mut String, t: &Tok)
    ensures
        final(out)@ == old(out)@ + tok_text(*t) + gap(*t),
{
    match t {
        Tok::Ident(s) => { out.append(s.as_str()); },
        Tok::Punct(c, _) => { push_char(out, *c); },
        Tok::Literal(s) => { out.append(s.as_str()); },
        Tok::Group(d, s) => {
            push_delim(out, *d, true);
            push_char(out, ' ');
            out.append(s.as_str());
            push_char(out, ' ');
            push_delim(out, *d, false);
        },
    }
    let ghost mid = out@;
    match t {
        Tok::Punct(_, true) => {},
        _ => { push_char(out, ' '); },
    }
    assert(out@ =~= old(out)@ + tok_text(*t) + gap(*t));
}

/// The text of the tokens from `a` up to `b`.
pub fn text_of(ts: &Vec<Tok>, a: usize, b: usize) -> (r: String)
    requires
        a <= b <= ts@.len(),
    ensures
        r@ == tokens_text(ts@.subrange(a as int, b as int)),
{
    let mut out = String::new();
    let mut i: usize = a;
    assert(ts@.subrange(a as int, a as int) =~= Seq::<Tok>::empty());
    while i < b
        invariant
            a <= i <= b <= ts@.len(),
            out@ == tokens_text(ts@.subrange(a as int, i as int)),
        decreases b - i,
    {
        push_tok(&mut out, &ts[i]);
        assert(ts@.subrange(a as int, i + 1).drop_last() =~= ts@.subrange(a as int, i as int));
        i += 1;
    }
    out
}

/// The token at `i` is an identifier that syn reads as one.
pub open spec fn ident_at(ts: Seq<Tok>, i: int) -> bool {
    &&& 0 <= i < ts.len()
    &&& ts[i] matches Tok::Ident(s) && syn_ident(s@)
}

/// The text of the identifier token at `i`.
pub open spec fn ident_text(ts: Seq<Tok>, i: int) -> Seq<char> {
    ts[i]->Ident_0@
}

/// The token at `i` is the punctuation character `c`.
pub open spec fn punct_at(ts: Seq<Tok>, i: int, c: char) -> bool {
    &&& 0 <= i < ts.len()
    &&& ts[i] matches Tok::Punct(d, _) && d == c
}

/// The token at `i` is a brace group.
pub open spec fn brace_at(ts: Seq<Tok>, i: int) -> bool {
    &&& 0 <= i < ts.len()
    &&& ts[i] matches Tok::Group(d, _) && d == Delim::Brace
}

/// The text that a brace group at `i` encloses.
pub open spec fn group_inner(ts: Seq<Tok>, i: int) -> Seq<char> {
    ts[i]->Group_1@
}

/// Reads the identifier token at `i`.
pub fn read_ident(ts: &Vec<Tok>, i: usize) -> (r: Option<Ident>)
    ensures
        match r {
            Some(id) => ident_at(ts@, i as int) && id.written_as(ident_text(ts@, i as int)),
            None => !ident_at(ts@, i as int),
        },
{
    if i >= ts.len() {
        return None;
    }
    match &ts[i] {
        Tok::Ident(s) => {
            if parse_ident(s.as_str()) {
                Some(crate::reader::ident_from_text(s.as_str()))
            } else {
                None
            }
        },
        _ => None,
    }
}

/// Whether the token at `i` is the punctuation character `c`.
pub fn is_punct(ts: &Vec<Tok>, i: usize, c: char) -> (r: bool)
    ensures
        r == punct_at(ts@, i as int, c),
{
    if i >= ts.len() {
        return false;
    }
    match &ts[i] {
        Tok::Punct(d, _) => *d == c,
        _ => false,
    }
}

/// Whether the token at `i` is a brace group.
pub fn is_brace(ts: &Vec<Tok>, i: usize) -> (r: bool)
    ensures
        r == brace_at(ts@, i as int),
{
    if i >= ts.len() {
        return false;
    }
    match &ts[i] {
        Tok::Group(Delim::Brace, _) => true,
        _ => false,
    }
}

/// The tokens of the brace group at `i`, lexed again; `None` where there is
/// no brace group at `i`, or its text does not lex.
pub fn brace_tokens(ts: &Vec<Tok>, i: usize) -> (r: Option<Vec<Tok>>)
    ensures
        match r {
            Some(v) => brace_at(ts@, i as int) && lexed(group_inner(ts@, i as int)) == Some(v),
            None => !brace_at(ts@, i as int) || lexed(group_inner(ts@, i as int)) is None,
        },
{
    if i >= ts.len() {
        return None;
    }
    match &ts[i] {
        Tok::Group(Delim::Brace, s) => lex(s.as_str()),
        _ => None,
    }
}

} // verus!
