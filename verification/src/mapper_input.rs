//! Reading the `define_mapper` input from its text.
//!
//! The grammar, over the tokens that proc-macro2 lexes:
//! `base_name : Name , properties : { property , ... }`, where a property is
//! `name : { entry , ... }` and an entry is `key : value`. Lists may end with
//! a comma. The value of `domain_typ` and `slint_typ` is a type, that of
//! `mapper` an expression: the shortest run of tokens, ending before a
//! top-level comma or at the end of the entries, that syn reads as such.

use vstd::prelude::*;
use crate::mapper::{
    generate, generate_text, gather, spec_mapper_property, BaseName, DefineMapperInput, InfoValue, InfoValueKind,
    Expected, MapperError, MapperProperty, Properties, PropertyInfo,
};
use crate::reader::{build_ty, ty_from};
use crate::syntax::{Expr, Ty};
use crate::tokens::{
    brace_at, brace_tokens, is_brace, group_inner, ident_at, ident_text, is_punct, lex, lexed, parse_expr, punct_at,
    read_ident, syn_expr, text_of, tokens_text, Tok,
};

verus! {

/// The key of an entry.
#[derive(Debug, PartialEq, Eq, Clone, Copy)]
pub enum EntryKey {
    DomainTyp,
    SlintTyp,
    Mapper,
}

/// The entry key written as `t`, if any.
pub open spec fn entry_key(t: Seq<char>) -> Option<EntryKey> {
    if t == "domain_typ"@ {
        Some(EntryKey::DomainTyp)
    } else if t == "slint_typ"@ {
        Some(EntryKey::SlintTyp)
    } else if t == "mapper"@ {
        Some(EntryKey::Mapper)
    } else {
        None
    }
}

/// What the value of an entry is.
pub open spec fn key_kind(k: EntryKey) -> InfoValueKind {
    match k {
        EntryKey::Mapper => InfoValueKind::Expr,
        _ => InfoValueKind::Type,
    }
}

/// syn reads `text` as a value of this kind.
pub open spec fn accepts(kind: InfoValueKind, text: Seq<char>) -> bool {
    match kind {
        InfoValueKind::Type => exists|t: Ty| ty_from(text, text.len(), t),
        InfoValueKind::Expr => syn_expr(text) is Some,
    }
}

/// Where a value that starts at `start` ends: the first position from `j` on
/// that is a comma or the end and up to which syn reads the tokens as a value.
pub open spec fn value_end(ts: Seq<Tok>, start: int, j: int, kind: InfoValueKind) -> Option<int>
    decreases ts.len() - j,
{
    if j < start || j > ts.len() {
        None
    } else if (j == ts.len() || punct_at(ts, j, ',')) && accepts(kind, tokens_text(ts.subrange(start, j))) {
        Some(j)
    } else if j == ts.len() {
        None
    } else {
        value_end(ts, start, j + 1, kind)
    }
}

/// The error where the token at `i` is not the expected one; the tokens have
/// ended there when `i` is past the last token.
pub open spec fn stop(ts: Seq<Tok>, i: int, k: Expected) -> MapperError {
    MapperError::Syntax(k, i >= ts.len())
}

/// What a value of this kind is expected as.
pub open spec fn value_expected(kind: InfoValueKind) -> Expected {
    match kind {
        InfoValueKind::Type => Expected::Type,
        InfoValueKind::Expr => Expected::Expr,
    }
}

/// An entry as read: the position of its key, the key, and where its value ends.
pub type EntryAt = (int, EntryKey, int);

/// The entries from position `i` on, or the first error.
pub open spec fn read_entries(ts: Seq<Tok>, i: int) -> Result<Seq<EntryAt>, MapperError>
    decreases ts.len() - i,
{
    if i < 0 || i >= ts.len() {
        Ok(seq![])
    } else if !ident_at(ts, i) {
        Err(stop(ts, i, Expected::Ident))
    } else if !punct_at(ts, i + 1, ':') {
        Err(stop(ts, i + 1, Expected::Colon))
    } else {
        match entry_key(ident_text(ts, i)) {
            None => Err(MapperError::UnexpectedInfoField),
            Some(k) => match value_end(ts, i + 2, i + 2, key_kind(k)) {
                None => Err(stop(ts, i + 2, value_expected(key_kind(k)))),
                Some(e) => if e >= ts.len() {
                    Ok(seq![(i, k, e)])
                } else {
                    proof {
                        lemma_value_end(ts, i + 2, i + 2, key_kind(k));
                    }
                    match read_entries(ts, e + 1) {
                        Err(x) => Err(x),
                        Ok(rest) => Ok(seq![(i, k, e)] + rest),
                    }
                },
            },
        }
    }
}

/// Gathers the keys in order, as `gather` does the entries: which keys were
/// seen, or the first key seen twice.
pub open spec fn gather_keys(ks: Seq<EntryKey>) -> Result<(bool, bool, bool), MapperError>
    decreases ks.len(),
{
    if ks.len() == 0 {
        Ok((false, false, false))
    } else {
        match gather_keys(ks.drop_last()) {
            Err(e) => Err(e),
            Ok((d, s, m)) => match ks.last() {
                EntryKey::DomainTyp => if d {
                    Err(MapperError::DuplicateDomainTyp((ks.len() - 1) as usize))
                } else {
                    Ok((true, s, m))
                },
                EntryKey::SlintTyp => if s {
                    Err(MapperError::DuplicateSlintTyp((ks.len() - 1) as usize))
                } else {
                    Ok((d, true, m))
                },
                EntryKey::Mapper => if m {
                    Err(MapperError::DuplicateMapper((ks.len() - 1) as usize))
                } else {
                    Ok((d, s, true))
                },
            },
        }
    }
}

/// The checks of a property's keys: none twice, `domain_typ` and `mapper`
/// both or neither, `slint_typ` present.
pub open spec fn check_keys(ks: Seq<EntryKey>) -> Result<(), MapperError> {
    match gather_keys(ks) {
        Err(e) => Err(e),
        Ok((d, s, m)) => if d != m {
            Err(MapperError::DomainTypWithoutMapper)
        } else if !s {
            Err(MapperError::MissingSlintTyp)
        } else {
            Ok(())
        },
    }
}

/// The keys of read entries.
pub open spec fn keys_of(es: Seq<EntryAt>) -> Seq<EntryKey> {
    es.map_values(|e: EntryAt| e.1)
}

/// The error of the property at `i`, if any.
pub open spec fn property_error(ts: Seq<Tok>, i: int) -> Option<MapperError> {
    if !ident_at(ts, i) {
        Some(stop(ts, i, Expected::Ident))
    } else if !punct_at(ts, i + 1, ':') {
        Some(stop(ts, i + 1, Expected::Colon))
    } else if !brace_at(ts, i + 2) {
        Some(stop(ts, i + 2, Expected::Braces))
    } else {
        match lexed(group_inner(ts, i + 2)) {
            None => Some(MapperError::Syntax(Expected::Tokens, false)),
            Some(es) => match read_entries(es@, 0) {
                Err(e) => Some(e),
                Ok(plan) => match check_keys(keys_of(plan)) {
                    Err(e) => Some(e),
                    Ok(_) => None,
                },
            },
        }
    }
}

/// The positions of the properties from `i` on, or the first error.
pub open spec fn read_properties(ts: Seq<Tok>, i: int) -> Result<Seq<int>, MapperError>
    decreases ts.len() - i,
{
    if i < 0 || i >= ts.len() {
        Ok(seq![])
    } else {
        match property_error(ts, i) {
            Some(e) => Err(e),
            None => if i + 3 >= ts.len() {
                Ok(seq![i])
            } else if !punct_at(ts, i + 3, ',') {
                Err(stop(ts, i + 3, Expected::Comma))
            } else {
                match read_properties(ts, i + 4) {
                    Err(e) => Err(e),
                    Ok(rest) => Ok(seq![i] + rest),
                }
            },
        }
    }
}

/// The whole input read from its text: its tokens, the tokens of the
/// property list and the positions of the properties in it; or the first error.
pub open spec fn read_input(text: Seq<char>) -> Result<(Seq<Tok>, Seq<Tok>, Seq<int>), MapperError> {
    match lexed(text) {
        None => Err(MapperError::Syntax(Expected::Tokens, false)),
        Some(v) => {
            let ts = v@;
            if !ident_at(ts, 0) {
                Err(stop(ts, 0, Expected::Ident))
            } else if ident_text(ts, 0) != "base_name"@ {
                Err(MapperError::ExpectedBaseName)
            } else if !punct_at(ts, 1, ':') {
                Err(stop(ts, 1, Expected::Colon))
            } else if !ident_at(ts, 2) {
                Err(stop(ts, 2, Expected::Ident))
            } else if !punct_at(ts, 3, ',') {
                Err(stop(ts, 3, Expected::Comma))
            } else if !ident_at(ts, 4) {
                Err(stop(ts, 4, Expected::Ident))
            } else if ident_text(ts, 4) != "properties"@ {
                Err(MapperError::ExpectedProperties)
            } else if !punct_at(ts, 5, ':') {
                Err(stop(ts, 5, Expected::Colon))
            } else if !brace_at(ts, 6) {
                Err(stop(ts, 6, Expected::Braces))
            } else {
                match lexed(group_inner(ts, 6)) {
                    None => Err(MapperError::Syntax(Expected::Tokens, false)),
                    Some(pv) => match read_properties(pv@, 0) {
                        Err(e) => Err(e),
                        Ok(starts) => if ts.len() > 7 {
                            Err(stop(ts, 7, Expected::End))
                        } else {
                            Ok((ts, pv@, starts))
                        },
                    },
                }
            }
        },
    }
}

/// `info` is the entry read as `e` from `ts`: its key as written and the
/// value that syn reads from the text of the value's tokens.
pub open spec fn info_from(ts: Seq<Tok>, e: EntryAt, info: PropertyInfo) -> bool {
    let text = tokens_text(ts.subrange(e.0 + 2, e.2));
    match (e.1, info) {
        (EntryKey::DomainTyp, PropertyInfo::DomainTyp(d)) => d.ident.written_as(ident_text(ts, e.0))
            && ty_from(text, text.len(), d.typ),
        (EntryKey::SlintTyp, PropertyInfo::SlintTyp(d)) => d.ident.written_as(ident_text(ts, e.0))
            && ty_from(text, text.len(), d.typ),
        (EntryKey::Mapper, PropertyInfo::Mapper(m)) => m.ident.written_as(ident_text(ts, e.0))
            && syn_expr(text) == Some(m.expr.tokens),
        _ => false,
    }
}

/// `infos` are the entries read as `plan` from `ts`.
pub open spec fn infos_from(ts: Seq<Tok>, plan: Seq<EntryAt>, infos: Seq<PropertyInfo>) -> bool {
    &&& infos.len() == plan.len()
    &&& forall|k: int| 0 <= k < plan.len() ==> info_from(ts, #[trigger] plan[k], infos[k])
}

/// `p` is the property read at `i` from `ts`.
pub open spec fn property_from(ts: Seq<Tok>, i: int, p: MapperProperty) -> bool {
    &&& property_error(ts, i) is None
    &&& p.name.written_as(ident_text(ts, i))
    &&& exists|infos: Seq<PropertyInfo>| #[trigger] spec_mapper_property(p.name, infos) == Ok::<MapperProperty, MapperError>(p)
        && infos_from(lexed(group_inner(ts, i + 2))->Some_0@, read_entries(lexed(group_inner(ts, i + 2))->Some_0@, 0)->Ok_0, infos)
}

/// `input` is the `define_mapper` input read from `text`.
pub open spec fn input_from(text: Seq<char>, input: DefineMapperInput) -> bool {
    match read_input(text) {
        Err(_) => false,
        Ok((ts, ps, starts)) => {
            &&& input.base_name.base_name_tok.written_as(ident_text(ts, 0))
            &&& input.base_name.name.written_as(ident_text(ts, 2))
            &&& input.properties.properties_ident.written_as(ident_text(ts, 4))
            &&& input.properties.properties@.len() == starts.len()
            &&& forall|k: int| 0 <= k < starts.len() ==> property_from(ps, #[trigger] starts[k], input.properties.properties@[k])
        },
    }
}

/// The key of an entry.
pub open spec fn info_key(info: PropertyInfo) -> EntryKey {
    match info {
        PropertyInfo::DomainTyp(_) => EntryKey::DomainTyp,
        PropertyInfo::SlintTyp(_) => EntryKey::SlintTyp,
        PropertyInfo::Mapper(_) => EntryKey::Mapper,
    }
}

/// A value ends at a comma or at the end, after its start, where syn reads
/// the tokens before it as a value.
pub proof fn lemma_value_end(ts: Seq<Tok>, start: int, j: int, kind: InfoValueKind)
    ensures
        match value_end(ts, start, j, kind) {
            Some(e) => {
                &&& j <= e <= ts.len()
                &&& start <= e
                &&& e == ts.len() || punct_at(ts, e, ',')
                &&& accepts(kind, tokens_text(ts.subrange(start, e)))
            },
            None => true,
        },
    decreases ts.len() - j,
{
    if start <= j && j < ts.len() {
        lemma_value_end(ts, start, j + 1, kind);
    }
}

/// Gathering the entries and gathering their keys fail alike, and otherwise
/// see the same keys.
proof fn lemma_gather_keys(infos: Seq<PropertyInfo>, ks: Seq<EntryKey>)
    requires
        ks.len() == infos.len(),
        forall|k: int| 0 <= k < ks.len() ==> ks[k] == info_key(#[trigger] infos[k]),
    ensures
        match gather(infos) {
            Err(e) => gather_keys(ks) == Err::<(bool, bool, bool), MapperError>(e),
            Ok(g) => gather_keys(ks) == Ok::<(bool, bool, bool), MapperError>(
                (g.domain_typ is Some, g.slint_typ is Some, g.mapper is Some),
            ),
        },
    decreases infos.len(),
{
    if infos.len() > 0 {
        let a = infos.drop_last();
        let b = ks.drop_last();
        assert forall|k: int| 0 <= k < b.len() implies b[k] == info_key(#[trigger] a[k]) by {
            assert(ks[k] == info_key(infos[k]));
        }
        lemma_gather_keys(a, b);
        assert(ks.last() == info_key(infos[infos.len() - 1]));
    }
}

/// A property from its entries fails exactly as the checks of their keys do.
proof fn lemma_property_keys(name: crate::syntax::Ident, infos: Seq<PropertyInfo>, ks: Seq<EntryKey>)
    requires
        ks.len() == infos.len(),
        forall|k: int| 0 <= k < ks.len() ==> ks[k] == info_key(#[trigger] infos[k]),
    ensures
        match spec_mapper_property(name, infos) {
            Ok(_) => check_keys(ks) is Ok,
            Err(e) => check_keys(ks) == Err::<(), MapperError>(e),
        },
{
    lemma_gather_keys(infos, ks);
}

/// The error where the token at `i` is not the expected one.
fn stop_at(ts: &Vec<Tok>, i: usize, k: Expected) -> (e: MapperError)
    ensures
        e == stop(ts@, i as int, k),
{
    MapperError::Syntax(k, i >= ts.len())
}

/// Reads the value of the given kind that starts at `start`.
fn read_value(ts: &Vec<Tok>, start: usize, kind: InfoValueKind) -> (r: Option<(usize, InfoValue)>)
    requires
        start <= ts@.len(),
    ensures
        match r {
            None => value_end(ts@, start as int, start as int, kind) is None,
            Some((e, v)) => {
                let text = tokens_text(ts@.subrange(start as int, e as int));
                &&& value_end(ts@, start as int, start as int, kind) == Some(e as int)
                &&& match kind {
                    InfoValueKind::Type => v matches InfoValue::Type(t) && ty_from(text, text.len(), t),
                    InfoValueKind::Expr => v matches InfoValue::Expr(x) && syn_expr(text) == Some(x.tokens),
                }
            },
        },
{
    let mut j: usize = start;
    loop
        invariant
            start <= j <= ts@.len(),
            value_end(ts@, start as int, start as int, kind) == value_end(ts@, start as int, j as int, kind),
        decreases ts@.len() - j,
    {
        let boundary = j == ts.len() || is_punct(ts, j, ',');
        if boundary {
            let text = text_of(ts, start, j);
            match kind {
                InfoValueKind::Type => {
                    let fuel = text.as_str().unicode_len();
                    match build_ty(text.as_str(), fuel) {
                        Some(t) => {
                            assert(accepts(kind, text@));
                            return Some((j, InfoValue::Type(t)));
                        },
                        None => {
                            assert(!accepts(kind, text@));
                        },
                    }
                },
                InfoValueKind::Expr => {
                    match parse_expr(text.as_str()) {
                        Some(s) => {
                            let x = Expr { tokens: s };
                            return Some((j, InfoValue::Expr(x)));
                        },
                        None => {},
                    }
                },
            }
        }
        if j == ts.len() {
            return None;
        }
        j += 1;
    }
}

/// What is read before `r`, put in front of it.
pub open spec fn after<A>(acc: Seq<A>, r: Result<Seq<A>, MapperError>) -> Result<Seq<A>, MapperError> {
    match r {
        Err(e) => Err(e),
        Ok(rest) => Ok(acc + rest),
    }
}

proof fn lemma_after_push<A>(acc: Seq<A>, x: A, r: Result<Seq<A>, MapperError>)
    ensures
        after(acc, after(seq![x], r)) == after(acc.push(x), r),
{
    match r {
        Err(_) => {},
        Ok(rest) => {
            assert(acc + (seq![x] + rest) =~= acc.push(x) + rest);
        },
    }
}

proof fn lemma_after_empty<A>(r: Result<Seq<A>, MapperError>)
    ensures
        after(Seq::<A>::empty(), r) == r,
{
    match r {
        Err(_) => {},
        Ok(rest) => {
            assert(Seq::<A>::empty() + rest =~= rest);
        },
    }
}

/// Reads the entries of a property from their tokens.
fn read_entry_list(es: &Vec<Tok>) -> (r: Result<Vec<PropertyInfo>, MapperError>)
    ensures
        match r {
            Ok(infos) => read_entries(es@, 0) matches Ok(plan) && infos_from(es@, plan, infos@),
            Err(e) => read_entries(es@, 0) == Err::<Seq<EntryAt>, MapperError>(e),
        },
{
    let mut infos: Vec<PropertyInfo> = Vec::new();
    let ghost mut acc: Seq<EntryAt> = seq![];
    let mut i: usize = 0;
    proof {
        lemma_after_empty(read_entries(es@, 0));
    }
    loop
        invariant
            i <= es@.len(),
            read_entries(es@, 0) == after(acc, read_entries(es@, i as int)),
            infos_from(es@, acc, infos@),
        decreases es@.len() - i,
    {
        if i >= es.len() {
            assert(acc + Seq::<EntryAt>::empty() =~= acc);
            return Ok(infos);
        }
        let key = match read_ident(es, i) {
            Some(k) => k,
            None => { return Err(stop_at(es, i, Expected::Ident)); },
        };
        if !is_punct(es, i + 1, ':') {
            return Err(stop_at(es, i + 1, Expected::Colon));
        }
        let kind = match PropertyInfo::value_kind(&key) {
            Ok(k) => k,
            Err(e) => { return Err(e); },
        };
        let ghost k = entry_key(ident_text(es@, i as int))->Some_0;
        assert(key_kind(k) == kind);
        let (e, value) = match read_value(es, i + 2, kind) {
            Some(x) => x,
            None => {
                let k = match kind {
                    InfoValueKind::Type => Expected::Type,
                    InfoValueKind::Expr => Expected::Expr,
                };
                return Err(stop_at(es, i + 2, k));
            },
        };
        proof {
            lemma_value_end(es@, i + 2, i + 2, kind);
        }
        let info = match PropertyInfo::parse(key, value) {
            Ok(info) => info,
            Err(_) => vstd::pervasive::unreached(),
        };
        let ghost x: EntryAt = (i as int, k, e as int);
        assert(info_from(es@, x, info));
        infos.push(info);
        proof {
            assert(infos_from(es@, acc.push(x), infos@)) by {
                assert forall|j: int| 0 <= j < acc.push(x).len() implies info_from(es@, #[trigger] acc.push(x)[j], infos@[j]) by {
                    if j < acc.len() {
                        assert(acc.push(x)[j] == acc[j]);
                    }
                }
            }
        }
        if e >= es.len() {
            proof {
                assert(read_entries(es@, i as int) == Ok::<Seq<EntryAt>, MapperError>(seq![x]));
                assert(acc + seq![x] =~= acc.push(x));
                acc = acc.push(x);
            }
            return Ok(infos);
        }
        proof {
            assert(read_entries(es@, i as int) == after(seq![x], read_entries(es@, e + 1)));
            lemma_after_push(acc, x, read_entries(es@, e + 1));
            acc = acc.push(x);
        }
        i = e + 1;
    }
}

/// Reads the property at `i`.
fn read_property(ps: &Vec<Tok>, i: usize) -> (r: Result<MapperProperty, MapperError>)
    ensures
        match r {
            Ok(p) => property_from(ps@, i as int, p),
            Err(e) => property_error(ps@, i as int) == Some(e),
        },
{
    let name = match read_ident(ps, i) {
        Some(n) => n,
        None => { return Err(stop_at(ps, i, Expected::Ident)); },
    };
    assert(ident_at(ps@, i as int));
    assert(i < ps.len());
    if !is_punct(ps, i + 1, ':') {
        return Err(stop_at(ps, i + 1, Expected::Colon));
    }
    if !is_brace(ps, i + 2) {
        return Err(stop_at(ps, i + 2, Expected::Braces));
    }
    let es = match brace_tokens(ps, i + 2) {
        Some(v) => v,
        None => { return Err(MapperError::Syntax(Expected::Tokens, false)); },
    };
    let infos = match read_entry_list(&es) {
        Ok(v) => v,
        Err(e) => { return Err(e); },
    };
    let ghost plan = read_entries(es@, 0)->Ok_0;
    proof {
        assert forall|k: int| 0 <= k < keys_of(plan).len() implies keys_of(plan)[k] == info_key(#[trigger] infos@[k]) by {
            assert(info_from(es@, plan[k], infos@[k]));
        }
        lemma_property_keys(name, infos@, keys_of(plan));
    }
    let ghost all = infos@;
    match MapperProperty::parse(name, infos) {
        Ok(p) => {
            assert(spec_mapper_property(p.name, all) == Ok::<MapperProperty, MapperError>(p));
            Ok(p)
        },
        Err(e) => Err(e),
    }
}

/// Reads the properties from the tokens of the property list.
fn read_property_list(ps: &Vec<Tok>) -> (r: Result<Vec<MapperProperty>, MapperError>)
    ensures
        match r {
            Ok(v) => read_properties(ps@, 0) matches Ok(starts) && v@.len() == starts.len()
                && forall|k: int| 0 <= k < starts.len() ==> property_from(ps@, #[trigger] starts[k], v@[k]),
            Err(e) => read_properties(ps@, 0) == Err::<Seq<int>, MapperError>(e),
        },
{
    let mut out: Vec<MapperProperty> = Vec::new();
    let ghost mut acc: Seq<int> = seq![];
    let mut i: usize = 0;
    proof {
        lemma_after_empty(read_properties(ps@, 0));
    }
    loop
        invariant
            i <= ps@.len(),
            read_properties(ps@, 0) == after(acc, read_properties(ps@, i as int)),
            out@.len() == acc.len(),
            forall|k: int| 0 <= k < acc.len() ==> property_from(ps@, #[trigger] acc[k], out@[k]),
        decreases ps@.len() - i,
    {
        if i >= ps.len() {
            assert(acc + Seq::<int>::empty() =~= acc);
            return Ok(out);
        }
        let p = match read_property(ps, i) {
            Ok(p) => p,
            Err(e) => { return Err(e); },
        };
        out.push(p);
        let ghost x = i as int;
        proof {
            assert forall|k: int| 0 <= k < acc.push(x).len() implies property_from(ps@, #[trigger] acc.push(x)[k], out@[k]) by {
                if k < acc.len() {
                    assert(acc.push(x)[k] == acc[k]);
                }
            }
        }
        if i + 3 >= ps.len() {
            proof {
                assert(read_properties(ps@, i as int) == Ok::<Seq<int>, MapperError>(seq![x]));
                assert(acc + seq![x] =~= acc.push(x));
                acc = acc.push(x);
            }
            return Ok(out);
        }
        if !is_punct(ps, i + 3, ',') {
            return Err(stop_at(ps, i + 3, Expected::Comma));
        }
        proof {
            assert(read_properties(ps@, i as int) == after(seq![x], read_properties(ps@, i + 4)));
            lemma_after_push(acc, x, read_properties(ps@, i + 4));
            acc = acc.push(x);
        }
        i = i + 4;
    }
}

/// Reads the `define_mapper` input from its text (see the grammar above):
/// `Ok` with the input read, or the first error in reading order. A wrong
/// first or fifth identifier is refused as `ExpectedBaseName` or
/// `ExpectedProperties`; a property's own checks are those of
/// `MapperProperty::parse`; anything else that breaks the grammar is `Syntax`,
/// with what was expected there.
pub fn parse_define_mapper_input(text: &str) -> (r: Result<DefineMapperInput, MapperError>)
    ensures
        r is Ok <==> read_input(text@) is Ok,
        match r {
            Ok(input) => input_from(text@, input),
            Err(e) => read_input(text@) == Err::<(Seq<Tok>, Seq<Tok>, Seq<int>), MapperError>(e),
        },
{
    let ts = match lex(text) {
        Some(v) => v,
        None => { return Err(MapperError::Syntax(Expected::Tokens, false)); },
    };
    let base_name_tok = match read_ident(&ts, 0) {
        Some(id) => id,
        None => { return Err(stop_at(&ts, 0, Expected::Ident)); },
    };
    if let Err(e) = BaseName::check_keyword(&base_name_tok) {
        return Err(e);
    }
    if !is_punct(&ts, 1, ':') {
        return Err(stop_at(&ts, 1, Expected::Colon));
    }
    let name = match read_ident(&ts, 2) {
        Some(id) => id,
        None => { return Err(stop_at(&ts, 2, Expected::Ident)); },
    };
    if !is_punct(&ts, 3, ',') {
        return Err(stop_at(&ts, 3, Expected::Comma));
    }
    let properties_ident = match read_ident(&ts, 4) {
        Some(id) => id,
        None => { return Err(stop_at(&ts, 4, Expected::Ident)); },
    };
    if let Err(e) = Properties::check_keyword(&properties_ident) {
        return Err(e);
    }
    if !is_punct(&ts, 5, ':') {
        return Err(stop_at(&ts, 5, Expected::Colon));
    }
    if !is_brace(&ts, 6) {
        return Err(stop_at(&ts, 6, Expected::Braces));
    }
    let ps = match brace_tokens(&ts, 6) {
        Some(v) => v,
        None => { return Err(MapperError::Syntax(Expected::Tokens, false)); },
    };
    let properties = match read_property_list(&ps) {
        Ok(v) => v,
        Err(e) => { return Err(e); },
    };
    if ts.len() > 7 {
        return Err(stop_at(&ts, 7, Expected::End));
    }
    let input = DefineMapperInput {
        base_name: BaseName { base_name_tok, name },
        properties: Properties { properties_ident, properties },
    };
    assert(input_from(text@, input));
    Ok(input)
}

/// The expansion of `define_mapper_impl!`: the mapper implementation
/// generated from the input read from `text`, or the error that refused it.
pub fn define_mapper(text: &str) -> (r: Result<String, MapperError>)
    ensures
        r is Ok <==> read_input(text@) is Ok,
        match r {
            Ok(out) => exists|input: DefineMapperInput| input_from(text@, input) && out@ == #[trigger] generate_text(input),
            Err(e) => read_input(text@) == Err::<(Seq<Tok>, Seq<Tok>, Seq<int>), MapperError>(e),
        },
{
    match parse_define_mapper_input(text) {
        Ok(input) => {
            let ghost i = input;
            let out = generate(input);
            assert(input_from(text@, i) && out@ == generate_text(i));
            Ok(out)
        },
        Err(e) => Err(e),
    }
}

/// One property read on its own from its text: its tokens, or the first error.
pub open spec fn read_property_text(text: Seq<char>) -> Result<Seq<Tok>, MapperError> {
    match lexed(text) {
        None => Err(MapperError::Syntax(Expected::Tokens, false)),
        Some(v) => match property_error(v@, 0) {
            Some(e) => Err(e),
            None => if v@.len() > 3 {
                Err(stop(v@, 3, Expected::End))
            } else {
                Ok(v@)
            },
        },
    }
}

/// Reads one property, `name: { entry, ... }`, from its text.
pub fn parse_mapper_property(text: &str) -> (r: Result<MapperProperty, MapperError>)
    ensures
        r is Ok <==> read_property_text(text@) is Ok,
        match r {
            Ok(p) => property_from(read_property_text(text@)->Ok_0, 0, p),
            Err(e) => read_property_text(text@) == Err::<Seq<Tok>, MapperError>(e),
        },
{
    let ts = match lex(text) {
        Some(v) => v,
        None => { return Err(MapperError::Syntax(Expected::Tokens, false)); },
    };
    let p = match read_property(&ts, 0) {
        Ok(p) => p,
        Err(e) => { return Err(e); },
    };
    if ts.len() > 3 {
        return Err(stop_at(&ts, 3, Expected::End));
    }
    Ok(p)
}

} // verus!
