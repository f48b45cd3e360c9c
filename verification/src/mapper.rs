//! The `define_mapper` input and the mapper implementation generated from it.
//!
//! Input grammar:
//! `base_name: Xxx, properties: { yyy: { domain_typ: T, slint_typ: U, mapper: expr }, ... }`,
//! where each property needs `slint_typ` and takes `domain_typ` and `mapper`
//! together or not at all.

use vstd::prelude::*;
use crate::naming::{mapper_trait_ident, mapper_trait_member_type_ident, mapper_trait_name, member_type_name};
use crate::syntax::{Expr, Ident, Path, PathArguments, PathSegment, Ty, TyKind};
use crate::text::{lemma_occurs_extend, lemma_occurs_self, lemma_occurs_trans, lemma_take_step, occurs_in};

verus! {

/// Why the `define_mapper` input was refused.
#[derive(Debug, PartialEq, Eq, Clone, Copy)]
pub enum MapperError {
    ExpectedBaseName,
    ExpectedProperties,
    UnexpectedInfoField,
    /// The entry at this position repeats `domain_typ`.
    DuplicateDomainTyp(usize),
    /// The entry at this position repeats `slint_typ`.
    DuplicateSlintTyp(usize),
    /// The entry at this position repeats `mapper`.
    DuplicateMapper(usize),
    DomainTypWithoutMapper,
    MissingSlintTyp,
    /// The tokens do not follow the grammar, or syn reads no type or
    /// expression where one is due: what was expected, and whether the
    /// tokens (of the input or of a brace group) had ended there.
    Syntax(Expected, bool),
}

/// What the reading expected where it stopped.
#[derive(Debug, PartialEq, Eq, Clone, Copy)]
pub enum Expected {
    /// Text that lexes into tokens.
    Tokens,
    Ident,
    Colon,
    Comma,
    Braces,
    Type,
    Expr,
    /// Nothing more.
    End,
}

/// What syn says it expected, for the parts of the grammar.
pub open spec fn expected_message(k: Expected) -> Seq<char> {
    match k {
        Expected::Tokens => "cannot parse string into token stream"@,
        Expected::Ident => "expected identifier"@,
        Expected::Colon => "expected `:`"@,
        Expected::Comma => "expected `,`"@,
        Expected::Braces => "expected curly braces"@,
        Expected::Type => "expected type"@,
        Expected::Expr => "expected expression"@,
        Expected::End => "unexpected token"@,
    }
}

/// The message of each error.
pub open spec fn mapper_error_message(e: MapperError) -> Seq<char> {
    match e {
        MapperError::ExpectedBaseName => "expected 'base_name'"@,
        MapperError::ExpectedProperties => "expected 'properties'"@,
        MapperError::UnexpectedInfoField => "unexpected property info field"@,
        MapperError::DuplicateDomainTyp(_) => "found multiple entry of 'domain_typ'"@,
        MapperError::DuplicateSlintTyp(_) => "found multiple entry of 'slint_typ'"@,
        MapperError::DuplicateMapper(_) => "found multiple entry of 'mapper'"@,
        MapperError::DomainTypWithoutMapper => "only one of 'domain_typ' and 'mapper' is passed as input. you need to specify both of them or none of them."@,
        MapperError::MissingSlintTyp => "no entry of 'slint_typ' found"@,
        MapperError::Syntax(k, at_end) => if at_end {
            "unexpected end of input, "@ + expected_message(k)
        } else {
            expected_message(k)
        },
    }
}

impl MapperError {
    /// The error message.
    pub fn message(&self) -> (r: &'static str)
        ensures
            r@ == mapper_error_message(*self),
    {
        match self {
            MapperError::ExpectedBaseName => "expected 'base_name'",
            MapperError::ExpectedProperties => "expected 'properties'",
            MapperError::UnexpectedInfoField => "unexpected property info field",
            MapperError::DuplicateDomainTyp(_) => "found multiple entry of 'domain_typ'",
            MapperError::DuplicateSlintTyp(_) => "found multiple entry of 'slint_typ'",
            MapperError::DuplicateMapper(_) => "found multiple entry of 'mapper'",
            MapperError::DomainTypWithoutMapper => "only one of 'domain_typ' and 'mapper' is passed as input. you need to specify both of them or none of them.",
            MapperError::MissingSlintTyp => "no entry of 'slint_typ' found",
            MapperError::Syntax(k, at_end) => {
                proof {
                    reveal_strlit("unexpected end of input, ");
                    reveal_strlit("cannot parse string into token stream");
                    reveal_strlit("unexpected end of input, cannot parse string into token stream");
                    reveal_strlit("expected identifier");
                    reveal_strlit("unexpected end of input, expected identifier");
                    reveal_strlit("expected `:`");
                    reveal_strlit("unexpected end of input, expected `:`");
                    reveal_strlit("expected `,`");
                    reveal_strlit("unexpected end of input, expected `,`");
                    reveal_strlit("expected curly braces");
                    reveal_strlit("unexpected end of input, expected curly braces");
                    reveal_strlit("expected type");
                    reveal_strlit("unexpected end of input, expected type");
                    reveal_strlit("expected expression");
                    reveal_strlit("unexpected end of input, expected expression");
                    reveal_strlit("unexpected token");
                    reveal_strlit("unexpected end of input, unexpected token");
                }
                match (k, at_end) {
                    (Expected::Tokens, false) => "cannot parse string into token stream",
                    (Expected::Tokens, true) => "unexpected end of input, cannot parse string into token stream",
                    (Expected::Ident, false) => "expected identifier",
                    (Expected::Ident, true) => "unexpected end of input, expected identifier",
                    (Expected::Colon, false) => "expected `:`",
                    (Expected::Colon, true) => "unexpected end of input, expected `:`",
                    (Expected::Comma, false) => "expected `,`",
                    (Expected::Comma, true) => "unexpected end of input, expected `,`",
                    (Expected::Braces, false) => "expected curly braces",
                    (Expected::Braces, true) => "unexpected end of input, expected curly braces",
                    (Expected::Type, false) => "expected type",
                    (Expected::Type, true) => "unexpected end of input, expected type",
                    (Expected::Expr, false) => "expected expression",
                    (Expected::Expr, true) => "unexpected end of input, expected expression",
                    (Expected::End, false) => "unexpected token",
                    (Expected::End, true) => "unexpected end of input, unexpected token",
                }
            },
        }
    }
}

/// The whole `define_mapper` input.
pub struct DefineMapperInput {
    pub base_name: BaseName,
    pub properties: Properties,
}

/// `base_name: Xxx`.
pub struct BaseName {
    pub base_name_tok: Ident,
    pub name: Ident,
}

/// `properties: { ... }`.
pub struct Properties {
    pub properties_ident: Ident,
    pub properties: Vec<MapperProperty>,
}

/// `yyy: { domain_typ: T, slint_typ: U, mapper: expr }`.
pub struct MapperProperty {
    pub name: Ident,
    pub domain_typ: Option<DomainTypEntry>,
    pub slint_typ: SlintTypEntry,
    pub mapper: Option<MapperEntry>,
}

/// `domain_typ: T`.
pub struct DomainTypEntry {
    pub ident: Ident,
    pub typ: Ty,
}

/// `slint_typ: U`.
pub struct SlintTypEntry {
    pub ident: Ident,
    pub typ: Ty,
}

/// `mapper: expr`.
pub struct MapperEntry {
    pub ident: Ident,
    pub expr: Expr,
}

/// One entry of a property.
pub enum PropertyInfo {
    DomainTyp(DomainTypEntry),
    SlintTyp(SlintTypEntry),
    Mapper(MapperEntry),
}

/// What follows the colon of an entry.
#[derive(Debug, PartialEq, Eq, Clone, Copy)]
pub enum InfoValueKind {
    Type,
    Expr,
}

/// The value of an entry, as parsed.
pub enum InfoValue {
    Type(Ty),
    Expr(Expr),
}

/// What an entry key asks to parse: `domain_typ` and `slint_typ` a type,
/// `mapper` an expression; any other key is refused.
pub open spec fn info_value_kind(key: Ident) -> Result<InfoValueKind, MapperError> {
    if key.text() == "domain_typ"@ || key.text() == "slint_typ"@ {
        Ok(InfoValueKind::Type)
    } else if key.text() == "mapper"@ {
        Ok(InfoValueKind::Expr)
    } else {
        Err(MapperError::UnexpectedInfoField)
    }
}

/// The value fits the key.
pub open spec fn value_fits(key: Ident, v: InfoValue) -> bool {
    match info_value_kind(key) {
        Ok(InfoValueKind::Type) => v is Type,
        Ok(InfoValueKind::Expr) => v is Expr,
        Err(_) => true,
    }
}

/// The entry made of a key and a value that fits it.
pub open spec fn spec_property_info(key: Ident, v: InfoValue) -> Result<PropertyInfo, MapperError> {
    if key.text() == "domain_typ"@ {
        Ok(PropertyInfo::DomainTyp(DomainTypEntry { ident: key, typ: v->Type_0 }))
    } else if key.text() == "slint_typ"@ {
        Ok(PropertyInfo::SlintTyp(SlintTypEntry { ident: key, typ: v->Type_0 }))
    } else if key.text() == "mapper"@ {
        Ok(PropertyInfo::Mapper(MapperEntry { ident: key, expr: v->Expr_0 }))
    } else {
        Err(MapperError::UnexpectedInfoField)
    }
}

impl PropertyInfo {
    /// What the key of an entry asks to parse after its colon.
    pub fn value_kind(key: &Ident) -> (r: Result<InfoValueKind, MapperError>)
        ensures
            r == info_value_kind(*key),
    {
        if key.is("domain_typ") || key.is("slint_typ") {
            Ok(InfoValueKind::Type)
        } else if key.is("mapper") {
            Ok(InfoValueKind::Expr)
        } else {
            Err(MapperError::UnexpectedInfoField)
        }
    }

    /// Makes an entry of its key and the value parsed for it.
    pub fn parse(key: Ident, value: InfoValue) -> (r: Result<PropertyInfo, MapperError>)
        requires
            value_fits(key, value),
        ensures
            r == spec_property_info(key, value),
    {
        if key.is("domain_typ") {
            match value {
                InfoValue::Type(typ) => Ok(PropertyInfo::DomainTyp(DomainTypEntry { ident: key, typ })),
                InfoValue::Expr(_) => vstd::pervasive::unreached(),
            }
        } else if key.is("slint_typ") {
            match value {
                InfoValue::Type(typ) => Ok(PropertyInfo::SlintTyp(SlintTypEntry { ident: key, typ })),
                InfoValue::Expr(_) => vstd::pervasive::unreached(),
            }
        } else if key.is("mapper") {
            match value {
                InfoValue::Expr(expr) => Ok(PropertyInfo::Mapper(MapperEntry { ident: key, expr })),
                InfoValue::Type(_) => vstd::pervasive::unreached(),
            }
        } else {
            Err(MapperError::UnexpectedInfoField)
        }
    }
}

impl BaseName {
    /// The keyword that opens the input must be `base_name`.
    pub fn check_keyword(base_name_tok: &Ident) -> (r: Result<(), MapperError>)
        ensures
            r is Ok <==> base_name_tok.text() == "base_name"@,
            r is Err ==> r == Err::<(), MapperError>(MapperError::ExpectedBaseName),
    {
        if base_name_tok.is("base_name") {
            Ok(())
        } else {
            Err(MapperError::ExpectedBaseName)
        }
    }
}

impl Properties {
    /// The keyword of the property list must be `properties`.
    pub fn check_keyword(properties_ident: &Ident) -> (r: Result<(), MapperError>)
        ensures
            r is Ok <==> properties_ident.text() == "properties"@,
            r is Err ==> r == Err::<(), MapperError>(MapperError::ExpectedProperties),
    {
        if properties_ident.is("properties") {
            Ok(())
        } else {
            Err(MapperError::ExpectedProperties)
        }
    }
}

/// The entries of a property gathered so far.
pub struct Gathered {
    pub domain_typ: Option<DomainTypEntry>,
    pub slint_typ: Option<SlintTypEntry>,
    pub mapper: Option<MapperEntry>,
}

/// Gathers the entries in order; a second entry of a kind is refused.
pub open spec fn gather(infos: Seq<PropertyInfo>) -> Result<Gathered, MapperError>
    decreases infos.len(),
{
    if infos.len() == 0 {
        Ok(Gathered { domain_typ: None, slint_typ: None, mapper: None })
    } else {
        match gather(infos.drop_last()) {
            Err(e) => Err(e),
            Ok(g) => match infos.last() {
                PropertyInfo::DomainTyp(v) => if g.domain_typ is Some {
                    Err(MapperError::DuplicateDomainTyp((infos.len() - 1) as usize))
                } else {
                    Ok(Gathered { domain_typ: Some(v), ..g })
                },
                PropertyInfo::SlintTyp(v) => if g.slint_typ is Some {
                    Err(MapperError::DuplicateSlintTyp((infos.len() - 1) as usize))
                } else {
                    Ok(Gathered { slint_typ: Some(v), ..g })
                },
                PropertyInfo::Mapper(v) => if g.mapper is Some {
                    Err(MapperError::DuplicateMapper((infos.len() - 1) as usize))
                } else {
                    Ok(Gathered { mapper: Some(v), ..g })
                },
            },
        }
    }
}

/// A property from its entries: no kind twice, `domain_typ` and `mapper`
/// both or neither, and `slint_typ` present.
pub open spec fn spec_mapper_property(name: Ident, infos: Seq<PropertyInfo>) -> Result<MapperProperty, MapperError> {
    match gather(infos) {
        Err(e) => Err(e),
        Ok(g) => if (g.domain_typ is Some) != (g.mapper is Some) {
            Err(MapperError::DomainTypWithoutMapper)
        } else if g.slint_typ is None {
            Err(MapperError::MissingSlintTyp)
        } else {
            Ok(MapperProperty { name, domain_typ: g.domain_typ, slint_typ: g.slint_typ->Some_0, mapper: g.mapper })
        },
    }
}

impl MapperProperty {
    /// Makes a property of its name and its entries (see `spec_mapper_property`).
    pub fn parse(name: Ident, infos: Vec<PropertyInfo>) -> (r: Result<MapperProperty, MapperError>)
        ensures
            r == spec_mapper_property(name, infos@),
            r matches Ok(p) ==> (p.domain_typ is Some) == (p.mapper is Some),
    {
        let ghost all = infos@;
        let total: usize = infos.len();
        let mut rest = infos;
        let mut domain_typ: Option<DomainTypEntry> = None;
        let mut slint_typ: Option<SlintTypEntry> = None;
        let mut mapper: Option<MapperEntry> = None;
        let mut i: usize = 0;
        assert(all.skip(0) =~= all);
        assert(all.take(0) =~= Seq::<PropertyInfo>::empty());
        while rest.len() > 0
            invariant
                all.len() == total,
                all == infos@,
                i <= all.len(),
                rest@ == all.skip(i as int),
                gather(all.take(i as int)) == Ok::<Gathered, MapperError>(Gathered { domain_typ, slint_typ, mapper }),
            decreases rest@.len(),
        {
            let ghost before = rest@;
            assert(before.len() == all.len() - i);
            let info = rest.remove(0);
            proof {
                assert(before[0] == all[i as int]);
                assert(rest@ =~= all.skip(i + 1));
                lemma_take_step(all, i as int);
            }
            match info {
                PropertyInfo::DomainTyp(v) => {
                    if domain_typ.is_some() {
                        proof { lemma_gather_err_sticks(all, i as int + 1, MapperError::DuplicateDomainTyp(i)); }
                        return Err(MapperError::DuplicateDomainTyp(i));
                    }
                    domain_typ = Some(v);
                },
                PropertyInfo::SlintTyp(v) => {
                    if slint_typ.is_some() {
                        proof { lemma_gather_err_sticks(all, i as int + 1, MapperError::DuplicateSlintTyp(i)); }
                        return Err(MapperError::DuplicateSlintTyp(i));
                    }
                    slint_typ = Some(v);
                },
                PropertyInfo::Mapper(v) => {
                    if mapper.is_some() {
                        proof { lemma_gather_err_sticks(all, i as int + 1, MapperError::DuplicateMapper(i)); }
                        return Err(MapperError::DuplicateMapper(i));
                    }
                    mapper = Some(v);
                },
            }
            i += 1;
        }
        assert(all.take(i as int) =~= all);
        if domain_typ.is_some() != mapper.is_some() {
            return Err(MapperError::DomainTypWithoutMapper);
        }
        match slint_typ {
            Some(slint_typ) => Ok(MapperProperty { name, domain_typ, slint_typ, mapper }),
            None => Err(MapperError::MissingSlintTyp),
        }
    }
}

/// Once gathering fails, taking more entries keeps the failure.
proof fn lemma_gather_err_sticks(all: Seq<PropertyInfo>, k: int, e: MapperError)
    requires
        0 <= k <= all.len(),
        gather(all.take(k)) == Err::<Gathered, MapperError>(e),
    ensures
        gather(all) == Err::<Gathered, MapperError>(e),
    decreases all.len() - k,
{
    if k < all.len() {
        lemma_take_step(all, k);
        lemma_gather_err_sticks(all, k + 1, e);
    } else {
        assert(all.take(k) =~= all);
    }
}

// ---------------------------------------------------------------------------
// Generation

/// `sp::SharedString`: a path type whose first two segments are, as written,
/// `sp` and `SharedString` (their arguments and any further segments ignored).
pub open spec fn is_sp_shared_string(t: Ty) -> bool {
    &&& t.is_path()
    &&& t.path().segments@.len() >= 2
    &&& t.path().segments@[0].ident.text() == "sp"@
    &&& t.path().segments@[1].ident.text() == "SharedString"@
}

/// The type `slint::SharedString`.
pub open spec fn is_slint_shared_string(t: Ty) -> bool {
    &&& t.kind matches TyKind::Path { qself, path } && !qself && !path.leading_colon
    &&& t.path().segments@.len() == 2
    &&& t.path().segments@[0].ident.sym@ == "slint"@ && !t.path().segments@[0].ident.raw
    &&& t.path().segments@[0].arguments is Empty
    &&& t.path().segments@[1].ident.sym@ == "SharedString"@ && !t.path().segments@[1].ident.raw
    &&& t.path().segments@[1].arguments is Empty
    &&& t.path().tokens@ == "slint :: SharedString"@
    &&& t.tokens@ == "slint :: SharedString"@
}

/// The tokens of a UI type once `sp::SharedString` is replaced by `slint::SharedString`.
pub open spec fn mapped_tokens(t: Ty) -> Seq<char> {
    if is_sp_shared_string(t) {
        "slint :: SharedString"@
    } else {
        t.tokens@
    }
}

fn segment(name: &str) -> (r: PathSegment)
    ensures
        r.ident.sym@ == name@,
        !r.ident.raw,
        r.arguments is Empty,
{
    PathSegment { ident: Ident::new(String::from_str(name)), arguments: PathArguments::Empty }
}

fn is_sp_shared_string_exec(t: &Ty) -> (r: bool)
    ensures
        r == is_sp_shared_string(*t),
{
    match &t.kind {
        TyKind::Path { path, .. } => {
            path.segments.len() >= 2 && path.segments[0].ident.is("sp") && path.segments[1].ident.is("SharedString")
        },
        _ => false,
    }
}

/// Maps `sp::Xxx` to `slint::Xxx`: `sp::SharedString` becomes
/// `slint::SharedString`; any other type is returned unchanged.
pub fn map_slint_private_type(typ: Ty) -> (r: Ty)
    ensures
        is_sp_shared_string(typ) ==> is_slint_shared_string(r),
        !is_sp_shared_string(typ) ==> r == typ,
        r.tokens@ == mapped_tokens(typ),
{
    if is_sp_shared_string_exec(&typ) {
        let mut segments: Vec<PathSegment> = Vec::new();
        segments.push(segment("slint"));
        segments.push(segment("SharedString"));
        let path = Path { leading_colon: false, segments, tokens: String::from_str("slint :: SharedString") };
        Ty { kind: TyKind::Path { qself: false, path }, tokens: String::from_str("slint :: SharedString") }
    } else {
        typ
    }
}

/// The domain type of a property: its `domain_typ`, else its UI type.
pub open spec fn domain_tokens(p: MapperProperty) -> Seq<char> {
    match p.domain_typ {
        Some(d) => d.typ.tokens@,
        None => mapped_tokens(p.slint_typ.typ),
    }
}

/// The mapper of a property: its `mapper`, else the identity on its domain type.
pub open spec fn mapper_tokens(p: MapperProperty) -> Seq<char> {
    match p.mapper {
        Some(m) => m.expr.tokens@,
        None => "|value: "@ + domain_tokens(p) + "| value"@,
    }
}

/// A property's part of the mapper impl.
pub open spec fn impl_item(p: MapperProperty) -> Seq<char> {
    "type "@ + member_type_name(p.name) + " = "@ + domain_tokens(p) + "; fn map_"@ + p.name.sym@
        + "(value: Self::"@ + member_type_name(p.name) + ") -> "@ + mapped_tokens(p.slint_typ.typ) + " { ("@
        + mapper_tokens(p) + ")(value) } "@
}

pub open spec fn impl_items(ps: Seq<MapperProperty>) -> Seq<char>
    decreases ps.len(),
{
    if ps.len() == 0 {
        Seq::empty()
    } else {
        impl_items(ps.drop_last()) + impl_item(ps.last())
    }
}

/// The struct `Mapper` implementing `XxxPropertyMappers` with the given
/// domain types and mappers.
pub open spec fn generate_text(input: DefineMapperInput) -> Seq<char> {
    "#[derive(Debug, Clone)] pub struct Mapper; impl "@ + mapper_trait_name(input.base_name.name)
        + " for Mapper { "@ + impl_items(input.properties.properties@) + "} "@
}

fn push_mapped_tokens(out: &mut String, t: &Ty)
    ensures
        final(out)@ == old(out)@ + mapped_tokens(*t),
{
    if is_sp_shared_string_exec(t) {
        out.append("slint :: SharedString");
    } else {
        out.append(t.tokens.as_str());
    }
}

fn push_domain_tokens(out: &mut String, p: &MapperProperty)
    ensures
        final(out)@ == old(out)@ + domain_tokens(*p),
{
    match &p.domain_typ {
        Some(d) => out.append(d.typ.tokens.as_str()),
        None => push_mapped_tokens(out, &p.slint_typ.typ),
    }
}

fn push_impl_item(out: &mut String, p: &MapperProperty)
    ensures
        final(out)@ == old(out)@ + impl_item(*p),
{
    let member = mapper_trait_member_type_ident(&p.name);
    let mut s = String::new();
    s.append("type ");
    s.append(member.sym.as_str());
    s.append(" = ");
    push_domain_tokens(&mut s, p);
    s.append("; fn map_");
    s.append(p.name.sym.as_str());
    s.append("(value: Self::");
    s.append(member.sym.as_str());
    s.append(") -> ");
    push_mapped_tokens(&mut s, &p.slint_typ.typ);
    s.append(" { (");
    match &p.mapper {
        Some(m) => s.append(m.expr.tokens.as_str()),
        None => {
            let ghost before = s@;
            s.append("|value: ");
            push_domain_tokens(&mut s, p);
            s.append("| value");
            assert(s@ =~= before + mapper_tokens(*p));
        },
    }
    s.append(")(value) } ");
    assert(s@ =~= impl_item(*p));
    out.append(s.as_str());
}

/// Generates the mapper implementation for a `define_mapper` input.
pub fn generate(input: DefineMapperInput) -> (r: String)
    ensures
        r@ == generate_text(input),
{
    let mapper_trait = mapper_trait_ident(&input.base_name.name);
    let ps = &input.properties.properties;
    let mut s = String::new();
    s.append("#[derive(Debug, Clone)] pub struct Mapper; impl ");
    s.append(mapper_trait.sym.as_str());
    s.append(" for Mapper { ");
    let ghost start = s@;
    let mut i: usize = 0;
    assert(ps@.take(0) =~= Seq::<MapperProperty>::empty());
    assert(start + Seq::<char>::empty() =~= start);
    while i < ps.len()
        invariant
            i <= ps@.len(),
            s@ == start + impl_items(ps@.take(i as int)),
        decreases ps@.len() - i,
    {
        proof {
            lemma_take_step(ps@, i as int);
        }
        push_impl_item(&mut s, &ps[i]);
        assert(s@ =~= start + impl_items(ps@.take(i + 1)));
        i += 1;
    }
    assert(ps@.take(ps@.len() as int) =~= ps@);
    s.append("} ");
    assert(s@ =~= generate_text(input));
    s
}

/// Mapping `sp` types is idempotent: whatever `map_slint_private_type`
/// returns is no `sp::SharedString`, so mapping it again leaves it unchanged.
pub proof fn lemma_map_slint_private_type_idempotent(typ: Ty, r: Ty)
    requires
        is_sp_shared_string(typ) ==> is_slint_shared_string(r),
        !is_sp_shared_string(typ) ==> r == typ,
    ensures
        !is_sp_shared_string(r),
        mapped_tokens(r) == r.tokens@,
{
    reveal_strlit("sp");
    reveal_strlit("slint");
    if is_sp_shared_string(typ) {
        assert(r.path().segments@[0].ident.text() == "slint"@);
        assert("slint"@.len() != "sp"@.len());
    }
}

/// Two outcomes agree: both succeed with the same value, or both fail.
pub open spec fn same_outcome<A>(x: Result<A, MapperError>, y: Result<A, MapperError>) -> bool {
    &&& (x is Ok <==> y is Ok)
    &&& (x is Ok ==> x == y)
}

/// `s` with the entries at `i` and `i + 1` exchanged.
pub open spec fn swap_adjacent<A>(s: Seq<A>, i: int) -> Seq<A> {
    s.update(i, s[i + 1]).update(i + 1, s[i])
}

proof fn lemma_gather_swap(s: Seq<PropertyInfo>, i: int, k: int)
    requires
        0 <= i,
        i + 2 <= k <= s.len(),
    ensures
        same_outcome(gather(s.take(k)), gather(swap_adjacent(s, i).take(k))),
    decreases k,
{
    let t = swap_adjacent(s, i);
    lemma_take_step(s, k - 1);
    lemma_take_step(t, k - 1);
    if k == i + 2 {
        lemma_take_step(s, i);
        lemma_take_step(t, i);
        assert(s.take(i) =~= t.take(i));
        assert(t[i] == s[i + 1]);
        assert(t[i + 1] == s[i]);
    } else {
        lemma_gather_swap(s, i, k - 1);
        assert(t[k - 1] == s[k - 1]);
    }
}

/// Exchanging two neighbouring entries keeps the outcome of gathering.
proof fn lemma_entry_swap(infos: Seq<PropertyInfo>, i: int)
    requires
        0 <= i,
        i + 1 < infos.len(),
    ensures
        same_outcome(gather(infos), gather(swap_adjacent(infos, i))),
{
    let t = swap_adjacent(infos, i);
    lemma_gather_swap(infos, i, infos.len() as int);
    assert(infos.take(infos.len() as int) =~= infos);
    assert(t.take(t.len() as int) =~= t);
}

/// One more entry, the same on both sides, keeps two agreeing outcomes agreeing.
proof fn lemma_gather_push(a: Seq<PropertyInfo>, b: Seq<PropertyInfo>, x: PropertyInfo)
    requires
        same_outcome(gather(a), gather(b)),
    ensures
        same_outcome(gather(a.push(x)), gather(b.push(x))),
{
    assert(a.push(x).drop_last() =~= a);
    assert(b.push(x).drop_last() =~= b);
}

/// Moving the entry at `j` to the end keeps the outcome.
proof fn lemma_gather_move_to_end(t: Seq<PropertyInfo>, j: int)
    requires
        0 <= j < t.len(),
    ensures
        same_outcome(gather(t), gather(t.remove(j).push(t[j]))),
    decreases t.len() - j,
{
    if j + 1 < t.len() {
        let u = swap_adjacent(t, j);
        lemma_entry_swap(t, j);
        lemma_gather_move_to_end(u, j + 1);
        assert(u.remove(j + 1) =~= t.remove(j));
        assert(u[j + 1] == t[j]);
    } else {
        assert(t.remove(j).push(t[j]) =~= t);
    }
}

/// Entries gathered in any order give the same outcome.
proof fn lemma_gather_reorder(s: Seq<PropertyInfo>, t: Seq<PropertyInfo>)
    requires
        s.to_multiset() == t.to_multiset(),
    ensures
        same_outcome(gather(s), gather(t)),
    decreases s.len(),
{
    broadcast use vstd::seq_lib::group_to_multiset_ensures, vstd::multiset::group_multiset_axioms;

    if s.len() == 0 {
        assert(s.len() == s.to_multiset().len());
        assert(t.len() == t.to_multiset().len());
        assert(s =~= t);
    } else {
        let x = s.last();
        assert(s.contains(x)) by {
            assert(s[s.len() - 1] == x);
        }
        assert(s.to_multiset().count(x) > 0);
        assert(t.contains(x));
        let j = t.lemma_contains_to_index(x);
        lemma_gather_move_to_end(t, j);
        let a = s.drop_last();
        let b = t.remove(j);
        assert(s =~= a.push(x));
        assert(a.to_multiset() =~= b.to_multiset()) by {
            assert(a.push(x).to_multiset() =~= a.to_multiset().insert(x));
            assert(b.to_multiset() =~= t.to_multiset().remove(x));
        }
        lemma_gather_reorder(a, b);
        lemma_gather_push(a, b, x);
        assert(t.remove(j).push(t[j]) == b.push(x));
    }
}

/// The order of a property's entries does not matter: the same entries,
/// listed in any order, are accepted or refused alike, and when accepted make
/// the same property.
pub proof fn lemma_entry_order_irrelevant(name: Ident, infos: Seq<PropertyInfo>, reordered: Seq<PropertyInfo>)
    requires
        infos.to_multiset() == reordered.to_multiset(),
    ensures
        same_outcome(spec_mapper_property(name, infos), spec_mapper_property(name, reordered)),
{
    lemma_gather_reorder(infos, reordered);
}

/// The head `fn map_yyy(value: Self::YyyMappedType) -> ` of the map function
/// for a property: named by the property's plain symbol, without `r#`.
pub open spec fn map_fn_head(name: Ident) -> Seq<char> {
    "fn map_"@ + name.sym@ + "(value: Self::"@ + member_type_name(name) + ") -> "@
}

proof fn lemma_impl_item_occurs(ps: Seq<MapperProperty>, k: int)
    requires
        0 <= k < ps.len(),
    ensures
        occurs_in(impl_item(ps[k]), impl_items(ps)),
    decreases ps.len(),
{
    if k == ps.len() - 1 {
        lemma_occurs_self(impl_item(ps[k]));
    } else {
        lemma_impl_item_occurs(ps.drop_last(), k);
    }
    lemma_occurs_extend(impl_item(ps[k]), impl_items(ps.drop_last()), impl_item(ps.last()));
}

/// The generated `Mapper` defines, for every property of the input, the map
/// function `fn map_yyy(value: Self::YyyMappedType) -> ` named by the
/// property's plain symbol, as the mapper trait declares it.
pub proof fn lemma_mapper_impl_defines_map_fns(input: DefineMapperInput, k: int)
    requires
        0 <= k < input.properties.properties@.len(),
    ensures
        occurs_in(map_fn_head(input.properties.properties@[k].name), generate_text(input)),
{
    let ps = input.properties.properties@;
    let p = ps[k];
    let h = map_fn_head(p.name);
    let it = impl_item(p);
    let a = "type "@ + member_type_name(p.name) + " = "@ + domain_tokens(p) + "; "@;
    let b = mapped_tokens(p.slint_typ.typ) + " { ("@ + mapper_tokens(p) + ")(value) } "@;
    assert(it =~= a + h + b) by {
        reveal_strlit("; fn map_");
        reveal_strlit("; ");
        reveal_strlit("fn map_");
    }
    lemma_occurs_self(h);
    lemma_occurs_extend(h, a, h);
    lemma_occurs_extend(h, a + h, b);
    lemma_impl_item_occurs(ps, k);
    lemma_occurs_trans(h, it, impl_items(ps));
    let pre = "#[derive(Debug, Clone)] pub struct Mapper; impl "@ + mapper_trait_name(input.base_name.name)
        + " for Mapper { "@;
    lemma_occurs_extend(h, pre, impl_items(ps));
    lemma_occurs_extend(h, pre + impl_items(ps), "} "@);
    assert(generate_text(input) == pre + impl_items(ps) + "} "@);
}

} // verus!
