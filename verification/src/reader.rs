//! Reading macro input from its source text.
//!
//! syn and proc-macro2 do the lexing and the parsing of Rust syntax; each call
//! stands behind a trusted function whose result is named. The functions here
//! build the library's syntax model from those results, level by level, and
//! read the project's own grammars over the lexed tokens.

use vstd::prelude::*;
use quote::ToTokens;
use crate::syntax::{Field, Fields, GenericArgument, Ident, ItemStruct, Path, PathArguments, PathSegment, Ty, TyKind};
use crate::text::starts_with;

verus! {

/// The shape of a type as syn reads it: a path type (with its path's text),
/// a tuple type (with its elements' texts), or another type.
pub enum TypeShape {
    Path { qself: bool, path: String },
    Tuple(Vec<String>),
    Other,
}

/// The arguments of a path segment as syn reads them.
pub enum ArgsShape {
    Empty,
    Angle(Vec<ArgShape>),
    Paren(String),
}

/// One angle-bracketed argument: a type's text, or another argument's text.
pub enum ArgShape {
    Type(String),
    Other(String),
}

/// A path as syn reads it: the leading `::` and each segment's identifier text and arguments.
pub struct PathShape {
    pub leading_colon: bool,
    pub segments: Vec<(String, ArgsShape)>,
}

/// What syn, over proc-macro2's own lexer, reads from a type's text: its
/// shape and its tokens as proc-macro2's own printer writes them.
pub uninterp spec fn syn_type(text: Seq<char>) -> Option<(TypeShape, String)>;

/// What syn, over proc-macro2's own lexer, reads from a path's text.
pub uninterp spec fn syn_path(text: Seq<char>) -> Option<PathShape>;

/// `syn::parse_str::<syn::Type>`: the type's shape and its tokens as text, or
/// `None` where the text is no type.
/// proc-macro2's own lexer and printer are forced first
/// (`proc_macro2::fallback::force`), so the result does not depend on whether
/// the process runs inside a procedural macro.
#[verifier::external_body]
fn parse_type_shape(text: &str) -> (r: Option<(TypeShape, String)>)
    ensures
        r == syn_type(text@),
{
    proc_macro2::fallback::force();
    let ty = syn::parse_str::<syn::Type>(text).ok()?;
    let shape = match &ty {
        syn::Type::Path(tp) => TypeShape::Path { qself: tp.qself.is_some(), path: tp.path.to_token_stream().to_string() },
        syn::Type::Tuple(tt) => TypeShape::Tuple(tt.elems.iter().map(|e| e.to_token_stream().to_string()).collect()),
        _ => TypeShape::Other,
    };
    Some((shape, ty.to_token_stream().to_string()))
}

/// `syn::parse_str::<syn::Path>`: the path's leading `::` and its segments,
/// each with its identifier's text and its arguments as text, or `None` where
/// the text is no path.
/// proc-macro2's own lexer and printer are forced first
/// (`proc_macro2::fallback::force`), so the result does not depend on whether
/// the process runs inside a procedural macro.
#[verifier::external_body]
fn parse_path_shape(text: &str) -> (r: Option<PathShape>)
    ensures
        r == syn_path(text@),
{
    proc_macro2::fallback::force();
    let p = syn::parse_str::<syn::Path>(text).ok()?;
    let segments = p.segments.iter().map(|s| (s.ident.to_string(), match &s.arguments {
        syn::PathArguments::None => ArgsShape::Empty,
        syn::PathArguments::AngleBracketed(a) => ArgsShape::Angle(a.args.iter().map(|g| match g {
            syn::GenericArgument::Type(t) => ArgShape::Type(t.to_token_stream().to_string()),
            other => ArgShape::Other(other.to_token_stream().to_string()),
        }).collect()),
        syn::PathArguments::Parenthesized(x) => ArgsShape::Paren(x.to_token_stream().to_string()),
    })).collect();
    Some(PathShape { leading_colon: p.leading_colon.is_some(), segments })
}

/// The identifier written `t`: raw when `t` starts with `r#`.
pub open spec fn ident_text_is_raw(t: Seq<char>) -> bool {
    seq!['r', '#'].is_prefix_of(t)
}

/// Makes the identifier written as `t`.
pub fn ident_from_text(t: &str) -> (r: Ident)
    ensures
        r.text() == t@,
        r.raw == ident_text_is_raw(t@),
{
    proof {
        reveal_strlit("r#");
        assert("r#"@ =~= seq!['r', '#']);
    }
    if starts_with(t, "r#") {
        let n = t.unicode_len();
        let sym = t.substring_char(2, n);
        let r = Ident { sym: String::from_str(sym), raw: true };
        assert(r.text() =~= t@);
        r
    } else {
        Ident { sym: String::from_str(t), raw: false }
    }
}

/// `t` is the type that syn reads from `text`, built level by level with at
/// most `fuel` levels of nesting.
pub open spec fn ty_from(text: Seq<char>, fuel: nat, t: Ty) -> bool
    decreases fuel, 2nat,
{
    match syn_type(text) {
        None => false,
        Some((shape, tokens)) => {
            &&& t.tokens@ == tokens@
            &&& match shape {
                TypeShape::Path { qself, path } => t.kind matches TyKind::Path { qself: q, path: p } && q == qself
                    && path_from(path@, fuel, p),
                TypeShape::Tuple(elems) => t.kind matches TyKind::Tuple(ts) && fuel > 0 && ts@.len() == elems@.len()
                    && forall|j: int|
                    0 <= j < ts@.len() ==> ty_from(#[trigger] elems@[j]@, (fuel - 1) as nat, ts@[j]),
                TypeShape::Other => t.kind is Other,
            }
        },
    }
}

/// `p` is the path that syn reads from `text`.
pub open spec fn path_from(text: Seq<char>, fuel: nat, p: Path) -> bool
    decreases fuel, 1nat,
{
    match syn_path(text) {
        None => false,
        Some(ps) => {
            &&& p.leading_colon == ps.leading_colon
            &&& p.tokens@ == text
            &&& p.segments@.len() == ps.segments@.len()
            &&& forall|j: int| 0 <= j < p.segments@.len() ==> seg_from(#[trigger] ps.segments@[j], fuel, p.segments@[j])
        },
    }
}

/// `s` is the segment read as `shape`.
pub open spec fn seg_from(shape: (String, ArgsShape), fuel: nat, s: PathSegment) -> bool
    decreases fuel, 0nat,
{
    &&& s.ident.written_as(shape.0@)
    &&& match (shape.1, s.arguments) {
        (ArgsShape::Empty, PathArguments::Empty) => true,
        (ArgsShape::Paren(x), PathArguments::Parenthesized(y)) => x@ == y@,
        (ArgsShape::Angle(xs), PathArguments::AngleBracketed(gs)) => {
            &&& fuel > 0
            &&& xs@.len() == gs@.len()
            &&& forall|j: int| 0 <= j < xs@.len() ==> arg_from(#[trigger] xs@[j], (fuel - 1) as nat, gs@[j])
        },
        _ => false,
    }
}

/// `g` is the argument read as `shape`.
pub open spec fn arg_from(shape: ArgShape, fuel: nat, g: GenericArgument) -> bool
    decreases fuel, 3nat,
{
    match (shape, g) {
        (ArgShape::Type(x), GenericArgument::Type(t)) => ty_from(x@, fuel, t),
        (ArgShape::Other(x), GenericArgument::Other(y)) => x@ == y@,
        _ => false,
    }
}

/// Reads a type from its text, with at most `fuel` levels of nesting.
pub fn build_ty(text: &str, fuel: usize) -> (r: Option<Ty>)
    ensures
        match r {
            Some(t) => ty_from(text@, fuel as nat, t),
            None => forall|t: Ty| !ty_from(text@, fuel as nat, t),
        },
    decreases fuel, 2nat,
{
    let (shape, tokens) = match parse_type_shape(text) {
        Some(x) => x,
        None => { return None; },
    };
    match shape {
        TypeShape::Path { qself, path } => {
            match build_path(path.as_str(), fuel) {
                Some(p) => {
                    let r = Ty { kind: TyKind::Path { qself, path: p }, tokens };
                    assert(ty_from(text@, fuel as nat, r));
                    Some(r)
                },
                None => {
                    assert forall|t: Ty| !ty_from(text@, fuel as nat, t) by {
                        if ty_from(text@, fuel as nat, t) {
                            assert(path_from(path@, fuel as nat, t.kind->path));
                        }
                    }
                    None
                },
            }
        },
        TypeShape::Tuple(elems) => {
            if fuel == 0 {
                return None;
            }
            let mut out: Vec<Ty> = Vec::new();
            let mut i: usize = 0;
            while i < elems.len()
                invariant
                    fuel > 0,
                    syn_type(text@) == Some((TypeShape::Tuple(elems), tokens)),
                    i <= elems@.len(),
                    out@.len() == i,
                    forall|j: int| 0 <= j < i ==> ty_from(elems@[j]@, (fuel - 1) as nat, #[trigger] out@[j]),
                decreases elems@.len() - i,
            {
                match build_ty(elems[i].as_str(), fuel - 1) {
                    Some(t) => { out.push(t); },
                    None => {
                        assert forall|t: Ty| !ty_from(text@, fuel as nat, t) by {
                            if ty_from(text@, fuel as nat, t) {
                                let ts = t.kind->Tuple_0;
                                assert(ty_from(elems@[i as int]@, (fuel - 1) as nat, ts@[i as int]));
                            }
                        }
                        return None;
                    },
                }
                i += 1;
            }
            let r = Ty { kind: TyKind::Tuple(out), tokens };
            assert(ty_from(text@, fuel as nat, r));
            Some(r)
        },
        TypeShape::Other => {
            let r = Ty { kind: TyKind::Other, tokens };
            assert(ty_from(text@, fuel as nat, r));
            Some(r)
        },
    }
}

/// Reads a path from its text.
pub fn build_path(text: &str, fuel: usize) -> (r: Option<Path>)
    ensures
        match r {
            Some(p) => path_from(text@, fuel as nat, p),
            None => forall|p: Path| !path_from(text@, fuel as nat, p),
        },
    decreases fuel, 1nat,
{
    let shape = match parse_path_shape(text) {
        Some(x) => x,
        None => { return None; },
    };
    let mut segments: Vec<PathSegment> = Vec::new();
    let mut i: usize = 0;
    while i < shape.segments.len()
        invariant
            syn_path(text@) == Some(shape),
            i <= shape.segments@.len(),
            segments@.len() == i,
            forall|j: int| 0 <= j < i ==> seg_from(shape.segments@[j], fuel as nat, #[trigger] segments@[j]),
        decreases shape.segments@.len() - i,
    {
        match build_segment(&shape.segments[i], fuel) {
            Some(sg) => { segments.push(sg); },
            None => {
                assert forall|p: Path| !path_from(text@, fuel as nat, p) by {
                    if path_from(text@, fuel as nat, p) {
                        assert(seg_from(shape.segments@[i as int], fuel as nat, p.segments@[i as int]));
                    }
                }
                return None;
            },
        }
        i += 1;
    }
    Some(Path { leading_colon: shape.leading_colon, segments, tokens: String::from_str(text) })
}

/// Reads a path segment from its shape.
fn build_segment(shape: &(String, ArgsShape), fuel: usize) -> (r: Option<PathSegment>)
    ensures
        match r {
            Some(s) => seg_from(*shape, fuel as nat, s),
            None => forall|s: PathSegment| !seg_from(*shape, fuel as nat, s),
        },
    decreases fuel, 0nat,
{
    let ident = ident_from_text(shape.0.as_str());
    let arguments = match &shape.1 {
        ArgsShape::Empty => PathArguments::Empty,
        ArgsShape::Paren(x) => PathArguments::Parenthesized(x.clone()),
        ArgsShape::Angle(xs) => {
            if fuel == 0 {
                return None;
            }
            let mut gs: Vec<GenericArgument> = Vec::new();
            let mut i: usize = 0;
            while i < xs.len()
                invariant
                    fuel > 0,
                    shape.1 == ArgsShape::Angle(*xs),
                    i <= xs@.len(),
                    gs@.len() == i,
                    forall|j: int| 0 <= j < i ==> arg_from(xs@[j], (fuel - 1) as nat, #[trigger] gs@[j]),
                decreases xs@.len() - i,
            {
                match build_arg(&xs[i], fuel - 1) {
                    Some(g) => { gs.push(g); },
                    None => {
                        assert forall|s: PathSegment| !seg_from(*shape, fuel as nat, s) by {
                            if seg_from(*shape, fuel as nat, s) {
                                let ys = s.arguments->AngleBracketed_0;
                                assert(arg_from(xs@[i as int], (fuel - 1) as nat, ys@[i as int]));
                            }
                        }
                        return None;
                    },
                }
                i += 1;
            }
            PathArguments::AngleBracketed(gs)
        },
    };
    Some(PathSegment { ident, arguments })
}

/// Reads an angle-bracketed argument from its shape.
fn build_arg(shape: &ArgShape, fuel: usize) -> (r: Option<GenericArgument>)
    ensures
        match r {
            Some(g) => arg_from(*shape, fuel as nat, g),
            None => forall|g: GenericArgument| !arg_from(*shape, fuel as nat, g),
        },
    decreases fuel, 3nat,
{
    match shape {
        ArgShape::Type(x) => match build_ty(x.as_str(), fuel) {
            Some(t) => {
                let g = GenericArgument::Type(t);
                assert(arg_from(*shape, fuel as nat, g));
                Some(g)
            },
            None => {
                assert forall|g: GenericArgument| !arg_from(*shape, fuel as nat, g) by {
                    if arg_from(*shape, fuel as nat, g) {
                        assert(ty_from(x@, fuel as nat, g->Type_0));
                    }
                }
                None
            },
        },
        ArgShape::Other(x) => Some(GenericArgument::Other(x.clone())),
    }
}

/// Which fields a struct has, as syn reads it.
pub enum FieldsKind {
    Named,
    Unnamed,
    Unit,
}

/// A field as syn reads it: its name's text, its type's text and its whole text.
pub struct FieldShape {
    pub ident: Option<String>,
    pub ty: String,
    pub tokens: String,
}

/// A struct item as syn reads it.
pub struct ItemShape {
    pub ident: String,
    pub kind: FieldsKind,
    pub fields: Vec<FieldShape>,
    pub tokens: String,
}

/// What syn, over proc-macro2's own lexer, reads from a struct item's text,
/// or the message of syn's error.
pub uninterp spec fn syn_item_struct(text: Seq<char>) -> Result<ItemShape, String>;

/// `syn::parse_str::<syn::ItemStruct>`: the struct's name, the kind of its
/// fields, each field's name, type and text, and the item's text; or, where
/// the text is no struct item, the message of syn's error.
/// proc-macro2's own lexer and printer are forced first
/// (`proc_macro2::fallback::force`), so the result does not depend on whether
/// the process runs inside a procedural macro.
#[verifier::external_body]
fn parse_item_shape(text: &str) -> (r: Result<ItemShape, String>)
    ensures
        r == syn_item_struct(text@),
{
    proc_macro2::fallback::force();
    let s = syn::parse_str::<syn::ItemStruct>(text).map_err(|e| e.to_string())?;
    let kind = match &s.fields {
        syn::Fields::Named(_) => FieldsKind::Named,
        syn::Fields::Unnamed(_) => FieldsKind::Unnamed,
        syn::Fields::Unit => FieldsKind::Unit,
    };
    let fields = s.fields.iter().map(|f| FieldShape {
        ident: f.ident.as_ref().map(|i| i.to_string()),
        ty: f.ty.to_token_stream().to_string(),
        tokens: f.to_token_stream().to_string(),
    }).collect();
    Ok(ItemShape { ident: s.ident.to_string(), kind, fields, tokens: s.to_token_stream().to_string() })
}

/// `f` is the field read as `sh`; its type is read with as many levels of
/// nesting as its text has characters.
pub open spec fn field_from(sh: FieldShape, f: Field) -> bool {
    &&& match sh.ident {
        None => f.ident is None,
        Some(t) => f.ident matches Some(i) && i.written_as(t@),
    }
    &&& ty_from(sh.ty@, sh.ty@.len(), f.ty)
    &&& f.tokens@ == sh.tokens@
}

/// `fs` are the fields read as `shs`.
pub open spec fn fields_from(shs: Seq<FieldShape>, fs: Seq<Field>) -> bool {
    &&& shs.len() == fs.len()
    &&& forall|j: int| 0 <= j < fs.len() ==> field_from(#[trigger] shs[j], fs[j])
}

/// `it` is the struct item that syn reads from `text`.
pub open spec fn item_from(text: Seq<char>, it: ItemStruct) -> bool {
    match syn_item_struct(text) {
        Err(_) => false,
        Ok(sh) => {
            &&& it.ident.written_as(sh.ident@)
            &&& it.tokens@ == sh.tokens@
            &&& match (sh.kind, it.fields) {
                (FieldsKind::Named, Fields::Named(v)) => fields_from(sh.fields@, v@),
                (FieldsKind::Unnamed, Fields::Unnamed(v)) => fields_from(sh.fields@, v@),
                (FieldsKind::Unit, Fields::Unit) => true,
                _ => false,
            }
        },
    }
}

fn build_fields(shs: &Vec<FieldShape>) -> (r: Option<Vec<Field>>)
    ensures
        match r {
            Some(fs) => fields_from(shs@, fs@),
            None => forall|fs: Seq<Field>| !fields_from(shs@, fs),
        },
{
    let mut out: Vec<Field> = Vec::new();
    let mut i: usize = 0;
    while i < shs.len()
        invariant
            i <= shs@.len(),
            out@.len() == i,
            forall|j: int| 0 <= j < i ==> field_from(shs@[j], #[trigger] out@[j]),
        decreases shs@.len() - i,
    {
        let sh = &shs[i];
        let fuel = sh.ty.as_str().unicode_len();
        match build_ty(sh.ty.as_str(), fuel) {
            Some(ty) => {
                let ident = match &sh.ident {
                    Some(t) => Some(ident_from_text(t.as_str())),
                    None => None,
                };
                let f = Field { ident, ty, tokens: sh.tokens.clone() };
                assert(field_from(shs@[i as int], f));
                out.push(f);
            },
            None => {
                assert forall|fs: Seq<Field>| !fields_from(shs@, fs) by {
                    if fields_from(shs@, fs) {
                        assert(field_from(shs@[i as int], fs[i as int]));
                    }
                }
                return None;
            },
        }
        i += 1;
    }
    Some(out)
}

/// Reads a struct item from its text.
pub fn build_item_struct(text: &str) -> (r: Result<ItemStruct, String>)
    ensures
        match r {
            Ok(it) => item_from(text@, it),
            Err(m) => {
                &&& forall|it: ItemStruct| !item_from(text@, it)
                &&& syn_item_struct(text@) is Err ==> syn_item_struct(text@) == Err::<ItemShape, String>(m)
            },
        },
{
    let sh = match parse_item_shape(text) {
        Ok(sh) => sh,
        Err(m) => { return Err(m); },
    };
    let ident = ident_from_text(sh.ident.as_str());
    let fields = match sh.kind {
        FieldsKind::Unit => Fields::Unit,
        FieldsKind::Named => match build_fields(&sh.fields) {
            Some(v) => Fields::Named(v),
            None => {
                assert forall|it: ItemStruct| !item_from(text@, it) by {
                    if item_from(text@, it) {
                        assert(fields_from(sh.fields@, it.fields->Named_0@));
                    }
                }
                return Err(String::from_str("expected type"));
            },
        },
        FieldsKind::Unnamed => match build_fields(&sh.fields) {
            Some(v) => Fields::Unnamed(v),
            None => {
                assert forall|it: ItemStruct| !item_from(text@, it) by {
                    if item_from(text@, it) {
                        assert(fields_from(sh.fields@, it.fields->Unnamed_0@));
                    }
                }
                return Err(String::from_str("expected type"));
            },
        },
    };
    let it = ItemStruct { ident, fields, tokens: sh.tokens.clone() };
    assert(item_from(text@, it));
    Ok(it)
}

/// A `name = value` option as syn reads it: the path's text and the value's text.
pub struct MetaShape {
    pub path: String,
    pub value: String,
}

/// What syn, over proc-macro2's own lexer, reads from a comma-separated list
/// of `name = value` options, or the message of syn's error.
pub uninterp spec fn syn_meta_list(text: Seq<char>) -> Result<Vec<MetaShape>, String>;

/// `Punctuated::<syn::MetaNameValue, syn::token::Comma>::parse_terminated`
/// on the text: each option's path and value as text, or, where the text is
/// no such list, the message of syn's error.
/// proc-macro2's own lexer and printer are forced first
/// (`proc_macro2::fallback::force`), so the result does not depend on whether
/// the process runs inside a procedural macro.
#[verifier::external_body]
pub(crate) fn parse_meta_list(text: &str) -> (r: Result<Vec<MetaShape>, String>)
    ensures
        r == syn_meta_list(text@),
{
    proc_macro2::fallback::force();
    let list = syn::parse::Parser::parse_str(
        syn::punctuated::Punctuated::<syn::MetaNameValue, syn::token::Comma>::parse_terminated,
        text,
    ).map_err(|e| e.to_string())?;
    Ok(list.iter().map(|m| MetaShape {
        path: m.path.to_token_stream().to_string(),
        value: m.value.to_token_stream().to_string(),
    }).collect())
}

} // verus!
