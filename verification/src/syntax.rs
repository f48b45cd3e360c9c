//! The parts of Rust syntax that the macros read, held as plain values.
//!
//! Each node keeps the structure that the macro logic inspects together with
//! its source tokens as text (`tokens`), which the code generators copy into
//! their output.

use vstd::prelude::*;
use crate::text::str_eq;

verus! {

/// An identifier: its symbol and whether it was written raw (`r#sym`).
#[derive(Clone, Debug, PartialEq, Eq)]
pub struct Ident {
    pub sym: String,
    pub raw: bool,
}

/// A generic argument in angle brackets.
#[derive(Debug, PartialEq, Eq)]
pub enum GenericArgument {
    /// A type argument.
    Type(Ty),
    /// Any other argument (lifetime, constant, binding), as token text.
    Other(String),
}

/// The arguments of a path segment.
#[derive(Debug, PartialEq, Eq)]
pub enum PathArguments {
    /// No arguments.
    Empty,
    AngleBracketed(Vec<GenericArgument>),
    /// `(A, B) -> C`, as token text.
    Parenthesized(String),
}

/// One segment of a path.
#[derive(Debug, PartialEq, Eq)]
pub struct PathSegment {
    pub ident: Ident,
    pub arguments: PathArguments,
}

/// A path such as `sp::Property<i32>`.
#[derive(Debug, PartialEq, Eq)]
pub struct Path {
    pub leading_colon: bool,
    pub segments: Vec<PathSegment>,
    /// The path's tokens, without a qualified-self prefix.
    pub tokens: String,
}

/// The shape of a type.
#[derive(Debug, PartialEq, Eq)]
pub enum TyKind {
    /// A path type; `qself` tells whether it had a `<T as Trait>::` prefix.
    Path { qself: bool, path: Path },
    /// A tuple type with its element types.
    Tuple(Vec<Ty>),
    /// Any other type.
    Other,
}

/// A type: its shape and its tokens.
#[derive(Debug, PartialEq, Eq)]
pub struct Ty {
    pub kind: TyKind,
    pub tokens: String,
}

/// An expression, as token text.
#[derive(Clone, Debug, PartialEq, Eq)]
pub struct Expr {
    pub tokens: String,
}

/// A struct field.
#[derive(Debug, PartialEq, Eq)]
pub struct Field {
    pub ident: Option<Ident>,
    pub ty: Ty,
    /// The whole field (attributes, visibility, name and type) as tokens.
    pub tokens: String,
}

/// The fields of a struct.
#[derive(Debug, PartialEq, Eq)]
pub enum Fields {
    Named(Vec<Field>),
    Unnamed(Vec<Field>),
    Unit,
}

/// A struct item.
#[derive(Debug, PartialEq, Eq)]
pub struct ItemStruct {
    pub ident: Ident,
    pub fields: Fields,
    /// The whole item as tokens.
    pub tokens: String,
}

impl Ident {
    /// The identifier as written in source (`r#` included when raw).
    pub open spec fn text(self) -> Seq<char> {
        if self.raw {
            seq!['r', '#'] + self.sym@
        } else {
            self.sym@
        }
    }

    /// The identifier is the one written as `t`: the same text, and raw
    /// exactly when `t` starts with `r#`.
    pub open spec fn written_as(self, t: Seq<char>) -> bool {
        &&& self.text() == t
        &&& self.raw == seq!['r', '#'].is_prefix_of(t)
    }

    /// The identifier as written in source.
    pub fn to_text(&self) -> (r: String)
        ensures
            r@ == self.text(),
    {
        if self.raw {
            let mut s = String::new();
            crate::text::push_char(&mut s, 'r');
            crate::text::push_char(&mut s, '#');
            s.append(self.sym.as_str());
            assert(s@ =~= self.text());
            s
        } else {
            self.sym.clone()
        }
    }

    /// Whether the identifier, as written, is `s`.
    pub fn is(&self, s: &str) -> (r: bool)
        ensures
            r == (self.text() == s@),
    {
        let t = self.to_text();
        str_eq(t.as_str(), s)
    }

    /// A plain (not raw) identifier with the given symbol.
    pub fn new(sym: String) -> (r: Ident)
        ensures
            r.sym == sym,
            !r.raw,
    {
        Ident { sym, raw: false }
    }
}

impl Ty {
    /// The path of a path type.
    pub open spec fn path(self) -> Path {
        self.kind->path
    }

    /// Whether the type is a path type.
    pub open spec fn is_path(self) -> bool {
        self.kind is Path
    }

    /// A path type has at least one segment.
    pub open spec fn wf(self) -> bool {
        self.kind is Path ==> self.kind->path.segments@.len() > 0
    }
}

impl Path {
    /// `Path::is_ident` of syn: no leading `::`, a single segment without
    /// arguments, whose identifier as written is `s`.
    pub open spec fn is_ident(self, s: Seq<char>) -> bool {
        &&& !self.leading_colon
        &&& self.segments@.len() == 1
        &&& self.segments@[0].arguments is Empty
        &&& self.segments@[0].ident.text() == s
    }

    /// Whether the path is the identifier `s`.
    pub fn is_ident_str(&self, s: &str) -> (r: bool)
        ensures
            r == self.is_ident(s@),
    {
        if self.leading_colon || self.segments.len() != 1 {
            return false;
        }
        match &self.segments[0].arguments {
            PathArguments::Empty => self.segments[0].ident.is(s),
            _ => false,
        }
    }
}

} // verus!
