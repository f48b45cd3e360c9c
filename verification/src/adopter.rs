//! The input side of the `adopter` attribute: reading an `InnerXxxAdopter`
//! struct generated by slint and sorting its fields into properties,
//! callbacks, trackers and the `globals` field.

use vstd::prelude::*;
use crate::syntax::{Field, Fields, GenericArgument, Ident, ItemStruct, PathArguments, PathSegment, Ty, TyKind};
use crate::text::{ends_with, lemma_take_step, starts_with};

verus! {

/// A `sp::Property<T>` field: its name and the property type `T`.
pub struct PropertyField {
    pub ident: Ident,
    pub ty: Ty,
}

/// A tuple type with its element types.
pub struct TypeTuple {
    pub elems: Vec<Ty>,
    pub tokens: String,
}

/// A `sp::Callback<(Args), Ret>` field.
pub struct CallbackField {
    pub ident: Ident,
    pub arg_type: TypeTuple,
    pub ret_type: Ty,
}

/// Why a field is not a property or not a callback field.
#[derive(Debug, PartialEq, Eq, Clone, Copy)]
pub enum FieldError {
    ExpectedPath,
    ExpectedSp,
    ExpectedProperty,
    ExpectedAngleBracketed,
    ExpectedTypeArgument,
    MoreThanOneTypeArgument,
    PathTooLong,
    ExpectedCallback,
    ExpectedCallbackParams,
    ExpectedCallbackReturn,
}

/// The message of each error.
pub open spec fn field_error_message(e: FieldError) -> Seq<char> {
    match e {
        FieldError::ExpectedPath => "expected path reference"@,
        FieldError::ExpectedSp => "expected 'sp'"@,
        FieldError::ExpectedProperty => "expected 'Property'"@,
        FieldError::ExpectedAngleBracketed => "expected angle bracketed type arguments"@,
        FieldError::ExpectedTypeArgument => "expected a type argument"@,
        FieldError::MoreThanOneTypeArgument => "expected exactly one type argument, found more"@,
        FieldError::PathTooLong => "type path should be already end here"@,
        FieldError::ExpectedCallback => "expected 'Callback<(Args), Ret>'"@,
        FieldError::ExpectedCallbackParams => "expected callback's parameter types (tuple)"@,
        FieldError::ExpectedCallbackReturn => "expected callback's return type"@,
    }
}

impl FieldError {
    /// The error message.
    pub fn message(&self) -> (r: &'static str)
        ensures
            r@ == field_error_message(*self),
    {
        match self {
            FieldError::ExpectedPath => "expected path reference",
            FieldError::ExpectedSp => "expected 'sp'",
            FieldError::ExpectedProperty => "expected 'Property'",
            FieldError::ExpectedAngleBracketed => "expected angle bracketed type arguments",
            FieldError::ExpectedTypeArgument => "expected a type argument",
            FieldError::MoreThanOneTypeArgument => "expected exactly one type argument, found more",
            FieldError::PathTooLong => "type path should be already end here",
            FieldError::ExpectedCallback => "expected 'Callback<(Args), Ret>'",
            FieldError::ExpectedCallbackParams => "expected callback's parameter types (tuple)",
            FieldError::ExpectedCallbackReturn => "expected callback's return type",
        }
    }
}

/// A field that was not taken, handed back with the reason.
pub struct FieldRejected {
    pub error: FieldError,
    pub field: Field,
}

/// Why an `InnerXxxAdopter` struct was refused.
#[derive(Debug, PartialEq, Eq, Clone, Copy)]
pub enum AdopterError {
    /// The struct's name is not `Inner` + name + `Adopter`.
    BadName,
    ExpectedNamedFields,
    /// The field at this position (among the named fields) is of no known kind.
    UnknownField(usize),
    MissingGlobals,
}

/// The message of each error.
pub open spec fn adopter_error_message(e: AdopterError) -> Seq<char> {
    match e {
        AdopterError::BadName => "attributed type's ident should match the pattern of 'InnerXxxAdopter'"@,
        AdopterError::ExpectedNamedFields => "expected named fields"@,
        AdopterError::UnknownField(_) => "unknown kind of field"@,
        AdopterError::MissingGlobals => "cannot find `globals` field"@,
    }
}

impl AdopterError {
    /// The error message.
    pub fn message(&self) -> (r: &'static str)
        ensures
            r@ == adopter_error_message(*self),
    {
        match self {
            AdopterError::BadName => "attributed type's ident should match the pattern of 'InnerXxxAdopter'",
            AdopterError::ExpectedNamedFields => "expected named fields",
            AdopterError::UnknownField(_) => "unknown kind of field",
            AdopterError::MissingGlobals => "cannot find `globals` field",
        }
    }
}

// ---------------------------------------------------------------------------
// Field shapes

/// The `i`-th segment of the field type's path.
pub open spec fn seg(f: Field, i: int) -> PathSegment {
    f.ty.kind->path.segments@[i]
}

/// The number of segments of the field type's path.
pub open spec fn seg_count(f: Field) -> int {
    f.ty.kind->path.segments@.len() as int
}

/// The angle-bracketed arguments of the second segment.
pub open spec fn args(f: Field) -> Seq<GenericArgument> {
    seg(f, 1).arguments->AngleBracketed_0@
}

/// The first segment is `sp`.
pub open spec fn starts_with_sp(f: Field) -> bool {
    seg_count(f) >= 1 && seg(f, 0).ident.text() == seq!['s', 'p']
}

/// The error that keeps a field from being a `sp::Property<T>`, checked in
/// this order: a path type, `sp` first, `Property` second with angle-bracketed
/// arguments, whose first is a type and which has no second, and nothing after
/// the second segment.
pub open spec fn property_error(f: Field) -> Option<FieldError> {
    if !f.ty.is_path() {
        Some(FieldError::ExpectedPath)
    } else if !starts_with_sp(f) {
        Some(FieldError::ExpectedSp)
    } else if !(seg_count(f) >= 2 && seg(f, 1).ident.text() == "Property"@) {
        Some(FieldError::ExpectedProperty)
    } else if !(seg(f, 1).arguments is AngleBracketed) {
        Some(FieldError::ExpectedAngleBracketed)
    } else if !(args(f).len() >= 1 && args(f)[0] is Type) {
        Some(FieldError::ExpectedTypeArgument)
    } else if args(f).len() > 1 {
        Some(FieldError::MoreThanOneTypeArgument)
    } else if seg_count(f) > 2 {
        Some(FieldError::PathTooLong)
    } else {
        None
    }
}

/// The property taken from a field without a `property_error`.
pub open spec fn spec_property_field(f: Field) -> PropertyField {
    PropertyField { ident: f.ident->Some_0, ty: args(f)[0]->Type_0 }
}

/// The error that keeps a field from being a `sp::Callback<(Args), Ret>`,
/// checked in this order: a path type, `sp` first, `Callback` second with
/// angle-bracketed arguments, a tuple type first, a type second (further
/// arguments are ignored), and nothing after the second segment.
pub open spec fn callback_error(f: Field) -> Option<FieldError> {
    if !f.ty.is_path() {
        Some(FieldError::ExpectedPath)
    } else if !starts_with_sp(f) {
        Some(FieldError::ExpectedSp)
    } else if !(seg_count(f) >= 2 && seg(f, 1).ident.text() == "Callback"@ && seg(f, 1).arguments is AngleBracketed) {
        Some(FieldError::ExpectedCallback)
    } else if !(args(f).len() >= 1 && args(f)[0] is Type && args(f)[0]->Type_0.kind is Tuple) {
        Some(FieldError::ExpectedCallbackParams)
    } else if !(args(f).len() >= 2 && args(f)[1] is Type) {
        Some(FieldError::ExpectedCallbackReturn)
    } else if seg_count(f) > 2 {
        Some(FieldError::PathTooLong)
    } else {
        None
    }
}

/// The callback taken from a field without a `callback_error`.
pub open spec fn spec_callback_field(f: Field) -> CallbackField {
    CallbackField {
        ident: f.ident->Some_0,
        arg_type: TypeTuple {
            elems: args(f)[0]->Type_0.kind->Tuple_0,
            tokens: args(f)[0]->Type_0.tokens,
        },
        ret_type: args(f)[1]->Type_0,
    }
}

fn sp_error(f: &Field) -> (r: Option<FieldError>)
    ensures
        r == (if !f.ty.is_path() {
            Some(FieldError::ExpectedPath)
        } else if !starts_with_sp(*f) {
            Some(FieldError::ExpectedSp)
        } else {
            None::<FieldError>
        }),
{
    match &f.ty.kind {
        TyKind::Path { path, .. } => {
            proof {
                reveal_strlit("sp");
                assert("sp"@ =~= seq!['s', 'p']);
            }
            if path.segments.len() >= 1 && path.segments[0].ident.is("sp") {
                None
            } else {
                Some(FieldError::ExpectedSp)
            }
        },
        _ => Some(FieldError::ExpectedPath),
    }
}

/// Checks a field against the `sp::Property<T>` shape.
pub fn check_property_field(f: &Field) -> (r: Option<FieldError>)
    ensures
        r == property_error(*f),
{
    let e = sp_error(f);
    if e.is_some() {
        return e;
    }
    let path = match &f.ty.kind {
        TyKind::Path { path, .. } => path,
        _ => { return Some(FieldError::ExpectedPath); },
    };
    assert(*path == f.ty.kind->path);
    if !(path.segments.len() >= 2 && path.segments[1].ident.is("Property")) {
        return Some(FieldError::ExpectedProperty);
    }
    let args = match &path.segments[1].arguments {
        PathArguments::AngleBracketed(a) => a,
        _ => { return Some(FieldError::ExpectedAngleBracketed); },
    };
    assert(args@ == crate::adopter::args(*f));
    if args.len() < 1 {
        return Some(FieldError::ExpectedTypeArgument);
    }
    match &args[0] {
        GenericArgument::Type(_) => {},
        _ => { return Some(FieldError::ExpectedTypeArgument); },
    }
    if args.len() > 1 {
        return Some(FieldError::MoreThanOneTypeArgument);
    }
    if path.segments.len() > 2 {
        return Some(FieldError::PathTooLong);
    }
    None
}

/// Checks a field against the `sp::Callback<(Args), Ret>` shape.
pub fn check_callback_field(f: &Field) -> (r: Option<FieldError>)
    ensures
        r == callback_error(*f),
{
    let e = sp_error(f);
    if e.is_some() {
        return e;
    }
    let path = match &f.ty.kind {
        TyKind::Path { path, .. } => path,
        _ => { return Some(FieldError::ExpectedPath); },
    };
    assert(*path == f.ty.kind->path);
    if !(path.segments.len() >= 2 && path.segments[1].ident.is("Callback")) {
        return Some(FieldError::ExpectedCallback);
    }
    let args = match &path.segments[1].arguments {
        PathArguments::AngleBracketed(a) => a,
        _ => { return Some(FieldError::ExpectedCallback); },
    };
    assert(args@ == crate::adopter::args(*f));
    if args.len() < 1 {
        return Some(FieldError::ExpectedCallbackParams);
    }
    match &args[0] {
        GenericArgument::Type(t) => {
            match &t.kind {
                TyKind::Tuple(_) => {},
                _ => { return Some(FieldError::ExpectedCallbackParams); },
            }
        },
        _ => { return Some(FieldError::ExpectedCallbackParams); },
    }
    if args.len() < 2 {
        return Some(FieldError::ExpectedCallbackReturn);
    }
    match &args[1] {
        GenericArgument::Type(_) => {},
        _ => { return Some(FieldError::ExpectedCallbackReturn); },
    }
    if path.segments.len() > 2 {
        return Some(FieldError::PathTooLong);
    }
    None
}

/// Takes a named field of type `sp::Property<T>` as a property of type `T`;
/// any other field is handed back with the first reason (see `property_error`).
pub fn map_property_field(f: Field) -> (r: Result<PropertyField, FieldRejected>)
    requires
        f.ident is Some,
    ensures
        match r {
            Ok(p) => property_error(f) is None && p == spec_property_field(f),
            Err(rej) => property_error(f) == Some(rej.error) && rej.field == f,
        },
{
    let e = check_property_field(&f);
    if let Some(err) = e {
        return Err(FieldRejected { error: err, field: f });
    }
    let ghost g = f;
    let Field { ident, ty, tokens: _ } = f;
    match ty.kind {
        TyKind::Path { path, .. } => {
            let mut segments = path.segments;
            let second = segments.remove(1);
            assert(second == seg(g, 1));
            match second.arguments {
                PathArguments::AngleBracketed(a) => {
                    let mut a = a;
                    let first = a.remove(0);
                    match first {
                        GenericArgument::Type(t) => {
                            Ok(PropertyField { ident: ident.unwrap(), ty: t })
                        },
                        _ => vstd::pervasive::unreached(),
                    }
                },
                _ => vstd::pervasive::unreached(),
            }
        },
        _ => vstd::pervasive::unreached(),
    }
}

/// Takes a named field of type `sp::Callback<(Args), Ret>` as a callback;
/// any other field is handed back with the first reason (see `callback_error`).
pub fn map_callback_field(f: Field) -> (r: Result<CallbackField, FieldRejected>)
    requires
        f.ident is Some,
    ensures
        match r {
            Ok(c) => callback_error(f) is None && c == spec_callback_field(f),
            Err(rej) => callback_error(f) == Some(rej.error) && rej.field == f,
        },
{
    let e = check_callback_field(&f);
    if let Some(err) = e {
        return Err(FieldRejected { error: err, field: f });
    }
    let ghost g = f;
    let Field { ident, ty, tokens: _ } = f;
    match ty.kind {
        TyKind::Path { path, .. } => {
            let mut segments = path.segments;
            let second = segments.remove(1);
            assert(second == seg(g, 1));
            match second.arguments {
                PathArguments::AngleBracketed(a) => {
                    let mut a = a;
                    let ghost a0 = a@;
                    let first = a.remove(0);
                    let ret = a.remove(0);
                    assert(ret == a0[1]);
                    match (first, ret) {
                        (GenericArgument::Type(t), GenericArgument::Type(rt)) => {
                            let Ty { kind, tokens } = t;
                            match kind {
                                TyKind::Tuple(elems) => Ok(
                                    CallbackField {
                                        ident: ident.unwrap(),
                                        arg_type: TypeTuple { elems, tokens },
                                        ret_type: rt,
                                    },
                                ),
                                _ => vstd::pervasive::unreached(),
                            }
                        },
                        _ => vstd::pervasive::unreached(),
                    }
                },
                _ => vstd::pervasive::unreached(),
            }
        },
        _ => vstd::pervasive::unreached(),
    }
}

/// The name that `InnerXxxAdopter` carries: `Xxx` when the identifier, as
/// written, is `Inner` + `Xxx` + `Adopter`.
pub open spec fn adopter_name(t: Seq<char>) -> Option<Seq<char>> {
    if "Inner"@.is_prefix_of(t) && "Adopter"@.is_suffix_of(t.skip(5)) {
        Some(t.subrange(5, t.len() - 7))
    } else {
        None
    }
}

/// Whether a character has the Unicode property `XID_Start`.
pub uninterp spec fn xid_start(c: char) -> bool;

/// `unicode_ident::is_xid_start`: whether the character has the Unicode
/// property `XID_Start`.
#[verifier::external_body]
fn is_xid_start(c: char) -> (r: bool)
    ensures
        r == xid_start(c),
{
    unicode_ident::is_xid_start(c)
}

/// Whether a character may start an identifier: `_` or an `XID_Start` character.
pub open spec fn begins_identifier(c: char) -> bool {
    c == '_' || xid_start(c)
}

/// The extracted name can be made an identifier.
pub open spec fn name_makes_ident(t: Seq<char>) -> bool {
    adopter_name(t) matches Some(n) ==> n.len() > 0 && begins_identifier(n[0])
}

/// Whether the name that `InnerXxxAdopter` carries, if any, can be made an identifier.
pub fn name_can_be_made(ident: &Ident) -> (r: bool)
    ensures
        r == name_makes_ident(ident.text()),
{
    proof {
        reveal_strlit("Inner");
        reveal_strlit("Adopter");
    }
    let s = ident.to_text();
    if !starts_with(s.as_str(), "Inner") {
        return true;
    }
    let n = s.as_str().unicode_len();
    let without_prefix = s.as_str().substring_char(5, n);
    assert(without_prefix@ =~= s@.skip(5));
    if !ends_with(without_prefix, "Adopter") {
        return true;
    }
    if n - 7 <= 5 {
        return false;
    }
    let c = s.as_str().get_char(5);
    assert(s@.subrange(5, n - 7)[0] == c);
    c == '_' || is_xid_start(c)
}

/// Gets `Xxx` from `InnerXxxAdopter`.
pub fn extract_name(ident: &Ident) -> (r: Result<Ident, AdopterError>)
    requires
        name_makes_ident(ident.text()),
    ensures
        match r {
            Ok(n) => adopter_name(ident.text()) == Some(n.sym@) && !n.raw,
            Err(e) => adopter_name(ident.text()) is None && e == AdopterError::BadName,
        },
{
    proof {
        reveal_strlit("Inner");
        reveal_strlit("Adopter");
    }
    let s = ident.to_text();
    if !starts_with(s.as_str(), "Inner") {
        return Err(AdopterError::BadName);
    }
    let n = s.as_str().unicode_len();
    let without_prefix = s.as_str().substring_char(5, n);
    assert(without_prefix@ =~= s@.skip(5));
    if !ends_with(without_prefix, "Adopter") {
        return Err(AdopterError::BadName);
    }
    let middle = s.as_str().substring_char(5, n - 7);
    Ok(Ident::new(String::from_str(middle)))
}

/// An `InnerXxxAdopter` struct, read.
pub struct InnerGlobalComponent {
    pub original_ident: Ident,
    /// `Xxx` if attributed struct's ident was `InnerXxxAdopter`.
    pub name: Ident,
    pub properties: Vec<PropertyField>,
    pub callbacks: Vec<CallbackField>,
    pub callback_trackers: Vec<Field>,
    pub change_trackers: Vec<Field>,
    pub globals: Field,
    /// The tokens of the struct, re-emitted unchanged.
    pub original: String,
}

/// What a named field of an `InnerXxxAdopter` struct is taken for.
#[derive(Debug, PartialEq, Eq, Clone, Copy)]
pub enum FieldClass {
    CallbackTracker,
    ChangeTracker,
    Property,
    Callback,
    Globals,
    Unknown,
}

/// How a field is taken, tried in this order: its name starts with
/// `callback_tracker_`, its name starts with `change_tracker`, it is a
/// property, it is a callback, it is named `globals`.
pub open spec fn field_class(f: Field) -> FieldClass {
    let t = f.ident->Some_0.text();
    if "callback_tracker_"@.is_prefix_of(t) {
        FieldClass::CallbackTracker
    } else if "change_tracker"@.is_prefix_of(t) {
        FieldClass::ChangeTracker
    } else if property_error(f) is None {
        FieldClass::Property
    } else if callback_error(f) is None {
        FieldClass::Callback
    } else if t == "globals"@ {
        FieldClass::Globals
    } else {
        FieldClass::Unknown
    }
}

/// The properties among `fs`, in order.
pub open spec fn properties_of(fs: Seq<Field>) -> Seq<PropertyField>
    decreases fs.len(),
{
    if fs.len() == 0 {
        Seq::empty()
    } else if field_class(fs.last()) == FieldClass::Property {
        properties_of(fs.drop_last()).push(spec_property_field(fs.last()))
    } else {
        properties_of(fs.drop_last())
    }
}

/// The callbacks among `fs`, in order.
pub open spec fn callbacks_of(fs: Seq<Field>) -> Seq<CallbackField>
    decreases fs.len(),
{
    if fs.len() == 0 {
        Seq::empty()
    } else if field_class(fs.last()) == FieldClass::Callback {
        callbacks_of(fs.drop_last()).push(spec_callback_field(fs.last()))
    } else {
        callbacks_of(fs.drop_last())
    }
}

/// The fields of `fs` taken for class `c`, in order.
pub open spec fn fields_of_class(fs: Seq<Field>, c: FieldClass) -> Seq<Field>
    decreases fs.len(),
{
    if fs.len() == 0 {
        Seq::empty()
    } else if field_class(fs.last()) == c {
        fields_of_class(fs.drop_last(), c).push(fs.last())
    } else {
        fields_of_class(fs.drop_last(), c)
    }
}

/// The last field named `globals` among `fs`.
pub open spec fn globals_of(fs: Seq<Field>) -> Option<Field>
    decreases fs.len(),
{
    if fs.len() == 0 {
        None
    } else if field_class(fs.last()) == FieldClass::Globals {
        Some(fs.last())
    } else {
        globals_of(fs.drop_last())
    }
}

/// Every field of `fs` is taken for something.
pub open spec fn all_known(fs: Seq<Field>) -> bool {
    forall|i: int| 0 <= i < fs.len() ==> field_class(#[trigger] fs[i]) != FieldClass::Unknown
}

/// The position of the first field of no known kind (where not all are known).
pub open spec fn first_unknown(fs: Seq<Field>) -> int
    decreases fs.len(),
{
    if fs.len() == 0 {
        0
    } else if !all_known(fs.drop_last()) {
        first_unknown(fs.drop_last())
    } else {
        fs.len() - 1
    }
}

/// When the first `i` fields are known and field `i` is not, field `i` is the
/// first unknown one, in every longer prefix too.
proof fn lemma_first_unknown(all: Seq<Field>, i: int, k: int)
    requires
        0 <= i < k <= all.len(),
        all_known(all.take(i)),
        field_class(all[i]) == FieldClass::Unknown,
    ensures
        first_unknown(all.take(k)) == i,
        !all_known(all.take(k)),
    decreases k - i,
{
    lemma_take_step(all, k - 1);
    assert(all.take(k)[i] == all[i]);
    if k == i + 1 {
        assert(all.take(k).drop_last() == all.take(i));
    } else {
        lemma_first_unknown(all, i, k - 1);
    }
}

/// The named fields of a struct (empty for other structs).
pub open spec fn named_fields(item: ItemStruct) -> Seq<Field> {
    match item.fields {
        Fields::Named(v) => v@,
        _ => Seq::empty(),
    }
}

/// The error that refuses an `InnerXxxAdopter` struct, checked in this order:
/// its name, named fields, every field known, a `globals` field.
pub open spec fn component_error(item: ItemStruct) -> Option<AdopterError> {
    if adopter_name(item.ident.text()) is None {
        Some(AdopterError::BadName)
    } else if !(item.fields is Named) {
        Some(AdopterError::ExpectedNamedFields)
    } else if !all_known(named_fields(item)) {
        Some(AdopterError::UnknownField(first_unknown(named_fields(item)) as usize))
    } else if globals_of(named_fields(item)) is None {
        Some(AdopterError::MissingGlobals)
    } else {
        None
    }
}

/// Named fields carry their names.
pub open spec fn idents_present(item: ItemStruct) -> bool {
    forall|i: int| 0 <= i < named_fields(item).len() ==> (#[trigger] named_fields(item)[i]).ident is Some
}

/// `c` is what an accepted struct `item` is read as.
pub open spec fn component_of(item: ItemStruct, c: InnerGlobalComponent) -> bool {
    &&& Some(c.name.sym@) == adopter_name(item.ident.text())
    &&& !c.name.raw
    &&& c.original_ident == item.ident
    &&& c.properties@ == properties_of(named_fields(item))
    &&& c.callbacks@ == callbacks_of(named_fields(item))
    &&& c.callback_trackers@ == fields_of_class(named_fields(item), FieldClass::CallbackTracker)
    &&& c.change_trackers@ == fields_of_class(named_fields(item), FieldClass::ChangeTracker)
    &&& Some(c.globals) == globals_of(named_fields(item))
    &&& c.original == item.tokens
}

impl InnerGlobalComponent {
    /// Reads an `InnerXxxAdopter` struct: its name must be
    /// `Inner` + `Xxx` + `Adopter`, its fields named, each field a callback
    /// tracker, a change tracker, a property, a callback or `globals` (see
    /// `field_class`), and a `globals` field present (the last one is kept).
    pub fn parse(item: ItemStruct) -> (r: Result<InnerGlobalComponent, AdopterError>)
        requires
            name_makes_ident(item.ident.text()),
            idents_present(item),
        ensures
            match r {
                Ok(c) => component_error(item) is None && component_of(item, c),
                Err(e) => component_error(item) == Some(e),
            },
    {
        let ghost g = item;
        let ItemStruct { ident, fields, tokens } = item;
        let name = match extract_name(&ident) {
            Ok(n) => n,
            Err(e) => { return Err(e); },
        };
        let mut fs = match fields {
            Fields::Named(v) => v,
            _ => { return Err(AdopterError::ExpectedNamedFields); },
        };
        let ghost all = fs@;
        let total: usize = fs.len();
        assert(all == named_fields(g));
        assert(all.len() == total);
        let mut properties: Vec<PropertyField> = Vec::new();
        let mut callbacks: Vec<CallbackField> = Vec::new();
        let mut callback_trackers: Vec<Field> = Vec::new();
        let mut change_trackers: Vec<Field> = Vec::new();
        let mut globals: Option<Field> = None;
        let mut i: usize = 0;
        proof {
            reveal_strlit("callback_tracker_");
            reveal_strlit("change_tracker");
            reveal_strlit("globals");
            assert(all.skip(0) =~= all);
            assert(all.take(0) =~= Seq::<Field>::empty());
        }
        while fs.len() > 0
            invariant
                all == named_fields(g),
                all.len() <= usize::MAX,
                g == item,
                idents_present(g),
                i <= all.len(),
                fs@ == all.skip(i as int),
                properties@ == properties_of(all.take(i as int)),
                callbacks@ == callbacks_of(all.take(i as int)),
                callback_trackers@ == fields_of_class(all.take(i as int), FieldClass::CallbackTracker),
                change_trackers@ == fields_of_class(all.take(i as int), FieldClass::ChangeTracker),
                globals == globals_of(all.take(i as int)),
                all_known(all.take(i as int)),
                adopter_name(g.ident.text()) is Some,
                g.fields is Named,
            decreases fs@.len(),
        {
            let ghost before = fs@;
            assert(before.len() == all.len() - i);
            let f = fs.remove(0);
            proof {
                assert(before[0] == all[i as int]);
                assert(fs@ =~= all.skip(i + 1));
                lemma_take_step(all, i as int);
                assert(named_fields(g)[i as int].ident is Some);
            }
            let t = match &f.ident {
                Some(id) => id.to_text(),
                None => vstd::pervasive::unreached(),
            };
            if starts_with(t.as_str(), "callback_tracker_") {
                callback_trackers.push(f);
            } else if starts_with(t.as_str(), "change_tracker") {
                change_trackers.push(f);
            } else {
                match map_property_field(f) {
                    Ok(p) => { properties.push(p); },
                    Err(rej) => {
                        match map_callback_field(rej.field) {
                            Ok(c) => { callbacks.push(c); },
                            Err(rej2) => {
                                let f2 = rej2.field;
                                let is_globals = str_eq_text(&t, "globals");
                                if is_globals {
                                    globals = Some(f2);
                                } else {
                                    proof {
                                        assert(field_class(all[i as int]) == FieldClass::Unknown);
                                        lemma_first_unknown(all, i as int, all.len() as int);
                                        assert(all.take(all.len() as int) =~= all);
                                        assert(component_error(g) == Some(AdopterError::UnknownField(i)));
                                    }
                                    return Err(AdopterError::UnknownField(i));
                                }
                            },
                        }
                    },
                }
            }
            proof {
                assert forall|j: int| 0 <= j < all.take(i + 1).len() implies field_class(#[trigger] all.take(i + 1)[j]) != FieldClass::Unknown by {
                    if j < i {
                        assert(all.take(i + 1)[j] == all.take(i as int)[j]);
                    }
                }
            }
            i += 1;
        }
        proof {
            assert(all.take(i as int) =~= all);
        }
        match globals {
            Some(globals) => Ok(InnerGlobalComponent {
                original_ident: ident,
                name,
                properties,
                callbacks,
                callback_trackers,
                change_trackers,
                globals,
                original: tokens,
            }),
            None => Err(AdopterError::MissingGlobals),
        }
    }
}

fn str_eq_text(t: &String, s: &str) -> (r: bool)
    ensures
        r == (t@ == s@),
{
    crate::text::str_eq(t.as_str(), s)
}

/// Every field of an `InnerXxxAdopter` struct is taken for exactly one thing:
/// when each field is known, the properties, callbacks, callback trackers,
/// change trackers and `globals` fields together are as many as the fields.
pub proof fn lemma_fields_partitioned(fs: Seq<Field>)
    requires
        all_known(fs),
    ensures
        properties_of(fs).len() + callbacks_of(fs).len() + fields_of_class(fs, FieldClass::CallbackTracker).len()
            + fields_of_class(fs, FieldClass::ChangeTracker).len() + fields_of_class(fs, FieldClass::Globals).len()
            == fs.len(),
    decreases fs.len(),
{
    if fs.len() > 0 {
        let d = fs.drop_last();
        assert forall|i: int| 0 <= i < d.len() implies field_class(#[trigger] d[i]) != FieldClass::Unknown by {
            assert(d[i] == fs[i]);
        }
        assert(field_class(fs[fs.len() - 1]) != FieldClass::Unknown);
        lemma_fields_partitioned(d);
    }
}

/// The struct `InnerXxxAdopter` and the public global `XxxAdopter` generated
/// beside it share the name: `Inner` followed by the public global's name
/// spells the struct's name.
pub proof fn lemma_inner_names_public_global(t: Seq<char>, base: Ident)
    requires
        adopter_name(t) == Some(base.sym@),
    ensures
        "Inner"@ + crate::naming::public_global_name(base) == t,
{
    reveal_strlit("Inner");
    reveal_strlit("Adopter");
    let mid = t.subrange(5, t.len() - 7);
    assert(t.skip(5).subrange(t.skip(5).len() - 7, t.skip(5).len() as int) =~= t.subrange(t.len() - 7, t.len() as int));
    assert(t =~= t.subrange(0, 5) + mid + t.subrange(t.len() - 7, t.len() as int));
    assert("Inner"@ + crate::naming::public_global_name(base) =~= t);
}

} // verus!
