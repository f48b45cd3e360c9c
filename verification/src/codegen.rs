//! The output side of the `adopter` attribute: the Rust source text emitted
//! for an `InnerXxxAdopter` struct.
//!
//! Each generator returns the text that the macro expands to; its contract is
//! the template, written over the names of `naming` and the token text of the
//! input.

use vstd::prelude::*;
use crate::adopter::{
    component_error, component_of, idents_present, name_can_be_made, name_makes_ident, named_fields, properties_of,
    AdopterError, CallbackField, InnerGlobalComponent, PropertyField,
};
use crate::reader::{build_item_struct, item_from, syn_item_struct, ItemShape};
use crate::naming::{
    define_mapper_macro_ident, define_mapper_macro_name, mapper_trait_ident, mapper_trait_member_type_ident,
    mapper_trait_name, member_type_name, public_global_ident, public_global_name, state_struct_ident,
    state_struct_name, viewmodel_trait_ident, viewmodel_trait_name,
};
use crate::mapper::{generate_text, lemma_mapper_impl_defines_map_fns, map_fn_head, DefineMapperInput};
use crate::syntax::{Fields, Ident, ItemStruct, Ty, TyKind};
use crate::text::{
    count_char, decimal, lemma_count_char_concat, lemma_count_char_digits, lemma_decimal_digits, lemma_occurs_extend,
    lemma_occurs_self, lemma_occurs_trans, lemma_prefix_occurs, lemma_take_step, occurs_in, push_decimal,
};

verus! {

// ---------------------------------------------------------------------------
// State struct

/// The declaration of a property's handle in the state struct.
pub open spec fn state_field_decl(f: PropertyField) -> Seq<char> {
    "pub "@ + f.ident.text() + ": stern::MappedPropertyHandle<M::"@ + member_type_name(f.ident) + ", "@
        + f.ty.tokens@ + ">, "@
}

/// The initialisation of a property's handle: its setter calls
/// `set_yyy` on the global, its mapper calls `M::map_yyy`.
pub open spec fn state_field_init(f: PropertyField) -> Seq<char> {
    f.ident.text()
        + ": stern::MappedPropertyHandle::new_mapped({ let adopter_weak = adopter_weak.clone(); move |val| { let adopter_strong = adopter_weak.unwrap(); adopter_strong.set_"@
        + f.ident.sym@ + "(val) } }, { move |val| { M::map_"@ + f.ident.sym@ + "(val) } }, ), "@
}

pub open spec fn state_field_decls(ps: Seq<PropertyField>) -> Seq<char>
    decreases ps.len(),
{
    if ps.len() == 0 {
        Seq::empty()
    } else {
        state_field_decls(ps.drop_last()) + state_field_decl(ps.last())
    }
}

pub open spec fn state_field_inits(ps: Seq<PropertyField>) -> Seq<char>
    decreases ps.len(),
{
    if ps.len() == 0 {
        Seq::empty()
    } else {
        state_field_inits(ps.drop_last()) + state_field_init(ps.last())
    }
}

/// `XxxStates<M>`: one property handle per property, and its constructor
/// from a weak reference to the global.
pub open spec fn state_struct_text(base: Ident, ps: Seq<PropertyField>) -> Seq<char> {
    "#[derive(Debug)] pub struct "@ + state_struct_name(base) + "<M> where M: "@ + mapper_trait_name(base) + " { "@
        + state_field_decls(ps) + "_phantom: std::marker::PhantomData<M>, } impl<M> "@ + state_struct_name(base)
        + "<M> where M: Clone + "@ + mapper_trait_name(base) + " { pub fn new(adopter_weak: slint::Weak<"@
        + public_global_name(base) + "<'static>>) -> Self { Self { "@ + state_field_inits(ps)
        + "_phantom: std::marker::PhantomData, } } } "@
}

fn push_state_field_decl(out: &mut String, f: &PropertyField)
    ensures
        final(out)@ == old(out)@ + state_field_decl(*f),
{
    let member = mapper_trait_member_type_ident(&f.ident);
    let mut s = String::new();
    s.append("pub ");
    s.append(f.ident.to_text().as_str());
    s.append(": stern::MappedPropertyHandle<M::");
    s.append(member.sym.as_str());
    s.append(", ");
    s.append(f.ty.tokens.as_str());
    s.append(">, ");
    assert(s@ =~= state_field_decl(*f));
    out.append(s.as_str());
}

fn push_state_field_init(out: &mut String, f: &PropertyField)
    ensures
        final(out)@ == old(out)@ + state_field_init(*f),
{
    let mut s = String::new();
    s.append(f.ident.to_text().as_str());
    s.append(
        ": stern::MappedPropertyHandle::new_mapped({ let adopter_weak = adopter_weak.clone(); move |val| { let adopter_strong = adopter_weak.unwrap(); adopter_strong.set_",
    );
    s.append(f.ident.sym.as_str());
    s.append("(val) } }, { move |val| { M::map_");
    s.append(f.ident.sym.as_str());
    s.append("(val) } }, ), ");
    assert(s@ =~= state_field_init(*f));
    out.append(s.as_str());
}

fn push_state_field_decls(out: &mut String, ps: &Vec<PropertyField>)
    ensures
        final(out)@ == old(out)@ + state_field_decls(ps@),
{
    let mut i: usize = 0;
    assert(ps@.take(0) =~= Seq::<PropertyField>::empty());
    assert(old(out)@ + Seq::<char>::empty() =~= old(out)@);
    while i < ps.len()
        invariant
            i <= ps@.len(),
            out@ == old(out)@ + state_field_decls(ps@.take(i as int)),
        decreases ps@.len() - i,
    {
        proof {
            lemma_take_step(ps@, i as int);
        }
        let ghost before = out@;
        push_state_field_decl(out, &ps[i]);
        assert(out@ =~= old(out)@ + state_field_decls(ps@.take(i + 1)));
        i += 1;
    }
    assert(ps@.take(ps@.len() as int) =~= ps@);
}

fn push_state_field_inits(out: &mut String, ps: &Vec<PropertyField>)
    ensures
        final(out)@ == old(out)@ + state_field_inits(ps@),
{
    let mut i: usize = 0;
    assert(ps@.take(0) =~= Seq::<PropertyField>::empty());
    assert(old(out)@ + Seq::<char>::empty() =~= old(out)@);
    while i < ps.len()
        invariant
            i <= ps@.len(),
            out@ == old(out)@ + state_field_inits(ps@.take(i as int)),
        decreases ps@.len() - i,
    {
        proof {
            lemma_take_step(ps@, i as int);
        }
        push_state_field_init(out, &ps[i]);
        assert(out@ =~= old(out)@ + state_field_inits(ps@.take(i + 1)));
        i += 1;
    }
    assert(ps@.take(ps@.len() as int) =~= ps@);
}

/// Generates the state struct `XxxStates<M>` and its constructor.
pub fn generate_state_struct(base: &Ident, properties: &Vec<PropertyField>) -> (r: String)
    ensures
        r@ == state_struct_text(*base, properties@),
{
    let state = state_struct_ident(base);
    let global = public_global_ident(base);
    let mapper = mapper_trait_ident(base);
    let mut s = String::new();
    s.append("#[derive(Debug)] pub struct ");
    s.append(state.sym.as_str());
    s.append("<M> where M: ");
    s.append(mapper.sym.as_str());
    s.append(" { ");
    let ghost p1 = s@;
    push_state_field_decls(&mut s, properties);
    let ghost p2 = s@;
    s.append("_phantom: std::marker::PhantomData<M>, } impl<M> ");
    s.append(state.sym.as_str());
    s.append("<M> where M: Clone + ");
    s.append(mapper.sym.as_str());
    s.append(" { pub fn new(adopter_weak: slint::Weak<");
    s.append(global.sym.as_str());
    s.append("<'static>>) -> Self { Self { ");
    let ghost p3 = s@;
    push_state_field_inits(&mut s, properties);
    s.append("_phantom: std::marker::PhantomData, } } } ");
    assert(s@ =~= state_struct_text(*base, properties@));
    s
}

// ---------------------------------------------------------------------------
// Mapper trait

/// A property's members of the mapper trait: its domain type and its map function.
pub open spec fn mapper_member(f: PropertyField) -> Seq<char> {
    "type "@ + member_type_name(f.ident) + ": Default; fn map_"@ + f.ident.sym@ + "(value: Self::"@
        + member_type_name(f.ident) + ") -> "@ + f.ty.path().tokens@ + "; "@
}

pub open spec fn mapper_members(ps: Seq<PropertyField>) -> Seq<char>
    decreases ps.len(),
{
    if ps.len() == 0 {
        Seq::empty()
    } else {
        mapper_members(ps.drop_last()) + mapper_member(ps.last())
    }
}

/// `XxxPropertyMappers`: per property a domain type and a map from it to the property type.
pub open spec fn mapper_trait_text(base: Ident, ps: Seq<PropertyField>) -> Seq<char> {
    "pub trait "@ + mapper_trait_name(base) + " { "@ + mapper_members(ps) + "} "@
}

/// Every property type is a path type.
pub open spec fn all_path_types(ps: Seq<PropertyField>) -> bool {
    forall|i: int| 0 <= i < ps.len() ==> (#[trigger] ps[i]).ty.is_path()
}

fn push_mapper_member(out: &mut String, f: &PropertyField)
    requires
        f.ty.is_path(),
    ensures
        final(out)@ == old(out)@ + mapper_member(*f),
{
    let path = match &f.ty.kind {
        TyKind::Path { path, .. } => path,
        _ => vstd::pervasive::unreached(),
    };
    let member = mapper_trait_member_type_ident(&f.ident);
    let mut s = String::new();
    s.append("type ");
    s.append(member.sym.as_str());
    s.append(": Default; fn map_");
    s.append(f.ident.sym.as_str());
    s.append("(value: Self::");
    s.append(member.sym.as_str());
    s.append(") -> ");
    s.append(path.tokens.as_str());
    s.append("; ");
    assert(s@ =~= mapper_member(*f));
    out.append(s.as_str());
}

/// Generates the mapper trait `XxxPropertyMappers`.
pub fn generate_mapper_trait(base: &Ident, properties: &Vec<PropertyField>) -> (r: String)
    requires
        all_path_types(properties@),
    ensures
        r@ == mapper_trait_text(*base, properties@),
{
    let mapper = mapper_trait_ident(base);
    let mut s = String::new();
    s.append("pub trait ");
    s.append(mapper.sym.as_str());
    s.append(" { ");
    let ghost start = s@;
    let mut i: usize = 0;
    assert(properties@.take(0) =~= Seq::<PropertyField>::empty());
    assert(start + Seq::<char>::empty() =~= start);
    while i < properties.len()
        invariant
            i <= properties@.len(),
            all_path_types(properties@),
            s@ == start + mapper_members(properties@.take(i as int)),
        decreases properties@.len() - i,
    {
        proof {
            lemma_take_step(properties@, i as int);
        }
        push_mapper_member(&mut s, &properties[i]);
        assert(s@ =~= start + mapper_members(properties@.take(i + 1)));
        i += 1;
    }
    assert(properties@.take(properties@.len() as int) =~= properties@);
    s.append("} ");
    assert(s@ =~= mapper_trait_text(*base, properties@));
    s
}

// ---------------------------------------------------------------------------
// define_xxx_mapper! macro

/// The type a property is written with in the mapper macro: a path whose
/// first segment is raw (a type generated from a `.slint` file) is named
/// through `$crate::` by that segment's symbol; any other type by its tokens.
pub open spec fn macro_slint_typ(t: Ty) -> Seq<char> {
    if t.is_path() && t.path().segments@[0].ident.raw {
        "$crate::"@ + t.path().segments@[0].ident.sym@
    } else {
        t.tokens@
    }
}

/// The optional `yyy to T { mapper }` input of the mapper macro.
pub open spec fn macro_matcher(f: PropertyField) -> Seq<char> {
    "$( "@ + f.ident.sym@ + " to $"@ + f.ident.sym@ + "_typ:ty { $"@ + f.ident.sym@ + "_mapper:expr }, )? "@
}

/// The property entry that the mapper macro passes on to `define_mapper_impl`.
pub open spec fn macro_impl_call(f: PropertyField) -> Seq<char> {
    f.ident.text() + ": { $(domain_typ: $"@ + f.ident.sym@ + "_typ,)? slint_typ: "@ + macro_slint_typ(f.ty)
        + ", $(mapper: $"@ + f.ident.sym@ + "_mapper,)? }, "@
}

pub open spec fn macro_matchers(ps: Seq<PropertyField>) -> Seq<char>
    decreases ps.len(),
{
    if ps.len() == 0 {
        Seq::empty()
    } else {
        macro_matchers(ps.drop_last()) + macro_matcher(ps.last())
    }
}

pub open spec fn macro_impl_calls(ps: Seq<PropertyField>) -> Seq<char>
    decreases ps.len(),
{
    if ps.len() == 0 {
        Seq::empty()
    } else {
        macro_impl_calls(ps.drop_last()) + macro_impl_call(ps.last())
    }
}

/// `define_xxx_mapper!`: takes an optional domain type and mapper per
/// property and expands to `stern::define_mapper_impl!` with them.
pub open spec fn define_mapper_macro_text(base: Ident, ps: Seq<PropertyField>) -> Seq<char> {
    "#[macro_export] macro_rules! "@ + define_mapper_macro_name(base) + " { { "@ + macro_matchers(ps)
        + "} => { stern::define_mapper_impl!{ base_name: "@ + base.text() + ", properties: { "@
        + macro_impl_calls(ps) + "} } } } "@
}

/// Every path type among the properties has a segment.
pub open spec fn all_wf_types(ps: Seq<PropertyField>) -> bool {
    forall|i: int| 0 <= i < ps.len() ==> (#[trigger] ps[i]).ty.wf()
}

fn push_macro_matcher(out: &mut String, f: &PropertyField)
    ensures
        final(out)@ == old(out)@ + macro_matcher(*f),
{
    let mut s = String::new();
    s.append("$( ");
    s.append(f.ident.sym.as_str());
    s.append(" to $");
    s.append(f.ident.sym.as_str());
    s.append("_typ:ty { $");
    s.append(f.ident.sym.as_str());
    s.append("_mapper:expr }, )? ");
    assert(s@ =~= macro_matcher(*f));
    out.append(s.as_str());
}

fn push_macro_slint_typ(out: &mut String, t: &Ty)
    requires
        t.wf(),
    ensures
        final(out)@ == old(out)@ + macro_slint_typ(*t),
{
    match &t.kind {
        TyKind::Path { path, .. } => {
            let first = &path.segments[0].ident;
            if first.raw {
                let mut s = String::new();
                s.append("$crate::");
                s.append(first.sym.as_str());
                assert(s@ =~= macro_slint_typ(*t));
                out.append(s.as_str());
                return;
            }
        },
        _ => {},
    }
    out.append(t.tokens.as_str());
}

fn push_macro_impl_call(out: &mut String, f: &PropertyField)
    requires
        f.ty.wf(),
    ensures
        final(out)@ == old(out)@ + macro_impl_call(*f),
{
    let mut s = String::new();
    s.append(f.ident.to_text().as_str());
    s.append(": { $(domain_typ: $");
    s.append(f.ident.sym.as_str());
    s.append("_typ,)? slint_typ: ");
    push_macro_slint_typ(&mut s, &f.ty);
    s.append(", $(mapper: $");
    s.append(f.ident.sym.as_str());
    s.append("_mapper,)? }, ");
    assert(s@ =~= macro_impl_call(*f));
    out.append(s.as_str());
}

/// Generates the `define_xxx_mapper!` macro.
pub fn generate_define_mapper_macro(base_name: &Ident, properties: &Vec<PropertyField>) -> (r: String)
    requires
        all_wf_types(properties@),
    ensures
        r@ == define_mapper_macro_text(*base_name, properties@),
{
    let name = define_mapper_macro_ident(base_name);
    let mut s = String::new();
    s.append("#[macro_export] macro_rules! ");
    s.append(name.sym.as_str());
    s.append(" { { ");
    let ghost start = s@;
    let mut i: usize = 0;
    assert(properties@.take(0) =~= Seq::<PropertyField>::empty());
    assert(start + Seq::<char>::empty() =~= start);
    while i < properties.len()
        invariant
            i <= properties@.len(),
            s@ == start + macro_matchers(properties@.take(i as int)),
        decreases properties@.len() - i,
    {
        proof {
            lemma_take_step(properties@, i as int);
        }
        push_macro_matcher(&mut s, &properties[i]);
        assert(s@ =~= start + macro_matchers(properties@.take(i + 1)));
        i += 1;
    }
    assert(properties@.take(properties@.len() as int) =~= properties@);
    s.append("} => { stern::define_mapper_impl!{ base_name: ");
    s.append(base_name.to_text().as_str());
    s.append(", properties: { ");
    let ghost mid = s@;
    let mut j: usize = 0;
    assert(mid + Seq::<char>::empty() =~= mid);
    while j < properties.len()
        invariant
            j <= properties@.len(),
            all_wf_types(properties@),
            s@ == mid + macro_impl_calls(properties@.take(j as int)),
        decreases properties@.len() - j,
    {
        proof {
            lemma_take_step(properties@, j as int);
        }
        push_macro_impl_call(&mut s, &properties[j]);
        assert(s@ =~= mid + macro_impl_calls(properties@.take(j + 1)));
        j += 1;
    }
    s.append("} } } } ");
    assert(s@ =~= define_mapper_macro_text(*base_name, properties@));
    s
}

// ---------------------------------------------------------------------------
// Viewmodel trait and its registration

/// The parameters `args_0: A0, args_1: A1, ...` of a callback handler.
pub open spec fn handler_params(ts: Seq<Ty>) -> Seq<char>
    decreases ts.len(),
{
    if ts.len() == 0 {
        Seq::empty()
    } else {
        handler_params(ts.drop_last()) + "args_"@ + decimal((ts.len() - 1) as nat) + ": "@ + ts.last().tokens@
            + ", "@
    }
}

/// The handler method `fn on_yyy(&mut self, args...) -> Ret;` of a callback.
pub open spec fn handler_decl(cb: CallbackField) -> Seq<char> {
    "fn on_"@ + cb.ident.sym@ + "(&mut self, "@ + handler_params(cb.arg_type.elems@) + ") -> "@
        + cb.ret_type.tokens@ + "; "@
}

pub open spec fn handler_decls(cbs: Seq<CallbackField>) -> Seq<char>
    decreases cbs.len(),
{
    if cbs.len() == 0 {
        Seq::empty()
    } else {
        handler_decls(cbs.drop_last()) + handler_decl(cbs.last())
    }
}

/// `XxxViewModelTrait`: one handler method per callback.
pub open spec fn viewmodel_trait_text(base: Ident, cbs: Seq<CallbackField>) -> Seq<char> {
    "pub trait "@ + viewmodel_trait_name(base) + " { "@ + handler_decls(cbs) + "} "@
}

/// The argument list `arg_0, arg_1, ...` of `n` arguments.
pub open spec fn arg_list(n: nat) -> Seq<char>
    decreases n,
{
    if n == 0 {
        Seq::empty()
    } else if n == 1 {
        "arg_0"@
    } else {
        arg_list((n - 1) as nat) + ", arg_"@ + decimal((n - 1) as nat)
    }
}

/// Registers a callback of the global to call the viewmodel's handler.
pub open spec fn registration(cb: CallbackField) -> Seq<char> {
    "self.on_"@ + cb.ident.sym@ + "({ let vm_clone = std::rc::Rc::clone(&vm); move |"@
        + arg_list(cb.arg_type.elems@.len()) + "| { vm_clone.borrow_mut().on_"@ + cb.ident.sym@ + "("@
        + arg_list(cb.arg_type.elems@.len()) + ") } }); "@
}

pub open spec fn registrations(cbs: Seq<CallbackField>) -> Seq<char>
    decreases cbs.len(),
{
    if cbs.len() == 0 {
        Seq::empty()
    } else {
        registrations(cbs.drop_last()) + registration(cbs.last())
    }
}

/// `GlobalExt` for the public global: registering a viewmodel sets each
/// callback to call the viewmodel's handler.
pub open spec fn register_impl_text(base: Ident, cbs: Seq<CallbackField>) -> Seq<char> {
    "impl<VMImpl> stern::GlobalExt<VMImpl> for "@ + public_global_name(base) + "<'_> where VMImpl: "@
        + viewmodel_trait_name(base)
        + " + 'static { fn register_viewmodel(&self, vm: std::rc::Rc<core::cell::RefCell<VMImpl>>) { "@
        + registrations(cbs) + "} } "@
}

fn push_handler_params(out: &mut String, ts: &Vec<Ty>)
    ensures
        final(out)@ == old(out)@ + handler_params(ts@),
{
    let mut i: usize = 0;
    assert(ts@.take(0) =~= Seq::<Ty>::empty());
    assert(old(out)@ + Seq::<char>::empty() =~= old(out)@);
    while i < ts.len()
        invariant
            i <= ts@.len(),
            out@ == old(out)@ + handler_params(ts@.take(i as int)),
        decreases ts@.len() - i,
    {
        proof {
            lemma_take_step(ts@, i as int);
        }
        let ghost before = out@;
        out.append("args_");
        push_decimal(out, i);
        out.append(": ");
        out.append(ts[i].tokens.as_str());
        out.append(", ");
        assert(out@ =~= old(out)@ + handler_params(ts@.take(i + 1)));
        i += 1;
    }
    assert(ts@.take(ts@.len() as int) =~= ts@);
}

fn push_arg_list(out: &mut String, n: usize)
    ensures
        final(out)@ == old(out)@ + arg_list(n as nat),
{
    if n == 0 {
        assert(old(out)@ + Seq::<char>::empty() =~= old(out)@);
        return;
    }
    out.append("arg_0");
    let mut i: usize = 1;
    while i < n
        invariant
            1 <= i <= n,
            out@ == old(out)@ + arg_list(i as nat),
        decreases n - i,
    {
        out.append(", arg_");
        push_decimal(out, i);
        assert(out@ =~= old(out)@ + arg_list((i + 1) as nat));
        i += 1;
    }
}

fn push_handler_decl(out: &mut String, cb: &CallbackField)
    ensures
        final(out)@ == old(out)@ + handler_decl(*cb),
{
    let mut s = String::new();
    s.append("fn on_");
    s.append(cb.ident.sym.as_str());
    s.append("(&mut self, ");
    push_handler_params(&mut s, &cb.arg_type.elems);
    s.append(") -> ");
    s.append(cb.ret_type.tokens.as_str());
    s.append("; ");
    assert(s@ =~= handler_decl(*cb));
    out.append(s.as_str());
}

fn push_registration(out: &mut String, cb: &CallbackField)
    ensures
        final(out)@ == old(out)@ + registration(*cb),
{
    let n = cb.arg_type.elems.len();
    let mut s = String::new();
    s.append("self.on_");
    s.append(cb.ident.sym.as_str());
    s.append("({ let vm_clone = std::rc::Rc::clone(&vm); move |");
    push_arg_list(&mut s, n);
    s.append("| { vm_clone.borrow_mut().on_");
    s.append(cb.ident.sym.as_str());
    s.append("(");
    push_arg_list(&mut s, n);
    s.append(") } }); ");
    assert(s@ =~= registration(*cb));
    out.append(s.as_str());
}

/// Generates the viewmodel trait `XxxViewModelTrait`.
pub fn generate_viewmodel_trait(base: &Ident, callbacks: &Vec<CallbackField>) -> (r: String)
    ensures
        r@ == viewmodel_trait_text(*base, callbacks@),
{
    let vm = viewmodel_trait_ident(base);
    let mut s = String::new();
    s.append("pub trait ");
    s.append(vm.sym.as_str());
    s.append(" { ");
    let ghost start = s@;
    let mut i: usize = 0;
    assert(callbacks@.take(0) =~= Seq::<CallbackField>::empty());
    assert(start + Seq::<char>::empty() =~= start);
    while i < callbacks.len()
        invariant
            i <= callbacks@.len(),
            s@ == start + handler_decls(callbacks@.take(i as int)),
        decreases callbacks@.len() - i,
    {
        proof {
            lemma_take_step(callbacks@, i as int);
        }
        push_handler_decl(&mut s, &callbacks[i]);
        assert(s@ =~= start + handler_decls(callbacks@.take(i + 1)));
        i += 1;
    }
    assert(callbacks@.take(callbacks@.len() as int) =~= callbacks@);
    s.append("} ");
    assert(s@ =~= viewmodel_trait_text(*base, callbacks@));
    s
}

/// Generates the `GlobalExt` impl that registers a viewmodel on the global.
pub fn generate_register_impl(base: &Ident, callbacks: &Vec<CallbackField>) -> (r: String)
    ensures
        r@ == register_impl_text(*base, callbacks@),
{
    let vm = viewmodel_trait_ident(base);
    let global = public_global_ident(base);
    let mut s = String::new();
    s.append("impl<VMImpl> stern::GlobalExt<VMImpl> for ");
    s.append(global.sym.as_str());
    s.append("<'_> where VMImpl: ");
    s.append(vm.sym.as_str());
    s.append(" + 'static { fn register_viewmodel(&self, vm: std::rc::Rc<core::cell::RefCell<VMImpl>>) { ");
    let ghost start = s@;
    let mut i: usize = 0;
    assert(callbacks@.take(0) =~= Seq::<CallbackField>::empty());
    assert(start + Seq::<char>::empty() =~= start);
    while i < callbacks.len()
        invariant
            i <= callbacks@.len(),
            s@ == start + registrations(callbacks@.take(i as int)),
        decreases callbacks@.len() - i,
    {
        proof {
            lemma_take_step(callbacks@, i as int);
        }
        push_registration(&mut s, &callbacks[i]);
        assert(s@ =~= start + registrations(callbacks@.take(i + 1)));
        i += 1;
    }
    assert(callbacks@.take(callbacks@.len() as int) =~= callbacks@);
    s.append("} } ");
    assert(s@ =~= register_impl_text(*base, callbacks@));
    s
}

// ---------------------------------------------------------------------------
// The whole expansion

/// What the `adopter` attribute expands to: the struct unchanged, then the
/// state struct, the viewmodel trait, the mapper trait, the mapper macro and
/// the registration impl.
pub open spec fn adopter_text(item: InnerGlobalComponent) -> Seq<char> {
    item.original@ + " "@ + state_struct_text(item.name, item.properties@) + viewmodel_trait_text(
        item.name,
        item.callbacks@,
    ) + mapper_trait_text(item.name, item.properties@) + define_mapper_macro_text(item.name, item.properties@)
        + register_impl_text(item.name, item.callbacks@)
}

/// The expansion of the `adopter` attribute for a read `InnerXxxAdopter`
/// struct; the attribute's own arguments are ignored.
pub fn adopter_inner(_attr: &str, item: &InnerGlobalComponent) -> (r: String)
    requires
        all_path_types(item.properties@),
        all_wf_types(item.properties@),
    ensures
        r@ == adopter_text(*item),
{
    let state_struct = generate_state_struct(&item.name, &item.properties);
    let viewmodel_trait = generate_viewmodel_trait(&item.name, &item.callbacks);
    let mapper_trait = generate_mapper_trait(&item.name, &item.properties);
    let mapper_macro = generate_define_mapper_macro(&item.name, &item.properties);
    let register_impl = generate_register_impl(&item.name, &item.callbacks);
    let mut s = item.original.clone();
    s.append(" ");
    s.append(state_struct.as_str());
    s.append(viewmodel_trait.as_str());
    s.append(mapper_trait.as_str());
    s.append(mapper_macro.as_str());
    s.append(register_impl.as_str());
    assert(s@ =~= adopter_text(*item));
    s
}

// ---------------------------------------------------------------------------
// From the attributed item's text to the expansion

/// Why the `adopter` attribute refuses its item.
#[derive(Debug, PartialEq, Eq, Clone)]
pub enum ExpandError {
    /// The item is no struct item; the message is syn's.
    Syntax(String),
    /// The struct is no `InnerXxxAdopter` struct.
    Adopter(AdopterError),
}

/// The structs on which the expansion cannot be made: the name left between
/// `Inner` and `Adopter` is no identifier, a named field has no name, or an
/// accepted struct has a property whose type is no path type (or a path
/// without segments).
pub open spec fn adopter_panics(it: ItemStruct) -> bool {
    ||| !name_makes_ident(it.ident.text())
    ||| !idents_present(it)
    ||| (component_error(it) is None && !(all_path_types(properties_of(named_fields(it))) && all_wf_types(
        properties_of(named_fields(it)),
    )))
}

fn idents_all_present(it: &ItemStruct) -> (r: bool)
    ensures
        r == idents_present(*it),
{
    match &it.fields {
        Fields::Named(v) => {
            let mut i: usize = 0;
            while i < v.len()
                invariant
                    it.fields == Fields::Named(*v),
                    i <= v@.len(),
                    forall|j: int| 0 <= j < i ==> (#[trigger] v@[j]).ident is Some,
                decreases v@.len() - i,
            {
                if v[i].ident.is_none() {
                    assert(named_fields(*it)[i as int].ident is None);
                    return false;
                }
                i += 1;
            }
            assert(named_fields(*it) == v@);
            true
        },
        _ => true,
    }
}

fn properties_generable(ps: &Vec<PropertyField>) -> (r: bool)
    ensures
        r == (all_path_types(ps@) && all_wf_types(ps@)),
{
    let mut i: usize = 0;
    while i < ps.len()
        invariant
            i <= ps@.len(),
            forall|j: int| 0 <= j < i ==> (#[trigger] ps@[j]).ty.is_path() && ps@[j].ty.wf(),
        decreases ps@.len() - i,
    {
        match &ps[i].ty.kind {
            TyKind::Path { path, .. } => {
                if path.segments.len() == 0 {
                    assert(!ps@[i as int].ty.wf());
                    return false;
                }
            },
            _ => {
                assert(!ps@[i as int].ty.is_path());
                return false;
            },
        }
        i += 1;
    }
    true
}

/// The expansion of the `adopter` attribute from the texts of its arguments
/// and of its item: `None` on a struct on which the expansion cannot be made
/// (see `adopter_panics`), an error (with syn's message) where the item is
/// no struct, an error where it is no
/// `InnerXxxAdopter` struct, else the expansion of the struct read.
pub fn expand_adopter(attr: &str, item: &str) -> (r: Option<Result<String, ExpandError>>)
    ensures
        match r {
            None => exists|it: ItemStruct| item_from(item@, it) && adopter_panics(it),
            Some(Err(ExpandError::Syntax(m))) => {
                &&& forall|it: ItemStruct| !item_from(item@, it)
                &&& syn_item_struct(item@) is Err ==> syn_item_struct(item@) == Err::<ItemShape, String>(m)
            },
            Some(Err(ExpandError::Adopter(e))) => exists|it: ItemStruct|
                item_from(item@, it) && !adopter_panics(it) && component_error(it) == Some(e),
            Some(Ok(out)) => exists|it: ItemStruct, c: InnerGlobalComponent|
                item_from(item@, it) && !adopter_panics(it) && component_error(it) is None && component_of(it, c)
                    && out@ == adopter_text(c),
        },
{
    let it = match build_item_struct(item) {
        Ok(it) => it,
        Err(m) => { return Some(Err(ExpandError::Syntax(m))); },
    };
    let ghost g = it;
    if !name_can_be_made(&it.ident) {
        assert(item_from(item@, g) && adopter_panics(g));
        return None;
    }
    if !idents_all_present(&it) {
        assert(item_from(item@, g) && adopter_panics(g));
        return None;
    }
    match InnerGlobalComponent::parse(it) {
        Err(e) => {
            assert(item_from(item@, g) && !adopter_panics(g) && component_error(g) == Some(e));
            Some(Err(ExpandError::Adopter(e)))
        },
        Ok(c) => {
            if !properties_generable(&c.properties) {
                assert(item_from(item@, g) && adopter_panics(g));
                return None;
            }
            let out = adopter_inner(attr, &c);
            assert(item_from(item@, g) && !adopter_panics(g) && component_error(g) is None && component_of(g, c));
            Some(Ok(out))
        },
    }
}

// ---------------------------------------------------------------------------
// Laws of the generated text

/// What occurs in the middle part of a text occurs in the text.
proof fn lemma_occurs_mid(t: Seq<char>, a: Seq<char>, m: Seq<char>, b: Seq<char>)
    requires
        occurs_in(t, m),
    ensures
        occurs_in(t, a + m + b),
{
    lemma_occurs_extend(t, a, m);
    lemma_occurs_extend(t, a + m, b);
}

proof fn lemma_matcher_occurs(ps: Seq<PropertyField>, k: int)
    requires
        0 <= k < ps.len(),
    ensures
        occurs_in(macro_matcher(ps[k]), macro_matchers(ps)),
    decreases ps.len(),
{
    if k == ps.len() - 1 {
        lemma_occurs_self(macro_matcher(ps[k]));
        lemma_occurs_extend(macro_matcher(ps[k]), macro_matchers(ps.drop_last()), macro_matcher(ps.last()));
    } else {
        lemma_matcher_occurs(ps.drop_last(), k);
        lemma_occurs_extend(macro_matcher(ps[k]), macro_matchers(ps.drop_last()), macro_matcher(ps.last()));
    }
}

/// `define_xxx_mapper!` offers every property by its plain symbol: the
/// optional input `$( yyy to $yyy_typ:ty { $yyy_mapper:expr }, )?` of each
/// property stands in the macro with the name written without `r#`, so that a
/// user writes `yyy to T { mapper }` for a property that slint declared as
/// `r#yyy`.
pub proof fn lemma_mapper_macro_offers_plain_names(base: Ident, ps: Seq<PropertyField>, k: int)
    requires
        0 <= k < ps.len(),
    ensures
        occurs_in(
            "$( "@ + ps[k].ident.sym@ + " to $"@ + ps[k].ident.sym@ + "_typ:ty { $"@ + ps[k].ident.sym@
                + "_mapper:expr }, )? "@,
            define_mapper_macro_text(base, ps),
        ),
{
    let t = "$( "@ + ps[k].ident.sym@ + " to $"@ + ps[k].ident.sym@ + "_typ:ty { $"@ + ps[k].ident.sym@
        + "_mapper:expr }, )? "@;
    assert(macro_matcher(ps[k]) =~= t);
    lemma_matcher_occurs(ps, k);
    let pre = "#[macro_export] macro_rules! "@ + define_mapper_macro_name(base) + " { { "@;
    let post = "} => { stern::define_mapper_impl!{ base_name: "@ + base.text() + ", properties: { "@
        + macro_impl_calls(ps) + "} } } } "@;
    assert(define_mapper_macro_text(base, ps) =~= pre + macro_matchers(ps) + post);
    lemma_occurs_mid(t, pre, macro_matchers(ps), post);
}

/// The argument list of `n` arguments has exactly `n` entries: it is empty
/// for none, and otherwise `n - 1` commas part `arg_0` up to `arg_{n-1}`.
pub proof fn lemma_arg_list_entries(n: nat)
    ensures
        n == 0 ==> arg_list(n) == Seq::<char>::empty(),
        n > 0 ==> count_char(arg_list(n), ',') == n - 1,
        n > 0 ==> "arg_0"@.is_prefix_of(arg_list(n)),
        n > 0 ==> ("arg_"@ + decimal((n - 1) as nat)).is_suffix_of(arg_list(n)),
    decreases n,
{
    reveal_strlit("arg_0");
    reveal_strlit(", arg_");
    reveal_strlit("arg_");
    if n == 1 {
        assert(count_char("arg_0"@, ',') == 0) by {
            reveal_with_fuel(count_char, 6);
        }
        assert(decimal(0) == seq!['0']);
        assert("arg_"@ + decimal(0) =~= "arg_0"@);
    } else if n > 1 {
        let m = (n - 1) as nat;
        lemma_arg_list_entries(m);
        let tail = ", arg_"@ + decimal(m);
        assert(arg_list(n) == arg_list(m) + tail);
        assert(count_char(", arg_"@, ',') == 1) by {
            reveal_with_fuel(count_char, 7);
        }
        lemma_decimal_digits(m);
        lemma_count_char_digits(decimal(m), ',');
        lemma_count_char_concat(", arg_"@, decimal(m), ',');
        lemma_count_char_concat(arg_list(m), tail, ',');
        assert(arg_list(n).subrange(0, 5) =~= arg_list(m).subrange(0, 5));
        assert(("arg_"@ + decimal(m)).is_suffix_of(arg_list(n))) by {
            assert(arg_list(n).subrange(arg_list(n).len() - ("arg_"@ + decimal(m)).len(), arg_list(n).len() as int)
                =~= "arg_"@ + decimal(m));
        }
    }
}

/// The closure registered for a callback of `n` arguments takes the `n`
/// arguments `arg_0, ...` and hands the same list to the viewmodel's handler,
/// and every callback of the global is registered.
pub proof fn lemma_registration_passes_arguments(base: Ident, cbs: Seq<CallbackField>, k: int)
    requires
        0 <= k < cbs.len(),
    ensures
        occurs_in(
            "move |"@ + arg_list(cbs[k].arg_type.elems@.len()) + "| { vm_clone.borrow_mut().on_"@ + cbs[k].ident.sym@
                + "("@ + arg_list(cbs[k].arg_type.elems@.len()) + ") }"@,
            registration(cbs[k]),
        ),
        occurs_in(registration(cbs[k]), register_impl_text(base, cbs)),
{
    let cb = cbs[k];
    let args = arg_list(cb.arg_type.elems@.len());
    let t = "move |"@ + args + "| { vm_clone.borrow_mut().on_"@ + cb.ident.sym@ + "("@ + args + ") }"@;
    lemma_occurs_self(t);
    let pre = "self.on_"@ + cb.ident.sym@ + "({ let vm_clone = std::rc::Rc::clone(&vm); "@;
    let post = " }); "@;
    assert(registration(cb) =~= pre + t + post) by {
        reveal_strlit("self.on_");
        reveal_strlit("({ let vm_clone = std::rc::Rc::clone(&vm); move |");
        reveal_strlit("({ let vm_clone = std::rc::Rc::clone(&vm); ");
        reveal_strlit("move |");
        reveal_strlit("| { vm_clone.borrow_mut().on_");
        reveal_strlit("(");
        reveal_strlit(") } }); ");
        reveal_strlit(") }");
        reveal_strlit(" }); ");
    }
    lemma_occurs_mid(t, pre, t, post);
    lemma_registration_occurs(cbs, k);
    let pre2 = "impl<VMImpl> stern::GlobalExt<VMImpl> for "@ + public_global_name(base) + "<'_> where VMImpl: "@
        + viewmodel_trait_name(base)
        + " + 'static { fn register_viewmodel(&self, vm: std::rc::Rc<core::cell::RefCell<VMImpl>>) { "@;
    let post2 = "} } "@;
    assert(register_impl_text(base, cbs) =~= pre2 + registrations(cbs) + post2);
    lemma_occurs_mid(registration(cb), pre2, registrations(cbs), post2);
}

proof fn lemma_registration_occurs(cbs: Seq<CallbackField>, k: int)
    requires
        0 <= k < cbs.len(),
    ensures
        occurs_in(registration(cbs[k]), registrations(cbs)),
    decreases cbs.len(),
{
    if k == cbs.len() - 1 {
        lemma_occurs_self(registration(cbs[k]));
    } else {
        lemma_registration_occurs(cbs.drop_last(), k);
    }
    lemma_occurs_extend(registration(cbs[k]), registrations(cbs.drop_last()), registration(cbs.last()));
}

proof fn lemma_handler_occurs(cbs: Seq<CallbackField>, k: int)
    requires
        0 <= k < cbs.len(),
    ensures
        occurs_in(handler_decl(cbs[k]), handler_decls(cbs)),
    decreases cbs.len(),
{
    if k == cbs.len() - 1 {
        lemma_occurs_self(handler_decl(cbs[k]));
    } else {
        lemma_handler_occurs(cbs.drop_last(), k);
    }
    lemma_occurs_extend(handler_decl(cbs[k]), handler_decls(cbs.drop_last()), handler_decl(cbs.last()));
}

/// The viewmodel trait declares one handler per callback, `fn on_yyy(&mut
/// self, ...)`, whose return type is the callback's return type.
pub proof fn lemma_handler_returns_callback_type(base: Ident, cbs: Seq<CallbackField>, k: int)
    requires
        0 <= k < cbs.len(),
    ensures
        occurs_in(handler_decl(cbs[k]), viewmodel_trait_text(base, cbs)),
        ("fn on_"@ + cbs[k].ident.sym@ + "(&mut self, "@).is_prefix_of(handler_decl(cbs[k])),
        (") -> "@ + cbs[k].ret_type.tokens@ + "; "@).is_suffix_of(handler_decl(cbs[k])),
{
    let cb = cbs[k];
    let d = handler_decl(cb);
    let head = "fn on_"@ + cb.ident.sym@ + "(&mut self, "@;
    let tail = ") -> "@ + cb.ret_type.tokens@ + "; "@;
    assert(d =~= head + handler_params(cb.arg_type.elems@) + tail);
    assert(d.subrange(0, head.len() as int) =~= head);
    assert(d.subrange(d.len() - tail.len(), d.len() as int) =~= tail);
    lemma_handler_occurs(cbs, k);
    let pre = "pub trait "@ + viewmodel_trait_name(base) + " { "@;
    assert(viewmodel_trait_text(base, cbs) =~= pre + handler_decls(cbs) + "} "@);
    lemma_occurs_mid(d, pre, handler_decls(cbs), "} "@);
}

/// The expansion of every accepted struct defines the viewmodel trait that
/// its `GlobalExt` impl is bounded by, with or without callbacks.
pub proof fn lemma_expansion_defines_viewmodel_trait(item: InnerGlobalComponent)
    ensures
        occurs_in(viewmodel_trait_text(item.name, item.callbacks@), adopter_text(item)),
        occurs_in("pub trait "@ + viewmodel_trait_name(item.name) + " { "@, adopter_text(item)),
        occurs_in("where VMImpl: "@ + viewmodel_trait_name(item.name) + " + 'static"@, adopter_text(item)),
{
    let v = viewmodel_trait_text(item.name, item.callbacks@);
    let a = item.original@ + " "@ + state_struct_text(item.name, item.properties@);
    let m = mapper_trait_text(item.name, item.properties@);
    let d = define_mapper_macro_text(item.name, item.properties@);
    let r = register_impl_text(item.name, item.callbacks@);
    lemma_occurs_self(v);
    lemma_occurs_extend(v, a, v);
    lemma_occurs_extend(v, a + v, m);
    lemma_occurs_extend(v, a + v + m, d);
    lemma_occurs_extend(v, a + v + m + d, r);
    assert(adopter_text(item) == a + v + m + d + r);
    let head = "pub trait "@ + viewmodel_trait_name(item.name) + " { "@;
    assert(head.is_prefix_of(v));
    lemma_prefix_occurs(head, v);
    lemma_occurs_trans(head, v, adopter_text(item));
    let bound = "where VMImpl: "@ + viewmodel_trait_name(item.name) + " + 'static"@;
    let rpre = "impl<VMImpl> stern::GlobalExt<VMImpl> for "@ + public_global_name(item.name) + "<'_> "@;
    let rpost = " { fn register_viewmodel(&self, vm: std::rc::Rc<core::cell::RefCell<VMImpl>>) { "@
        + registrations(item.callbacks@) + "} } "@;
    assert(r =~= rpre + bound + rpost) by {
        reveal_strlit("<'_> where VMImpl: ");
        reveal_strlit("<'_> ");
        reveal_strlit("where VMImpl: ");
        reveal_strlit(" + 'static { fn register_viewmodel(&self, vm: std::rc::Rc<core::cell::RefCell<VMImpl>>) { ");
        reveal_strlit(" + 'static");
        reveal_strlit(" { fn register_viewmodel(&self, vm: std::rc::Rc<core::cell::RefCell<VMImpl>>) { ");
    }
    lemma_occurs_self(bound);
    lemma_occurs_extend(bound, rpre, bound);
    lemma_occurs_extend(bound, rpre + bound, rpost);
    lemma_occurs_extend(bound, a + v + m + d, r);
}

proof fn lemma_mapper_member_occurs(ps: Seq<PropertyField>, k: int)
    requires
        0 <= k < ps.len(),
    ensures
        occurs_in(mapper_member(ps[k]), mapper_members(ps)),
    decreases ps.len(),
{
    if k == ps.len() - 1 {
        lemma_occurs_self(mapper_member(ps[k]));
    } else {
        lemma_mapper_member_occurs(ps.drop_last(), k);
    }
    lemma_occurs_extend(mapper_member(ps[k]), mapper_members(ps.drop_last()), mapper_member(ps.last()));
}

/// The mapper trait declares, for every property, the map function
/// `fn map_yyy(value: Self::YyyMappedType) -> ` named by the property's plain
/// symbol.
pub proof fn lemma_mapper_trait_declares_map_fns(base: Ident, ps: Seq<PropertyField>, k: int)
    requires
        0 <= k < ps.len(),
    ensures
        occurs_in(map_fn_head(ps[k].ident), mapper_trait_text(base, ps)),
{
    let f = ps[k];
    let h = map_fn_head(f.ident);
    let it = mapper_member(f);
    let a = "type "@ + member_type_name(f.ident) + ": Default; "@;
    let b = f.ty.path().tokens@ + "; "@;
    assert(it =~= a + h + b) by {
        reveal_strlit(": Default; fn map_");
        reveal_strlit(": Default; ");
        reveal_strlit("fn map_");
    }
    lemma_occurs_self(h);
    lemma_occurs_extend(h, a, h);
    lemma_occurs_extend(h, a + h, b);
    lemma_mapper_member_occurs(ps, k);
    lemma_occurs_trans(h, it, mapper_members(ps));
    let pre = "pub trait "@ + mapper_trait_name(base) + " { "@;
    lemma_occurs_extend(h, pre, mapper_members(ps));
    lemma_occurs_extend(h, pre + mapper_members(ps), "} "@);
}

/// The `Mapper` generated by `define_mapper_impl!` defines the map function
/// that the mapper trait of the adopter declares for a property of the same
/// name, raw or not.
pub proof fn lemma_mapper_impl_matches_trait(
    base: Ident,
    ps: Seq<PropertyField>,
    k: int,
    input: DefineMapperInput,
    j: int,
)
    requires
        0 <= k < ps.len(),
        0 <= j < input.properties.properties@.len(),
        input.properties.properties@[j].name.sym == ps[k].ident.sym,
    ensures
        occurs_in(map_fn_head(ps[k].ident), mapper_trait_text(base, ps)),
        occurs_in(map_fn_head(ps[k].ident), generate_text(input)),
{
    lemma_mapper_trait_declares_map_fns(base, ps, k);
    lemma_mapper_impl_defines_map_fns(input, j);
    assert(map_fn_head(input.properties.properties@[j].name) == map_fn_head(ps[k].ident));
}

} // verus!
