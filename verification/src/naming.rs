//! The names of the items that the generators emit, derived from the base
//! name of a global (`Xxx` of `InnerXxxAdopter`) or from a property name.

use vstd::prelude::*;
use crate::syntax::Ident;
use crate::text::{pascal, push_pascal, push_snake, snake};

verus! {

/// `XxxViewModelTrait`: the trait a viewmodel implements to handle callbacks.
pub open spec fn viewmodel_trait_name(base: Ident) -> Seq<char> {
    base.sym@ + "ViewModelTrait"@
}

/// `XxxAdopter`: the public global generated by slint.
pub open spec fn public_global_name(base: Ident) -> Seq<char> {
    base.sym@ + "Adopter"@
}

/// `XxxStates`: the struct holding one property handle per property.
pub open spec fn state_struct_name(base: Ident) -> Seq<char> {
    base.sym@ + "States"@
}

/// `XxxPropertyMappers`: the trait mapping domain values to UI values.
pub open spec fn mapper_trait_name(base: Ident) -> Seq<char> {
    base.sym@ + "PropertyMappers"@
}

/// `YyyMappedType` for property `yyy`: the domain type member of the mapper trait.
pub open spec fn member_type_name(prop: Ident) -> Seq<char> {
    pascal(prop.sym@) + "MappedType"@
}

/// `define_xxx_mapper`: the macro that defines a mapper for global `Xxx`.
pub open spec fn define_mapper_macro_name(base: Ident) -> Seq<char> {
    "define_"@ + snake(base.sym@) + "_mapper"@
}

fn suffixed(base: &Ident, suffix: &str) -> (r: Ident)
    ensures
        r.sym@ == base.sym@ + suffix@,
        !r.raw,
{
    let mut s = base.sym.clone();
    s.append(suffix);
    Ident::new(s)
}

/// The viewmodel trait's identifier.
pub fn viewmodel_trait_ident(base: &Ident) -> (r: Ident)
    ensures
        r.sym@ == viewmodel_trait_name(*base),
        !r.raw,
{
    suffixed(base, "ViewModelTrait")
}

/// The public global's identifier.
pub fn public_global_ident(base: &Ident) -> (r: Ident)
    ensures
        r.sym@ == public_global_name(*base),
        !r.raw,
{
    suffixed(base, "Adopter")
}

/// The state struct's identifier.
pub fn state_struct_ident(base: &Ident) -> (r: Ident)
    ensures
        r.sym@ == state_struct_name(*base),
        !r.raw,
{
    suffixed(base, "States")
}

/// The mapper trait's identifier.
pub fn mapper_trait_ident(base: &Ident) -> (r: Ident)
    ensures
        r.sym@ == mapper_trait_name(*base),
        !r.raw,
{
    suffixed(base, "PropertyMappers")
}

/// The identifier of the mapper trait's type member for a property.
pub fn mapper_trait_member_type_ident(prop: &Ident) -> (r: Ident)
    ensures
        r.sym@ == member_type_name(*prop),
        !r.raw,
{
    let mut s = String::new();
    push_pascal(&mut s, prop.sym.as_str());
    s.append("MappedType");
    assert(s@ =~= member_type_name(*prop));
    Ident::new(s)
}

/// The identifier of the macro that defines a mapper.
pub fn define_mapper_macro_ident(base: &Ident) -> (r: Ident)
    ensures
        r.sym@ == define_mapper_macro_name(*base),
        !r.raw,
{
    let mut s = String::new();
    s.append("define_");
    push_snake(&mut s, base.sym.as_str());
    s.append("_mapper");
    assert(s@ =~= define_mapper_macro_name(*base));
    Ident::new(s)
}

} // verus!
