//! Stern: glue between domain models and slint UI globals.
//!
//! The library holds the property handle that mirrors a UI property, the
//! decisions of the background worker loop, and the logic of the code
//! generators behind the `adopter`, `route` and `define_mapper` macros:
//! reading their input from its text (lexed by proc-macro2, with syn reading
//! types, expressions and items), classifying the fields of an
//! `InnerXxxAdopter` struct, checking the `define_mapper` input, and producing
//! the generated Rust source text.

use vstd::prelude::*;

pub mod text;
pub mod syntax;
pub mod tokens;
pub mod reader;
pub mod naming;
pub mod adopter;
pub mod codegen;
pub mod mapper;
pub mod mapper_input;
pub mod route;
pub mod property;
pub mod worker;

pub use property::PropertyHandle as MappedPropertyHandle;
pub use property::StreamTerminated;

verus! {

/// std's `RefCell`, declared so that the signature of
/// `GlobalExt::register_viewmodel` can name it; nothing is claimed of it.
#[verifier::external_type_specification]
#[verifier::external_body]
#[verifier::reject_recursive_types(T)]
pub struct ExRefCell<T: ?Sized>(core::cell::RefCell<T>);

/// Extension method on `XxxAdopter`.
pub trait GlobalExt<VM> {
    /// Registers viewmodel at `XxxAdopter` i.e. set `XxxViewModelTrait`'s method as the callback handler.
    fn register_viewmodel(&self, vm: std::rc::Rc<core::cell::RefCell<VM>>);
}

} // verus!
