//! The options of the `route` attribute.

use vstd::prelude::*;
use crate::syntax::{Expr, Ident, Path};
use crate::reader::{build_path, parse_meta_list, path_from, syn_meta_list, MetaShape};

verus! {

/// One `name = value` option.
pub struct MetaNameValue {
    pub path: Path,
    pub value: Expr,
}

/// The read options of the `route` attribute.
pub struct RouteMacroAttr {
    pub slint_type_name: Ident,
}

/// Why the options were refused.
#[derive(Debug, PartialEq, Eq, Clone)]
pub enum RouteError {
    UnknownOption,
    /// The attribute's arguments are no list of `name = value` options; the
    /// message is syn's.
    Syntax(String),
}

/// The message of each error.
pub open spec fn route_error_message(e: RouteError) -> Seq<char> {
    match e {
        RouteError::UnknownOption => "unknown option"@,
        RouteError::Syntax(m) => m@,
    }
}

impl RouteError {
    /// The error message.
    pub fn message(&self) -> (r: &str)
        ensures
            r@ == route_error_message(*self),
    {
        match self {
            RouteError::UnknownOption => "unknown option",
            RouteError::Syntax(m) => m.as_str(),
        }
    }
}

/// The first option, if any, is not `slint_type`.
pub open spec fn first_is_not_slint_type(options: Seq<MetaNameValue>) -> bool {
    options.len() == 0 || !options[0].path.is_ident("slint_type"@)
}

impl RouteMacroAttr {
    /// Reads the options in order. An option other than `slint_type` is
    /// refused as unknown; without options the route type is `UiNavRoute`.
    ///
    /// The value of a `slint_type` option is read from the literal tokens
    /// `meta.value`, which do not form an identifier, so a `slint_type` option
    /// reached first is not admitted here.
    pub fn parse(options: Vec<MetaNameValue>) -> (r: Result<RouteMacroAttr, RouteError>)
        requires
            first_is_not_slint_type(options@),
        ensures
            match r {
                Ok(a) => options@.len() == 0 && a.slint_type_name.sym@ == "UiNavRoute"@ && !a.slint_type_name.raw,
                Err(e) => options@.len() > 0 && e == RouteError::UnknownOption,
            },
    {
        if options.len() > 0 {
            let known = options[0].path.is_ident_str("slint_type");
            if !known {
                return Err(RouteError::UnknownOption);
            }
            vstd::pervasive::unreached()
        } else {
            Ok(RouteMacroAttr { slint_type_name: Ident::new(String::from_str("UiNavRoute")) })
        }
    }
}

/// `m` is the option read as `sh`.
pub open spec fn meta_from(sh: MetaShape, m: MetaNameValue) -> bool {
    &&& path_from(sh.path@, sh.path@.len(), m.path)
    &&& m.value.tokens@ == sh.value@
}

/// `ms` are the options that syn reads from `text`.
pub open spec fn metas_from(text: Seq<char>, ms: Seq<MetaNameValue>) -> bool {
    match syn_meta_list(text) {
        Err(_) => false,
        Ok(v) => v@.len() == ms.len() && forall|j: int| 0 <= j < ms.len() ==> meta_from(#[trigger] v@[j], ms[j]),
    }
}

/// The options of the `route` attribute from the text of its arguments:
/// `None` where the first option is `slint_type` (see `RouteMacroAttr::parse`),
/// `Syntax` with syn's message where the text is no option list, else what
/// `parse` gives.
pub fn route_attr(attr: &str) -> (r: Option<Result<RouteMacroAttr, RouteError>>)
    ensures
        match r {
            None => exists|ms: Seq<MetaNameValue>| metas_from(attr@, ms) && !first_is_not_slint_type(ms),
            Some(Err(RouteError::Syntax(m))) => {
                &&& forall|ms: Seq<MetaNameValue>| !metas_from(attr@, ms)
                &&& syn_meta_list(attr@) is Err ==> syn_meta_list(attr@) == Err::<Vec<MetaShape>, String>(m)
            },
            Some(Ok(a)) => exists|ms: Seq<MetaNameValue>|
                metas_from(attr@, ms) && first_is_not_slint_type(ms) && ms.len() == 0
                    && a.slint_type_name.sym@ == "UiNavRoute"@ && !a.slint_type_name.raw,
            Some(Err(e)) => exists|ms: Seq<MetaNameValue>|
                metas_from(attr@, ms) && first_is_not_slint_type(ms) && ms.len() > 0 && e == RouteError::UnknownOption,
        },
{
    let shapes = match parse_meta_list(attr) {
        Ok(v) => v,
        Err(m) => { return Some(Err(RouteError::Syntax(m))); },
    };
    let mut options: Vec<MetaNameValue> = Vec::new();
    let mut i: usize = 0;
    while i < shapes.len()
        invariant
            syn_meta_list(attr@) == Ok::<Vec<MetaShape>, String>(shapes),
            i <= shapes@.len(),
            options@.len() == i,
            forall|j: int| 0 <= j < i ==> meta_from(shapes@[j], #[trigger] options@[j]),
        decreases shapes@.len() - i,
    {
        let sh = &shapes[i];
        let fuel = sh.path.as_str().unicode_len();
        match build_path(sh.path.as_str(), fuel) {
            Some(path) => {
                let m = MetaNameValue { path, value: Expr { tokens: sh.value.clone() } };
                assert(meta_from(shapes@[i as int], m));
                options.push(m);
            },
            None => {
                assert forall|ms: Seq<MetaNameValue>| !metas_from(attr@, ms) by {
                    if metas_from(attr@, ms) {
                        assert(meta_from(shapes@[i as int], ms[i as int]));
                    }
                }
                return Some(Err(RouteError::Syntax(String::from_str("expected path"))));
            },
        }
        i += 1;
    }
    let ghost ms = options@;
    assert(metas_from(attr@, ms));
    if options.len() > 0 && options[0].path.is_ident_str("slint_type") {
        assert(!first_is_not_slint_type(ms));
        return None;
    }
    let r = RouteMacroAttr::parse(options);
    Some(r)
}

} // verus!
