use stern::naming::{
    define_mapper_macro_ident, mapper_trait_ident, mapper_trait_member_type_ident, public_global_ident,
    state_struct_ident, viewmodel_trait_ident,
};
use stern::adopter::extract_name;
use stern::route::{route_attr, MetaNameValue, RouteError, RouteMacroAttr};
use stern::syntax::{Expr, Ident, Path, PathArguments, PathSegment};

fn ident(s: &str) -> Ident {
    Ident { sym: s.to_string(), raw: false }
}

#[test]
fn route_without_options_uses_ui_nav_route() {
    let attr = RouteMacroAttr::parse(vec![]).ok().unwrap();
    assert_eq!(attr.slint_type_name, ident("UiNavRoute"));
}

#[test]
fn route_refuses_unknown_option() {
    let opt = MetaNameValue {
        path: Path {
            leading_colon: false,
            segments: vec![PathSegment { ident: ident("color"), arguments: PathArguments::Empty }],
            tokens: "color".to_string(),
        },
        value: Expr { tokens: "Red".to_string() },
    };
    let e = RouteMacroAttr::parse(vec![opt]).err().unwrap();
    assert_eq!(e, RouteError::UnknownOption);
    assert_eq!(e.message(), "unknown option");
}

#[test]
fn generated_names() {
    assert_eq!(viewmodel_trait_ident(&ident("Score")).sym, "ScoreViewModelTrait");
    assert_eq!(public_global_ident(&ident("Score")).sym, "ScoreAdopter");
    assert_eq!(state_struct_ident(&ident("Score")).sym, "ScoreStates");
    assert_eq!(mapper_trait_ident(&ident("Score")).sym, "ScorePropertyMappers");
    assert_eq!(mapper_trait_member_type_ident(&ident("score")).sym, "ScoreMappedType");
    assert_eq!(mapper_trait_member_type_ident(&ident("player_name")).sym, "PlayerNameMappedType");
    assert_eq!(define_mapper_macro_ident(&ident("Score")).sym, "define_score_mapper");
    assert_eq!(define_mapper_macro_ident(&ident("GoodMorning")).sym, "define_good_morning_mapper");
}

#[test]
fn inner_struct_and_public_global_share_the_name() {
    for name in ["InnerScoreAdopter", "InnerGoodMorningAdopter", "InnerAAdopter"] {
        let base = extract_name(&ident(name)).unwrap();
        assert_eq!(format!("Inner{}", public_global_ident(&base).sym), name);
    }
}

#[test]
fn route_attr_reads_options_from_text() {
    let a = route_attr("").unwrap().ok().unwrap();
    assert_eq!(a.slint_type_name, ident("UiNavRoute"));
    assert_eq!(route_attr("color = Red").unwrap().err().unwrap(), RouteError::UnknownOption);
    assert_eq!(route_attr("color = Red, slint_type = Foo").unwrap().err().unwrap(), RouteError::UnknownOption);
    assert!(route_attr("slint_type = Foo").is_none());
    let syn_message = syn::parse::Parser::parse_str(
        syn::punctuated::Punctuated::<syn::MetaNameValue, syn::token::Comma>::parse_terminated,
        "= Red",
    )
    .err()
    .unwrap()
    .to_string();
    let e = route_attr("= Red").unwrap().err().unwrap();
    assert_eq!(e, RouteError::Syntax(syn_message.clone()));
    assert_eq!(e.message(), syn_message);
}
