use stern::mapper::{
    Expected,
    generate, map_slint_private_type, BaseName, DefineMapperInput, InfoValue, InfoValueKind, MapperError,
    MapperProperty, Properties, PropertyInfo,
};
use stern::mapper_input::{define_mapper, parse_define_mapper_input, parse_mapper_property};
use stern::syntax::{Expr, Ident, Path, PathArguments, PathSegment, Ty, TyKind};

fn ident(s: &str) -> Ident {
    Ident { sym: s.to_string(), raw: false }
}

fn path_ty(names: &[&str]) -> Ty {
    let tokens = names.join(" :: ");
    let segments = names
        .iter()
        .map(|n| PathSegment { ident: ident(n), arguments: PathArguments::Empty })
        .collect();
    Ty {
        kind: TyKind::Path { qself: false, path: Path { leading_colon: false, segments, tokens: tokens.clone() } },
        tokens,
    }
}

fn expr(s: &str) -> Expr {
    Expr { tokens: s.to_string() }
}

fn info(key: &str, value: InfoValue) -> PropertyInfo {
    let key = ident(key);
    let kind = PropertyInfo::value_kind(&key).unwrap();
    match (&kind, &value) {
        (InfoValueKind::Type, InfoValue::Type(_)) | (InfoValueKind::Expr, InfoValue::Expr(_)) => {}
        _ => panic!("value does not fit the key"),
    }
    PropertyInfo::parse(key, value).unwrap()
}

fn property(name: &str, domain: Option<Ty>, slint: Ty, mapper: Option<Expr>) -> MapperProperty {
    let mut infos = Vec::new();
    if let Some(d) = domain {
        infos.push(info("domain_typ", InfoValue::Type(d)));
    }
    infos.push(info("slint_typ", InfoValue::Type(slint)));
    if let Some(m) = mapper {
        infos.push(info("mapper", InfoValue::Expr(m)));
    }
    MapperProperty::parse(ident(name), infos).unwrap()
}

fn input(base: &str, properties: Vec<MapperProperty>) -> DefineMapperInput {
    let base_name_tok = ident("base_name");
    BaseName::check_keyword(&base_name_tok).unwrap();
    let properties_ident = ident("properties");
    Properties::check_keyword(&properties_ident).unwrap();
    DefineMapperInput {
        base_name: BaseName { base_name_tok, name: ident(base) },
        properties: Properties { properties_ident, properties },
    }
}

#[test]
fn define_mapper_input_parses_correctly() {
    let got = parse_define_mapper_input(
        "base_name: Score,
            properties:{
            player_name: {
            domain_typ: String, slint_typ: slint::SharedString, mapper: {
            value.to_shared_string()
            }
            },count:{domain_typ: u32, slint_typ:i32,mapper:{value.try_into().unwrap()}}}",
    )
    .unwrap();
    assert_eq!(got.base_name.name.sym, "Score");
    assert_eq!(got.properties.properties.len(), 2);
}

#[test]
fn mapped_property_parses_correctly() {
    let got = parse_mapper_property(
        "player_name: {
            domain_typ: String,
            slint_typ: slint::SharedString,
            mapper: {
                value.to_shared_string()
            }
        }",
    )
    .unwrap();
    assert_eq!(got.name.sym, "player_name");

    let domain_typ = got.domain_typ.expect("domain_typ should be some");
    assert!(match domain_typ.typ.kind {
        TyKind::Path { path, .. } => path == path_of(&["String"]),
        _ => false,
    });

    let slint_typ = got.slint_typ.typ;
    assert!(match slint_typ.kind {
        TyKind::Path { path, .. } => path == path_of(&["slint", "SharedString"]),
        _ => false,
    });
}

fn path_of(names: &[&str]) -> Path {
    match path_ty(names).kind {
        TyKind::Path { path, .. } => path,
        _ => unreachable!(),
    }
}

#[test]
fn map_slint_private_type_maps_shared_string() {
    let priv_typ = path_ty(&["sp", "SharedString"]);
    let mapped = map_slint_private_type(priv_typ);
    assert_eq!(mapped, path_ty(&["slint", "SharedString"]));
}

#[test]
fn map_slint_private_type_keeps_other_types() {
    assert_eq!(map_slint_private_type(path_ty(&["sp", "Image"])), path_ty(&["sp", "Image"]));
    assert_eq!(map_slint_private_type(path_ty(&["i32"])), path_ty(&["i32"]));
    let raw_sp = Ty {
        kind: TyKind::Path {
            qself: false,
            path: Path {
                leading_colon: false,
                segments: vec![
                    PathSegment { ident: Ident { sym: "sp".to_string(), raw: true }, arguments: PathArguments::Empty },
                    PathSegment { ident: ident("SharedString"), arguments: PathArguments::Empty },
                ],
                tokens: "r#sp :: SharedString".to_string(),
            },
        },
        tokens: "r#sp :: SharedString".to_string(),
    };
    assert_eq!(map_slint_private_type(raw_sp).tokens, "r#sp :: SharedString");
}

#[test]
fn map_slint_private_type_is_idempotent() {
    let once = map_slint_private_type(path_ty(&["sp", "SharedString"]));
    let twice = map_slint_private_type(path_ty(&["slint", "SharedString"]));
    assert_eq!(once, twice);
    assert_eq!(map_slint_private_type(once), twice);
}

#[test]
fn generate_output_is_correct() {
    let input = input(
        "Score",
        vec![property(
            "score",
            Some(path_ty(&["u32"])),
            path_ty(&["i32"]),
            Some(expr("{ | value : u32 | value . try_into () . expect (\"failed to convert u32 into i32\") }")),
        )],
    );
    let output = generate(input);
    assert_eq!(
        output,
        "#[derive(Debug, Clone)] pub struct Mapper; impl ScorePropertyMappers for Mapper { type ScoreMappedType = u32; fn map_score(value: Self::ScoreMappedType) -> i32 { ({ | value : u32 | value . try_into () . expect (\"failed to convert u32 into i32\") })(value) } } "
    );
    syn::parse_file(&output).unwrap();
}

#[test]
fn generate_uses_identity_mapper_and_slint_shared_string() {
    let input = input("Greeting", vec![property("player_name", None, path_ty(&["sp", "SharedString"]), None)]);
    let output = generate(input);
    assert_eq!(
        output,
        "#[derive(Debug, Clone)] pub struct Mapper; impl GreetingPropertyMappers for Mapper { type PlayerNameMappedType = slint :: SharedString; fn map_player_name(value: Self::PlayerNameMappedType) -> slint :: SharedString { (|value: slint :: SharedString| value)(value) } } "
    );
    syn::parse_file(&output).unwrap();
}

#[test]
fn use_mapper() {
    let output = define_mapper(
        "base_name : Score,
        properties : {
            score : {
                slint_typ : i32,
            },
        }",
    )
    .unwrap();
    assert!(output.starts_with("#[derive(Debug, Clone)] pub struct Mapper; impl ScorePropertyMappers for Mapper {"));
    syn::parse_file(&output).unwrap();
}

#[test]
fn mapper_property_refuses_duplicates_and_half_pairs() {
    let dup = MapperProperty::parse(
        ident("a"),
        vec![
            info("slint_typ", InfoValue::Type(path_ty(&["i32"]))),
            info("slint_typ", InfoValue::Type(path_ty(&["i64"]))),
        ],
    );
    assert_eq!(dup.err().unwrap(), MapperError::DuplicateSlintTyp(1));

    let dup = MapperProperty::parse(
        ident("a"),
        vec![
            info("domain_typ", InfoValue::Type(path_ty(&["u32"]))),
            info("domain_typ", InfoValue::Type(path_ty(&["u64"]))),
        ],
    );
    assert_eq!(dup.err().unwrap(), MapperError::DuplicateDomainTyp(1));

    let dup = MapperProperty::parse(
        ident("a"),
        vec![
            info("mapper", InfoValue::Expr(expr("f"))),
            info("slint_typ", InfoValue::Type(path_ty(&["i32"]))),
            info("mapper", InfoValue::Expr(expr("g"))),
        ],
    );
    assert_eq!(dup.err().unwrap(), MapperError::DuplicateMapper(2));

    let half = MapperProperty::parse(
        ident("a"),
        vec![info("domain_typ", InfoValue::Type(path_ty(&["u32"]))), info("slint_typ", InfoValue::Type(path_ty(&["i32"])))],
    );
    assert_eq!(half.err().unwrap(), MapperError::DomainTypWithoutMapper);

    let half = MapperProperty::parse(
        ident("a"),
        vec![info("mapper", InfoValue::Expr(expr("f"))), info("slint_typ", InfoValue::Type(path_ty(&["i32"])))],
    );
    assert_eq!(half.err().unwrap(), MapperError::DomainTypWithoutMapper);

    let missing = MapperProperty::parse(ident("a"), vec![]);
    assert_eq!(missing.err().unwrap(), MapperError::MissingSlintTyp);
}

#[test]
fn entry_keys_and_keywords() {
    assert_eq!(PropertyInfo::value_kind(&ident("domain_typ")).unwrap(), InfoValueKind::Type);
    assert_eq!(PropertyInfo::value_kind(&ident("slint_typ")).unwrap(), InfoValueKind::Type);
    assert_eq!(PropertyInfo::value_kind(&ident("mapper")).unwrap(), InfoValueKind::Expr);
    assert_eq!(PropertyInfo::value_kind(&ident("typ")).err().unwrap(), MapperError::UnexpectedInfoField);
    let raw = Ident { sym: "mapper".to_string(), raw: true };
    assert_eq!(PropertyInfo::value_kind(&raw).err().unwrap(), MapperError::UnexpectedInfoField);
    assert_eq!(BaseName::check_keyword(&ident("base")).err().unwrap(), MapperError::ExpectedBaseName);
    assert_eq!(Properties::check_keyword(&ident("props")).err().unwrap(), MapperError::ExpectedProperties);
    assert_eq!(MapperError::MissingSlintTyp.message(), "no entry of 'slint_typ' found");
}

#[test]
fn define_mapper_reads_text_into_generated_impl() {
    let output = define_mapper(
        "base_name: Score, properties: { score: { domain_typ: u32, slint_typ: i32, mapper: |v: u32| v as i32 } }",
    )
    .unwrap();
    assert_eq!(
        output,
        "#[derive(Debug, Clone)] pub struct Mapper; impl ScorePropertyMappers for Mapper { type ScoreMappedType = u32; fn map_score(value: Self::ScoreMappedType) -> i32 { (| v : u32 | v as i32)(value) } } "
    );
    syn::parse_file(&output).unwrap();
}

#[test]
fn define_mapper_input_reads_values_with_commas_and_paths() {
    let got = parse_define_mapper_input(
        "base_name: Ask, properties: { yesno: { domain_typ: std::collections::HashMap<u8, u16>, mapper: |a, b| a, slint_typ: sp::SharedString, }, }",
    )
    .unwrap();
    let p = &got.properties.properties[0];
    assert_eq!(p.name.sym, "yesno");
    let d = p.domain_typ.as_ref().unwrap();
    assert_eq!(d.typ.tokens, "std :: collections :: HashMap < u8 , u16 >");
    assert_eq!(p.mapper.as_ref().unwrap().expr.tokens, "| a , b | a");
    assert_eq!(p.slint_typ.typ.tokens, "sp :: SharedString");
}

#[test]
fn define_mapper_input_errors() {
    let err = |t: &str| parse_define_mapper_input(t).err().unwrap();
    assert_eq!(err("base: Score, properties: {}"), MapperError::ExpectedBaseName);
    assert_eq!(err("base_name: Score, props: {}"), MapperError::ExpectedProperties);
    assert_eq!(err("base_name Score, properties: {}"), MapperError::Syntax(Expected::Colon, false));
    assert_eq!(err("base_name: Score, properties: {} extra"), MapperError::Syntax(Expected::End, false));
    assert_eq!(err("base_name: Score,"), MapperError::Syntax(Expected::Ident, true));
    assert_eq!(err("base_name: Score, properties: ()"), MapperError::Syntax(Expected::Braces, false));
    assert_eq!(err("base_name: Score, properties: { a: { typ: i32 } }"), MapperError::UnexpectedInfoField);
    assert_eq!(err("base_name: Score, properties: { a: { slint_typ: i32, slint_typ: i64 } }"), MapperError::DuplicateSlintTyp(1));
    assert_eq!(err("base_name: Score, properties: { a: { domain_typ: u32, slint_typ: i32 } }"), MapperError::DomainTypWithoutMapper);
    assert_eq!(err("base_name: Score, properties: { a: { } }"), MapperError::MissingSlintTyp);
    assert_eq!(err("base_name: Score, properties: { a: { slint_typ: } }"), MapperError::Syntax(Expected::Type, true));
    assert_eq!(err("base_name: Score, properties: { a: { mapper: , slint_typ: i32 } }"), MapperError::Syntax(Expected::Expr, false));
    assert_eq!(
        err("base_name: Score, properties: { a: { slint_typ: i32 } b: { slint_typ: i32 } }"),
        MapperError::Syntax(Expected::Comma, false)
    );
    assert_eq!(
        err("base_name: Score, properties: { a: { slint_typ: i32 }, fn: { slint_typ: i32 } }"),
        MapperError::Syntax(Expected::Ident, false)
    );
    assert_eq!(MapperError::Syntax(Expected::Colon, false).message(), "expected `:`");
    assert_eq!(MapperError::Syntax(Expected::Ident, true).message(), "unexpected end of input, expected identifier");
}

#[test]
fn define_mapper_input_accepts_empty_and_trailing_commas() {
    let got = parse_define_mapper_input("base_name: Score, properties: {}").unwrap();
    assert_eq!(got.properties.properties.len(), 0);
    let got = parse_define_mapper_input("base_name: Score, properties: { a: { slint_typ: i32, }, b: { slint_typ: u8 }, }").unwrap();
    assert_eq!(got.properties.properties.len(), 2);
    assert_eq!(got.properties.properties[1].name.sym, "b");
}

#[test]
fn entry_order_does_not_change_the_property() {
    let a = parse_mapper_property("p: { domain_typ: u32, slint_typ: i32, mapper: f }").unwrap();
    let b = parse_mapper_property("p: { mapper: f, slint_typ: i32, domain_typ: u32 }").unwrap();
    assert_eq!(a.domain_typ.unwrap().typ, b.domain_typ.unwrap().typ);
    assert_eq!(a.slint_typ.typ, b.slint_typ.typ);
    assert_eq!(a.mapper.unwrap().expr, b.mapper.unwrap().expr);
    let c = parse_mapper_property("p: { slint_typ: i32, domain_typ: u32 }").err().unwrap();
    let d = parse_mapper_property("p: { domain_typ: u32, slint_typ: i32 }").err().unwrap();
    assert_eq!(c, d);
}
