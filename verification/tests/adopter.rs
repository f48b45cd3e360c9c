use stern::adopter::{
    extract_name, name_can_be_made, map_callback_field, map_property_field, AdopterError, CallbackField, FieldError, InnerGlobalComponent,
    PropertyField, TypeTuple,
};
use stern::codegen::{
    adopter_inner, expand_adopter, generate_define_mapper_macro, ExpandError, generate_mapper_trait, generate_register_impl, generate_state_struct,
    generate_viewmodel_trait,
};
use stern::mapper_input::define_mapper;
use stern::syntax::{Field, Fields, GenericArgument, Ident, ItemStruct, Path, PathArguments, PathSegment, Ty, TyKind};

fn ident(s: &str) -> Ident {
    Ident { sym: s.to_string(), raw: false }
}

fn raw_ident(s: &str) -> Ident {
    Ident { sym: s.to_string(), raw: true }
}

fn text(i: &Ident) -> String {
    if i.raw { format!("r#{}", i.sym) } else { i.sym.clone() }
}

fn path_from(segments: Vec<PathSegment>, tokens: String) -> Ty {
    Ty {
        kind: TyKind::Path { qself: false, path: Path { leading_colon: false, segments, tokens: tokens.clone() } },
        tokens,
    }
}

fn plain_ty(names: &[&str]) -> Ty {
    let segments = names.iter().map(|n| PathSegment { ident: ident(n), arguments: PathArguments::Empty }).collect();
    path_from(segments, names.join(" :: "))
}

fn tuple_ty(elems: Vec<Ty>) -> Ty {
    let tokens = format!("({})", elems.iter().map(|t| t.tokens.clone()).collect::<Vec<_>>().join(", "));
    Ty { kind: TyKind::Tuple(elems), tokens }
}

/// `sp::Name<args...>`
fn sp_ty(name: &str, args: Vec<Ty>) -> Ty {
    let tokens = format!("sp :: {} < {} >", name, args.iter().map(|t| t.tokens.clone()).collect::<Vec<_>>().join(" , "));
    let generic = args.into_iter().map(GenericArgument::Type).collect();
    path_from(
        vec![
            PathSegment { ident: ident("sp"), arguments: PathArguments::Empty },
            PathSegment { ident: ident(name), arguments: PathArguments::AngleBracketed(generic) },
        ],
        tokens,
    )
}

fn field(name: Ident, ty: Ty) -> Field {
    let tokens = format!("{} : {}", text(&name), ty.tokens);
    Field { ident: Some(name), ty, tokens }
}

fn item(name: &str, fields: Vec<Field>) -> ItemStruct {
    ItemStruct { ident: ident(name), fields: Fields::Named(fields), tokens: format!("pub struct {} {{ }}", name) }
}

fn globals_field() -> Field {
    field(ident("globals"), sp_ty("OnceCell", vec![sp_ty("Weak", vec![plain_ty(&["SharedGlobals"])])]))
}

#[test]
fn extract_name_strips_inner_and_adopter() {
    assert_eq!(extract_name(&ident("InnerScoreAdopter")).unwrap().sym, "Score");
    assert_eq!(extract_name(&ident("InnerGoodMorningAdopter")).unwrap().sym, "GoodMorning");
    assert_eq!(extract_name(&ident("ScoreAdopter")).err().unwrap(), AdopterError::BadName);
    assert_eq!(extract_name(&ident("InnerScore")).err().unwrap(), AdopterError::BadName);
    assert_eq!(extract_name(&raw_ident("InnerScoreAdopter")).err().unwrap(), AdopterError::BadName);
}

#[test]
fn property_field_is_taken() {
    let p = map_property_field(field(ident("score"), sp_ty("Property", vec![plain_ty(&["i32"])]))).ok().unwrap();
    assert_eq!(p.ident, ident("score"));
    assert_eq!(p.ty, plain_ty(&["i32"]));
}

#[test]
fn property_field_errors() {
    let not_path = field(ident("a"), tuple_ty(vec![]));
    assert_eq!(map_property_field(not_path).err().unwrap().error, FieldError::ExpectedPath);
    let not_sp = field(ident("a"), plain_ty(&["std", "Property"]));
    assert_eq!(map_property_field(not_sp).err().unwrap().error, FieldError::ExpectedSp);
    let callback = field(ident("a"), sp_ty("Callback", vec![tuple_ty(vec![]), tuple_ty(vec![])]));
    let rej = map_property_field(callback).err().unwrap();
    assert_eq!(rej.error, FieldError::ExpectedProperty);
    assert_eq!(rej.field.ident, Some(ident("a")));
    let bare = field(ident("a"), plain_ty(&["sp", "Property"]));
    assert_eq!(map_property_field(bare).err().unwrap().error, FieldError::ExpectedAngleBracketed);
    let none = field(ident("a"), sp_ty("Property", vec![]));
    assert_eq!(map_property_field(none).err().unwrap().error, FieldError::ExpectedTypeArgument);
    let two = field(ident("a"), sp_ty("Property", vec![plain_ty(&["i32"]), plain_ty(&["i32"])]));
    assert_eq!(map_property_field(two).err().unwrap().error, FieldError::MoreThanOneTypeArgument);
    let mut long = sp_ty("Property", vec![plain_ty(&["i32"])]);
    if let TyKind::Path { path, .. } = &mut long.kind {
        path.segments.push(PathSegment { ident: ident("More"), arguments: PathArguments::Empty });
    }
    assert_eq!(map_property_field(field(ident("a"), long)).err().unwrap().error, FieldError::PathTooLong);
}

#[test]
fn callback_field_is_taken() {
    let ty = sp_ty("Callback", vec![tuple_ty(vec![plain_ty(&["i32"]), plain_ty(&["bool"])]), tuple_ty(vec![])]);
    let cb = map_callback_field(field(ident("clicked"), ty)).ok().unwrap();
    assert_eq!(cb.ident, ident("clicked"));
    assert_eq!(cb.arg_type.elems, vec![plain_ty(&["i32"]), plain_ty(&["bool"])]);
    assert_eq!(cb.arg_type.tokens, "(i32, bool)");
    assert_eq!(cb.ret_type, tuple_ty(vec![]));
}

#[test]
fn callback_field_errors() {
    let prop = field(ident("a"), sp_ty("Property", vec![plain_ty(&["i32"])]));
    assert_eq!(map_callback_field(prop).err().unwrap().error, FieldError::ExpectedCallback);
    let not_tuple = field(ident("a"), sp_ty("Callback", vec![plain_ty(&["i32"]), tuple_ty(vec![])]));
    assert_eq!(map_callback_field(not_tuple).err().unwrap().error, FieldError::ExpectedCallbackParams);
    let no_ret = field(ident("a"), sp_ty("Callback", vec![tuple_ty(vec![])]));
    assert_eq!(map_callback_field(no_ret).err().unwrap().error, FieldError::ExpectedCallbackReturn);
    assert_eq!(FieldError::ExpectedCallback.message(), "expected 'Callback<(Args), Ret>'");
}

#[test]
fn inner_global_component_sorts_fields() {
    let fields = vec![
        field(raw_ident("score"), sp_ty("Property", vec![plain_ty(&["i32"])])),
        field(ident("increment"), sp_ty("Callback", vec![tuple_ty(vec![]), tuple_ty(vec![])])),
        field(ident("callback_tracker_increment"), sp_ty("Property", vec![tuple_ty(vec![])])),
        field(ident("change_tracker1"), plain_ty(&["sp", "ChangeTracker"])),
        globals_field(),
    ];
    let c = InnerGlobalComponent::parse(item("InnerScoreAdopter", fields)).ok().unwrap();
    assert_eq!(c.name, ident("Score"));
    assert_eq!(c.original_ident, ident("InnerScoreAdopter"));
    assert_eq!(c.properties.len(), 1);
    assert_eq!(c.properties[0].ident, raw_ident("score"));
    assert_eq!(c.callbacks.len(), 1);
    assert_eq!(c.callbacks[0].ident, ident("increment"));
    assert_eq!(c.callback_trackers.len(), 1);
    assert_eq!(c.change_trackers.len(), 1);
    assert_eq!(c.globals.ident, Some(ident("globals")));
    assert_eq!(c.original, "pub struct InnerScoreAdopter { }");
    // every field is taken for exactly one thing
    assert_eq!(c.properties.len() + c.callbacks.len() + c.callback_trackers.len() + c.change_trackers.len() + 1, 5);
}

#[test]
fn inner_global_component_errors() {
    let e = InnerGlobalComponent::parse(item("ScoreAdopter", vec![globals_field()])).err().unwrap();
    assert_eq!(e, AdopterError::BadName);
    let unit = ItemStruct { ident: ident("InnerScoreAdopter"), fields: Fields::Unit, tokens: String::new() };
    assert_eq!(InnerGlobalComponent::parse(unit).err().unwrap(), AdopterError::ExpectedNamedFields);
    let unknown = vec![
        globals_field(),
        field(ident("weird"), plain_ty(&["u8"])),
        field(ident("odd"), plain_ty(&["u8"])),
    ];
    assert_eq!(
        InnerGlobalComponent::parse(item("InnerScoreAdopter", unknown)).err().unwrap(),
        AdopterError::UnknownField(1)
    );
    let no_globals = vec![field(ident("score"), sp_ty("Property", vec![plain_ty(&["i32"])]))];
    assert_eq!(
        InnerGlobalComponent::parse(item("InnerScoreAdopter", no_globals)).err().unwrap(),
        AdopterError::MissingGlobals
    );
    assert_eq!(AdopterError::MissingGlobals.message(), "cannot find `globals` field");
}

fn prop(name: &str, ty: Ty) -> PropertyField {
    PropertyField { ident: ident(name), ty }
}

#[test]
fn generate_define_mapper_macro_snapshot() {
    let properties = vec![prop("score", plain_ty(&["i32"]))];
    let output = generate_define_mapper_macro(&ident("Score"), &properties);
    assert_eq!(
        output,
        "#[macro_export] macro_rules! define_score_mapper { { $( score to $score_typ:ty { $score_mapper:expr }, )? } => { stern::define_mapper_impl!{ base_name: Score, properties: { score: { $(domain_typ: $score_typ,)? slint_typ: i32, $(mapper: $score_mapper,)? }, } } } } "
    );
    syn::parse_file(&output).unwrap();
}

#[test]
fn generate_define_mapper_macro_compile_succeeds() {
    let properties = vec![prop("score", plain_ty(&["i32"]))];
    let output = generate_define_mapper_macro(&ident("Score"), &properties);
    // `define_score_mapper!{}` expands to `define_mapper_impl!` on this input.
    assert!(output.contains(
        "stern::define_mapper_impl!{ base_name: Score, properties: { score: { $(domain_typ: $score_typ,)? slint_typ: i32, $(mapper: $score_mapper,)? }, } }"
    ));
    let mapper = define_mapper("base_name: Score, properties: { score: { slint_typ: i32, }, }").unwrap();
    let mapper_trait = generate_mapper_trait(&ident("Score"), &properties);
    let file = format!("{}\n{}\n{}\nfn main(){{\n    let _m = Mapper;\n}}", output, mapper_trait, mapper);
    syn::parse_file(&file).unwrap();
}

#[test]
fn generate_define_mapper_macro_generated_slint_typ_snapshot() {
    let yesno = path_from(vec![PathSegment { ident: raw_ident("YesNo"), arguments: PathArguments::Empty }], "r#YesNo".to_string());
    let properties = vec![prop("yesno", yesno)];
    let output = generate_define_mapper_macro(&ident("Ask"), &properties);
    assert_eq!(
        output,
        "#[macro_export] macro_rules! define_ask_mapper { { $( yesno to $yesno_typ:ty { $yesno_mapper:expr }, )? } => { stern::define_mapper_impl!{ base_name: Ask, properties: { yesno: { $(domain_typ: $yesno_typ,)? slint_typ: $crate::YesNo, $(mapper: $yesno_mapper,)? }, } } } } "
    );
    syn::parse_file(&output).unwrap();
}

#[test]
fn generate_state_struct_snapshot() {
    let properties = vec![prop("name", plain_ty(&["sp", "SharedString"]))];
    let output = generate_state_struct(&ident("Hello"), &properties);
    assert_eq!(
        output,
        "#[derive(Debug)] pub struct HelloStates<M> where M: HelloPropertyMappers { pub name: stern::MappedPropertyHandle<M::NameMappedType, sp :: SharedString>, _phantom: std::marker::PhantomData<M>, } impl<M> HelloStates<M> where M: Clone + HelloPropertyMappers { pub fn new(adopter_weak: slint::Weak<HelloAdopter<'static>>) -> Self { Self { name: stern::MappedPropertyHandle::new_mapped({ let adopter_weak = adopter_weak.clone(); move |val| { let adopter_strong = adopter_weak.unwrap(); adopter_strong.set_name(val) } }, { move |val| { M::map_name(val) } }, ), _phantom: std::marker::PhantomData, } } } "
    );
    syn::parse_file(&output).unwrap();
}

#[test]
fn generate_mapper_trait_snapshot() {
    let properties = vec![prop("name", plain_ty(&["sp", "SharedString"]))];
    let output = generate_mapper_trait(&ident("GoodMorning"), &properties);
    assert_eq!(
        output,
        "pub trait GoodMorningPropertyMappers { type NameMappedType: Default; fn map_name(value: Self::NameMappedType) -> sp :: SharedString; } "
    );
    syn::parse_file(&output).unwrap();
}

#[test]
fn generate_viewmodel_trait_and_registration() {
    let callbacks = vec![CallbackField {
        ident: ident("clicked"),
        arg_type: TypeTuple { elems: vec![plain_ty(&["i32"]), plain_ty(&["bool"])], tokens: "(i32, bool)".to_string() },
        ret_type: tuple_ty(vec![]),
    }];
    let vm = generate_viewmodel_trait(&ident("Score"), &callbacks);
    assert_eq!(vm, "pub trait ScoreViewModelTrait { fn on_clicked(&mut self, args_0: i32, args_1: bool, ) -> (); } ");
    syn::parse_file(&vm).unwrap();
    let reg = generate_register_impl(&ident("Score"), &callbacks);
    assert_eq!(
        reg,
        "impl<VMImpl> stern::GlobalExt<VMImpl> for ScoreAdopter<'_> where VMImpl: ScoreViewModelTrait + 'static { fn register_viewmodel(&self, vm: std::rc::Rc<core::cell::RefCell<VMImpl>>) { self.on_clicked({ let vm_clone = std::rc::Rc::clone(&vm); move |arg_0, arg_1| { vm_clone.borrow_mut().on_clicked(arg_0, arg_1) } }); } } "
    );
    syn::parse_file(&reg).unwrap();
}

#[test]
fn adopter_expansion_is_valid_rust() {
    let fields = vec![
        field(ident("score"), sp_ty("Property", vec![plain_ty(&["i32"])])),
        field(ident("player_name"), sp_ty("Property", vec![plain_ty(&["sp", "SharedString"])])),
        field(ident("increment"), sp_ty("Callback", vec![tuple_ty(vec![plain_ty(&["i32"])]), tuple_ty(vec![])])),
        globals_field(),
    ];
    let c = InnerGlobalComponent::parse(item("InnerGoodMorningAdopter", fields)).ok().unwrap();
    let out = adopter_inner("", &c);
    assert!(out.starts_with("pub struct InnerGoodMorningAdopter { } #[derive(Debug)] pub struct GoodMorningStates<M>"));
    assert!(out.contains("macro_rules! define_good_morning_mapper"));
    assert!(out.contains("type PlayerNameMappedType: Default;"));
    syn::parse_file(&out).unwrap();
}

#[test]
fn test() {
    let properties = vec![prop("score", plain_ty(&["i32"]))];
    let output = generate_define_mapper_macro(&ident("Score"), &properties);
    assert!(output.starts_with("#[macro_export] macro_rules! define_score_mapper {"));
}

const SCORE_ADOPTER: &str = "#[derive(sp :: FieldOffsets, Default)]
#[const_field_offset(sp::const_field_offset)]
#[repr(C)]
#[pin]
pub struct InnerScoreAdopter {
    r#score: sp::Property<i32>,
    globals: sp::OnceCell<sp::Weak<SharedGlobals>>,
}";

#[test]
fn expand_adopter_reads_struct_text() {
    let out = expand_adopter("", SCORE_ADOPTER).unwrap().unwrap();
    assert!(out.contains("#[derive(Debug)] pub struct ScoreStates<M> where M: ScorePropertyMappers"));
    assert!(out.contains("macro_rules! define_score_mapper"));
    syn::parse_file(&out).unwrap();
}

#[test]
fn expand_adopter_errors_and_declines() {
    let syn_message = syn::parse_str::<syn::ItemStruct>("fn f() {}").err().unwrap().to_string();
    assert_eq!(expand_adopter("", "fn f() {}").unwrap().err().unwrap(), ExpandError::Syntax(syn_message));
    assert_eq!(
        expand_adopter("", "pub struct ScoreAdopter { globals: sp::OnceCell<sp::Weak<SharedGlobals>> }").unwrap().err().unwrap(),
        ExpandError::Adopter(AdopterError::BadName)
    );
    assert_eq!(
        expand_adopter("", "pub struct InnerScoreAdopter { score: sp::Property<i32> }").unwrap().err().unwrap(),
        ExpandError::Adopter(AdopterError::MissingGlobals)
    );
    let tuple_property = "pub struct InnerScoreAdopter { pair: sp::Property<(i32, i32)>, globals: sp::OnceCell<sp::Weak<SharedGlobals>> }";
    assert!(expand_adopter("", tuple_property).is_none());
}

#[test]
fn names_that_can_be_made() {
    assert!(name_can_be_made(&ident("InnerScoreAdopter")));
    assert!(name_can_be_made(&ident("Inner_xAdopter")));
    assert!(!name_can_be_made(&ident("InnerAdopter")));
    assert!(!name_can_be_made(&ident("Inner\u{663}Adopter")));
    assert!(name_can_be_made(&ident("Inner\u{e9}tatAdopter")));
}
