use tylift::{
    parameter_name, tylift, ArgToken, Arguments, Declaration, Error, Expansion, Fields, Policy,
    Variant,
};

fn strings(items: &[&str]) -> Vec<String> {
    items.iter().map(|s| s.to_string()).collect()
}

fn unit(name: &str) -> Variant {
    Variant { attrs: Vec::new(), name: name.to_string(), fields: Fields::Unit }
}

fn tuple(name: &str, fields: &[&str]) -> Variant {
    Variant { attrs: Vec::new(), name: name.to_string(), fields: Fields::Unnamed(strings(fields)) }
}

fn named(name: &str) -> Variant {
    Variant { attrs: Vec::new(), name: name.to_string(), fields: Fields::Named }
}

fn declaration(vis: &str, name: &str, variants: Vec<Variant>) -> Declaration {
    Declaration {
        attrs: Vec::new(),
        vis: vis.to_string(),
        name: name.to_string(),
        generics: 0,
        where_clause: String::new(),
        variants,
    }
}

fn ident(s: &str) -> ArgToken {
    ArgToken::Ident(s.to_string())
}

fn expand_ok(args: Vec<ArgToken>, decl: &Declaration, policy: Policy) -> Expansion {
    match tylift(&args, decl, policy) {
        Ok(e) => e,
        Err(e) => panic!("unexpected error: {}", e.message()),
    }
}

fn names(e: &Expansion) -> Vec<String> {
    e.types.iter().map(|t| t.name.clone()).collect()
}

#[test]
fn bool_kind_lifts_two_nullary_types() {
    let decl = declaration("pub", "Bool", vec![unit("False"), unit("True")]);
    let e = expand_ok(Vec::new(), &decl, Policy::FailFast);
    assert_eq!(names(&e), strings(&["False", "True"]));
    assert!(e.types.iter().all(|t| t.params.is_empty() && t.bounds.is_empty()));
    assert!(e.reexport);
    assert_eq!(e.module, "__kind_Bool");
    assert_eq!(
        e.render(),
        "pub use __kind_Bool::*; pub mod __kind_Bool { use super::*; \
         pub trait Bool: sealed::Sealed {} \
         pub struct False<>(::core::marker::PhantomData<()>); impl<> Bool for False<> {} \
         pub struct True<>(::core::marker::PhantomData<()>); impl<> Bool for True<> {} \
         mod sealed { use super::*; pub trait Sealed {} \
         impl<> Sealed for False<> {} impl<> Sealed for True<> {} } }"
    );
}

#[test]
fn nat_kind_lifts_successor_with_one_parameter() {
    let decl = declaration("pub(crate)", "Nat", vec![unit("Zero"), tuple("Succ", &["Nat"])]);
    let e = expand_ok(Vec::new(), &decl, Policy::FailFast);
    assert_eq!(names(&e), strings(&["Zero", "Succ"]));
    assert!(e.types[0].params.is_empty());
    assert_eq!(e.types[1].params, strings(&["T0"]));
    assert_eq!(e.types[1].bounds, strings(&["Nat"]));
    let text = e.render();
    assert!(text.starts_with("pub(crate) use __kind_Nat::*; pub(crate) mod __kind_Nat {"));
    assert!(text.contains(
        "pub struct Succ<T0: Nat>(::core::marker::PhantomData<(T0)>); \
         impl<T0: Nat> Nat for Succ<T0> {} "
    ));
    assert!(text.contains("impl<T0: Nat> Sealed for Succ<T0> {} "));
}

#[test]
fn private_nat_kind_renders_exact_text() {
    let decl = declaration("", "Nat", vec![unit("Zero"), tuple("Succ", &["Nat"])]);
    let e = expand_ok(Vec::new(), &decl, Policy::FailFast);
    assert_eq!(
        e.render(),
        "use __kind_Nat::*; mod __kind_Nat { use super::*; \
         pub trait Nat: sealed::Sealed {} \
         pub struct Zero<>(::core::marker::PhantomData<()>); impl<> Nat for Zero<> {} \
         pub struct Succ<T0: Nat>(::core::marker::PhantomData<(T0)>); \
         impl<T0: Nat> Nat for Succ<T0> {} \
         mod sealed { use super::*; pub trait Sealed {} \
         impl<> Sealed for Zero<> {} impl<T0: Nat> Sealed for Succ<T0> {} } }"
    );
}

#[test]
fn variant_named_like_kind_fails_fast() {
    let decl = declaration("", "Mode", vec![unit("Safe"), unit("Mode"), unit("Fast")]);
    assert!(matches!(
        tylift(&Vec::new(), &decl, Policy::FailFast),
        Err(Error::VariantNamedLikeKind(1))
    ));
}

#[test]
fn variant_named_like_kind_is_left_out_when_collecting() {
    let decl = declaration("", "Mode", vec![unit("Safe"), unit("Mode"), unit("Fast")]);
    let e = expand_ok(Vec::new(), &decl, Policy::Collect);
    assert_eq!(names(&e), strings(&["Safe", "Fast"]));
    assert!(matches!(e.diagnostics.as_slice(), [Error::VariantNamedLikeKind(1)]));
    assert!(!e.render().contains("struct Mode"));
}

#[test]
fn only_variant_named_like_kind_leaves_trait_only() {
    let decl = declaration("", "Mode", vec![unit("Mode")]);
    let e = expand_ok(Vec::new(), &decl, Policy::Collect);
    assert!(e.types.is_empty());
    assert_eq!(
        e.render(),
        "use __kind_Mode::*; mod __kind_Mode { use super::*; \
         pub trait Mode: sealed::Sealed {} \
         mod sealed { use super::*; pub trait Sealed {} } }"
    );
}

#[test]
fn named_fields_fail_fast() {
    let decl = declaration("", "Shape", vec![unit("Dot"), named("Line")]);
    assert!(matches!(
        tylift(&Vec::new(), &decl, Policy::FailFast),
        Err(Error::NamedFields(1))
    ));
}

#[test]
fn named_fields_are_left_out_when_collecting() {
    let decl = declaration("", "Shape", vec![named("Line"), unit("Dot"), named("Box")]);
    let e = expand_ok(Vec::new(), &decl, Policy::Collect);
    assert_eq!(names(&e), strings(&["Dot"]));
    assert!(matches!(
        e.diagnostics.as_slice(),
        [Error::NamedFields(0), Error::NamedFields(2)]
    ));
}

#[test]
fn generic_declaration_is_fatal() {
    let mut decl = declaration("", "Wrapper", vec![unit("Empty")]);
    decl.generics = 1;
    assert!(matches!(
        tylift(&Vec::new(), &decl, Policy::Collect),
        Err(Error::GenericParameters)
    ));
    assert!(matches!(
        tylift(&Vec::new(), &decl, Policy::FailFast),
        Err(Error::GenericParameters)
    ));
}

#[test]
fn generics_are_reported_before_variants() {
    let mut decl = declaration("", "Mode", vec![unit("Mode")]);
    decl.generics = 2;
    assert!(matches!(
        tylift(&Vec::new(), &decl, Policy::FailFast),
        Err(Error::GenericParameters)
    ));
}

#[test]
fn arguments_default_and_module_forms() {
    assert!(matches!(Arguments::parse(&Vec::new()), Ok(Arguments { scope: None })));
    assert!(matches!(Arguments::parse(&vec![ident("mod")]), Ok(Arguments { scope: Some(None) })));
    match Arguments::parse(&vec![ident("mod"), ident("direction")]) {
        Ok(Arguments { scope: Some(Some(name)) }) => assert_eq!(name, "direction"),
        _ => panic!("expected an explicit module"),
    }
}

#[test]
fn arguments_rejected_at_offending_token() {
    assert!(matches!(Arguments::parse(&vec![ident("module")]), Err(0)));
    assert!(matches!(Arguments::parse(&vec![ArgToken::Other]), Err(0)));
    assert!(matches!(Arguments::parse(&vec![ident("mod"), ArgToken::Other]), Err(1)));
    assert!(matches!(
        Arguments::parse(&vec![ident("mod"), ident("a"), ident("b")]),
        Err(2)
    ));
    assert!(matches!(
        Arguments::parse(&vec![ident("mod"), ident("a"), ArgToken::Other]),
        Err(2)
    ));
}

#[test]
fn invalid_arguments_abort_expansion() {
    let decl = declaration("", "Bool", vec![unit("False"), unit("True")]);
    assert!(matches!(
        tylift(&vec![ident("crate")], &decl, Policy::Collect),
        Err(Error::InvalidArguments(0))
    ));
    assert!(matches!(
        tylift(&vec![ident("mod"), ident("a"), ident("b")], &decl, Policy::FailFast),
        Err(Error::InvalidArguments(2))
    ));
}

#[test]
fn explicit_module_named_after_kind() {
    let decl = declaration("pub", "Power", vec![unit("On"), unit("Off")]);
    let e = expand_ok(vec![ident("mod")], &decl, Policy::FailFast);
    assert!(!e.reexport);
    assert_eq!(e.module, "Power");
    let text = e.render();
    assert!(text.starts_with("pub mod Power { use super::*; pub trait Power: sealed::Sealed {} "));
    assert!(!text.contains(" use Power::*;"));
}

#[test]
fn explicit_module_with_given_name() {
    let mut decl = declaration("pub(crate)", "Direction", vec![unit("Up"), unit("Down")]);
    decl.variants[0].attrs = strings(&["#[doc = \" Higher and higher!\"]"]);
    decl.variants[1].attrs = strings(&["#[doc = \" Lower and lower...\"]"]);
    let e = expand_ok(vec![ident("mod"), ident("direction")], &decl, Policy::FailFast);
    assert!(!e.reexport);
    assert_eq!(e.module, "direction");
    let text = e.render();
    assert!(text.starts_with("pub(crate) mod direction { use super::*; "));
    assert!(text.contains("#[doc = \" Higher and higher!\"] pub struct Up<>"));
    assert!(text.contains("#[doc = \" Lower and lower...\"] pub struct Down<>"));
}

#[test]
fn kind_attributes_and_where_clause_go_on_trait() {
    let mut decl = declaration("pub", "Bool", vec![unit("False")]);
    decl.attrs = strings(&["#[doc = \" Truth values.\"]", "#[allow(dead_code)]"]);
    decl.where_clause = "where Self: Sized".to_string();
    let e = expand_ok(Vec::new(), &decl, Policy::FailFast);
    assert_eq!(e.attrs, decl.attrs);
    assert!(e.render().contains(
        "#[doc = \" Truth values.\"] #[allow(dead_code)] \
         pub trait Bool: sealed::Sealed where Self: Sized {} "
    ));
}

#[test]
fn binary_tree_branch_has_three_parameters() {
    let decl = declaration(
        "",
        "BinaryTree",
        vec![unit("Leaf"), tuple("Branch", &["BinaryTree", "Nat", "BinaryTree"])],
    );
    let e = expand_ok(Vec::new(), &decl, Policy::FailFast);
    assert_eq!(e.types[1].params, strings(&["T0", "T1", "T2"]));
    assert_eq!(e.types[1].bounds, strings(&["BinaryTree", "Nat", "BinaryTree"]));
    assert!(e.render().contains(
        "pub struct Branch<T0: BinaryTree, T1: Nat, T2: BinaryTree>\
         (::core::marker::PhantomData<(T0, T1, T2)>); \
         impl<T0: BinaryTree, T1: Nat, T2: BinaryTree> BinaryTree for Branch<T0, T1, T2> {} "
    ));
}

#[test]
fn every_valid_variant_becomes_one_type() {
    let decl = declaration(
        "",
        "Color",
        vec![unit("Red"), tuple("Mix", &["Color", "Color"]), unit("Blue")],
    );
    for policy in [Policy::FailFast, Policy::Collect] {
        let e = expand_ok(Vec::new(), &decl, policy);
        assert_eq!(names(&e), strings(&["Red", "Mix", "Blue"]));
        assert!(e.diagnostics.is_empty());
        let text = e.render();
        for name in ["Red", "Mix", "Blue"] {
            assert!(text.contains(&format!("Color for {}<", name)));
            assert!(text.contains(&format!("Sealed for {}<", name)));
        }
    }
}

#[test]
fn empty_tuple_variant_has_no_parameters() {
    let decl = declaration("", "Unit", vec![tuple("Only", &[])]);
    let e = expand_ok(Vec::new(), &decl, Policy::FailFast);
    assert!(e.types[0].params.is_empty());
    assert!(e.render().contains("pub struct Only<>(::core::marker::PhantomData<()>);"));
}

#[test]
fn parameter_names_follow_slot_index() {
    assert_eq!(parameter_name(0), "T0");
    assert_eq!(parameter_name(9), "T9");
    assert_eq!(parameter_name(10), "T10");
    assert_eq!(parameter_name(4071), "T4071");
}

#[test]
fn messages_name_each_diagnostic() {
    assert_eq!(Error::InvalidArguments(0).message(), "invalid arguments");
    assert_eq!(
        Error::GenericParameters.message(),
        "type parameters cannot be lifted to the kind-level"
    );
    assert_eq!(Error::VariantNamedLikeKind(3).message(), "name of variant matches name of enum");
    assert_eq!(Error::NamedFields(0).message(), "variant must not have named fields");
}
