use ast_repr::layout::{ast, ast_derive, enum_repr, normalize, LayoutDirective, Normalized};
use ast_repr::schema::{
    EnumDef, FieldDef, Item, Marker, ShapeError, StructDef, TypeDef, VariantDef,
};

fn field(name: &str, ty: &str) -> FieldDef {
    FieldDef { name: Some(name.to_string()), ty: ty.to_string() }
}

fn variant(name: &str, payload: &[&str]) -> VariantDef {
    VariantDef { name: name.to_string(), payload: payload.iter().map(|p| p.to_string()).collect() }
}

fn product(name: &str, fields: Vec<FieldDef>, markers: Vec<Marker>) -> TypeDef {
    TypeDef::Struct(StructDef { name: name.to_string(), generics: vec![], fields, markers })
}

fn sum(name: &str, variants: Vec<VariantDef>) -> EnumDef {
    EnumDef { name: name.to_string(), generics: vec![], variants, markers: vec![] }
}

#[test]
fn a_product_is_laid_out_in_sequence() {
    let def = product("Literal", vec![field("value", "u32"), field("span", "Span")], vec![]);
    assert_eq!(normalize(&def), LayoutDirective::SequentialC);
}

#[test]
fn an_empty_product_is_laid_out_in_sequence() {
    assert_eq!(normalize(&product("Nothing", vec![], vec![])), LayoutDirective::SequentialC);
}

#[test]
fn one_payload_makes_a_tagged_union() {
    let def = sum("Expr", vec![variant("Null", &[]), variant("Number", &["NumberLiteral"])]);
    assert_eq!(enum_repr(&def), LayoutDirective::TaggedUnionC);
    assert_eq!(normalize(&TypeDef::Enum(def)), LayoutDirective::TaggedUnionC);
}

#[test]
fn a_payload_in_the_last_variant_is_seen() {
    let def = sum("E", vec![variant("A", &[]), variant("B", &[]), variant("C", &["u8", "u8"])]);
    assert_eq!(enum_repr(&def), LayoutDirective::TaggedUnionC);
}

#[test]
fn no_payload_makes_a_bare_discriminant() {
    let def = sum("Kind", vec![variant("Var", &[]), variant("Let", &[]), variant("Const", &[])]);
    assert_eq!(enum_repr(&def), LayoutDirective::BareDiscriminant);
    assert_eq!(normalize(&TypeDef::Enum(def)), LayoutDirective::BareDiscriminant);
}

#[test]
fn a_sum_without_variants_is_a_bare_discriminant() {
    assert_eq!(enum_repr(&sum("Never", vec![])), LayoutDirective::BareDiscriminant);
}

#[test]
fn the_definition_comes_back_unchanged() {
    let def = product(
        "Function",
        vec![field("id", "BindingIdentifier"), field("scope_id", "ScopeId")],
        vec![Marker::Scope, Marker::Visit, Marker::Serde, Marker::GenerateDerive],
    );
    let out = ast(Item::Type(def.clone()));
    assert_eq!(out, Ok(Normalized { layout: LayoutDirective::SequentialC, definition: def }));
}

#[test]
fn markers_of_a_sum_are_kept() {
    let mut def = sum("Op", vec![variant("Add", &[]), variant("Sub", &[])]);
    def.markers = vec![Marker::Span, Marker::Tsify];
    let out = ast(Item::Type(TypeDef::Enum(def.clone()))).unwrap();
    assert_eq!(out.layout, LayoutDirective::BareDiscriminant);
    assert_eq!(out.definition, TypeDef::Enum(def));
}

#[test]
fn what_is_no_type_is_refused() {
    assert_eq!(ast(Item::Other), Err(ShapeError::NotATypeDefinition));
}

#[test]
fn attributes_read_as_the_compiler_wants_them() {
    assert_eq!(LayoutDirective::SequentialC.attribute(), "#[repr(C)]");
    assert_eq!(LayoutDirective::TaggedUnionC.attribute(), "#[repr(C, u8)]");
    assert_eq!(LayoutDirective::BareDiscriminant.attribute(), "#[repr(u8)]");
}

#[test]
fn the_marker_derive_adds_nothing() {
    let def = product("Literal", vec![field("value", "u32")], vec![Marker::Visit]);
    assert_eq!(ast_derive(&Item::Type(def)), "");
    assert_eq!(ast_derive(&Item::Other), "");
}

#[test]
fn layout_does_not_look_at_names_or_types() {
    let a = sum("A", vec![variant("X", &[]), variant("Y", &["u8"])]);
    let b = sum("B", vec![variant("P", &[]), variant("Q", &["String"])]);
    assert_eq!(enum_repr(&a), enum_repr(&b));
}
