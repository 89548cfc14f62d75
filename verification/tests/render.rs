use ast_repr::content_hash::HashContribution;
use ast_repr::render::{body, derive_clone_in, derive_impl, generics, impl_content_hash, prelude};
use ast_repr::schema::{EnumDef, FieldDef, Item, ShapeError, StructDef, TypeDef, VariantDef};

fn field(name: &str, ty: &str) -> FieldDef {
    FieldDef { name: Some(name.to_string()), ty: ty.to_string() }
}

fn variant(name: &str, payload: &[&str]) -> VariantDef {
    VariantDef { name: name.to_string(), payload: payload.iter().map(|p| p.to_string()).collect() }
}

fn product(name: &str, params: &[&str], fields: Vec<FieldDef>) -> TypeDef {
    TypeDef::Struct(StructDef {
        name: name.to_string(),
        generics: params.iter().map(|p| p.to_string()).collect(),
        fields,
        markers: vec![],
    })
}

fn sum(name: &str, params: &[&str], variants: Vec<VariantDef>) -> TypeDef {
    TypeDef::Enum(EnumDef {
        name: name.to_string(),
        generics: params.iter().map(|p| p.to_string()).collect(),
        variants,
        markers: vec![],
    })
}

#[test]
fn the_prelude_brings_in_what_the_functions_name() {
    assert_eq!(
        prelude(),
        "#![allow(clippy::match_same_arms)]\n\nuse std::{hash::Hasher, mem::discriminant};\n\nuse oxc_span::hash::ContentHash;\n"
    );
}

#[test]
fn generic_parameters_stand_in_angle_brackets() {
    assert_eq!(generics(&vec![]), "");
    assert_eq!(generics(&vec!["'a".to_string()]), "<'a>");
    assert_eq!(generics(&vec!["'a".to_string(), "T".to_string(), "U".to_string()]), "<'a, T, U>");
}

#[test]
fn a_product_hashes_field_after_field() {
    let def = product(
        "BinaryExpression",
        &["'a"],
        vec![
            field("span", "Span"),
            field("left", "Expression"),
            field("operator", "BinaryOperator"),
            field("right", "Expression"),
        ],
    );
    assert_eq!(
        derive_impl(&def).unwrap(),
        "impl<'a> ContentHash for BinaryExpression<'a> {\n\
         fn content_hash<H: Hasher>(&self, state: &mut H) {\n\
         self.left.content_hash(state);\n\
         self.operator.content_hash(state);\n\
         self.right.content_hash(state);\n\
         }\n\
         }\n"
    );
}

#[test]
fn a_product_with_nothing_to_hash_leaves_the_hasher_alone() {
    let def = product("Hashbang", &[], vec![field("span", "Span")]);
    assert_eq!(
        derive_impl(&def).unwrap(),
        "impl ContentHash for Hashbang {\n\
         fn content_hash<H: Hasher>(&self, _: &mut H) {\n\
         }\n\
         }\n"
    );
    let empty = product("Nothing", &[], vec![]);
    assert_eq!(
        derive_impl(&empty).unwrap(),
        "impl ContentHash for Nothing {\n\
         fn content_hash<H: Hasher>(&self, _: &mut H) {\n\
         }\n\
         }\n"
    );
}

#[test]
fn a_sum_without_payloads_hashes_the_discriminant() {
    let def = sum("VariableKind", &[], vec![variant("Var", &[]), variant("Let", &[])]);
    assert_eq!(
        derive_impl(&def).unwrap(),
        "impl ContentHash for VariableKind {\n\
         fn content_hash<H: Hasher>(&self, state: &mut H) {\n\
         ContentHash::content_hash(&discriminant(self), state);\n\
         }\n\
         }\n"
    );
}

#[test]
fn a_mixed_sum_matches_with_a_last_arm() {
    let def = sum(
        "Argument",
        &["'a"],
        vec![variant("Spread", &["SpreadElement"]), variant("Hole", &[]), variant("Expr", &["Expression"])],
    );
    assert_eq!(
        derive_impl(&def).unwrap(),
        "impl<'a> ContentHash for Argument<'a> {\n\
         fn content_hash<H: Hasher>(&self, state: &mut H) {\n\
         ContentHash::content_hash(&discriminant(self), state);\n\
         match self {\n\
         Self::Spread(it) => it.content_hash(state),\n\
         Self::Expr(it) => it.content_hash(state),\n\
         _ => {}\n\
         }\n\
         }\n\
         }\n"
    );
}

#[test]
fn a_sum_of_payloads_matches_without_a_last_arm() {
    let def = sum("Key", &[], vec![variant("Name", &["Ident"]), variant("Text", &["Str"])]);
    assert_eq!(
        derive_impl(&def).unwrap(),
        "impl ContentHash for Key {\n\
         fn content_hash<H: Hasher>(&self, state: &mut H) {\n\
         ContentHash::content_hash(&discriminant(self), state);\n\
         match self {\n\
         Self::Name(it) => it.content_hash(state),\n\
         Self::Text(it) => it.content_hash(state),\n\
         }\n\
         }\n\
         }\n"
    );
}

#[test]
fn a_sum_that_cannot_be_classified_is_refused() {
    let def = sum("Pair", &[], vec![variant("Two", &["u8", "u8"])]);
    assert_eq!(derive_impl(&def), Err(ShapeError::ManyPayloads));
}

#[test]
fn the_body_follows_the_plan() {
    let def = product("Literal", &[], vec![field("value", "u8"), field("span", "Span")]);
    let plan = ast_repr::content_hash::derive(&def).unwrap();
    assert_eq!(plan, HashContribution::Product { fields: vec![0] });
    assert_eq!(body(&def, &plan), "self.value.content_hash(state);\n");
}

#[test]
fn the_impl_block_takes_name_and_body_as_given() {
    let def = product("Literal", &[], vec![]);
    assert_eq!(
        impl_content_hash(&def, "hasher", "self.value.content_hash(hasher);\n"),
        "impl ContentHash for Literal {\n\
         fn content_hash<H: Hasher>(&self, hasher: &mut H) {\n\
         self.value.content_hash(hasher);\n\
         }\n\
         }\n"
    );
}

#[test]
fn a_plain_type_can_be_cloned_into_an_arena() {
    let def = product("Span", &[], vec![field("start", "u32"), field("end", "u32")]);
    assert_eq!(
        derive_clone_in(&Item::Type(def)).unwrap(),
        "#[automatically_derived]\n\
         impl<'alloc> ::oxc_allocator::CloneIn<'alloc> for Span {\n\
         type Cloned = Span;\n\
         fn clone_in(&self, _: &'alloc ::oxc_allocator::Allocator) -> Self::Cloned {\n\
         std::clone::Clone::clone(self)\n\
         }\n\
         }\n"
    );
    let kind = sum("Kind", &[], vec![variant("A", &[])]);
    assert!(derive_clone_in(&Item::Type(kind)).unwrap().contains("for Kind {"));
}

#[test]
fn a_type_with_parameters_cannot_be_cloned_into_an_arena() {
    let def = product("Program", &["'a"], vec![]);
    assert_eq!(derive_clone_in(&Item::Type(def)), Err(ShapeError::GenericParameters));
    let kind = sum("Expr", &["'a"], vec![]);
    assert_eq!(derive_clone_in(&Item::Type(kind)), Err(ShapeError::GenericParameters));
}

#[test]
fn what_is_no_type_cannot_be_cloned_into_an_arena() {
    assert_eq!(derive_clone_in(&Item::Other), Err(ShapeError::NotATypeDefinition));
}
