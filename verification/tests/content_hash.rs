use ast_repr::content_hash::{
    derive_enum, derive_struct, is_hashed, is_ignored, trait_name, HashContribution,
};
use ast_repr::node::{Absorbed, Node};
use ast_repr::schema::{EnumDef, FieldDef, ShapeError, StructDef, TypeDef, VariantDef};
use ast_repr::table::HashTable;

fn field(name: &str, ty: &str) -> FieldDef {
    FieldDef { name: Some(name.to_string()), ty: ty.to_string() }
}

fn variant(name: &str, payload: &[&str]) -> VariantDef {
    VariantDef { name: name.to_string(), payload: payload.iter().map(|p| p.to_string()).collect() }
}

fn product(name: &str, fields: Vec<FieldDef>) -> StructDef {
    StructDef { name: name.to_string(), generics: vec![], fields, markers: vec![] }
}

fn sum(name: &str, variants: Vec<VariantDef>) -> EnumDef {
    EnumDef { name: name.to_string(), generics: vec![], variants, markers: vec![] }
}

fn leaf(bytes: &[u8]) -> Node {
    Node::Leaf(bytes.to_vec())
}

/// Type 0: `Literal { value, span }`. Type 1: `Token { Eof, Number(u8) }`.
/// Type 2: `Marker { span, scope_id }`. Type 3: `Wrapper { inner: Literal }`.
fn table() -> HashTable {
    HashTable::build(vec![
        TypeDef::Struct(product("Literal", vec![field("value", "u8"), field("span", "Span")])),
        TypeDef::Enum(sum("Token", vec![variant("Eof", &[]), variant("Number", &["u8"])])),
        TypeDef::Struct(product("Marker", vec![field("span", "Span"), field("scope_id", "ScopeId")])),
        TypeDef::Struct(product("Wrapper", vec![field("inner", "Literal")])),
    ])
    .unwrap()
}

fn literal(value: u8, span: (u8, u8)) -> Node {
    Node::Struct { ty: 0, fields: vec![leaf(&[value]), leaf(&[span.0, span.1])] }
}

fn token_eof() -> Node {
    Node::Enum { ty: 1, variant: 0, payload: None }
}

fn token_number(n: u8) -> Node {
    Node::Enum { ty: 1, variant: 1, payload: Some(Box::new(leaf(&[n]))) }
}

#[test]
fn the_six_pairs_are_ignored() {
    for (name, ty) in [
        ("span", "Span"),
        ("trailing_comma", "Span"),
        ("this_span", "Span"),
        ("scope_id", "ScopeId"),
        ("symbol_id", "SymbolId"),
        ("reference_id", "ReferenceId"),
    ] {
        assert!(is_ignored(&name.to_string(), &ty.to_string()));
        assert!(!is_hashed(&field(name, ty)));
    }
}

#[test]
fn name_and_type_must_both_match() {
    assert!(!is_ignored(&"span".to_string(), &"ScopeId".to_string()));
    assert!(!is_ignored(&"scope_id".to_string(), &"Span".to_string()));
    assert!(!is_ignored(&"other_span".to_string(), &"Span".to_string()));
    assert!(!is_ignored(&"symbol_id".to_string(), &"ReferenceId".to_string()));
    assert!(!is_ignored(&"Span".to_string(), &"span".to_string()));
    assert!(is_hashed(&field("inner_span", "Span")));
    assert!(is_hashed(&field("value", "u8")));
}

#[test]
fn a_field_without_a_name_is_not_hashed() {
    assert!(!is_hashed(&FieldDef { name: None, ty: "u8".to_string() }));
}

#[test]
fn the_trait_is_content_hash() {
    assert_eq!(trait_name(), "ContentHash");
}

#[test]
fn a_product_hashes_its_fields_in_order_without_the_ignored() {
    let def = product(
        "Function",
        vec![
            field("span", "Span"),
            field("id", "Identifier"),
            field("scope_id", "ScopeId"),
            field("params", "Params"),
            field("body", "Body"),
        ],
    );
    let plan = derive_struct(&def);
    assert_eq!(plan, HashContribution::Product { fields: vec![1, 3, 4] });
    assert_eq!(plan.hasher_name(), "state");
}

#[test]
fn a_product_with_nothing_to_hash_still_has_its_function() {
    let def = product("Marker", vec![field("span", "Span"), field("scope_id", "ScopeId")]);
    let plan = derive_struct(&def);
    assert_eq!(plan, HashContribution::Product { fields: vec![] });
    assert_eq!(plan.hasher_name(), "_");
}

#[test]
fn an_empty_product_still_has_its_function() {
    let plan = derive_struct(&product("Nothing", vec![]));
    assert_eq!(plan, HashContribution::Product { fields: vec![] });
    assert_eq!(plan.hasher_name(), "_");
}

#[test]
fn a_sum_without_payloads_hashes_its_discriminant_alone() {
    let plan = derive_enum(&sum("Kind", vec![variant("Var", &[]), variant("Let", &[])]));
    assert_eq!(plan, Ok(HashContribution::Sum { payloads: vec![], fallback: false }));
    assert_eq!(plan.unwrap().hasher_name(), "state");
}

#[test]
fn a_mixed_sum_gets_a_fallback_arm() {
    let def = sum("Token", vec![variant("Eof", &[]), variant("Number", &["u8"]), variant("Eol", &[])]);
    assert_eq!(derive_enum(&def), Ok(HashContribution::Sum { payloads: vec![1], fallback: true }));
}

#[test]
fn a_sum_of_payloads_needs_no_fallback_arm() {
    let def = sum("Expr", vec![variant("Number", &["Num"]), variant("Text", &["Str"])]);
    assert_eq!(derive_enum(&def), Ok(HashContribution::Sum { payloads: vec![0, 1], fallback: false }));
}

#[test]
fn two_payloads_in_one_variant_are_refused() {
    let def = sum("Pair", vec![variant("One", &["u8"]), variant("Two", &["u8", "u8"])]);
    assert_eq!(derive_enum(&def), Err(ShapeError::ManyPayloads));
    assert_eq!(ast_repr::content_hash::derive(&TypeDef::Enum(def.clone())), Err(ShapeError::ManyPayloads));
    assert!(HashTable::build(vec![TypeDef::Enum(def)]).is_err());
}

#[test]
fn derive_takes_both_kinds() {
    let s = TypeDef::Struct(product("Literal", vec![field("value", "u8"), field("span", "Span")]));
    assert_eq!(
        ast_repr::content_hash::derive(&s),
        Ok(HashContribution::Product { fields: vec![0] })
    );
    let e = TypeDef::Enum(sum("Token", vec![variant("Eof", &[]), variant("Number", &["u8"])]));
    assert_eq!(
        ast_repr::content_hash::derive(&e),
        Ok(HashContribution::Sum { payloads: vec![1], fallback: true })
    );
}

#[test]
fn the_span_does_not_count() {
    let t = table();
    let a = t.content_hash(&literal(5, (0, 3))).unwrap();
    let b = t.content_hash(&literal(5, (10, 13))).unwrap();
    assert_eq!(a, b);
    assert_eq!(a, vec![Absorbed::Bytes(vec![5])]);
}

#[test]
fn the_value_counts() {
    let t = table();
    let a = t.content_hash(&literal(5, (0, 3))).unwrap();
    let b = t.content_hash(&literal(6, (0, 3))).unwrap();
    assert_ne!(a, b);
    assert_eq!(b, vec![Absorbed::Bytes(vec![6])]);
}

#[test]
fn the_variant_counts() {
    let t = table();
    let eof = t.content_hash(&token_eof()).unwrap();
    assert_eq!(eof, vec![Absorbed::Discriminant(0)]);
    for n in [0u8, 7, 8, 255] {
        assert_ne!(eof, t.content_hash(&token_number(n)).unwrap());
    }
}

#[test]
fn the_payload_counts() {
    let t = table();
    let seven = t.content_hash(&token_number(7)).unwrap();
    let eight = t.content_hash(&token_number(8)).unwrap();
    assert_ne!(seven, eight);
    assert_eq!(seven, vec![Absorbed::Discriminant(1), Absorbed::Bytes(vec![7])]);
    assert_eq!(eight, vec![Absorbed::Discriminant(1), Absorbed::Bytes(vec![8])]);
}

#[test]
fn a_node_with_nothing_to_hash_hands_over_nothing() {
    let t = table();
    let node = Node::Struct { ty: 2, fields: vec![leaf(&[0, 3]), leaf(&[9])] };
    assert_eq!(t.content_hash(&node), Some(vec![]));
}

#[test]
fn hashing_goes_into_nested_nodes() {
    let t = table();
    let a = Node::Struct { ty: 3, fields: vec![literal(5, (0, 3))] };
    let b = Node::Struct { ty: 3, fields: vec![literal(5, (10, 13))] };
    let c = Node::Struct { ty: 3, fields: vec![literal(6, (0, 3))] };
    assert_eq!(t.content_hash(&a), Some(vec![Absorbed::Bytes(vec![5])]));
    assert_eq!(t.content_hash(&a), t.content_hash(&b));
    assert_ne!(t.content_hash(&a), t.content_hash(&c));
}

#[test]
fn contribute_adds_to_what_is_there() {
    let t = table();
    let mut acc = vec![Absorbed::Discriminant(9)];
    let node = literal(5, (0, 3));
    assert!(t.conforms(&node));
    t.contribute(&node, &mut acc);
    t.contribute(&token_number(7), &mut acc);
    assert_eq!(
        acc,
        vec![
            Absorbed::Discriminant(9),
            Absorbed::Bytes(vec![5]),
            Absorbed::Discriminant(1),
            Absorbed::Bytes(vec![7]),
        ]
    );
}

#[test]
fn a_leaf_hands_over_its_bytes() {
    let t = table();
    assert_eq!(t.content_hash(&leaf(&[1, 2, 3])), Some(vec![Absorbed::Bytes(vec![1, 2, 3])]));
    assert_eq!(t.content_hash(&leaf(&[])), Some(vec![Absorbed::Bytes(vec![])]));
}

#[test]
fn nodes_that_do_not_fit_are_not_hashed() {
    let t = table();
    let unknown_type = Node::Struct { ty: 4, fields: vec![] };
    let wrong_kind = Node::Struct { ty: 1, fields: vec![] };
    let too_few_fields = Node::Struct { ty: 0, fields: vec![leaf(&[5])] };
    let unknown_variant = Node::Enum { ty: 1, variant: 2, payload: None };
    let missing_payload = Node::Enum { ty: 1, variant: 1, payload: None };
    let surplus_payload = Node::Enum { ty: 1, variant: 0, payload: Some(Box::new(leaf(&[1]))) };
    let sum_of_product = Node::Enum { ty: 0, variant: 0, payload: None };
    let bad_inside = Node::Struct { ty: 3, fields: vec![too_few_fields_again()] };
    for node in [
        unknown_type,
        wrong_kind,
        too_few_fields,
        unknown_variant,
        missing_payload,
        surplus_payload,
        sum_of_product,
        bad_inside,
    ] {
        assert!(!t.conforms(&node));
        assert_eq!(t.content_hash(&node), None);
    }
}

fn too_few_fields_again() -> Node {
    Node::Struct { ty: 0, fields: vec![] }
}

#[test]
fn nodes_that_fit_are_told_so() {
    let t = table();
    assert!(t.conforms(&literal(5, (0, 3))));
    assert!(t.conforms(&token_eof()));
    assert!(t.conforms(&token_number(7)));
    assert!(t.conforms(&leaf(&[1])));
}

#[test]
fn an_empty_table_is_made() {
    let t = HashTable::build(vec![]).unwrap();
    assert!(t.conforms(&leaf(&[1])));
    assert!(!t.conforms(&token_eof()));
}
