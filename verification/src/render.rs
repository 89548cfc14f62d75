//! The source text of what was derived: the hash function of a node type as
//! an `impl` block.

use vstd::prelude::*;
use vstd::string::StringExecFns;

use crate::content_hash::{
    carrying_below, hashed_below, hashed_below_is_the_hashed_fields, HashContribution,
};
use crate::schema::{EnumDef, FieldDef, Item, ShapeError, StructDef, TypeDef, VariantDef};

verus! {

/// The text that stands at the head of a file of derived hash functions.
pub fn prelude() -> (text: &'static str)
    ensures
        text@ == "#![allow(clippy::match_same_arms)]\n\nuse std::{hash::Hasher, mem::discriminant};\n\nuse oxc_span::hash::ContentHash;\n"@,
{
    "#![allow(clippy::match_same_arms)]\n\nuse std::{hash::Hasher, mem::discriminant};\n\nuse oxc_span::hash::ContentHash;\n"
}

/// The names in `names` from `from` on, each after a comma and a blank.
pub open spec fn rest_text(names: Seq<String>, from: nat, k: nat) -> Seq<char>
    decreases k,
{
    if k <= from || k > names.len() {
        Seq::empty()
    } else {
        rest_text(names, from, (k - 1) as nat) + ", "@ + names[k - 1]@
    }
}

/// The generic parameters in angle brackets; nothing where there are none.
pub open spec fn generics_text(generics: Seq<String>) -> Seq<char> {
    if generics.len() == 0 {
        Seq::empty()
    } else {
        "<"@ + generics[0]@ + rest_text(generics, 1, generics.len()) + ">"@
    }
}

/// The generic parameters in angle brackets; nothing where there are none.
pub fn generics(params: &Vec<String>) -> (text: String)
    ensures
        text@ == generics_text(params@),
{
    let mut text = String::new();
    if params.len() > 0 {
        text.append("<");
        text.append(params[0].as_str());
        let mut i: usize = 1;
        while i < params.len()
            invariant
                1 <= i <= params@.len(),
                text@ == "<"@ + params@[0]@ + rest_text(params@, 1, i as nat),
            decreases params@.len() - i,
        {
            text.append(", ");
            text.append(params[i].as_str());
            i += 1;
        }
        text.append(">");
    }
    text
}

/// The statement that hashes one field.
pub open spec fn field_statement(f: FieldDef) -> Seq<char> {
    "self."@ + (match f.name {
        Some(n) => n@,
        None => Seq::empty(),
    }) + ".content_hash(state);\n"@
}

/// The statements that hash the first `j` of the listed fields.
pub open spec fn struct_body_text(fields: Seq<FieldDef>, listed: Seq<usize>, j: nat) -> Seq<char>
    decreases j,
{
    if j == 0 || j > listed.len() {
        Seq::empty()
    } else {
        struct_body_text(fields, listed, (j - 1) as nat) + (if listed[j - 1] < fields.len() {
            field_statement(fields[listed[j - 1] as int])
        } else {
            Seq::empty()
        })
    }
}

/// The arm that hashes the payload of one variant.
pub open spec fn variant_arm(v: VariantDef) -> Seq<char> {
    "Self::"@ + v.name@ + "(it) => it.content_hash(state),\n"@
}

/// The arms for the first `j` of the listed variants.
pub open spec fn arms_text(variants: Seq<VariantDef>, listed: Seq<usize>, j: nat) -> Seq<char>
    decreases j,
{
    if j == 0 || j > listed.len() {
        Seq::empty()
    } else {
        arms_text(variants, listed, (j - 1) as nat) + (if listed[j - 1] < variants.len() {
            variant_arm(variants[listed[j - 1] as int])
        } else {
            Seq::empty()
        })
    }
}

/// The body of the hash function of a sum type: the discriminant first,
/// then, where a variant carries a payload, a `match` with an arm for each
/// such variant and a last arm for the others, if there are any.
pub open spec fn enum_body_text(variants: Seq<VariantDef>, listed: Seq<usize>, fallback: bool) -> Seq<
    char,
> {
    "ContentHash::content_hash(&discriminant(self), state);\n"@ + (if listed.len() == 0 {
        Seq::empty()
    } else {
        "match self {\n"@ + arms_text(variants, listed, listed.len()) + (if fallback {
            "_ => {}\n"@
        } else {
            Seq::empty()
        }) + "}\n"@
    })
}

/// The body of the hash function that `plan` describes for `def`.
pub open spec fn body_text(def: TypeDef, plan: HashContribution) -> Seq<char> {
    match (def, plan) {
        (TypeDef::Struct(s), HashContribution::Product { fields }) => struct_body_text(
            s.fields@,
            fields@,
            fields@.len(),
        ),
        (TypeDef::Enum(e), HashContribution::Sum { payloads, fallback }) => enum_body_text(
            e.variants@,
            payloads@,
            fallback,
        ),
        _ => Seq::empty(),
    }
}

/// The body of the hash function of a product type.
fn struct_body(def: &StructDef, listed: &Vec<usize>) -> (text: String)
    requires
        forall|j: int| 0 <= j < listed@.len() ==> listed@[j] < def.fields@.len(),
    ensures
        text@ == struct_body_text(def.fields@, listed@, listed@.len()),
{
    let mut text = String::new();
    let mut j: usize = 0;
    while j < listed.len()
        invariant
            j <= listed@.len(),
            forall|j: int| 0 <= j < listed@.len() ==> listed@[j] < def.fields@.len(),
            text@ == struct_body_text(def.fields@, listed@, j as nat),
        decreases listed@.len() - j,
    {
        let field = &def.fields[listed[j]];
        text.append("self.");
        match &field.name {
            Some(name) => text.append(name.as_str()),
            None => {},
        }
        text.append(".content_hash(state);\n");
        j += 1;
    }
    text
}

/// The body of the hash function of a sum type.
fn enum_body(def: &EnumDef, listed: &Vec<usize>, fallback: bool) -> (text: String)
    requires
        forall|j: int| 0 <= j < listed@.len() ==> listed@[j] < def.variants@.len(),
    ensures
        text@ == enum_body_text(def.variants@, listed@, fallback),
{
    let mut text = String::new();
    text.append("ContentHash::content_hash(&discriminant(self), state);\n");
    if listed.len() > 0 {
        text.append("match self {\n");
        let ghost head = text@;
        let mut j: usize = 0;
        while j < listed.len()
            invariant
                j <= listed@.len(),
                forall|j: int| 0 <= j < listed@.len() ==> listed@[j] < def.variants@.len(),
                text@ == head + arms_text(def.variants@, listed@, j as nat),
            decreases listed@.len() - j,
        {
            text.append("Self::");
            text.append(def.variants[listed[j]].name.as_str());
            text.append("(it) => it.content_hash(state),\n");
            j += 1;
        }
        if fallback {
            text.append("_ => {}\n");
        }
        text.append("}\n");
    }
    text
}

/// The body of the hash function that `plan` describes for `def`.
pub fn body(def: &TypeDef, plan: &HashContribution) -> (text: String)
    requires
        plan.is_plan_of(*def),
    ensures
        text@ == body_text(*def, *plan),
{
    match def {
        TypeDef::Struct(s) => match plan {
            HashContribution::Product { fields } => {
                proof {
                    assert(s.fields@.len() == s.fields.len());
                    hashed_below_is_the_hashed_fields(s.fields@, s.fields@.len());
                }
                struct_body(s, fields)
            },
            HashContribution::Sum { .. } => String::new(),
        },
        TypeDef::Enum(e) => match plan {
            HashContribution::Sum { payloads, fallback } => {
                proof {
                    assert(e.variants@.len() == e.variants.len());
                    crate::content_hash::carrying_below_is_the_carrying_variants(
                        e.variants@,
                        e.variants@.len(),
                    );
                }
                enum_body(e, payloads, *fallback)
            },
            HashContribution::Product { .. } => String::new(),
        },
    }
}

impl TypeDef {
    /// The name of the type.
    pub open spec fn spec_name(&self) -> Seq<char> {
        match self {
            TypeDef::Struct(s) => s.name@,
            TypeDef::Enum(e) => e.name@,
        }
    }

    /// The generic parameters of the type.
    pub open spec fn spec_generics(&self) -> Seq<String> {
        match self {
            TypeDef::Struct(s) => s.generics@,
            TypeDef::Enum(e) => e.generics@,
        }
    }
}

/// The `impl` block that gives `def` its hash function.
pub open spec fn impl_text(def: TypeDef, hasher_name: Seq<char>, body: Seq<char>) -> Seq<char> {
    "impl"@ + generics_text(def.spec_generics()) + " ContentHash for "@ + def.spec_name()
        + generics_text(def.spec_generics()) + " {\nfn content_hash<H: Hasher>(&self, "@
        + hasher_name + ": &mut H) {\n"@ + body + "}\n}\n"@
}

/// The `impl` block that gives `def` its hash function, with the hasher
/// parameter under the name given and the body given.
pub fn impl_content_hash(def: &TypeDef, hasher_name: &str, body: &str) -> (text: String)
    ensures
        text@ == impl_text(*def, hasher_name@, body@),
{
    let (name, params) = match def {
        TypeDef::Struct(s) => (&s.name, &s.generics),
        TypeDef::Enum(e) => (&e.name, &e.generics),
    };
    let params_text = generics(params);
    let mut text = String::new();
    text.append("impl");
    text.append(params_text.as_str());
    text.append(" ContentHash for ");
    text.append(name.as_str());
    text.append(params_text.as_str());
    text.append(" {\nfn content_hash<H: Hasher>(&self, ");
    text.append(hasher_name);
    text.append(": &mut H) {\n");
    text.append(body);
    text.append("}\n}\n");
    text
}

/// The body of the hash function of `def`.
pub open spec fn derived_body_text(def: TypeDef) -> Seq<char> {
    match def {
        TypeDef::Struct(s) => struct_body_text(
            s.fields@,
            hashed_below(s.fields@, s.fields@.len()),
            hashed_below(s.fields@, s.fields@.len()).len(),
        ),
        TypeDef::Enum(e) => enum_body_text(
            e.variants@,
            carrying_below(e.variants@, e.variants@.len()),
            !e.is_unit() && e.has_unit_variant(),
        ),
    }
}

/// The name of the hasher parameter in the hash function of `def`: `_`
/// where a product type has no field to hash.
pub open spec fn derived_hasher_name(def: TypeDef) -> Seq<char> {
    match def {
        TypeDef::Struct(s) => if hashed_below(s.fields@, s.fields@.len()).len() == 0 {
            "_"@
        } else {
            "state"@
        },
        TypeDef::Enum(_) => "state"@,
    }
}

/// Derive the hash function of `def` and write it out as an `impl` block.
/// A definition that cannot be classified is refused.
pub fn derive_impl(def: &TypeDef) -> (r: Result<String, ShapeError>)
    ensures
        match r {
            Ok(text) => def.classifiable() && text@ == impl_text(
                *def,
                derived_hasher_name(*def),
                derived_body_text(*def),
            ),
            Err(e) => !def.classifiable() && e == ShapeError::ManyPayloads,
        },
{
    match crate::content_hash::derive(def) {
        Ok(plan) => {
            let body_text = body(def, &plan);
            Ok(impl_content_hash(def, plan.hasher_name(), body_text.as_str()))
        },
        Err(e) => Err(e),
    }
}

/// The `impl` block that lets a type without parameters be cloned into an
/// arena.
pub open spec fn clone_in_text(name: Seq<char>) -> Seq<char> {
    "#[automatically_derived]\nimpl<'alloc> ::oxc_allocator::CloneIn<'alloc> for "@ + name
        + " {\ntype Cloned = "@ + name
        + ";\nfn clone_in(&self, _: &'alloc ::oxc_allocator::Allocator) -> Self::Cloned {\nstd::clone::Clone::clone(self)\n}\n}\n"@
}

/// Derive cloning into an arena for a node type. Only a type without
/// generic or lifetime parameters has it; anything else is refused.
pub fn derive_clone_in(item: &Item) -> (r: Result<String, ShapeError>)
    ensures
        match *item {
            Item::Other => r == Err::<String, ShapeError>(ShapeError::NotATypeDefinition),
            Item::Type(def) => if def.spec_generics().len() == 0 {
                r matches Ok(text) && text@ == clone_in_text(def.spec_name())
            } else {
                r == Err::<String, ShapeError>(ShapeError::GenericParameters)
            },
        },
{
    match item {
        Item::Other => Err(ShapeError::NotATypeDefinition),
        Item::Type(def) => {
            let (name, params) = match def {
                TypeDef::Struct(s) => (&s.name, &s.generics),
                TypeDef::Enum(e) => (&e.name, &e.generics),
            };
            if params.len() > 0 {
                return Err(ShapeError::GenericParameters);
            }
            let mut text = String::new();
            text.append("#[automatically_derived]\nimpl<'alloc> ::oxc_allocator::CloneIn<'alloc> for ");
            text.append(name.as_str());
            text.append(" {\ntype Cloned = ");
            text.append(name.as_str());
            text.append(
                ";\nfn clone_in(&self, _: &'alloc ::oxc_allocator::Allocator) -> Self::Cloned {\nstd::clone::Clone::clone(self)\n}\n}\n",
            );
            Ok(text)
        },
    }
}

} // verus!
