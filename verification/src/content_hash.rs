//! Derivation of content hashing: for each node type, which parts of a node
//! are fed to the hasher, and in what order.

use vstd::prelude::*;

use crate::schema::{EnumDef, FieldDef, ShapeError, StructDef, TypeDef, VariantDef};
use crate::text::text_is;

verus! {

/// The fields that carry where a node came from, or an id handed out while
/// the tree was analysed, rather than what the node says. Each entry is a
/// field name with the name of its type; a field is left out of hashing
/// only where both match.
pub open spec fn ignored_pair(name: Seq<char>, ty: Seq<char>) -> bool {
    ||| name == "span"@ && ty == "Span"@
    ||| name == "trailing_comma"@ && ty == "Span"@
    ||| name == "this_span"@ && ty == "Span"@
    ||| name == "scope_id"@ && ty == "ScopeId"@
    ||| name == "symbol_id"@ && ty == "SymbolId"@
    ||| name == "reference_id"@ && ty == "ReferenceId"@
}

/// Whether a field takes part in hashing: it has a name, and name and type
/// are not an ignored pair.
pub open spec fn hashed(f: FieldDef) -> bool {
    f.name matches Some(n) && !ignored_pair(n@, f.ty@)
}

/// The indices below `k` of the fields that take part in hashing, in
/// declaration order.
pub open spec fn hashed_below(fields: Seq<FieldDef>, k: nat) -> Seq<usize>
    decreases k,
{
    if k == 0 || k > fields.len() {
        Seq::empty()
    } else if hashed(fields[k - 1]) {
        hashed_below(fields, (k - 1) as nat).push((k - 1) as usize)
    } else {
        hashed_below(fields, (k - 1) as nat)
    }
}

/// The indices below `k` of the variants that carry a payload, in
/// declaration order.
pub open spec fn carrying_below(variants: Seq<VariantDef>, k: nat) -> Seq<usize>
    decreases k,
{
    if k == 0 || k > variants.len() {
        Seq::empty()
    } else if variants[k - 1].is_unit() {
        carrying_below(variants, (k - 1) as nat)
    } else {
        carrying_below(variants, (k - 1) as nat).push((k - 1) as usize)
    }
}

/// What `hashed_below` holds: exactly the indices below `k` of the hashed
/// fields, each once, in rising order.
pub proof fn hashed_below_is_the_hashed_fields(fields: Seq<FieldDef>, k: nat)
    requires
        k <= fields.len(),
        fields.len() <= usize::MAX,
    ensures
        hashed_below(fields, k).len() <= k,
        forall|j: int|
            0 <= j < hashed_below(fields, k).len() ==> (#[trigger] hashed_below(fields, k)[j]) < k
                && hashed(fields[hashed_below(fields, k)[j] as int]),
        forall|i: int, j: int|
            0 <= i < j < hashed_below(fields, k).len() ==> (#[trigger] hashed_below(fields, k)[i])
                < (#[trigger] hashed_below(fields, k)[j]),
        forall|i: int|
            0 <= i < k && hashed(#[trigger] fields[i]) ==> hashed_below(fields, k).contains(
                i as usize,
            ),
        hashed_below(fields, k).len() == 0 <==> forall|i: int|
            0 <= i < k ==> !hashed(#[trigger] fields[i]),
    decreases k,
{
    if k > 0 {
        let prev = hashed_below(fields, (k - 1) as nat);
        hashed_below_is_the_hashed_fields(fields, (k - 1) as nat);
        let cur = hashed_below(fields, k);
        if hashed(fields[k - 1]) {
            assert(cur[cur.len() - 1] == (k - 1) as usize);
            assert forall|i: int| 0 <= i < k && hashed(#[trigger] fields[i]) implies cur.contains(
                i as usize,
            ) by {
                if i < k - 1 {
                    let j = choose|j: int| 0 <= j < prev.len() && prev[j] == i as usize;
                    assert(cur[j] == i as usize);
                } else {
                    assert(cur[cur.len() - 1] == i as usize);
                }
            }
        }
    }
}

/// What `carrying_below` holds: exactly the indices below `k` of the
/// variants that carry a payload, each once, in rising order.
pub proof fn carrying_below_is_the_carrying_variants(variants: Seq<VariantDef>, k: nat)
    requires
        k <= variants.len(),
        variants.len() <= usize::MAX,
    ensures
        carrying_below(variants, k).len() <= k,
        forall|j: int|
            0 <= j < carrying_below(variants, k).len() ==> (#[trigger] carrying_below(
                variants,
                k,
            )[j]) < k && !variants[carrying_below(variants, k)[j] as int].is_unit(),
        forall|i: int, j: int|
            0 <= i < j < carrying_below(variants, k).len() ==> (#[trigger] carrying_below(
                variants,
                k,
            )[i]) < (#[trigger] carrying_below(variants, k)[j]),
        forall|i: int|
            0 <= i < k && !(#[trigger] variants[i]).is_unit() ==> carrying_below(
                variants,
                k,
            ).contains(i as usize),
        carrying_below(variants, k).len() == 0 <==> forall|i: int|
            0 <= i < k ==> (#[trigger] variants[i]).is_unit(),
        carrying_below(variants, k).len() < k <==> exists|i: int|
            0 <= i < k && (#[trigger] variants[i]).is_unit(),
    decreases k,
{
    if k > 0 {
        let prev = carrying_below(variants, (k - 1) as nat);
        carrying_below_is_the_carrying_variants(variants, (k - 1) as nat);
        let cur = carrying_below(variants, k);
        if !variants[k - 1].is_unit() {
            assert(cur[cur.len() - 1] == (k - 1) as usize);
            assert forall|i: int|
                0 <= i < k && !(#[trigger] variants[i]).is_unit() implies cur.contains(
                i as usize,
            ) by {
                if i < k - 1 {
                    let j = choose|j: int| 0 <= j < prev.len() && prev[j] == i as usize;
                    assert(cur[j] == i as usize);
                } else {
                    assert(cur[cur.len() - 1] == i as usize);
                }
            }
            if prev.len() < k - 1 {
                let i = choose|i: int| 0 <= i < k - 1 && (#[trigger] variants[i]).is_unit();
                assert(variants[i].is_unit());
            }
        } else {
            assert(variants[k - 1].is_unit());
        }
    }
}

/// What the hash function of one node type does.
#[derive(Clone, Debug, PartialEq, Eq)]
pub enum HashContribution {
    /// Absorb these fields, given by index, one after the other. With no
    /// field to absorb the function does nothing.
    Product { fields: Vec<usize> },
    /// Absorb the discriminant; then, for the variants listed, absorb the
    /// payload. `fallback` says that some other variant exists, which adds
    /// nothing after its discriminant.
    Sum { payloads: Vec<usize>, fallback: bool },
}

impl HashContribution {
    /// Whether this is the hash function of `def`.
    pub open spec fn is_plan_of(&self, def: TypeDef) -> bool {
        match def {
            TypeDef::Struct(s) => self matches HashContribution::Product { fields } && fields@
                == hashed_below(s.fields@, s.fields@.len()),
            TypeDef::Enum(e) => self matches HashContribution::Sum { payloads, fallback }
                && payloads@ == carrying_below(e.variants@, e.variants@.len()) && fallback == (
            !e.is_unit() && e.has_unit_variant()),
        }
    }

    /// Whether the function touches the hasher at all.
    pub open spec fn uses_hasher(&self) -> bool {
        match self {
            HashContribution::Product { fields } => fields@.len() > 0,
            HashContribution::Sum { .. } => true,
        }
    }

    /// The name that the hasher parameter gets: `_` where the function
    /// never touches it.
    pub fn hasher_name(&self) -> (name: &'static str)
        ensures
            name@ == (if self.uses_hasher() {
                "state"@
            } else {
                "_"@
            }),
    {
        match self {
            HashContribution::Product { fields } => if fields.len() == 0 {
                "_"
            } else {
                "state"
            },
            HashContribution::Sum { .. } => "state",
        }
    }
}

/// Whether a field name and type are an ignored pair.
pub fn is_ignored(name: &String, ty: &String) -> (r: bool)
    ensures
        r == ignored_pair(name@, ty@),
{
    (text_is(ty, "Span") && (text_is(name, "span") || text_is(name, "trailing_comma") || text_is(
        name,
        "this_span",
    ))) || (text_is(name, "scope_id") && text_is(ty, "ScopeId")) || (text_is(name, "symbol_id")
        && text_is(ty, "SymbolId")) || (text_is(name, "reference_id") && text_is(
        ty,
        "ReferenceId",
    ))
}

/// Whether a field takes part in hashing.
pub fn is_hashed(f: &FieldDef) -> (r: bool)
    ensures
        r == hashed(*f),
{
    match &f.name {
        Some(name) => !is_ignored(name, &f.ty),
        None => false,
    }
}

/// The name of the trait that the derived functions implement.
pub fn trait_name() -> (name: &'static str)
    ensures
        name@ == "ContentHash"@,
{
    "ContentHash"
}

/// The hash function of a product type: its hashed fields in declaration
/// order. Where no field is left the function does nothing, but it is
/// there.
pub fn derive_struct(def: &StructDef) -> (plan: HashContribution)
    ensures
        plan.is_plan_of(TypeDef::Struct(*def)),
{
    let mut fields: Vec<usize> = Vec::new();
    let mut i: usize = 0;
    while i < def.fields.len()
        invariant
            i <= def.fields@.len(),
            fields@ == hashed_below(def.fields@, i as nat),
        decreases def.fields@.len() - i,
    {
        if is_hashed(&def.fields[i]) {
            fields.push(i);
        }
        i += 1;
    }
    HashContribution::Product { fields }
}

/// The hash function of a sum type: the discriminant, then the payload of
/// the variant at hand if it has one. A sum type with a variant that
/// carries more than one payload is refused.
pub fn derive_enum(def: &EnumDef) -> (r: Result<HashContribution, ShapeError>)
    ensures
        match r {
            Ok(plan) => def.single_payloads() && plan.is_plan_of(TypeDef::Enum(*def)),
            Err(e) => !def.single_payloads() && e == ShapeError::ManyPayloads,
        },
{
    let mut payloads: Vec<usize> = Vec::new();
    let mut i: usize = 0;
    while i < def.variants.len()
        invariant
            i <= def.variants@.len(),
            payloads@ == carrying_below(def.variants@, i as nat),
            forall|j: int| 0 <= j < i ==> (#[trigger] def.variants@[j]).payload@.len() <= 1,
        decreases def.variants@.len() - i,
    {
        let carried = def.variants[i].payload.len();
        if carried > 1 {
            return Err(ShapeError::ManyPayloads);
        }
        if carried == 1 {
            payloads.push(i);
        }
        i += 1;
    }
    proof {
        carrying_below_is_the_carrying_variants(def.variants@, def.variants@.len());
    }
    let fallback = payloads.len() > 0 && payloads.len() < def.variants.len();
    Ok(HashContribution::Sum { payloads, fallback })
}

/// The hash function of a node type. Every product type has one, and every
/// sum type whose variants carry at most one payload each.
pub fn derive(def: &TypeDef) -> (r: Result<HashContribution, ShapeError>)
    ensures
        match r {
            Ok(plan) => def.classifiable() && plan.is_plan_of(*def),
            Err(e) => !def.classifiable() && e == ShapeError::ManyPayloads,
        },
{
    match def {
        TypeDef::Struct(it) => Ok(derive_struct(it)),
        TypeDef::Enum(it) => derive_enum(it),
    }
}

} // verus!
