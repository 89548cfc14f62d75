//! Descriptions of tree-node types: what a declaration looks like once its
//! text has been read, as far as layout and hashing care.

use vstd::prelude::*;

verus! {

/// A capability tag on a node type. The tags are carried along for other
/// tools; nothing here looks at what they mean.
#[derive(Clone, Copy, Debug, PartialEq, Eq, Structural)]
pub enum Marker {
    Scope,
    Visit,
    Span,
    Serde,
    Tsify,
    GenerateDerive,
}

/// One field of a product type: its name, if it has one, and the name of
/// its type.
#[derive(Clone, Debug, PartialEq, Eq)]
pub struct FieldDef {
    pub name: Option<String>,
    pub ty: String,
}

/// One variant of a sum type, with the names of the types it carries. A
/// variant that carries nothing is payload-free.
#[derive(Clone, Debug, PartialEq, Eq)]
pub struct VariantDef {
    pub name: String,
    pub payload: Vec<String>,
}

/// A product type: named fields in declaration order.
#[derive(Clone, Debug, PartialEq, Eq)]
pub struct StructDef {
    pub name: String,
    pub generics: Vec<String>,
    pub fields: Vec<FieldDef>,
    pub markers: Vec<Marker>,
}

/// A sum type: variants in declaration order.
#[derive(Clone, Debug, PartialEq, Eq)]
pub struct EnumDef {
    pub name: String,
    pub generics: Vec<String>,
    pub variants: Vec<VariantDef>,
    pub markers: Vec<Marker>,
}

/// The definition of a tree-node type.
#[derive(Clone, Debug, PartialEq, Eq)]
pub enum TypeDef {
    Struct(StructDef),
    Enum(EnumDef),
}

/// A declaration as it was read: a node type, or anything else.
#[derive(Clone, Debug, PartialEq, Eq)]
pub enum Item {
    Type(TypeDef),
    Other,
}

/// Why a declaration cannot be given a layout or a hash.
#[derive(Clone, Copy, Debug, PartialEq, Eq, Structural)]
pub enum ShapeError {
    /// The declaration is neither a product nor a sum type.
    NotATypeDefinition,
    /// A variant of a sum type carries more than one payload.
    ManyPayloads,
    /// The type has generic or lifetime parameters.
    GenericParameters,
}

impl VariantDef {
    /// The variant carries nothing.
    pub open spec fn spec_is_unit(&self) -> bool {
        self.payload@.len() == 0
    }

    /// The variant carries nothing.
    #[verifier::when_used_as_spec(spec_is_unit)]
    pub fn is_unit(&self) -> (r: bool)
        ensures
            r == self.spec_is_unit(),
    {
        self.payload.len() == 0
    }
}

impl EnumDef {
    /// No variant carries anything.
    pub open spec fn spec_is_unit(&self) -> bool {
        forall|i: int| 0 <= i < self.variants@.len() ==> (#[trigger] self.variants@[i]).is_unit()
    }

    /// Some variant carries nothing.
    pub open spec fn has_unit_variant(&self) -> bool {
        exists|i: int| 0 <= i < self.variants@.len() && (#[trigger] self.variants@[i]).is_unit()
    }

    /// Every variant carries at most one payload.
    pub open spec fn single_payloads(&self) -> bool {
        forall|i: int|
            0 <= i < self.variants@.len() ==> (#[trigger] self.variants@[i]).payload@.len() <= 1
    }

    /// No variant carries anything.
    #[verifier::when_used_as_spec(spec_is_unit)]
    pub fn is_unit(&self) -> (r: bool)
        ensures
            r == self.spec_is_unit(),
    {
        let mut i: usize = 0;
        while i < self.variants.len()
            invariant
                i <= self.variants@.len(),
                forall|j: int| 0 <= j < i ==> (#[trigger] self.variants@[j]).is_unit(),
            decreases self.variants@.len() - i,
        {
            if !self.variants[i].is_unit() {
                return false;
            }
            i += 1;
        }
        true
    }
}

impl TypeDef {
    /// The definition has a shape that can be hashed: a product, or a sum
    /// whose variants carry at most one payload each.
    pub open spec fn classifiable(&self) -> bool {
        match self {
            TypeDef::Struct(_) => true,
            TypeDef::Enum(e) => e.single_payloads(),
        }
    }
}

} // verus!
