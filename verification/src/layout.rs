//! Layout normalisation: every node type gets a memory layout that depends
//! on its shape alone.

use vstd::prelude::*;

use crate::schema::{EnumDef, Item, ShapeError, TypeDef};

verus! {

/// The layout given to a node type.
#[derive(Clone, Copy, Debug, PartialEq, Eq, Structural)]
pub enum LayoutDirective {
    /// Fields in declaration order, as C lays out a struct.
    SequentialC,
    /// A one-byte discriminant followed by a C union of the payloads.
    TaggedUnionC,
    /// A single byte that holds the discriminant.
    BareDiscriminant,
}

/// A definition together with the layout it was given.
#[derive(Clone, Debug, PartialEq, Eq)]
pub struct Normalized {
    pub layout: LayoutDirective,
    pub definition: TypeDef,
}

/// The layout of a sum type: a tagged union as soon as one variant carries
/// a payload, a bare discriminant otherwise.
pub open spec fn enum_layout(e: EnumDef) -> LayoutDirective {
    if e.is_unit() {
        LayoutDirective::BareDiscriminant
    } else {
        LayoutDirective::TaggedUnionC
    }
}

/// The layout of a definition.
pub open spec fn layout_of(def: TypeDef) -> LayoutDirective {
    match def {
        TypeDef::Struct(_) => LayoutDirective::SequentialC,
        TypeDef::Enum(e) => enum_layout(e),
    }
}

impl LayoutDirective {
    /// The attribute that asks the compiler for this layout.
    pub open spec fn attribute_text(self) -> Seq<char> {
        match self {
            LayoutDirective::SequentialC => "#[repr(C)]"@,
            LayoutDirective::TaggedUnionC => "#[repr(C, u8)]"@,
            LayoutDirective::BareDiscriminant => "#[repr(u8)]"@,
        }
    }

    /// The attribute that asks the compiler for this layout.
    pub fn attribute(&self) -> (text: &'static str)
        ensures
            text@ == self.attribute_text(),
    {
        match self {
            LayoutDirective::SequentialC => "#[repr(C)]",
            LayoutDirective::TaggedUnionC => "#[repr(C, u8)]",
            LayoutDirective::BareDiscriminant => "#[repr(u8)]",
        }
    }
}

/// Layout of a sum type.
pub fn enum_repr(e: &EnumDef) -> (layout: LayoutDirective)
    ensures
        layout == enum_layout(*e),
        layout == LayoutDirective::TaggedUnionC <==> exists|i: int|
            0 <= i < e.variants@.len() && (#[trigger] e.variants@[i]).payload@.len() > 0,
{
    let mut i: usize = 0;
    while i < e.variants.len()
        invariant
            i <= e.variants@.len(),
            forall|j: int| 0 <= j < i ==> (#[trigger] e.variants@[j]).is_unit(),
        decreases e.variants@.len() - i,
    {
        if !e.variants[i].is_unit() {
            return LayoutDirective::TaggedUnionC;
        }
        i += 1;
    }
    LayoutDirective::BareDiscriminant
}

/// Layout of a definition. Only the shape is looked at: product or sum, and
/// for a sum whether any variant carries a payload.
pub fn normalize(def: &TypeDef) -> (layout: LayoutDirective)
    ensures
        layout == layout_of(*def),
{
    match def {
        TypeDef::Struct(_) => LayoutDirective::SequentialC,
        TypeDef::Enum(e) => enum_repr(e),
    }
}

/// Give a declaration its layout. The definition comes back as it went in,
/// markers included. A declaration that is no node type is refused.
pub fn ast(input: Item) -> (r: Result<Normalized, ShapeError>)
    ensures
        match input {
            Item::Type(def) => r == Ok::<Normalized, ShapeError>(
                Normalized { layout: layout_of(def), definition: def },
            ),
            Item::Other => r == Err::<Normalized, ShapeError>(ShapeError::NotATypeDefinition),
        },
{
    match input {
        Item::Type(def) => {
            let layout = normalize(&def);
            Ok(Normalized { layout, definition: def })
        },
        Item::Other => Err(ShapeError::NotATypeDefinition),
    }
}

/// What the marker derive adds to a node type: nothing. It is there so that
/// the capability tags may stand on the type.
pub fn ast_derive(_item: &Item) -> (text: String)
    ensures
        text@ == Seq::<char>::empty(),
{
    String::new()
}

/// Layout does not look past the shape: two sum types whose variants agree,
/// one by one, on whether they carry a payload get the same layout, and so
/// do any two product types.
pub proof fn layout_depends_on_shape_only(a: TypeDef, b: TypeDef)
    requires
        a is Struct <==> b is Struct,
        a is Enum ==> a->Enum_0.variants@.len() == b->Enum_0.variants@.len(),
        a is Enum ==> forall|i: int|
            0 <= i < a->Enum_0.variants@.len() ==> (#[trigger] a->Enum_0.variants@[i]).is_unit()
                == (#[trigger] b->Enum_0.variants@[i]).is_unit(),
    ensures
        layout_of(a) == layout_of(b),
{
    if a is Enum {
        let x = a->Enum_0;
        let y = b->Enum_0;
        if x.is_unit() {
            assert forall|i: int| 0 <= i < y.variants@.len() implies (#[trigger] y.variants@[i]).is_unit() by {
                assert(x.variants@[i].is_unit());
            }
        } else {
            let i = choose|i: int| 0 <= i < x.variants@.len() && !(#[trigger] x.variants@[i]).is_unit();
            assert(!y.variants@[i].is_unit());
        }
    }
}

} // verus!
