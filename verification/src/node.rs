//! Tree nodes as values, and what hashing a node feeds to the hasher.

use vstd::prelude::*;

use crate::content_hash::{hashed, hashed_below};
use crate::schema::{FieldDef, TypeDef};

verus! {

/// A tree node. A node of a product or sum type names its type by its
/// place in the table of definitions.
#[derive(Debug, PartialEq, Eq)]
pub enum Node {
    /// A value of a type that is hashed as a whole: its bytes.
    Leaf(Vec<u8>),
    /// A node of a product type: one node for each field, in declaration
    /// order.
    Struct { ty: usize, fields: Vec<Node> },
    /// A node of a sum type: the variant it holds, with its payload if the
    /// variant carries one.
    Enum { ty: usize, variant: usize, payload: Option<Box<Node>> },
}

/// One thing handed to the hasher.
#[derive(Clone, Debug, PartialEq, Eq)]
pub enum Absorbed {
    /// The tag that says which variant a sum-type node holds.
    Discriminant(usize),
    /// The bytes of a leaf.
    Bytes(Vec<u8>),
}

/// One thing handed to the hasher, as a mathematical value.
pub enum Atom {
    Discriminant(nat),
    Bytes(Seq<u8>),
}

impl View for Absorbed {
    type V = Atom;

    open spec fn view(&self) -> Atom {
        match self {
            Absorbed::Discriminant(d) => Atom::Discriminant(*d as nat),
            Absorbed::Bytes(b) => Atom::Bytes(b@),
        }
    }
}

/// The atoms that a sequence of absorbed things stands for.
pub open spec fn atoms(absorbed: Seq<Absorbed>) -> Seq<Atom> {
    absorbed.map_values(|a: Absorbed| a@)
}

/// The fields of the product type at `ty`; none where there is no such
/// type.
pub open spec fn struct_fields(defs: Seq<TypeDef>, ty: usize) -> Seq<FieldDef> {
    if ty < defs.len() && defs[ty as int] is Struct {
        defs[ty as int]->Struct_0.fields@
    } else {
        Seq::empty()
    }
}

/// Whether a node fits the definitions: it names a type of its own kind,
/// has a node for each field or holds an existing variant, carries a
/// payload exactly where the variant does, and so on downwards.
pub open spec fn admits(defs: Seq<TypeDef>, n: Node) -> bool
    decreases n,
{
    match n {
        Node::Leaf(_) => true,
        Node::Struct { ty, fields } => {
            &&& ty < defs.len()
            &&& defs[ty as int] is Struct
            &&& fields@.len() == struct_fields(defs, ty).len()
            &&& admits_all(defs, fields@, fields@.len())
        },
        Node::Enum { ty, variant, payload } => {
            &&& ty < defs.len()
            &&& defs[ty as int] is Enum
            &&& variant < defs[ty as int]->Enum_0.variants@.len()
            &&& payload is Some <==> !defs[ty as int]->Enum_0.variants@[variant as int].is_unit()
            &&& match payload {
                Some(p) => admits(defs, *p),
                None => true,
            }
        },
    }
}

/// Whether the first `k` of `nodes` fit the definitions.
pub open spec fn admits_all(defs: Seq<TypeDef>, nodes: Seq<Node>, k: nat) -> bool
    decreases nodes, k,
{
    if k == 0 {
        true
    } else if k > nodes.len() {
        false
    } else {
        admits_all(defs, nodes, (k - 1) as nat) && admits(defs, nodes[k - 1])
    }
}

/// The first `k` nodes fit the definitions exactly when each of them does.
pub proof fn admits_all_is_each(defs: Seq<TypeDef>, nodes: Seq<Node>, k: nat)
    ensures
        admits_all(defs, nodes, k) <==> k <= nodes.len() && forall|i: int|
            0 <= i < k ==> admits(defs, #[trigger] nodes[i]),
    decreases k,
{
    if 0 < k <= nodes.len() {
        admits_all_is_each(defs, nodes, (k - 1) as nat);
    } else if k > nodes.len() {
        assert(!admits_all(defs, nodes, k));
    }
}

/// What hashing a node hands to the hasher, in order.
///
/// A leaf hands over its bytes. A product node hands over what its hashed
/// fields do, in declaration order, and passes the others by. A sum node
/// hands over its discriminant, then what its payload does.
pub open spec fn transcript(defs: Seq<TypeDef>, n: Node) -> Seq<Atom>
    decreases n,
{
    match n {
        Node::Leaf(bytes) => seq![Atom::Bytes(bytes@)],
        Node::Struct { ty, fields } => fields_transcript(
            defs,
            struct_fields(defs, ty),
            fields@,
            fields@.len(),
        ),
        Node::Enum { ty, variant, payload } => seq![Atom::Discriminant(variant as nat)] + (
        match payload {
            Some(p) => transcript(defs, *p),
            None => Seq::empty(),
        }),
    }
}

/// What the first `k` fields of a product node hand to the hasher.
pub open spec fn fields_transcript(
    defs: Seq<TypeDef>,
    fields: Seq<FieldDef>,
    nodes: Seq<Node>,
    k: nat,
) -> Seq<Atom>
    decreases nodes, k,
{
    if k == 0 || k > nodes.len() {
        Seq::empty()
    } else {
        fields_transcript(defs, fields, nodes, (k - 1) as nat) + field_transcript(
            defs,
            fields,
            nodes,
            k - 1,
        )
    }
}

/// What field `i` of a product node hands to the hasher: nothing, where the
/// field is not hashed.
pub open spec fn field_transcript(
    defs: Seq<TypeDef>,
    fields: Seq<FieldDef>,
    nodes: Seq<Node>,
    i: int,
) -> Seq<Atom>
    decreases nodes, 0nat,
{
    if 0 <= i < nodes.len() && i < fields.len() && hashed(fields[i]) {
        transcript(defs, nodes[i])
    } else {
        Seq::empty()
    }
}

/// What a product node hands to the hasher when the fields listed are
/// hashed one after the other: the first `j` entries of the list.
pub open spec fn listed_transcript(
    defs: Seq<TypeDef>,
    listed: Seq<usize>,
    nodes: Seq<Node>,
    j: nat,
) -> Seq<Atom>
    decreases j,
{
    if j == 0 || j > listed.len() {
        Seq::empty()
    } else {
        listed_transcript(defs, listed, nodes, (j - 1) as nat) + (if listed[j - 1] < nodes.len() {
            transcript(defs, nodes[listed[j - 1] as int])
        } else {
            Seq::empty()
        })
    }
}

/// Only the first `j` entries of the list matter to what they hand over.
pub proof fn listed_transcript_of_prefix(
    defs: Seq<TypeDef>,
    a: Seq<usize>,
    b: Seq<usize>,
    nodes: Seq<Node>,
    j: nat,
)
    requires
        j <= a.len(),
        j <= b.len(),
        forall|i: int| 0 <= i < j ==> a[i] == b[i],
    ensures
        listed_transcript(defs, a, nodes, j) == listed_transcript(defs, b, nodes, j),
    decreases j,
{
    if j > 0 {
        listed_transcript_of_prefix(defs, a, b, nodes, (j - 1) as nat);
    }
}

/// Hashing the listed fields of a product type one after the other hands
/// over what the node's transcript says, where the list is that of the
/// hashed fields.
pub proof fn hashed_list_gives_fields_transcript(
    defs: Seq<TypeDef>,
    fields: Seq<FieldDef>,
    nodes: Seq<Node>,
    k: nat,
)
    requires
        k <= fields.len(),
        k <= nodes.len(),
        fields.len() <= usize::MAX,
    ensures
        listed_transcript(
            defs,
            hashed_below(fields, k),
            nodes,
            hashed_below(fields, k).len(),
        ) == fields_transcript(defs, fields, nodes, k),
    decreases k,
{
    if k > 0 {
        let prev = hashed_below(fields, (k - 1) as nat);
        let cur = hashed_below(fields, k);
        hashed_list_gives_fields_transcript(defs, fields, nodes, (k - 1) as nat);
        crate::content_hash::hashed_below_is_the_hashed_fields(fields, (k - 1) as nat);
        if hashed(fields[k - 1]) {
            assert(cur == prev.push((k - 1) as usize));
            assert(cur[cur.len() - 1] == (k - 1) as usize);
            listed_transcript_of_prefix(defs, cur, prev, nodes, prev.len());
            assert(field_transcript(defs, fields, nodes, k - 1) == transcript(defs, nodes[k - 1]));
        } else {
            assert(field_transcript(defs, fields, nodes, k - 1) =~= Seq::<Atom>::empty());
            assert(fields_transcript(defs, fields, nodes, k) =~= fields_transcript(
                defs,
                fields,
                nodes,
                (k - 1) as nat,
            ));
        }
    }
}

} // verus!
