//! What holds of content hashing, whatever the node types and the nodes.

use vstd::prelude::*;

use crate::content_hash::{hashed, hashed_below, hashed_below_is_the_hashed_fields, ignored_pair};
use crate::node::{
    field_transcript, fields_transcript, struct_fields, transcript, Atom, Node,
};
use crate::schema::{FieldDef, TypeDef};

verus! {

/// What the fields from `lo` up to `k` of a product node hand to the
/// hasher.
pub open spec fn fields_transcript_from(
    defs: Seq<TypeDef>,
    fields: Seq<FieldDef>,
    nodes: Seq<Node>,
    lo: nat,
    k: nat,
) -> Seq<Atom>
    decreases k,
{
    if k <= lo || k > nodes.len() {
        Seq::empty()
    } else {
        fields_transcript_from(defs, fields, nodes, lo, (k - 1) as nat) + field_transcript(
            defs,
            fields,
            nodes,
            k - 1,
        )
    }
}

/// The first `k` fields hand over what the first `lo` do, then what the
/// fields from `lo` up to `k` do.
pub proof fn fields_transcript_splits(
    defs: Seq<TypeDef>,
    fields: Seq<FieldDef>,
    nodes: Seq<Node>,
    lo: nat,
    k: nat,
)
    requires
        lo <= k <= nodes.len(),
    ensures
        fields_transcript(defs, fields, nodes, k) == fields_transcript(defs, fields, nodes, lo)
            + fields_transcript_from(defs, fields, nodes, lo, k),
    decreases k,
{
    if k > lo {
        fields_transcript_splits(defs, fields, nodes, lo, (k - 1) as nat);
        assert(fields_transcript(defs, fields, nodes, k) =~= fields_transcript(
            defs,
            fields,
            nodes,
            lo,
        ) + fields_transcript_from(defs, fields, nodes, lo, k));
    } else {
        assert(fields_transcript(defs, fields, nodes, k) =~= fields_transcript(
            defs,
            fields,
            nodes,
            lo,
        ) + fields_transcript_from(defs, fields, nodes, lo, k));
    }
}

/// Two rows of field nodes hand over the same from `lo` up to `k` where,
/// field by field, the hashed ones do.
pub proof fn fields_transcript_from_agrees(
    defs: Seq<TypeDef>,
    fields: Seq<FieldDef>,
    a: Seq<Node>,
    b: Seq<Node>,
    lo: nat,
    k: nat,
)
    requires
        a.len() == b.len(),
        k <= a.len(),
        forall|i: int|
            lo <= i < k && i < fields.len() && hashed(fields[i]) ==> transcript(defs, a[i])
                == transcript(defs, b[i]),
    ensures
        fields_transcript_from(defs, fields, a, lo, k) == fields_transcript_from(
            defs,
            fields,
            b,
            lo,
            k,
        ),
    decreases k,
{
    if k > lo {
        fields_transcript_from_agrees(defs, fields, a, b, lo, (k - 1) as nat);
    }
}

/// In a row of three, the middle part decides: with the same first and last
/// parts, two rows are equal exactly when their middle parts are.
pub proof fn middle_decides(p: Seq<Atom>, x: Seq<Atom>, y: Seq<Atom>, s: Seq<Atom>)
    ensures
        p + x + s == p + y + s <==> x == y,
{
    if p + x + s == p + y + s {
        assert((p + x + s).len() == (p + y + s).len());
        assert(x.len() == y.len());
        assert forall|i: int| 0 <= i < x.len() implies x[i] == y[i] by {
            assert((p + x + s)[p.len() + i] == x[i]);
            assert((p + y + s)[p.len() + i] == y[i]);
        }
        assert(x =~= y);
    }
}

/// Invariance, in general: two nodes of one product type hand the same to
/// the hasher where, field by field, their hashed fields do.
pub proof fn hashed_fields_decide(defs: Seq<TypeDef>, a: Node, b: Node)
    requires
        a is Struct,
        b is Struct,
        a->Struct_ty == b->Struct_ty,
        a->Struct_fields@.len() == b->Struct_fields@.len(),
        forall|i: int|
            0 <= i < a->Struct_fields@.len() && i < struct_fields(defs, a->Struct_ty).len()
                && hashed(struct_fields(defs, a->Struct_ty)[i]) ==> transcript(
                defs,
                a->Struct_fields@[i],
            ) == transcript(defs, b->Struct_fields@[i]),
    ensures
        transcript(defs, a) == transcript(defs, b),
{
    let fields = struct_fields(defs, a->Struct_ty);
    let fa = a->Struct_fields@;
    let fb = b->Struct_fields@;
    fields_transcript_splits(defs, fields, fa, 0, fa.len());
    fields_transcript_splits(defs, fields, fb, 0, fb.len());
    fields_transcript_from_agrees(defs, fields, fa, fb, 0, fa.len());
}

/// Invariance: two nodes of one product type that are the same in every
/// field but those of the ignored pairs hand the same to the hasher.
pub proof fn identity_fields_do_not_count(defs: Seq<TypeDef>, a: Node, b: Node)
    requires
        a is Struct,
        b is Struct,
        a->Struct_ty == b->Struct_ty,
        a->Struct_fields@.len() == b->Struct_fields@.len(),
        a->Struct_fields@.len() == struct_fields(defs, a->Struct_ty).len(),
        forall|i: int|
            0 <= i < a->Struct_fields@.len() ==> a->Struct_fields@[i] == b->Struct_fields@[i] || (
            struct_fields(defs, a->Struct_ty)[i].name matches Some(n) && ignored_pair(
                n@,
                struct_fields(defs, a->Struct_ty)[i].ty@,
            )),
    ensures
        transcript(defs, a) == transcript(defs, b),
{
    hashed_fields_decide(defs, a, b);
}

/// Whether two nodes say the same: leaves with the same bytes, or nodes of
/// one type that hold the same variant and say the same in the payload, or
/// say the same in every hashed field. What the fields left out of hashing
/// hold does not matter, at any depth.
pub open spec fn same_content(defs: Seq<TypeDef>, a: Node, b: Node) -> bool
    decreases a,
{
    match a {
        Node::Leaf(x) => b is Leaf && b->Leaf_0@ == x@,
        Node::Struct { ty, fields } => b is Struct && b->Struct_ty == ty && b->Struct_fields@.len()
            == fields@.len() && same_content_below(
            defs,
            struct_fields(defs, ty),
            fields@,
            b->Struct_fields@,
            fields@.len(),
        ),
        Node::Enum { ty, variant, payload } => b is Enum && b->Enum_ty == ty && b->variant
            == variant && match payload {
            Some(p) => b->payload is Some && same_content(defs, *p, *b->payload->Some_0),
            None => b->payload is None,
        },
    }
}

/// Whether two rows of field nodes say the same in the hashed ones among
/// the first `k`.
pub open spec fn same_content_below(
    defs: Seq<TypeDef>,
    fields: Seq<FieldDef>,
    a: Seq<Node>,
    b: Seq<Node>,
    k: nat,
) -> bool
    decreases a, k,
{
    if k == 0 {
        true
    } else if k > a.len() || k > b.len() {
        false
    } else {
        same_content_below(defs, fields, a, b, (k - 1) as nat) && (k - 1 < fields.len() && hashed(
            fields[k - 1],
        ) ==> same_content(defs, a[k - 1], b[k - 1]))
    }
}

/// Invariance, at any depth: two nodes that say the same hand the same to
/// the hasher.
pub proof fn same_content_same_transcript(defs: Seq<TypeDef>, a: Node, b: Node)
    requires
        same_content(defs, a, b),
    ensures
        transcript(defs, a) == transcript(defs, b),
    decreases a,
{
    match a {
        Node::Leaf(_) => {},
        Node::Struct { ty, fields } => {
            same_content_below_same_transcript(
                defs,
                struct_fields(defs, ty),
                fields@,
                b->Struct_fields@,
                fields@.len(),
            );
        },
        Node::Enum { ty, variant, payload } => {
            match payload {
                Some(p) => {
                    same_content_same_transcript(defs, *p, *b->payload->Some_0);
                },
                None => {},
            }
        },
    }
}

proof fn same_content_below_same_transcript(
    defs: Seq<TypeDef>,
    fields: Seq<FieldDef>,
    a: Seq<Node>,
    b: Seq<Node>,
    k: nat,
)
    requires
        a.len() == b.len(),
        same_content_below(defs, fields, a, b, k),
    ensures
        fields_transcript(defs, fields, a, k) == fields_transcript(defs, fields, b, k),
    decreases a, k,
{
    if k > 0 {
        same_content_below_same_transcript(defs, fields, a, b, (k - 1) as nat);
        if k - 1 < fields.len() && hashed(fields[k - 1]) {
            same_content_same_transcript(defs, a[k - 1], b[k - 1]);
        }
        assert(field_transcript(defs, fields, a, k - 1) == field_transcript(
            defs,
            fields,
            b,
            k - 1,
        ));
    }
}

/// Sensitivity: where two nodes of one product type differ in one hashed
/// field alone, they hand the same to the hasher exactly when that field
/// does.
pub proof fn a_hashed_field_counts(defs: Seq<TypeDef>, a: Node, b: Node, i: int)
    requires
        a is Struct,
        b is Struct,
        a->Struct_ty == b->Struct_ty,
        a->Struct_fields@.len() == b->Struct_fields@.len(),
        0 <= i < a->Struct_fields@.len(),
        i < struct_fields(defs, a->Struct_ty).len(),
        hashed(struct_fields(defs, a->Struct_ty)[i]),
        forall|j: int|
            0 <= j < a->Struct_fields@.len() && j != i ==> a->Struct_fields@[j]
                == b->Struct_fields@[j],
    ensures
        transcript(defs, a) == transcript(defs, b) <==> transcript(defs, a->Struct_fields@[i])
            == transcript(defs, b->Struct_fields@[i]),
{
    let fields = struct_fields(defs, a->Struct_ty);
    let fa = a->Struct_fields@;
    let fb = b->Struct_fields@;
    let n = fa.len();
    fields_transcript_splits(defs, fields, fa, (i + 1) as nat, n);
    fields_transcript_splits(defs, fields, fb, (i + 1) as nat, n);
    fields_transcript_from_agrees(defs, fields, fa, fb, (i + 1) as nat, n);
    fields_transcript_splits(defs, fields, fa, 0, i as nat);
    fields_transcript_splits(defs, fields, fb, 0, i as nat);
    fields_transcript_from_agrees(defs, fields, fa, fb, 0, i as nat);
    let p = fields_transcript(defs, fields, fa, i as nat);
    let s = fields_transcript_from(defs, fields, fa, (i + 1) as nat, n);
    let x = transcript(defs, fa[i]);
    let y = transcript(defs, fb[i]);
    assert(fields_transcript(defs, fields, fb, i as nat) == p);
    assert(field_transcript(defs, fields, fa, i) == x);
    assert(field_transcript(defs, fields, fb, i) == y);
    assert(fields_transcript(defs, fields, fa, (i + 1) as nat) == p + x);
    assert(fields_transcript(defs, fields, fb, (i + 1) as nat) == p + y);
    assert(transcript(defs, a) == p + x + s);
    assert(transcript(defs, b) == p + y + s);
    middle_decides(p, x, y, s);
}

/// Sensitivity, for leaves: a hashed field that holds other bytes makes the
/// node hand something else to the hasher.
pub proof fn a_hashed_leaf_counts(defs: Seq<TypeDef>, a: Node, b: Node, i: int)
    requires
        a is Struct,
        b is Struct,
        a->Struct_ty == b->Struct_ty,
        a->Struct_fields@.len() == b->Struct_fields@.len(),
        0 <= i < a->Struct_fields@.len(),
        i < struct_fields(defs, a->Struct_ty).len(),
        hashed(struct_fields(defs, a->Struct_ty)[i]),
        forall|j: int|
            0 <= j < a->Struct_fields@.len() && j != i ==> a->Struct_fields@[j]
                == b->Struct_fields@[j],
        a->Struct_fields@[i] is Leaf,
        b->Struct_fields@[i] is Leaf,
        a->Struct_fields@[i]->Leaf_0@ != b->Struct_fields@[i]->Leaf_0@,
    ensures
        transcript(defs, a) != transcript(defs, b),
{
    a_hashed_field_counts(defs, a, b, i);
    let x = transcript(defs, a->Struct_fields@[i]);
    let y = transcript(defs, b->Struct_fields@[i]);
    assert(x[0] == Atom::Bytes(a->Struct_fields@[i]->Leaf_0@));
    assert(y[0] == Atom::Bytes(b->Struct_fields@[i]->Leaf_0@));
}

/// Discriminant sensitivity: two nodes of a sum type that hold different
/// variants hand different things to the hasher, with or without payload;
/// two that hold the same variant hand over the same exactly when their
/// payloads do.
pub proof fn the_variant_counts(defs: Seq<TypeDef>, a: Node, b: Node)
    requires
        a is Enum,
        b is Enum,
    ensures
        a->variant != b->variant ==> transcript(defs, a) != transcript(defs, b),
        a->variant == b->variant && a->payload is None && b->payload is None ==> transcript(
            defs,
            a,
        ) == transcript(defs, b),
        a->variant == b->variant && a->payload is Some && b->payload is Some ==> (transcript(
            defs,
            a,
        ) == transcript(defs, b) <==> transcript(defs, *a->payload->Some_0) == transcript(
            defs,
            *b->payload->Some_0,
        )),
{
    let ta = transcript(defs, a);
    let tb = transcript(defs, b);
    assert(ta[0] == Atom::Discriminant(a->variant as nat));
    assert(tb[0] == Atom::Discriminant(b->variant as nat));
    if a->variant == b->variant && a->payload is Some && b->payload is Some {
        let d = seq![Atom::Discriminant(a->variant as nat)];
        let x = transcript(defs, *a->payload->Some_0);
        let y = transcript(defs, *b->payload->Some_0);
        assert(ta =~= d + x + Seq::<Atom>::empty());
        assert(tb =~= d + y + Seq::<Atom>::empty());
        middle_decides(d, x, y, Seq::<Atom>::empty());
    }
}

/// Discriminant sensitivity, for leaves: two nodes that hold the same
/// variant with leaves of different bytes hand different things to the
/// hasher.
pub proof fn a_leaf_payload_counts(defs: Seq<TypeDef>, a: Node, b: Node)
    requires
        a is Enum,
        b is Enum,
        a->payload matches Some(p) && *p is Leaf,
        b->payload matches Some(p) && *p is Leaf,
        (*a->payload->Some_0)->Leaf_0@ != (*b->payload->Some_0)->Leaf_0@,
    ensures
        transcript(defs, a) != transcript(defs, b),
{
    the_variant_counts(defs, a, b);
    let x = transcript(defs, *a->payload->Some_0);
    let y = transcript(defs, *b->payload->Some_0);
    assert(x[0] == Atom::Bytes((*a->payload->Some_0)->Leaf_0@));
    assert(y[0] == Atom::Bytes((*b->payload->Some_0)->Leaf_0@));
}

/// Totality: a product type whose fields are all left out still has its
/// hash function, which lists no field, and its nodes hand nothing to the
/// hasher.
pub proof fn nothing_hashed_hands_over_nothing(defs: Seq<TypeDef>, n: Node)
    requires
        n is Struct,
        n->Struct_fields@.len() == struct_fields(defs, n->Struct_ty).len(),
        struct_fields(defs, n->Struct_ty).len() <= usize::MAX,
        forall|i: int|
            0 <= i < struct_fields(defs, n->Struct_ty).len() ==> !hashed(
                #[trigger] struct_fields(defs, n->Struct_ty)[i],
            ),
    ensures
        hashed_below(
            struct_fields(defs, n->Struct_ty),
            struct_fields(defs, n->Struct_ty).len(),
        ).len() == 0,
        transcript(defs, n).len() == 0,
{
    let fields = struct_fields(defs, n->Struct_ty);
    hashed_below_is_the_hashed_fields(fields, fields.len());
    nothing_hashed_below(defs, fields, n->Struct_fields@, fields.len());
}

proof fn nothing_hashed_below(defs: Seq<TypeDef>, fields: Seq<FieldDef>, nodes: Seq<Node>, k: nat)
    requires
        k <= nodes.len(),
        forall|i: int| 0 <= i < k && i < fields.len() ==> !hashed(#[trigger] fields[i]),
    ensures
        fields_transcript(defs, fields, nodes, k).len() == 0,
    decreases k,
{
    if k > 0 {
        nothing_hashed_below(defs, fields, nodes, (k - 1) as nat);
        assert(field_transcript(defs, fields, nodes, k - 1).len() == 0);
    }
}

} // verus!
