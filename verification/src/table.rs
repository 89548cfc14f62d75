//! The table of hash functions: one for each node type, made once, and used
//! to hash nodes.

use vstd::prelude::*;

use crate::content_hash::{carrying_below_is_the_carrying_variants, HashContribution};
use crate::node::{
    admits, admits_all, admits_all_is_each, atoms, hashed_list_gives_fields_transcript,
    listed_transcript, transcript, Absorbed, Node,
};
use crate::schema::{ShapeError, TypeDef};

verus! {

/// The node types of a tree, each with its hash function.
pub struct HashTable {
    defs: Vec<TypeDef>,
    plans: Vec<HashContribution>,
}

impl HashTable {
    #[verifier::type_invariant]
    spec fn plans_are_derived(&self) -> bool {
        &&& self.plans@.len() == self.defs@.len()
        &&& forall|i: int|
            0 <= i < self.defs@.len() ==> (#[trigger] self.plans@[i]).is_plan_of(self.defs@[i])
    }

    /// The definitions that the table was made from.
    pub closed spec fn definitions(&self) -> Seq<TypeDef> {
        self.defs@
    }

    /// Make the table. Every definition gets its hash function, the ones
    /// with nothing to hash too; a definition that cannot be classified
    /// makes the whole table fail.
    pub fn build(defs: Vec<TypeDef>) -> (r: Result<HashTable, ShapeError>)
        ensures
            match r {
                Ok(table) => table.definitions() == defs@ && forall|i: int|
                    0 <= i < defs@.len() ==> (#[trigger] defs@[i]).classifiable(),
                Err(e) => e == ShapeError::ManyPayloads && exists|i: int|
                    0 <= i < defs@.len() && !(#[trigger] defs@[i]).classifiable(),
            },
    {
        let mut plans: Vec<HashContribution> = Vec::new();
        let mut i: usize = 0;
        while i < defs.len()
            invariant
                i <= defs@.len(),
                plans@.len() == i,
                forall|j: int| 0 <= j < i ==> (#[trigger] plans@[j]).is_plan_of(defs@[j]),
                forall|j: int| 0 <= j < i ==> (#[trigger] defs@[j]).classifiable(),
            decreases defs@.len() - i,
        {
            match crate::content_hash::derive(&defs[i]) {
                Ok(plan) => plans.push(plan),
                Err(e) => {
                    return Err(e);
                },
            }
            i += 1;
        }
        Ok(HashTable { defs, plans })
    }

    /// Whether a node fits the definitions of the table.
    #[verifier::loop_isolation(false)]
    pub fn conforms(&self, node: &Node) -> (r: bool)
        ensures
            r == admits(self.definitions(), *node),
        decreases node,
    {
        proof {
            use_type_invariant(self);
        }
        match node {
            Node::Leaf(_) => true,
            Node::Struct { ty, fields } => {
                if *ty >= self.defs.len() {
                    return false;
                }
                match &self.defs[*ty] {
                    TypeDef::Struct(def) => {
                        if fields.len() != def.fields.len() {
                            return false;
                        }
                        let mut i: usize = 0;
                        while i < fields.len()
                            invariant
                                i <= fields@.len(),
                                admits_all(self.definitions(), fields@, i as nat),
                            decreases fields@.len() - i,
                        {
                            assert(decreases_to!(node => fields@[i as int]));
                            if !self.conforms(&fields[i]) {
                                proof {
                                    admits_all_is_each(self.definitions(), fields@, fields@.len());
                                }
                                return false;
                            }
                            i += 1;
                        }
                        true
                    },
                    TypeDef::Enum(_) => false,
                }
            },
            Node::Enum { ty, variant, payload } => {
                if *ty >= self.defs.len() {
                    return false;
                }
                match &self.defs[*ty] {
                    TypeDef::Struct(_) => false,
                    TypeDef::Enum(def) => {
                        if *variant >= def.variants.len() {
                            return false;
                        }
                        match payload {
                            Some(p) => !def.variants[*variant].is_unit() && self.conforms(p),
                            None => def.variants[*variant].is_unit(),
                        }
                    },
                }
            },
        }
    }

    /// Hash a node: hand to `acc`, in order, what hashing the node hands to
    /// the hasher. Each node type is hashed as its entry in the table says.
    #[verifier::loop_isolation(false)]
    pub fn contribute(&self, node: &Node, acc: &mut Vec<Absorbed>)
        requires
            admits(self.definitions(), *node),
        ensures
            atoms(final(acc)@) == atoms(old(acc)@) + transcript(self.definitions(), *node),
        decreases node,
    {
        proof {
            use_type_invariant(self);
        }
        match node {
            Node::Leaf(bytes) => {
                acc.push(Absorbed::Bytes(bytes.clone()));
                assert(atoms(acc@) =~= atoms(old(acc)@) + transcript(self.definitions(), *node));
            },
            Node::Struct { ty, fields } => {
                match &self.plans[*ty] {
                    HashContribution::Product { fields: listed } => {
                        let ghost defs = self.definitions();
                        let ghost field_defs = defs[*ty as int]->Struct_0.fields@;
                        proof {
                            assert(field_defs.len() == defs[*ty as int]->Struct_0.fields.len());
                            admits_all_is_each(defs, fields@, fields@.len());
                            crate::content_hash::hashed_below_is_the_hashed_fields(
                                field_defs,
                                field_defs.len(),
                            );
                            hashed_list_gives_fields_transcript(
                                defs,
                                field_defs,
                                fields@,
                                field_defs.len(),
                            );
                        }
                        let mut j: usize = 0;
                        while j < listed.len()
                            invariant
                                j <= listed@.len(),
                                atoms(acc@) == atoms(old(acc)@) + listed_transcript(
                                    defs,
                                    listed@,
                                    fields@,
                                    j as nat,
                                ),
                            decreases listed@.len() - j,
                        {
                            let i = listed[j];
                            assert(decreases_to!(node => fields@[i as int]));
                            self.contribute(&fields[i], acc);
                            assert(atoms(acc@) =~= atoms(old(acc)@) + listed_transcript(
                                defs,
                                listed@,
                                fields@,
                                (j + 1) as nat,
                            ));
                            j += 1;
                        }
                    },
                    HashContribution::Sum { .. } => {},
                }
            },
            Node::Enum { ty, variant, payload } => {
                acc.push(Absorbed::Discriminant(*variant));
                assert(atoms(acc@) =~= atoms(old(acc)@) + seq![
                    crate::node::Atom::Discriminant(*variant as nat),
                ]);
                match &self.plans[*ty] {
                    HashContribution::Sum { payloads, .. } => {
                        let ghost variants = self.definitions()[*ty as int]->Enum_0.variants@;
                        proof {
                            assert(variants.len()
                                == self.definitions()[*ty as int]->Enum_0.variants.len());
                            carrying_below_is_the_carrying_variants(variants, variants.len());
                        }
                        if holds(payloads, *variant) {
                            match payload {
                                Some(p) => {
                                    self.contribute(p, acc);
                                },
                                None => {},
                            }
                        }
                        assert(atoms(acc@) =~= atoms(old(acc)@) + transcript(
                            self.definitions(),
                            *node,
                        ));
                    },
                    HashContribution::Product { .. } => {},
                }
            },
        }
    }

    /// Hash a node that may not fit the table: `None` where it does not.
    pub fn content_hash(&self, node: &Node) -> (r: Option<Vec<Absorbed>>)
        ensures
            r is Some <==> admits(self.definitions(), *node),
            r matches Some(absorbed) ==> atoms(absorbed@) == transcript(self.definitions(), *node),
    {
        if self.conforms(node) {
            let mut acc: Vec<Absorbed> = Vec::new();
            self.contribute(node, &mut acc);
            assert(atoms(acc@) =~= transcript(self.definitions(), *node));
            Some(acc)
        } else {
            None
        }
    }
}

/// Whether `x` is in the list.
fn holds(list: &Vec<usize>, x: usize) -> (r: bool)
    ensures
        r == list@.contains(x),
{
    let mut i: usize = 0;
    while i < list.len()
        invariant
            i <= list@.len(),
            forall|j: int| 0 <= j < i ==> list@[j] != x,
        decreases list@.len() - i,
    {
        if list[i] == x {
            return true;
        }
        i += 1;
    }
    false
}

} // verus!
