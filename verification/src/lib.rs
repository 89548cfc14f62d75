//! How the nodes of a syntax tree are represented: the niched integers that
//! serve as ids, the memory layout given to every node type, and the hash
//! of what a node says, which leaves out where the node came from.

pub mod content_hash;
pub mod hash_laws;
pub mod layout;
pub mod lint;
pub mod node;
pub mod nonmax;
pub mod render;
pub mod schema;
pub mod table;
pub mod text;
