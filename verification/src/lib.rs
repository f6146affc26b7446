//! Term nodes of a tensor-graph rewriting IR: operator registry, node identity
//! (equality, order, hashing) and the child-position interface that a rewriting
//! engine drives.

pub mod children;
pub mod hashing;
pub mod identity;
pub mod key;
pub mod node;
pub mod order;
pub mod registry;
pub mod simple;
