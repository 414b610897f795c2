//! Splitting of restricted (`unsafe`) function declarations.
//!
//! A declaration marked `unsafe` grants its whole body permission to perform
//! unsafe operations. The transformation here splits such a declaration in
//! two: a private inner function that holds the declaration's body and is *not*
//! unsafe, and an unsafe outer function that only forwards its parameters to
//! the inner one. Callers see the same function as before; the body must now
//! acknowledge each unsafe operation with its own `unsafe` block.
//!
//! The declarations are modelled as plain values ([`model::Decl`]): the pieces
//! that the transformation only carries through (types, generics, the body)
//! are source text, together with the identifier marks that the self-alias
//! search reads.

use vstd::prelude::*;

pub mod builder;
pub mod classify;
pub mod model;
pub mod names;
pub mod render;
pub mod self_ref;
pub mod split;
pub mod transform;

verus! {

} // verus!
