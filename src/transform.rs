//! The two entry points: add the restriction marker to a declaration, or
//! take the blanket permission away from the body of a declaration that
//! already carries it. Both validate the marker and then split.

use vstd::prelude::*;
use vstd::string::*;
use crate::builder::{
    build_interface, build_split, is_interface_of, is_split_of, Transformed,
};
use crate::model::{Decl, Item, TraitDef};
use crate::split::receiver_first;

verus! {

/// Why a transformation was refused.
pub enum TransformError {
    /// Add-restriction on a declaration that already carries the marker.
    AlreadyMarked,
    /// Remove-blanket-permission on a declaration without the marker.
    NotMarked,
    /// An item that is neither a function, a method nor a trait; `kind`
    /// names it.
    UnsupportedConstruct { kind: String },
    /// A parameter list that cannot be forwarded: a receiver after the first
    /// position, or a C-style `...`.
    UnsupportedParameterShape,
}

/// The two transformations.
pub enum Kind {
    /// Add the restriction marker.
    UnsafeFn,
    /// Keep the marker, take the blanket permission away from the body.
    SafeBody,
}

/// The error of the marker check: add-restriction wants no marker,
/// remove-blanket-permission wants one.
pub open spec fn marker_error(unsafety: bool, k: Kind) -> Option<TransformError> {
    match k {
        Kind::UnsafeFn => if unsafety {
            Some(TransformError::AlreadyMarked)
        } else {
            None
        },
        Kind::SafeBody => if unsafety {
            None
        } else {
            Some(TransformError::NotMarked)
        },
    }
}

/// The error, if any, of transformation `k` on the declaration `d`: first the
/// marker, then, where there is a body to split, the place of the receiver
/// and a trailing `...`.
pub open spec fn decl_error(d: Decl, k: Kind) -> Option<TransformError> {
    if marker_error(d.unsafety, k) is Some {
        marker_error(d.unsafety, k)
    } else if d.body is Some && (!receiver_first(d.params@) || d.variadic) {
        Some(TransformError::UnsupportedParameterShape)
    } else {
        None
    }
}

/// Whether `t` is the output for the declaration `d`: its split where it has
/// a body, else the marked declaration and its placeholder. Either way the
/// declaration that callers see carries the marker.
pub open spec fn is_transform_of(t: Transformed, d: Decl) -> bool {
    match d.body {
        Some(_) => t matches Transformed::Split(p) && is_split_of(p, d, true),
        None => t matches Transformed::Interface(i) && is_interface_of(i, d, true),
    }
}

/// Whether `o` is the trait `t` with the marker.
pub open spec fn is_marked_trait(o: TraitDef, t: TraitDef) -> bool {
    &&& o.unsafety
    &&& o.attrs@ == t.attrs@
    &&& o.vis == t.vis
    &&& o.rest == t.rest
}

/// The error, if any, of add-restriction on `item`.
pub open spec fn add_restriction_error(item: Item) -> Option<TransformError> {
    match item {
        Item::Function(d) => decl_error(d, Kind::UnsafeFn),
        Item::Trait(t) => if t.unsafety {
            Some(TransformError::AlreadyMarked)
        } else {
            None
        },
        Item::Other { kind } => Some(TransformError::UnsupportedConstruct { kind }),
    }
}

/// Whether `t` is the output of add-restriction on `item`.
pub open spec fn is_item_transform_of(t: Transformed, item: Item) -> bool {
    match item {
        Item::Function(d) => is_transform_of(t, d),
        Item::Trait(td) => t matches Transformed::Trait(o) && is_marked_trait(o, td),
        Item::Other { .. } => false,
    }
}

/// The shared algorithm: checks the marker for transformation `k`, then
/// splits `d`, or, for a trait method without a body, marks it and adds its
/// placeholder.
pub fn unsafe_fn_impl(d: Decl, k: Kind) -> (r: Result<Transformed, TransformError>)
    ensures
        decl_error(d, k) matches Some(e) ==> r == Err::<Transformed, TransformError>(e),
        decl_error(d, k) is None ==> (r matches Ok(t) && is_transform_of(t, d)),
{
    match k {
        Kind::UnsafeFn => {
            if d.unsafety {
                return Err(TransformError::AlreadyMarked);
            }
        },
        Kind::SafeBody => {
            if !d.unsafety {
                return Err(TransformError::NotMarked);
            }
        },
    }
    if d.body.is_none() {
        return Ok(Transformed::Interface(build_interface(d, true)));
    }
    match build_split(d, true) {
        Some(p) => Ok(Transformed::Split(p)),
        None => Err(TransformError::UnsupportedParameterShape),
    }
}

/// Add-restriction: marks a function, a method or a trait as `unsafe`. A
/// function or method with a body is split, so that its body keeps no
/// blanket permission; a trait method without a body is marked and gets its
/// placeholder.
///
/// A trait definition becomes an `unsafe trait`, left as it stands: the
/// marker on a trait is what obliges implementors to uphold its contract,
/// which is what marking the trait restricted means in Rust. Its members
/// are not rewritten one by one, because each member that should be
/// restricted carries the attribute itself and is transformed on its own.
pub fn unsafe_fn(item: Item) -> (r: Result<Transformed, TransformError>)
    ensures
        add_restriction_error(item) matches Some(e) ==> r == Err::<Transformed, TransformError>(e),
        add_restriction_error(item) is None ==> (r matches Ok(t) && is_item_transform_of(t, item)),
{
    match item {
        Item::Function(d) => unsafe_fn_impl(d, Kind::UnsafeFn),
        Item::Trait(t) => {
            if t.unsafety {
                Err(TransformError::AlreadyMarked)
            } else {
                Ok(Transformed::Trait(TraitDef { attrs: t.attrs, vis: t.vis, unsafety: true, rest: t.rest }))
            }
        },
        Item::Other { kind } => Err(TransformError::UnsupportedConstruct { kind }),
    }
}

/// Remove-blanket-permission: a function or method that is `unsafe` stays so,
/// and its body is split off so that it no longer has blanket permission for
/// unsafe operations. Only functions and methods are accepted.
pub fn safe_body(item: Item) -> (r: Result<Transformed, TransformError>)
    ensures
        match item {
            Item::Function(d) => {
                &&& decl_error(d, Kind::SafeBody) matches Some(e) ==> r == Err::<
                    Transformed,
                    TransformError,
                >(e)
                &&& decl_error(d, Kind::SafeBody) is None ==> (r matches Ok(t) && is_transform_of(t, d))
            },
            Item::Trait(_) => r matches Err(TransformError::UnsupportedConstruct { kind }) && kind@
                == "trait"@,
            Item::Other { kind } => r == Err::<Transformed, TransformError>(
                TransformError::UnsupportedConstruct { kind },
            ),
        },
{
    match item {
        Item::Function(d) => unsafe_fn_impl(d, Kind::SafeBody),
        Item::Trait(_) => Err(TransformError::UnsupportedConstruct { kind: String::from_str("trait") }),
        Item::Other { kind } => Err(TransformError::UnsupportedConstruct { kind }),
    }
}

/// The marker of an item; `None` for an item that can carry none.
pub open spec fn item_marker(item: Item) -> Option<bool> {
    match item {
        Item::Function(d) => Some(d.unsafety),
        Item::Trait(t) => Some(t.unsafety),
        Item::Other { .. } => None,
    }
}

/// The marker of the declaration that an output presents to callers.
pub open spec fn output_marker(t: Transformed) -> bool {
    match t {
        Transformed::Split(p) => p.outer.unsafety,
        Transformed::Interface(i) => i.decl.unsafety,
        Transformed::Trait(o) => o.unsafety,
    }
}

/// Add-restriction applied a second time fails with `AlreadyMarked`: the
/// declaration that a successful add-restriction presents to callers carries
/// the marker, and add-restriction refuses any item that carries it.
pub proof fn lemma_add_restriction_twice(item: Item, t: Transformed, again: Item)
    requires
        add_restriction_error(item) is None,
        is_item_transform_of(t, item),
        item_marker(again) == Some(output_marker(t)),
    ensures
        output_marker(t),
        add_restriction_error(again) == Some(TransformError::AlreadyMarked),
{
}

} // verus!
