//! Whether a declaration refers to its enclosing type by `Self`.
//!
//! The search is shallow: identifiers inside a nested item belong to that
//! item, not to the declaration around it.

use vstd::prelude::*;
use vstd::string::*;
use crate::model::{Decl, Mark};

verus! {

/// Whether a mark is the self-alias `Self`.
pub open spec fn is_self_alias(m: Mark) -> bool {
    match m {
        Mark::Ident(s) => s@ == "Self"@,
        _ => false,
    }
}

/// How many nested items are open after the marks `marks`. A stray end mark
/// closes nothing.
pub open spec fn depth_after(marks: Seq<Mark>) -> nat
    decreases marks.len(),
{
    if marks.len() == 0 {
        0
    } else {
        let d = depth_after(marks.drop_last());
        match marks.last() {
            Mark::EnterItem => d + 1,
            Mark::LeaveItem => if d == 0 { 0 } else { (d - 1) as nat },
            Mark::Ident(_) => d,
        }
    }
}

/// Whether `Self` occurs among the marks outside every nested item.
pub open spec fn mentions_self(marks: Seq<Mark>) -> bool {
    exists|i: int|
        0 <= i < marks.len() && depth_after(#[trigger] marks.take(i)) == 0 && is_self_alias(
            marks[i],
        )
}

/// Whether a declaration refers to `Self` in its signature or, outside nested
/// items, in its body.
pub open spec fn refers_to_self(d: Decl) -> bool {
    mentions_self(d.signature_marks@) || match d.body {
        Some(b) => mentions_self(b.marks@),
        None => false,
    }
}

/// Searches the marks for `Self` outside nested items.
pub fn has_self_type(marks: &Vec<Mark>) -> (r: bool)
    ensures
        r == mentions_self(marks@),
{
    let alias = String::from_str("Self");
    let mut depth: usize = 0;
    let mut i: usize = 0;
    while i < marks.len()
        invariant
            i <= marks@.len(),
            depth == depth_after(marks@.take(i as int)),
            depth <= i,
            alias@ == "Self"@,
            forall|j: int|
                0 <= j < i ==> !(depth_after(#[trigger] marks@.take(j)) == 0 && is_self_alias(
                    marks@[j],
                )),
        decreases marks.len() - i,
    {
        assert(marks@.take(i + 1).drop_last() =~= marks@.take(i as int));
        assert(marks@.take(i + 1).last() == marks@[i as int]);
        match &marks[i] {
            Mark::Ident(s) => {
                if depth == 0 && *s == alias {
                    return true;
                }
            },
            Mark::EnterItem => {
                depth = depth + 1;
            },
            Mark::LeaveItem => {
                if depth > 0 {
                    depth = depth - 1;
                }
            },
        }
        i = i + 1;
    }
    false
}

impl Decl {
    /// Whether the declaration refers to `Self` in its signature or, outside
    /// nested items, in its body.
    pub fn uses_self_alias(&self) -> (r: bool)
        ensures
            r == refers_to_self(*self),
    {
        if has_self_type(&self.signature_marks) {
            return true;
        }
        match &self.body {
            Some(b) => has_self_type(&b.marks),
            None => false,
        }
    }
}

} // verus!
