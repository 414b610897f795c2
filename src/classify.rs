//! The parameter classifier: tells what shape a parameter has, from the
//! parts the parser gives.
//!
//! A typed `self` is a receiver; an identifier pattern without `ref` and
//! without a sub-pattern is a named parameter; any other pattern is a
//! pattern parameter, forwarded under a synthetic name.

use vstd::prelude::*;
use vstd::string::*;
use crate::model::{Param, RawParam, RawPat, Receiver};

verus! {

/// The shape of a parameter given by the parser.
pub open spec fn classified(raw: RawParam) -> Param {
    match raw {
        RawParam::Receiver(r) => Param::Receiver(r),
        RawParam::Typed { attrs, pat, ty } => match pat {
            RawPat::Ident { by_ref, mutable, name, has_subpat, text } => {
                if by_ref || has_subpat {
                    Param::Pattern { attrs, pat: text, ty }
                } else if name@ == "self"@ {
                    Param::Receiver(
                        Receiver {
                            attrs,
                            by_ref: false,
                            lifetime: None,
                            ref_mut: false,
                            binding_mut: mutable,
                            ty: Some(ty),
                        },
                    )
                } else {
                    Param::Named { attrs, binding_mut: mutable, name, ty }
                }
            },
            RawPat::Other(text) => Param::Pattern { attrs, pat: text, ty },
        },
    }
}

/// Classifies one parameter.
pub fn classify(raw: RawParam) -> (r: Param)
    ensures
        r == classified(raw),
{
    match raw {
        RawParam::Receiver(r) => Param::Receiver(r),
        RawParam::Typed { attrs, pat, ty } => match pat {
            RawPat::Ident { by_ref, mutable, name, has_subpat, text } => {
                if by_ref || has_subpat {
                    Param::Pattern { attrs, pat: text, ty }
                } else if name == String::from_str("self") {
                    Param::Receiver(
                        Receiver {
                            attrs,
                            by_ref: false,
                            lifetime: None,
                            ref_mut: false,
                            binding_mut: mutable,
                            ty: Some(ty),
                        },
                    )
                } else {
                    Param::Named { attrs, binding_mut: mutable, name, ty }
                }
            },
            RawPat::Other(text) => Param::Pattern { attrs, pat: text, ty },
        },
    }
}

/// Classifies each parameter of a list, in order.
pub fn classify_params(raws: Vec<RawParam>) -> (r: Vec<Param>)
    ensures
        r@ == raws@.map_values(|x: RawParam| classified(x)),
{
    let ghost all = raws@;
    let mut rest = raws;
    let mut out: Vec<Param> = Vec::new();
    while rest.len() > 0
        invariant
            out@.len() + rest@.len() == all.len(),
            out@ == all.take(out@.len() as int).map_values(|x: RawParam| classified(x)),
            rest@ == all.skip(out@.len() as int),
        decreases rest.len(),
    {
        let ghost k = out@.len() as int;
        let x = rest.remove(0);
        out.push(classify(x));
        assert(rest@ =~= all.skip(k + 1));
        assert(out@ =~= all.take(k + 1).map_values(|x: RawParam| classified(x)));
    }
    assert(all.take(all.len() as int) =~= all);
    out
}

} // verus!
