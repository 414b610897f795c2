//! The signature splitter: from the parameters of a declaration, the
//! parameters of the outer declaration and the arguments that it forwards to
//! the inner one.
//!
//! A receiver is kept in both signatures and dispatches the call. A parameter
//! bound to one identifier is forwarded by that identifier; the outer copy
//! drops a `mut` on the binding, which the forwarding body never uses. Any
//! other pattern is bound in the outer signature to a synthetic name, which is
//! forwarded. A placeholder (a type without a pattern) stays in both
//! signatures and is not forwarded.

use vstd::prelude::*;
use crate::model::{
    attrs_of, copy_opt_string, copy_string, copy_strings, same_receiver, Param, Receiver,
};
use crate::names::{
    lemma_synthetic_names_distinct, make_synthetic_name, reserved_prefix, starts_with, synthetic_name,
};

verus! {

/// How many parameters among `ps` are bound by a pattern, and so take a
/// synthetic name.
pub open spec fn synth_count(ps: Seq<Param>) -> nat
    decreases ps.len(),
{
    if ps.len() == 0 {
        0
    } else {
        synth_count(ps.drop_last()) + if ps.last() is Pattern { 1nat } else { 0nat }
    }
}

/// The identifier that the outer declaration binds for the last of `ps`,
/// if it binds one.
pub open spec fn outer_binding_of_last(ps: Seq<Param>) -> Option<Seq<char>> {
    match ps.last() {
        Param::Named { name, .. } => Some(name@),
        Param::Pattern { .. } => Some(synthetic_name(synth_count(ps.drop_last()))),
        _ => None,
    }
}

/// The identifier that the outer declaration binds for each parameter:
/// the name of a named parameter, the synthetic name of a pattern, none for a
/// receiver or a placeholder.
pub open spec fn outer_bindings(ps: Seq<Param>) -> Seq<Option<Seq<char>>>
    decreases ps.len(),
{
    if ps.len() == 0 {
        seq![]
    } else {
        outer_bindings(ps.drop_last()).push(outer_binding_of_last(ps))
    }
}

/// The identifiers among a sequence of optional bindings, in order.
pub open spec fn bound_names(bs: Seq<Option<Seq<char>>>) -> Seq<Seq<char>>
    decreases bs.len(),
{
    if bs.len() == 0 {
        seq![]
    } else {
        match bs.last() {
            Some(n) => bound_names(bs.drop_last()).push(n),
            None => bound_names(bs.drop_last()),
        }
    }
}

/// The arguments of the forwarding call: the identifiers that the outer
/// declaration binds, in parameter order.
pub open spec fn forward_args(ps: Seq<Param>) -> Seq<Seq<char>> {
    bound_names(outer_bindings(ps))
}

/// Whether a receiver appears only as the first parameter.
pub open spec fn receiver_first(ps: Seq<Param>) -> bool {
    forall|i: int| 0 < i < ps.len() ==> !(#[trigger] ps[i]).is_receiver()
}

/// The identifier that an outer parameter binds, if any.
pub open spec fn binding_of(o: Param) -> Option<Seq<char>> {
    match o {
        Param::Named { name, .. } => Some(name@),
        _ => None,
    }
}

/// The type of a typed parameter; `None` for a receiver.
pub open spec fn type_of(p: Param) -> Option<String> {
    match p {
        Param::Named { ty, .. } => Some(ty),
        Param::Pattern { ty, .. } => Some(ty),
        Param::Placeholder { ty } => Some(ty),
        Param::Receiver(_) => None,
    }
}

/// A receiver with its binding not mutable.
pub open spec fn receiver_without_mut(r: Receiver) -> Receiver {
    Receiver { binding_mut: false, ..r }
}

/// Whether `o` is the outer declaration's copy of parameter `p`, given the
/// identifier `b` that the outer declaration binds for it.
pub open spec fn outer_copy(o: Param, p: Param, b: Option<Seq<char>>) -> bool {
    match p {
        Param::Receiver(r) => o matches Param::Receiver(q) && same_receiver(q, receiver_without_mut(r)),
        Param::Placeholder { .. } => o == p,
        _ => {
            &&& o matches Param::Named { binding_mut, .. } && !binding_mut
            &&& binding_of(o) == b
            &&& type_of(o) == type_of(p)
            &&& attrs_of(o) == attrs_of(p)
        },
    }
}

/// Whether `os` are the outer declaration's parameters for `ps`.
pub open spec fn outer_params(ps: Seq<Param>, os: Seq<Param>) -> bool {
    &&& os.len() == ps.len()
    &&& forall|i: int| 0 <= i < ps.len() ==> outer_copy(#[trigger] os[i], ps[i], outer_bindings(ps)[i])
}

/// The split of a parameter list.
pub struct SplitParams {
    /// The parameters of the outer declaration.
    pub outer: Vec<Param>,
    /// The parameters of the inner declaration: those of the declaration.
    pub inner: Vec<Param>,
    /// The arguments that the outer declaration forwards.
    pub args: Vec<String>,
    /// Whether the call goes through the receiver.
    pub via_receiver: bool,
}

/// The views of a sequence of strings.
pub open spec fn views(ss: Seq<String>) -> Seq<Seq<char>> {
    ss.map_values(|s: String| s@)
}

pub proof fn lemma_outer_bindings_len(ps: Seq<Param>)
    ensures
        outer_bindings(ps).len() == ps.len(),
    decreases ps.len(),
{
    if ps.len() > 0 {
        lemma_outer_bindings_len(ps.drop_last());
    }
}

proof fn lemma_outer_bindings_prefix(ps: Seq<Param>, i: int)
    requires
        0 <= i < ps.len(),
    ensures
        outer_bindings(ps)[i] == outer_bindings(ps.take(i + 1))[i],
    decreases ps.len(),
{
    lemma_outer_bindings_len(ps);
    lemma_outer_bindings_len(ps.take(i + 1));
    if i + 1 < ps.len() {
        lemma_outer_bindings_prefix(ps.drop_last(), i);
        assert(ps.drop_last().take(i + 1) =~= ps.take(i + 1));
        lemma_outer_bindings_len(ps.drop_last());
    } else {
        assert(ps.take(i + 1) =~= ps);
    }
}

/// Splits a parameter list. Fails where a receiver is not the first
/// parameter.
pub fn split_params(params: Vec<Param>) -> (r: Option<SplitParams>)
    ensures
        r is None <==> !receiver_first(params@),
        r matches Some(s) ==> {
            &&& s.inner@ == params@
            &&& outer_params(params@, s.outer@)
            &&& views(s.args@) == forward_args(params@)
            &&& s.via_receiver == (params@.len() > 0 && params@[0].is_receiver())
        },
{
    let mut outer: Vec<Param> = Vec::new();
    let mut args: Vec<String> = Vec::new();
    let mut synth: usize = 0;
    let mut via_receiver = false;
    let mut i: usize = 0;
    proof {
        lemma_outer_bindings_len(params@);
    }
    while i < params.len()
        invariant
            i <= params@.len(),
            outer_bindings(params@).len() == params@.len(),
            outer@.len() == i,
            synth == synth_count(params@.take(i as int)),
            synth <= i,
            via_receiver == (i > 0 && params@[0].is_receiver()),
            views(args@) == forward_args(params@.take(i as int)),
            forall|j: int| 0 < j < i ==> !(#[trigger] params@[j]).is_receiver(),
            forall|j: int|
                0 <= j < i ==> outer_copy(
                    #[trigger] outer@[j],
                    params@[j],
                    outer_bindings(params@)[j],
                ),
        decreases params.len() - i,
    {
        let ghost pre = params@.take(i as int);
        let ghost cur = params@.take(i + 1);
        proof {
            assert(cur.drop_last() =~= pre);
            assert(cur.last() == params@[i as int]);
            lemma_outer_bindings_prefix(params@, i as int);
            lemma_outer_bindings_len(pre);
            assert(outer_bindings(cur)[i as int] == outer_binding_of_last(cur));
            assert(outer_bindings(cur).drop_last() =~= outer_bindings(pre));
            assert(outer_bindings(cur).last() == outer_binding_of_last(cur));
        }
        match &params[i] {
            Param::Receiver(rcv) => {
                if i > 0 {
                    return None;
                }
                via_receiver = true;
                outer.push(
                    Param::Receiver(
                        Receiver {
                            attrs: copy_strings(&rcv.attrs),
                            by_ref: rcv.by_ref,
                            lifetime: copy_opt_string(&rcv.lifetime),
                            ref_mut: rcv.ref_mut,
                            binding_mut: false,
                            ty: copy_opt_string(&rcv.ty),
                        },
                    ),
                );
                proof {
                    assert(views(args@) =~= forward_args(cur));
                }
            },
            Param::Named { attrs, binding_mut: _, name, ty } => {
                outer.push(
                    Param::Named {
                        attrs: copy_strings(attrs),
                        binding_mut: false,
                        name: copy_string(name),
                        ty: copy_string(ty),
                    },
                );
                args.push(copy_string(name));
                proof {
                    assert(views(args@) =~= forward_args(cur));
                }
            },
            Param::Pattern { attrs, pat: _, ty } => {
                let n = make_synthetic_name(synth);
                outer.push(
                    Param::Named {
                        attrs: copy_strings(attrs),
                        binding_mut: false,
                        name: copy_string(&n),
                        ty: copy_string(ty),
                    },
                );
                args.push(n);
                synth = synth + 1;
                proof {
                    assert(views(args@) =~= forward_args(cur));
                }
            },
            Param::Placeholder { ty } => {
                outer.push(Param::Placeholder { ty: copy_string(ty) });
                proof {
                    assert(views(args@) =~= forward_args(cur));
                }
            },
        }
        i = i + 1;
    }
    proof {
        assert(params@.take(i as int) =~= params@);
    }
    Some(SplitParams { outer, inner: params, args, via_receiver })
}

} // verus!

verus! {

/// Whether the forwarding call passes a parameter on: a named parameter or
/// one bound by a pattern.
pub open spec fn is_forwarded(p: Param) -> bool {
    p is Named || p is Pattern
}

/// How many of `ps` the forwarding call passes on.
pub open spec fn forwarded_count(ps: Seq<Param>) -> nat
    decreases ps.len(),
{
    if ps.len() == 0 {
        0
    } else {
        forwarded_count(ps.drop_last()) + if is_forwarded(ps.last()) { 1nat } else { 0nat }
    }
}

/// 1 where the first parameter is a receiver, else 0.
pub open spec fn receiver_count(ps: Seq<Param>) -> nat {
    if ps.len() > 0 && ps[0].is_receiver() { 1 } else { 0 }
}

/// Whether no parameter is a placeholder.
pub open spec fn no_placeholder(ps: Seq<Param>) -> bool {
    forall|i: int| 0 <= i < ps.len() ==> !(#[trigger] ps[i] is Placeholder)
}

/// One parameter more: the bindings and the arguments grow by what it adds.
proof fn lemma_forward_step(ps: Seq<Param>)
    requires
        ps.len() > 0,
    ensures
        outer_bindings(ps) == outer_bindings(ps.drop_last()).push(outer_binding_of_last(ps)),
        is_forwarded(ps.last()) ==> outer_binding_of_last(ps) is Some && forward_args(ps)
            == forward_args(ps.drop_last()).push(outer_binding_of_last(ps)->0),
        !is_forwarded(ps.last()) ==> outer_binding_of_last(ps) is None && forward_args(ps)
            == forward_args(ps.drop_last()),
        synth_count(ps.drop_last()) <= synth_count(ps),
        ps.last() is Pattern ==> synth_count(ps.drop_last()) < synth_count(ps),
{
    let ob = outer_bindings(ps);
    assert(ob.drop_last() =~= outer_bindings(ps.drop_last()));
}

/// The count of forwarded parameters: one for each parameter after the
/// receiver, where the receiver comes first and there is no placeholder.
proof fn lemma_forwarded_count(ps: Seq<Param>)
    requires
        receiver_first(ps),
        no_placeholder(ps),
    ensures
        forwarded_count(ps) == ps.len() - receiver_count(ps),
    decreases ps.len(),
{
    if ps.len() > 0 {
        let pre = ps.drop_last();
        assert forall|i: int| 0 < i < pre.len() implies !(#[trigger] pre[i]).is_receiver() by {
            assert(pre[i] == ps[i]);
        }
        assert forall|i: int| 0 <= i < pre.len() implies !(#[trigger] pre[i] is Placeholder) by {
            assert(pre[i] == ps[i]);
        }
        lemma_forwarded_count(pre);
        assert(!(ps[ps.len() - 1] is Placeholder));
        if pre.len() > 0 {
            assert(pre[0] == ps[0]);
            assert(!ps[ps.len() - 1].is_receiver());
        }
    }
}

/// The forwarding call passes exactly the parameters that are neither the
/// receiver nor a placeholder, in their order: the parameter at position `j`
/// becomes the argument at position "number of forwarded parameters before
/// `j`", and that argument is the identifier the outer declaration binds for
/// it. Where the receiver comes first and no parameter is a placeholder, there
/// is one argument for each parameter after the receiver.
pub proof fn lemma_forwarding_keeps_order(ps: Seq<Param>)
    ensures
        forward_args(ps).len() == forwarded_count(ps),
        forall|j: int|
            0 <= j < ps.len() && is_forwarded(#[trigger] ps[j]) ==> forwarded_count(ps.take(j))
                < forwarded_count(ps) && outer_bindings(ps)[j] == Some(
                forward_args(ps)[forwarded_count(ps.take(j)) as int],
            ),
        forall|j: int|
            0 <= j < ps.len() && !is_forwarded(#[trigger] ps[j]) ==> outer_bindings(ps)[j] is None,
        receiver_first(ps) && no_placeholder(ps) ==> forwarded_count(ps) == ps.len()
            - receiver_count(ps),
    decreases ps.len(),
{
    if ps.len() > 0 {
        let pre = ps.drop_last();
        lemma_forwarding_keeps_order(pre);
        lemma_forward_step(ps);
        lemma_outer_bindings_len(pre);
        assert forall|j: int| 0 <= j < ps.len() && is_forwarded(#[trigger] ps[j]) implies forwarded_count(
            ps.take(j),
        ) < forwarded_count(ps) && outer_bindings(ps)[j] == Some(
            forward_args(ps)[forwarded_count(ps.take(j)) as int],
        ) by {
            if j < ps.len() - 1 {
                assert(ps.take(j) =~= pre.take(j));
                assert(pre[j] == ps[j]);
            } else {
                assert(ps.take(j) =~= pre);
            }
        }
        assert forall|j: int| 0 <= j < ps.len() && !is_forwarded(#[trigger] ps[j]) implies outer_bindings(
            ps,
        )[j] is None by {
            if j < ps.len() - 1 {
                assert(pre[j] == ps[j]);
            }
        }
    }
    if receiver_first(ps) && no_placeholder(ps) {
        lemma_forwarded_count(ps);
    }
}

/// The values that the outer declaration's bindings `bs` hold when it is
/// called with the arguments `vals`.
pub open spec fn bind<V>(bs: Seq<Option<Seq<char>>>, vals: Seq<V>) -> Map<Seq<char>, V>
    decreases bs.len(),
{
    if bs.len() == 0 {
        Map::empty()
    } else {
        let m = bind(bs.drop_last(), vals.drop_last());
        match bs.last() {
            Some(n) => m.insert(n, vals.last()),
            None => m,
        }
    }
}

/// The values that the inner declaration receives, in parameter order, when
/// the outer one is called with `vals`: the receiver, then the forwarded
/// arguments as the outer declaration's bindings hold them.
pub open spec fn received<V>(ps: Seq<Param>, vals: Seq<V>) -> Seq<V> {
    let env = bind(outer_bindings(ps), vals);
    let via_self = if ps.len() > 0 && ps[0].is_receiver() {
        seq![vals[0]]
    } else {
        seq![]
    };
    via_self + forward_args(ps).map_values(|a: Seq<char>| env[a])
}

/// Whether a parameter list can stand in a function with a body: the
/// receiver comes first, no parameter is a placeholder, the named parameters
/// have distinct names and none begins with the reserved prefix.
pub open spec fn valid_params(ps: Seq<Param>) -> bool {
    &&& receiver_first(ps)
    &&& no_placeholder(ps)
    &&& forall|i: int, j: int|
        0 <= i < j < ps.len() && (#[trigger] ps[i]) is Named && (#[trigger] ps[j]) is Named
            ==> binding_of(ps[i]) != binding_of(ps[j])
    &&& forall|i: int|
        0 <= i < ps.len() ==> (binding_of(#[trigger] ps[i]) matches Some(n) ==> !starts_with(
            n,
            reserved_prefix(),
        ))
}

proof fn lemma_synth_count_le(ps: Seq<Param>, i: int)
    requires
        0 <= i <= ps.len(),
    ensures
        synth_count(ps.take(i)) <= synth_count(ps),
    decreases ps.len(),
{
    if i < ps.len() {
        lemma_synth_count_le(ps.drop_last(), i);
        assert(ps.drop_last().take(i) =~= ps.take(i));
    } else {
        assert(ps.take(i) =~= ps);
    }
}

/// An identifier that the outer declaration binds for no parameter, and that
/// is no synthetic name issued so far, is not forwarded.
proof fn lemma_not_forwarded(ps: Seq<Param>, n: Seq<char>)
    requires
        forall|j: int| 0 <= j < ps.len() ==> binding_of(#[trigger] ps[j]) != Some(n),
        forall|k: nat| k < synth_count(ps) ==> synthetic_name(k) != n,
    ensures
        !forward_args(ps).contains(n),
    decreases ps.len(),
{
    if ps.len() > 0 {
        let pre = ps.drop_last();
        assert forall|j: int| 0 <= j < pre.len() implies binding_of(#[trigger] pre[j]) != Some(n) by {
            assert(pre[j] == ps[j]);
        }
        lemma_forward_step(ps);
        lemma_not_forwarded(pre, n);
        assert(binding_of(ps[ps.len() - 1]) != Some(n));
        if ps.last() is Pattern {
            assert(synthetic_name(synth_count(pre)) != n);
        }
    }
}

/// Calling the outer declaration with some arguments hands the inner one the
/// same values, in the same order, as calling the declaration before the split does:
/// the split changes no argument that reaches the body.
pub proof fn lemma_forwarding_preserves_arguments<V>(ps: Seq<Param>, vals: Seq<V>)
    requires
        valid_params(ps),
        vals.len() == ps.len(),
    ensures
        received(ps, vals) == vals,
    decreases ps.len(),
{
    if ps.len() == 0 {
        assert(received(ps, vals) =~= vals);
    } else {
        let pre = ps.drop_last();
        let vpre = vals.drop_last();
        let p = ps.last();
        assert forall|i: int| 0 < i < pre.len() implies !(#[trigger] pre[i]).is_receiver() by {
            assert(pre[i] == ps[i]);
        }
        assert forall|i: int| 0 <= i < pre.len() implies !(#[trigger] pre[i] is Placeholder) by {
            assert(pre[i] == ps[i]);
        }
        assert forall|i: int, j: int|
            0 <= i < j < pre.len() && (#[trigger] pre[i]) is Named && (#[trigger] pre[j]) is Named
                implies binding_of(pre[i]) != binding_of(pre[j]) by {
            assert(pre[i] == ps[i] && pre[j] == ps[j]);
        }
        assert forall|i: int| 0 <= i < pre.len() implies (binding_of(#[trigger] pre[i]) matches Some(
            n,
        ) ==> !starts_with(n, reserved_prefix())) by {
            assert(pre[i] == ps[i]);
        }
        lemma_forwarding_preserves_arguments(pre, vpre);
        lemma_outer_bindings_len(pre);
        lemma_forward_step(ps);
        let envp = bind(outer_bindings(pre), vpre);
        let env = bind(outer_bindings(ps), vals);
        assert(outer_bindings(ps).drop_last() =~= outer_bindings(pre));
        if p is Receiver {
            assert(ps.len() == 1);
            assert(pre.len() == 0);
            assert(forward_args(pre) =~= seq![]);
            assert(received(ps, vals) =~= vals);
        } else {
            assert(is_forwarded(p));
            let n = outer_binding_of_last(ps)->0;
            assert(forward_args(ps) == forward_args(pre).push(n));
            assert(env == envp.insert(n, vals.last()));
            // `n` is not among the earlier arguments.
            assert forall|j: int| 0 <= j < pre.len() implies binding_of(#[trigger] pre[j]) != Some(
                n,
            ) by {
                assert(pre[j] == ps[j]);
                let k = synth_count(pre);
                if p is Pattern {
                    lemma_synthetic_names_distinct(k, k);
                } else {
                    assert(ps[ps.len() - 1] is Named);
                }
            }
            assert forall|k: nat| k < synth_count(pre) implies synthetic_name(k) != n by {
                lemma_synthetic_names_distinct(synth_count(pre), k);
                if p is Named {
                    assert(binding_of(ps[ps.len() - 1]) == Some(n));
                    assert(!starts_with(n, reserved_prefix()));
                    assert(starts_with(synthetic_name(k), reserved_prefix()));
                } else {
                    assert(p is Pattern);
                    assert(n == synthetic_name(synth_count(pre)));
                }
            }
            lemma_not_forwarded(pre, n);
            let fa = forward_args(pre);
            assert(fa.map_values(|a: Seq<char>| env[a]) =~= fa.map_values(|a: Seq<char>| envp[a]))
                by {
                assert forall|m: int| 0 <= m < fa.len() implies env[fa[m]] == envp[fa[m]] by {
                    assert(fa.contains(fa[m]));
                }
            }
            assert(forward_args(ps).map_values(|a: Seq<char>| env[a]) =~= fa.map_values(
                |a: Seq<char>| env[a],
            ).push(vals.last()));
            if pre.len() > 0 {
                assert(pre[0] == ps[0]);
            }
            assert(received(ps, vals) =~= received(pre, vpre).push(vals.last()));
            assert(vals =~= vpre.push(vals.last()));
        }
    }
}

} // verus!
