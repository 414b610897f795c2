//! The declaration builder: assembles the inner and outer declarations from
//! the split of the parameters.

use vstd::prelude::*;
use vstd::string::*;
use crate::model::{
    copy_opt_string, copy_params, copy_strings, same_params, Decl, Param, TraitDef,
};
use crate::names::{inner_name, make_inner_name};
use crate::self_ref::refers_to_self;
use crate::split::{
    binding_of, bind, forward_args, lemma_forwarding_preserves_arguments,
    lemma_outer_bindings_len, outer_bindings, outer_params, receiver_first, received, split_params,
    valid_params, views,
};

verus! {

/// A declaration that the transformation emits, without its body.
pub struct Header {
    pub attrs: Vec<String>,
    pub vis: String,
    pub constness: bool,
    pub asyncness: bool,
    pub unsafety: bool,
    pub abi: Option<String>,
    pub name: String,
    pub generics: String,
    pub params: Vec<Param>,
    /// The parameter list ends in C's `...`.
    pub variadic: bool,
    pub output: Option<String>,
    pub where_preds: Vec<String>,
}

/// How the outer declaration calls the inner one.
pub enum Dispatch {
    /// A plain call of a function defined inside the outer body.
    Free,
    /// A method call on the receiver: `self.inner(..)`.
    Receiver,
    /// A call qualified by the self-alias: `Self::inner(..)`.
    SelfAlias,
}

/// The split of a declaration with a body.
pub struct TransformedPair {
    /// The inner declaration: not restricted, the parameters of the declaration.
    pub inner: Header,
    /// The body of the inner declaration: the body of the declaration.
    pub inner_body: String,
    /// The outer declaration: restricted, the name and visibility of the declaration.
    pub outer: Header,
    pub dispatch: Dispatch,
    /// The type arguments of the forwarding call.
    pub type_args: Vec<String>,
    /// The arguments of the forwarding call.
    pub args: Vec<String>,
}

/// A trait method declared without a body: marked as it stands, with a
/// placeholder under the inner name that is never called.
pub struct InterfaceDecl {
    pub decl: Header,
    pub placeholder: Header,
}

/// The output of a transformation.
pub enum Transformed {
    Split(TransformedPair),
    Interface(InterfaceDecl),
    Trait(TraitDef),
}

/// Whether `h` is `d`'s header with another name, other parameters and the
/// restriction marker `unsafety`, carrying `d`'s attributes, visibility and
/// calling convention.
pub open spec fn outer_header(h: Header, d: Decl, unsafety: bool) -> bool {
    &&& h.attrs@ == d.attrs@
    &&& h.vis == d.vis
    &&& h.constness == d.constness
    &&& h.asyncness == d.asyncness
    &&& h.unsafety == unsafety
    &&& h.abi == d.abi
    &&& h.name == d.name
    &&& h.generics == d.generics
    &&& h.variadic == d.variadic
    &&& h.output == d.output
    &&& h.where_preds@ == d.where_preds@
}

/// Whether `h` is the header of the inner function of `d`: the inner name,
/// `d`'s generics, return type, constness and asyncness, no attributes, no
/// visibility, no marker, no calling convention.
pub open spec fn inner_header(h: Header, d: Decl) -> bool {
    &&& h.attrs@.len() == 0
    &&& h.vis@.len() == 0
    &&& h.constness == d.constness
    &&& h.asyncness == d.asyncness
    &&& !h.unsafety
    &&& h.abi is None
    &&& h.name@ == inner_name(d.name@)
    &&& h.generics == d.generics
    &&& h.variadic == d.variadic
    &&& h.output == d.output
}

/// How the split of `d` dispatches: through the receiver where the first
/// parameter is one, else through `Self` where the declaration refers to it,
/// else as a plain call.
pub open spec fn dispatch_of(d: Decl) -> Dispatch {
    if d.params@.len() > 0 && d.params@[0].is_receiver() {
        Dispatch::Receiver
    } else if refers_to_self(d) {
        Dispatch::SelfAlias
    } else {
        Dispatch::Free
    }
}

/// Whether `p` is the split of the declaration `d`, whose outer declaration
/// carries the marker `unsafety`.
pub open spec fn is_split_of(p: TransformedPair, d: Decl, unsafety: bool) -> bool {
    &&& d.body matches Some(b) && p.inner_body == b.text
    &&& inner_header(p.inner, d)
    &&& p.inner.params@ == d.params@
    &&& p.inner.where_preds@ == d.where_preds@
    &&& outer_header(p.outer, d, unsafety)
    &&& outer_params(d.params@, p.outer.params@)
    &&& p.dispatch == dispatch_of(d)
    &&& p.type_args@ == d.type_params@
    &&& views(p.args@) == forward_args(d.params@)
}

/// The values that the inner declaration of `p` receives, in parameter
/// order, when the outer one is called with `vals`: the receiver where the
/// call goes through it, then the forwarded arguments as the outer
/// parameters hold them.
pub open spec fn pair_received<V>(p: TransformedPair, vals: Seq<V>) -> Seq<V> {
    let env = bind(p.outer.params@.map_values(|o: Param| binding_of(o)), vals);
    let via_self = if p.dispatch is Receiver {
        seq![vals[0]]
    } else {
        seq![]
    };
    via_self + views(p.args@).map_values(|a: Seq<char>| env[a])
}

/// Calling the outer declaration of a split with some arguments runs the
/// declaration's body on the same values: the inner declaration has the
/// declaration's parameters and body, and receives exactly the arguments, in
/// order.
pub proof fn lemma_split_forwards_arguments<V>(
    d: Decl,
    p: TransformedPair,
    unsafety: bool,
    vals: Seq<V>,
)
    requires
        is_split_of(p, d, unsafety),
        valid_params(d.params@),
        vals.len() == d.params@.len(),
    ensures
        pair_received(p, vals) == vals,
        p.inner.params@ == d.params@,
        d.body matches Some(b) && p.inner_body == b.text,
{
    let ps = d.params@;
    lemma_outer_bindings_len(ps);
    assert(p.outer.params@.map_values(|o: Param| binding_of(o)) =~= outer_bindings(ps)) by {
        assert forall|i: int| 0 <= i < ps.len() implies binding_of(#[trigger] p.outer.params@[i])
            == outer_bindings(ps)[i] by {
            lemma_outer_binding_kind(ps, i);
        }
    }
    lemma_forwarding_preserves_arguments(ps, vals);
    assert(pair_received(p, vals) == received(ps, vals));
}

/// A receiver or a placeholder binds no identifier in the outer declaration.
proof fn lemma_outer_binding_kind(ps: Seq<Param>, i: int)
    requires
        0 <= i < ps.len(),
    ensures
        (ps[i] is Receiver || ps[i] is Placeholder) ==> outer_bindings(ps)[i] is None,
{
    crate::split::lemma_forwarding_keeps_order(ps);
}

/// The predicate that the placeholder of a bodyless trait method adds to the
/// `where` clause.
pub open spec fn sized_bound() -> Seq<char> {
    "Self: Sized"@
}

/// Whether `i` is the output for the bodyless declaration `d`, marked
/// `unsafety`: `d` as it stands with that marker, and a placeholder with the
/// inner name, `d`'s parameters, and `Self: Sized` added to its bounds.
pub open spec fn is_interface_of(i: InterfaceDecl, d: Decl, unsafety: bool) -> bool {
    &&& outer_header(i.decl, d, unsafety)
    &&& i.decl.params@ == d.params@
    &&& inner_header(i.placeholder, d)
    &&& same_params(i.placeholder.params@, d.params@)
    &&& i.placeholder.where_preds@.len() == d.where_preds@.len() + 1
    &&& i.placeholder.where_preds@.take(d.where_preds@.len() as int) == d.where_preds@
    &&& i.placeholder.where_preds@.last()@ == sized_bound()
}

/// Builds the output for a trait method without a body: the declaration
/// marked `unsafety`, and a placeholder under the inner name.
pub fn build_interface(d: Decl, unsafety: bool) -> (r: InterfaceDecl)
    ensures
        is_interface_of(r, d, unsafety),
{
    let ghost d0 = d;
    let inner = make_inner_name(&d.name);
    let mut preds = copy_strings(&d.where_preds);
    preds.push(String::from_str("Self: Sized"));
    let placeholder = Header {
        attrs: Vec::new(),
        vis: String::new(),
        constness: d.constness,
        asyncness: d.asyncness,
        unsafety: false,
        abi: None,
        name: inner,
        generics: d.generics.clone(),
        params: copy_params(&d.params),
        variadic: d.variadic,
        output: copy_opt_string(&d.output),
        where_preds: preds,
    };
    let decl = Header {
        attrs: d.attrs,
        vis: d.vis,
        constness: d.constness,
        asyncness: d.asyncness,
        unsafety,
        abi: d.abi,
        name: d.name,
        generics: d.generics,
        params: d.params,
        variadic: d.variadic,
        output: d.output,
        where_preds: d.where_preds,
    };
    let r = InterfaceDecl { decl, placeholder };
    assert(r.placeholder.where_preds@.take(d0.where_preds@.len() as int) =~= d0.where_preds@);
    r
}

/// Splits a declaration with a body into its inner and outer declarations;
/// the outer one carries the marker `unsafety`. Fails where a receiver is not
/// the first parameter, or where the parameters end in `...`, which no call
/// can forward.
pub fn build_split(d: Decl, unsafety: bool) -> (r: Option<TransformedPair>)
    requires
        d.body is Some,
    ensures
        r is None <==> (!receiver_first(d.params@) || d.variadic),
        r matches Some(p) ==> is_split_of(p, d, unsafety),
{
    let via_self_alias = d.uses_self_alias();
    let inner_name = make_inner_name(&d.name);
    let Decl {
        attrs,
        vis,
        constness,
        asyncness,
        unsafety: _,
        abi,
        name,
        generics,
        type_params,
        params,
        variadic,
        output,
        where_preds,
        signature_marks: _,
        body,
    } = d;
    if variadic {
        return None;
    }
    let inner_body = match body {
        Some(b) => b.text,
        None => String::new(),
    };
    let split = match split_params(params) {
        Some(s) => s,
        None => {
            return None;
        },
    };
    let dispatch = if split.via_receiver {
        Dispatch::Receiver
    } else if via_self_alias {
        Dispatch::SelfAlias
    } else {
        Dispatch::Free
    };
    let inner = Header {
        attrs: Vec::new(),
        vis: String::new(),
        constness,
        asyncness,
        unsafety: false,
        abi: None,
        name: inner_name,
        generics: generics.clone(),
        params: split.inner,
        variadic: false,
        output: copy_opt_string(&output),
        where_preds: copy_strings(&where_preds),
    };
    let outer = Header {
        attrs,
        vis,
        constness,
        asyncness,
        unsafety,
        abi,
        name,
        generics,
        params: split.outer,
        variadic: false,
        output,
        where_preds,
    };
    let r = TransformedPair { inner, inner_body, outer, dispatch, type_args: type_params, args: split.args };
    assert(r.inner.vis@ =~= Seq::<char>::empty());
    Some(r)
}

} // verus!
