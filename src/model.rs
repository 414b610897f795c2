//! The declarations that the transformation reads and builds.

use vstd::prelude::*;

verus! {

/// One mark of the identifier stream of a piece of source: an identifier,
/// or the start or end of an item nested in it.
pub enum Mark {
    Ident(String),
    EnterItem,
    LeaveItem,
}

/// A function body: its source text, and its identifier marks.
pub struct Body {
    pub text: String,
    pub marks: Vec<Mark>,
}

/// A receiver parameter: `self`, `mut self`, `&self`, `&'a mut self` or
/// `self: Type`.
pub struct Receiver {
    /// The attributes, each as written.
    pub attrs: Vec<String>,
    /// `&self` or `&mut self`, as opposed to `self` taken by value.
    pub by_ref: bool,
    /// The lifetime of a reference receiver, as in `&'a self`.
    pub lifetime: Option<String>,
    /// `&mut self`: the reference is mutable.
    pub ref_mut: bool,
    /// `mut self`: the binding is mutable.
    pub binding_mut: bool,
    /// The explicit type of `self: Type`.
    pub ty: Option<String>,
}

/// One parameter of a declaration.
pub enum Param {
    Receiver(Receiver),
    /// A parameter bound to one identifier: `x: T` or `mut x: T`, after its
    /// attributes.
    Named { attrs: Vec<String>, binding_mut: bool, name: String, ty: String },
    /// A parameter bound by any other pattern: a tuple or struct
    /// destructuring, `_`, a binding with a sub-pattern; after its
    /// attributes.
    Pattern { attrs: Vec<String>, pat: String, ty: String },
    /// A parameter written as its type alone, as in `fn f(u32);` of a trait.
    Placeholder { ty: String },
}

/// A function or method declaration, with or without a body.
pub struct Decl {
    /// The attributes, each as written (`#[inline]`).
    pub attrs: Vec<String>,
    /// The visibility as written; empty where none is.
    pub vis: String,
    pub constness: bool,
    pub asyncness: bool,
    /// The restriction marker: the declaration is `unsafe`.
    pub unsafety: bool,
    /// The calling convention, as in `extern "C"`.
    pub abi: Option<String>,
    pub name: String,
    /// The generic parameter list as written (`<'a, T: Clone>`); empty where
    /// there is none.
    pub generics: String,
    /// The names of the generic type parameters, in order.
    pub type_params: Vec<String>,
    pub params: Vec<Param>,
    /// The parameter list ends in C's `...`.
    pub variadic: bool,
    /// The return type; `None` for `()` left implicit.
    pub output: Option<String>,
    /// The predicates of the `where` clause, each as written.
    pub where_preds: Vec<String>,
    /// The identifier marks of the signature.
    pub signature_marks: Vec<Mark>,
    /// The body; `None` for a trait method without a default.
    pub body: Option<Body>,
}

/// A trait definition.
pub struct TraitDef {
    pub attrs: Vec<String>,
    pub vis: String,
    pub unsafety: bool,
    /// The rest of the definition as written, from the `trait` keyword on.
    pub rest: String,
}

/// An item that a transformation is applied to.
pub enum Item {
    Function(Decl),
    Trait(TraitDef),
    /// Any other kind of item, named by its kind (`struct`, `impl`, ...).
    Other { kind: String },
}

/// The pattern of a typed parameter, as the parser gives it.
pub enum RawPat {
    /// An identifier pattern: `x`, `mut x`, `ref x`, `x @ pattern`.
    Ident { by_ref: bool, mutable: bool, name: String, has_subpat: bool, text: String },
    /// Any other pattern, as written.
    Other(String),
}

/// A parameter as the parser gives it, before classification.
pub enum RawParam {
    /// `self`, `mut self`, `&self` or `&'a mut self`.
    Receiver(Receiver),
    /// `pattern: Type`, after its attributes.
    Typed { attrs: Vec<String>, pat: RawPat, ty: String },
}

impl Param {
    /// Whether the parameter is a receiver.
    pub open spec fn is_receiver(&self) -> bool {
        self is Receiver
    }
}

/// The attributes of a parameter; none for a placeholder.
pub open spec fn attrs_of(p: Param) -> Seq<String> {
    match p {
        Param::Receiver(r) => r.attrs@,
        Param::Named { attrs, .. } => attrs@,
        Param::Pattern { attrs, .. } => attrs@,
        Param::Placeholder { .. } => seq![],
    }
}

/// Whether two receivers are written the same.
pub open spec fn same_receiver(a: Receiver, b: Receiver) -> bool {
    &&& a.attrs@ == b.attrs@
    &&& a.by_ref == b.by_ref
    &&& a.lifetime == b.lifetime
    &&& a.ref_mut == b.ref_mut
    &&& a.binding_mut == b.binding_mut
    &&& a.ty == b.ty
}

/// Whether two parameters are written the same.
pub open spec fn same_param(a: Param, b: Param) -> bool {
    match (a, b) {
        (Param::Receiver(x), Param::Receiver(y)) => same_receiver(x, y),
        (
            Param::Named { attrs: a1, binding_mut: m1, name: n1, ty: t1 },
            Param::Named { attrs: a2, binding_mut: m2, name: n2, ty: t2 },
        ) => a1@ == a2@ && m1 == m2 && n1 == n2 && t1 == t2,
        (Param::Pattern { attrs: a1, pat: p1, ty: t1 }, Param::Pattern { attrs: a2, pat: p2, ty: t2 }) => {
            a1@ == a2@ && p1 == p2 && t1 == t2
        },
        (Param::Placeholder { ty: t1 }, Param::Placeholder { ty: t2 }) => t1 == t2,
        _ => false,
    }
}

/// Whether two parameter lists are written the same.
pub open spec fn same_params(a: Seq<Param>, b: Seq<Param>) -> bool {
    &&& a.len() == b.len()
    &&& forall|i: int| 0 <= i < a.len() ==> same_param(#[trigger] a[i], b[i])
}

pub(crate) fn copy_string(s: &String) -> (r: String)
    ensures
        r == *s,
{
    s.clone()
}

pub(crate) fn copy_opt_string(s: &Option<String>) -> (r: Option<String>)
    ensures
        r == *s,
{
    match s {
        Some(x) => Some(x.clone()),
        None => None,
    }
}

pub(crate) fn copy_strings(v: &Vec<String>) -> (r: Vec<String>)
    ensures
        r@ == v@,
{
    let mut r: Vec<String> = Vec::new();
    let mut i: usize = 0;
    while i < v.len()
        invariant
            i <= v@.len(),
            r@ == v@.take(i as int),
        decreases v.len() - i,
    {
        r.push(v[i].clone());
        assert(r@ =~= v@.take(i + 1));
        i = i + 1;
    }
    assert(v@.take(i as int) =~= v@);
    r
}

pub(crate) fn copy_receiver(r: &Receiver) -> (c: Receiver)
    ensures
        same_receiver(c, *r),
{
    Receiver {
        attrs: copy_strings(&r.attrs),
        by_ref: r.by_ref,
        lifetime: copy_opt_string(&r.lifetime),
        ref_mut: r.ref_mut,
        binding_mut: r.binding_mut,
        ty: copy_opt_string(&r.ty),
    }
}

pub(crate) fn copy_param(p: &Param) -> (r: Param)
    ensures
        same_param(r, *p),
{
    match p {
        Param::Receiver(rcv) => Param::Receiver(copy_receiver(rcv)),
        Param::Named { attrs, binding_mut, name, ty } => Param::Named {
            attrs: copy_strings(attrs),
            binding_mut: *binding_mut,
            name: name.clone(),
            ty: ty.clone(),
        },
        Param::Pattern { attrs, pat, ty } => Param::Pattern {
            attrs: copy_strings(attrs),
            pat: pat.clone(),
            ty: ty.clone(),
        },
        Param::Placeholder { ty } => Param::Placeholder { ty: ty.clone() },
    }
}

pub(crate) fn copy_params(v: &Vec<Param>) -> (r: Vec<Param>)
    ensures
        same_params(r@, v@),
{
    let mut r: Vec<Param> = Vec::new();
    let mut i: usize = 0;
    while i < v.len()
        invariant
            i <= v@.len(),
            r@.len() == i,
            forall|j: int| 0 <= j < i ==> same_param(#[trigger] r@[j], v@[j]),
        decreases v.len() - i,
    {
        r.push(copy_param(&v[i]));
        i = i + 1;
    }
    r
}

} // verus!
