//! Source text of the declarations that a transformation emits.

use vstd::prelude::*;
use vstd::string::*;
use crate::builder::{Dispatch, Header, InterfaceDecl, Transformed, TransformedPair};
use crate::model::{attrs_of, Param, TraitDef};
use crate::split::views;

verus! {

/// The strings of `ss` with `sep` between each two.
pub open spec fn join(ss: Seq<Seq<char>>, sep: Seq<char>) -> Seq<char>
    decreases ss.len(),
{
    if ss.len() == 0 {
        seq![]
    } else if ss.len() == 1 {
        ss[0]
    } else {
        join(ss.drop_last(), sep) + sep + ss.last()
    }
}

/// `w` where `b` holds, else nothing.
pub open spec fn word_if(b: bool, w: Seq<char>) -> Seq<char> {
    if b {
        w
    } else {
        seq![]
    }
}

/// `s` followed by a space, or nothing where `s` is empty.
pub open spec fn spaced(s: Seq<char>) -> Seq<char> {
    if s.len() == 0 {
        seq![]
    } else {
        s + " "@
    }
}

/// Source text of attributes, each followed by a space.
pub open spec fn attrs_text(attrs: Seq<String>) -> Seq<char> {
    spaced(join(views(attrs), " "@))
}

/// Source text of a parameter.
pub open spec fn param_text(p: Param) -> Seq<char> {
    attrs_text(attrs_of(p)) + param_core_text(p)
}

/// Source text of a parameter after its attributes.
pub open spec fn param_core_text(p: Param) -> Seq<char> {
    match p {
        Param::Receiver(r) => if r.by_ref {
            "&"@ + match r.lifetime {
                Some(l) => l@ + " "@,
                None => seq![],
            } + word_if(r.ref_mut, "mut "@) + "self"@
        } else {
            word_if(r.binding_mut, "mut "@) + "self"@ + match r.ty {
                Some(t) => ": "@ + t@,
                None => seq![],
            }
        },
        Param::Named { binding_mut, name, ty, .. } => word_if(binding_mut, "mut "@) + name@ + ": "@
            + ty@,
        Param::Pattern { pat, ty, .. } => pat@ + ": "@ + ty@,
        Param::Placeholder { ty } => ty@,
    }
}

/// Source texts of the parameters.
pub open spec fn param_texts(ps: Seq<Param>) -> Seq<Seq<char>> {
    ps.map_values(|p: Param| param_text(p))
}

/// Source text of a header: attributes, visibility, qualifiers, `fn`, name,
/// generics, parameters, return type and `where` clause.
pub open spec fn header_text(h: Header) -> Seq<char> {
    spaced(join(views(h.attrs@), " "@)) + spaced(h.vis@) + word_if(h.constness, "const "@)
        + word_if(h.asyncness, "async "@) + word_if(h.unsafety, "unsafe "@) + match h.abi {
        Some(a) => a@ + " "@,
        None => seq![],
    } + "fn "@ + h.name@ + h.generics@ + "("@ + join(param_texts(h.params@), ", "@) + variadic_text(h) + ")"@
        + match h.output {
        Some(o) => " -> "@ + o@,
        None => seq![],
    } + word_if(h.where_preds@.len() > 0, " where "@ + join(views(h.where_preds@), ", "@))
}

/// The trailing `...` of a variadic parameter list.
pub open spec fn variadic_text(h: Header) -> Seq<char> {
    if !h.variadic {
        seq![]
    } else if h.params@.len() == 0 {
        "..."@
    } else {
        ", ..."@
    }
}

/// The attributes put on every function the transformation invents.
pub open spec fn helper_attrs() -> Seq<char> {
    "#[doc(hidden)] #[inline] "@
}

/// What the forwarding call is qualified by.
pub open spec fn dispatch_prefix(d: Dispatch) -> Seq<char> {
    match d {
        Dispatch::Free => seq![],
        Dispatch::Receiver => "self."@,
        Dispatch::SelfAlias => "Self::"@,
    }
}

/// Source text of the forwarding call; awaited where the declaration is
/// `async`, so that the outer function yields the inner one's result rather
/// than its future.
pub open spec fn call_text(p: TransformedPair) -> Seq<char> {
    dispatch_prefix(p.dispatch) + p.inner.name@ + word_if(
        p.type_args@.len() > 0,
        "::<"@ + join(views(p.type_args@), ", "@) + ">"@,
    ) + "("@ + join(views(p.args@), ", "@) + ")"@ + word_if(p.outer.asyncness, ".await"@)
}

/// Source text of a split: the inner function inside the outer body for a
/// plain call, else beside the outer declaration.
pub open spec fn pair_text(p: TransformedPair) -> Seq<char> {
    let inner = helper_attrs() + header_text(p.inner) + " "@ + p.inner_body@;
    match p.dispatch {
        Dispatch::Free => header_text(p.outer) + " { "@ + inner + " "@ + call_text(p) + " }"@,
        _ => inner + " "@ + header_text(p.outer) + " { "@ + call_text(p) + " }"@,
    }
}

/// The body of the placeholder: it fails if it is ever called.
pub open spec fn placeholder_body() -> Seq<char> {
    "{ unreachable!(\"not to be called\") }"@
}

/// Source text of a bodyless trait method and its placeholder.
pub open spec fn interface_text(i: InterfaceDecl) -> Seq<char> {
    header_text(i.decl) + ";"@ + " "@ + helper_attrs() + header_text(i.placeholder) + " "@
        + placeholder_body()
}

/// Source text of a trait definition.
pub open spec fn trait_text(t: TraitDef) -> Seq<char> {
    spaced(join(views(t.attrs@), " "@)) + spaced(t.vis@) + word_if(t.unsafety, "unsafe "@)
        + t.rest@
}

/// Source text of an output.
pub open spec fn transformed_text(t: Transformed) -> Seq<char> {
    match t {
        Transformed::Split(p) => pair_text(p),
        Transformed::Interface(i) => interface_text(i),
        Transformed::Trait(d) => trait_text(d),
    }
}

/// Joins the strings with `sep` between each two.
pub fn join_strings(v: &Vec<String>, sep: &str) -> (r: String)
    ensures
        r@ == join(views(v@), sep@),
{
    let mut r = String::new();
    let mut i: usize = 0;
    while i < v.len()
        invariant
            i <= v@.len(),
            r@ == join(views(v@.take(i as int)), sep@),
        decreases v.len() - i,
    {
        let ghost prev = views(v@.take(i as int));
        proof {
            assert(views(v@.take(i + 1)).drop_last() =~= prev);
            assert(views(v@.take(i + 1)).last() == v@[i as int]@);
        }
        if i > 0 {
            r.append(sep);
        }
        r.append(v[i].as_str());
        proof {
            if i == 0 {
                assert(r@ =~= join(views(v@.take(i + 1)), sep@));
            }
        }
        i = i + 1;
    }
    assert(v@.take(i as int) =~= v@);
    r
}

fn text_if(b: bool, w: &str) -> (r: String)
    ensures
        r@ == word_if(b, w@),
{
    if b {
        String::from_str(w)
    } else {
        String::new()
    }
}

fn spaced_string(s: String) -> (r: String)
    ensures
        r@ == spaced(s@),
{
    if s.as_str().unicode_len() == 0 {
        String::new()
    } else {
        let mut s = s;
        s.append(" ");
        s
    }
}

impl Param {
    /// Source text of the parameter.
    pub fn to_source(&self) -> (r: String)
        ensures
            r@ == param_text(*self),
    {
        let attrs = match self {
            Param::Receiver(rcv) => &rcv.attrs,
            Param::Named { attrs, .. } => attrs,
            Param::Pattern { attrs, .. } => attrs,
            Param::Placeholder { .. } => {
                return self.core_source();
            },
        };
        let mut r = spaced_string(join_strings(attrs, " "));
        r.append(self.core_source().as_str());
        r
    }

    /// Source text of the parameter after its attributes.
    fn core_source(&self) -> (r: String)
        ensures
            r@ == param_core_text(*self),
    {
        match self {
            Param::Receiver(rcv) => {
                if rcv.by_ref {
                    let mut r = String::from_str("&");
                    let lt = match &rcv.lifetime {
                        Some(l) => {
                            let mut t = l.clone();
                            t.append(" ");
                            t
                        },
                        None => String::new(),
                    };
                    r.append(lt.as_str());
                    r.append(text_if(rcv.ref_mut, "mut ").as_str());
                    r.append("self");
                    r
                } else {
                    let mut r = text_if(rcv.binding_mut, "mut ");
                    r.append("self");
                    let ty = match &rcv.ty {
                        Some(t) => {
                            let mut s = String::from_str(": ");
                            s.append(t.as_str());
                            s
                        },
                        None => String::new(),
                    };
                    r.append(ty.as_str());
                    r
                }
            },
            Param::Named { binding_mut, name, ty, .. } => {
                let mut r = text_if(*binding_mut, "mut ");
                r.append(name.as_str());
                r.append(": ");
                r.append(ty.as_str());
                r
            },
            Param::Pattern { pat, ty, .. } => {
                let mut r = pat.clone();
                r.append(": ");
                r.append(ty.as_str());
                r
            },
            Param::Placeholder { ty } => ty.clone(),
        }
    }
}

/// Source text of the parameters, separated by commas.
pub fn params_text(ps: &Vec<Param>) -> (r: String)
    ensures
        r@ == join(param_texts(ps@), ", "@),
{
    let mut texts: Vec<String> = Vec::new();
    let mut i: usize = 0;
    while i < ps.len()
        invariant
            i <= ps@.len(),
            texts@.len() == i,
            views(texts@) == param_texts(ps@.take(i as int)),
        decreases ps.len() - i,
    {
        let ghost before = texts@;
        texts.push(ps[i].to_source());
        assert forall|j: int| 0 <= j < i + 1 implies views(texts@)[j] == param_texts(
            ps@.take(i + 1),
        )[j] by {
            if j < i {
                assert(views(before)[j] == param_texts(ps@.take(i as int))[j]);
                assert(texts@[j] == before[j]);
            }
        }
        assert(views(texts@) =~= param_texts(ps@.take(i + 1)));
        i = i + 1;
    }
    assert(ps@.take(i as int) =~= ps@);
    join_strings(&texts, ", ")
}

impl Header {
    /// Source text of the header.
    pub fn to_source(&self) -> (r: String)
        ensures
            r@ == header_text(*self),
    {
        let mut r = spaced_string(join_strings(&self.attrs, " "));
        r.append(spaced_string(self.vis.clone()).as_str());
        r.append(text_if(self.constness, "const ").as_str());
        r.append(text_if(self.asyncness, "async ").as_str());
        r.append(text_if(self.unsafety, "unsafe ").as_str());
        let abi = match &self.abi {
            Some(a) => {
                let mut s = a.clone();
                s.append(" ");
                s
            },
            None => String::new(),
        };
        r.append(abi.as_str());
        r.append("fn ");
        r.append(self.name.as_str());
        r.append(self.generics.as_str());
        r.append("(");
        r.append(params_text(&self.params).as_str());
        let dots = if !self.variadic {
            String::new()
        } else if self.params.len() == 0 {
            String::from_str("...")
        } else {
            String::from_str(", ...")
        };
        r.append(dots.as_str());
        r.append(")");
        let output = match &self.output {
            Some(o) => {
                let mut s = String::from_str(" -> ");
                s.append(o.as_str());
                s
            },
            None => String::new(),
        };
        r.append(output.as_str());
        let preds = if self.where_preds.len() > 0 {
            let mut s = String::from_str(" where ");
            s.append(join_strings(&self.where_preds, ", ").as_str());
            s
        } else {
            String::new()
        };
        r.append(preds.as_str());
        r
    }
}

impl TransformedPair {
    /// Source text of the forwarding call.
    pub fn call_source(&self) -> (r: String)
        ensures
            r@ == call_text(*self),
    {
        let mut r = match self.dispatch {
            Dispatch::Free => String::new(),
            Dispatch::Receiver => String::from_str("self."),
            Dispatch::SelfAlias => String::from_str("Self::"),
        };
        r.append(self.inner.name.as_str());
        let turbofish = if self.type_args.len() > 0 {
            let mut s = String::from_str("::<");
            s.append(join_strings(&self.type_args, ", ").as_str());
            s.append(">");
            s
        } else {
            String::new()
        };
        r.append(turbofish.as_str());
        r.append("(");
        r.append(join_strings(&self.args, ", ").as_str());
        r.append(")");
        r.append(text_if(self.outer.asyncness, ".await").as_str());
        r
    }

    /// Source text of the split.
    pub fn to_source(&self) -> (r: String)
        ensures
            r@ == pair_text(*self),
    {
        let mut inner = String::from_str("#[doc(hidden)] #[inline] ");
        inner.append(self.inner.to_source().as_str());
        inner.append(" ");
        inner.append(self.inner_body.as_str());
        let call = self.call_source();
        match self.dispatch {
            Dispatch::Free => {
                let mut r = self.outer.to_source();
                r.append(" { ");
                r.append(inner.as_str());
                r.append(" ");
                r.append(call.as_str());
                r.append(" }");
                r
            },
            _ => {
                let mut r = inner;
                r.append(" ");
                r.append(self.outer.to_source().as_str());
                r.append(" { ");
                r.append(call.as_str());
                r.append(" }");
                r
            },
        }
    }
}

impl InterfaceDecl {
    /// Source text of the declaration and its placeholder.
    pub fn to_source(&self) -> (r: String)
        ensures
            r@ == interface_text(*self),
    {
        let mut r = self.decl.to_source();
        r.append(";");
        r.append(" ");
        r.append("#[doc(hidden)] #[inline] ");
        r.append(self.placeholder.to_source().as_str());
        r.append(" ");
        r.append("{ unreachable!(\"not to be called\") }");
        r
    }
}

impl TraitDef {
    /// Source text of the trait definition.
    pub fn to_source(&self) -> (r: String)
        ensures
            r@ == trait_text(*self),
    {
        let mut r = spaced_string(join_strings(&self.attrs, " "));
        r.append(spaced_string(self.vis.clone()).as_str());
        r.append(text_if(self.unsafety, "unsafe ").as_str());
        r.append(self.rest.as_str());
        r
    }
}

impl Transformed {
    /// Source text of the output.
    pub fn to_source(&self) -> (r: String)
        ensures
            r@ == transformed_text(*self),
    {
        match self {
            Transformed::Split(p) => p.to_source(),
            Transformed::Interface(i) => i.to_source(),
            Transformed::Trait(t) => t.to_source(),
        }
    }
}

} // verus!
