use unsafe_fn::builder::{Dispatch, Transformed};
use unsafe_fn::classify::{classify, classify_params};
use unsafe_fn::model::{Body, Decl, Item, Mark, Param, RawParam, RawPat, Receiver, TraitDef};
use unsafe_fn::names::{decimal_string, make_inner_name, make_synthetic_name};
use unsafe_fn::self_ref::has_self_type;
use unsafe_fn::split::split_params;
use unsafe_fn::transform::{safe_body, unsafe_fn, unsafe_fn_impl, Kind, TransformError};

fn s(x: &str) -> String {
    x.to_string()
}

fn named(binding_mut: bool, name: &str, ty: &str) -> Param {
    Param::Named { attrs: vec![], binding_mut, name: s(name), ty: s(ty) }
}

fn ref_self() -> Param {
    Param::Receiver(Receiver { attrs: vec![], by_ref: true, lifetime: None, ref_mut: false, binding_mut: false, ty: None })
}

fn idents(xs: &[&str]) -> Vec<Mark> {
    xs.iter().map(|x| Mark::Ident(s(x))).collect()
}

fn decl(name: &str, params: Vec<Param>, output: Option<&str>, body: Option<(&str, Vec<Mark>)>) -> Decl {
    Decl {
        attrs: vec![],
        vis: s(""),
        constness: false,
        asyncness: false,
        unsafety: false,
        abi: None,
        name: s(name),
        generics: s(""),
        type_params: vec![],
        params,
        variadic: false,
        output: output.map(s),
        where_preds: vec![],
        signature_marks: vec![],
        body: body.map(|(text, marks)| Body { text: s(text), marks }),
    }
}

fn source(r: Result<Transformed, TransformError>) -> String {
    match r {
        Ok(t) => t.to_source(),
        Err(_) => panic!("the transformation was refused"),
    }
}

#[test]
fn two_parameter_function_forwards_both() {
    let f = decl(
        "f",
        vec![named(false, "x", "u32"), named(false, "y", "String")],
        Some("u32"),
        Some(("{ x + y.len() as u32 }", idents(&["x", "y", "len", "u32"]))),
    );
    assert_eq!(
        source(unsafe_fn(Item::Function(f))),
        "unsafe fn f(x: u32, y: String) -> u32 { #[doc(hidden)] #[inline] \
         fn __unsafe_fn_f(x: u32, y: String) -> u32 { x + y.len() as u32 } __unsafe_fn_f(x, y) }"
    );
}

#[test]
fn reference_receiver_dispatches_through_self() {
    let m = decl(
        "m",
        vec![ref_self(), named(false, "k", "u32")],
        Some("u32"),
        Some(("{ self.field + k }", idents(&["self", "field", "k"]))),
    );
    match unsafe_fn(Item::Function(m)) {
        Ok(Transformed::Split(p)) => {
            assert!(matches!(p.dispatch, Dispatch::Receiver));
            assert_eq!(p.call_source(), "self.__unsafe_fn_m(k)");
            assert_eq!(p.outer.to_source(), "unsafe fn m(&self, k: u32) -> u32");
            assert_eq!(p.inner.to_source(), "fn __unsafe_fn_m(&self, k: u32) -> u32");
        }
        _ => panic!("expected a split"),
    }
}

#[test]
fn tuple_pattern_gets_a_synthetic_name() {
    let g = decl(
        "g",
        vec![Param::Pattern { attrs: vec![], pat: s("(a, b)"), ty: s("(u32, u32)") }],
        Some("u32"),
        Some(("{ a + b }", idents(&["a", "b"]))),
    );
    match unsafe_fn(Item::Function(g)) {
        Ok(Transformed::Split(p)) => {
            assert_eq!(p.outer.to_source(), "unsafe fn g(__unsafe_fn_arg0: (u32, u32)) -> u32");
            assert_eq!(p.inner.to_source(), "fn __unsafe_fn_g((a, b): (u32, u32)) -> u32");
            assert_eq!(p.args, vec![s("__unsafe_fn_arg0")]);
        }
        _ => panic!("expected a split"),
    }
}

#[test]
fn trait_method_without_body_gets_a_placeholder() {
    let foo = decl("foo", vec![ref_self()], Some("u32"), None);
    assert_eq!(
        source(unsafe_fn(Item::Function(foo))),
        "unsafe fn foo(&self) -> u32; #[doc(hidden)] #[inline] \
         fn __unsafe_fn_foo(&self) -> u32 where Self: Sized { unreachable!(\"not to be called\") }"
    );
    let mut generic = decl("generic", vec![ref_self()], Some("Q"), None);
    generic.generics = s("<Q>");
    generic.type_params = vec![s("Q")];
    generic.where_preds = vec![s("Q: Default")];
    assert_eq!(
        source(unsafe_fn(Item::Function(generic))),
        "unsafe fn generic<Q>(&self) -> Q where Q: Default; #[doc(hidden)] #[inline] \
         fn __unsafe_fn_generic<Q>(&self) -> Q where Q: Default, Self: Sized { unreachable!(\"not to be called\") }"
    );
}

#[test]
fn default_method_and_override_dispatch_through_self() {
    // A default method calling another trait method, and its override:
    // both forward through the receiver, so dynamic dispatch is kept.
    let default_bar = decl(
        "bar",
        vec![ref_self()],
        Some("u32"),
        Some(("{ unsafe { self.foo() } }", idents(&["self", "foo"]))),
    );
    let override_bar = decl(
        "bar",
        vec![ref_self()],
        Some("u32"),
        Some(("{ unsafe { self.foo() + 2 } }", idents(&["self", "foo"]))),
    );
    for d in [default_bar, override_bar] {
        match unsafe_fn(Item::Function(d)) {
            Ok(Transformed::Split(p)) => {
                assert!(matches!(p.dispatch, Dispatch::Receiver));
                assert_eq!(p.call_source(), "self.__unsafe_fn_bar()");
            }
            _ => panic!("expected a split"),
        }
    }
}

#[test]
fn add_restriction_twice_fails() {
    let f = decl("f", vec![named(false, "x", "u32")], Some("u32"), Some(("{ x }", idents(&["x"]))));
    let first = unsafe_fn(Item::Function(f));
    let outer = match first {
        Ok(Transformed::Split(p)) => p.outer,
        _ => panic!("expected a split"),
    };
    assert!(outer.unsafety);
    let again = Decl {
        attrs: outer.attrs,
        vis: outer.vis,
        constness: outer.constness,
        asyncness: outer.asyncness,
        unsafety: outer.unsafety,
        abi: outer.abi,
        name: outer.name,
        generics: outer.generics,
        type_params: vec![],
        params: outer.params,
        variadic: outer.variadic,
        output: outer.output,
        where_preds: outer.where_preds,
        signature_marks: vec![],
        body: Some(Body { text: s("{ __unsafe_fn_f(x) }"), marks: idents(&["__unsafe_fn_f", "x"]) }),
    };
    assert!(matches!(unsafe_fn(Item::Function(again)), Err(TransformError::AlreadyMarked)));

    let t = TraitDef { attrs: vec![], vis: s("pub"), unsafety: false, rest: s("trait M {}") };
    let marked = match unsafe_fn(Item::Trait(t)) {
        Ok(Transformed::Trait(o)) => o,
        _ => panic!("expected a trait"),
    };
    assert_eq!(marked.to_source(), "pub unsafe trait M {}");
    assert!(matches!(unsafe_fn(Item::Trait(marked)), Err(TransformError::AlreadyMarked)));
}

#[test]
fn safe_body_requires_the_marker() {
    let f = decl("f", vec![], None, Some(("{}", vec![])));
    assert!(matches!(safe_body(Item::Function(f)), Err(TransformError::NotMarked)));
    let t = TraitDef { attrs: vec![], vis: s(""), unsafety: true, rest: s("trait M {}") };
    match safe_body(Item::Trait(t)) {
        Err(TransformError::UnsupportedConstruct { kind }) => assert_eq!(kind, "trait"),
        _ => panic!("expected a refusal"),
    }
}

#[test]
fn other_items_are_refused() {
    match unsafe_fn(Item::Other { kind: s("struct") }) {
        Err(TransformError::UnsupportedConstruct { kind }) => assert_eq!(kind, "struct"),
        _ => panic!("expected a refusal"),
    }
    match safe_body(Item::Other { kind: s("impl") }) {
        Err(TransformError::UnsupportedConstruct { kind }) => assert_eq!(kind, "impl"),
        _ => panic!("expected a refusal"),
    }
}

#[test]
fn receiver_after_first_parameter_is_refused() {
    let f = decl("f", vec![named(false, "x", "u32"), ref_self()], None, Some(("{}", vec![])));
    assert!(matches!(
        unsafe_fn_impl(f, Kind::UnsafeFn),
        Err(TransformError::UnsupportedParameterShape)
    ));
    // Without a body nothing is split, so nothing is refused.
    let g = decl("g", vec![named(false, "x", "u32"), ref_self()], None, None);
    assert!(unsafe_fn_impl(g, Kind::UnsafeFn).is_ok());
}

#[test]
fn marker_is_checked_before_the_parameters() {
    let mut f = decl("f", vec![named(false, "x", "u32"), ref_self()], None, Some(("{}", vec![])));
    f.unsafety = true;
    assert!(matches!(unsafe_fn_impl(f, Kind::UnsafeFn), Err(TransformError::AlreadyMarked)));
}

#[test]
fn forwarding_keeps_count_and_order() {
    let params = vec![
        ref_self(),
        named(true, "a", "u8"),
        Param::Pattern { attrs: vec![], pat: s("(b, c)"), ty: s("(u8, u8)") },
        named(false, "d", "u8"),
        Param::Pattern { attrs: vec![], pat: s("_"), ty: s("u8") },
        Param::Placeholder { ty: s("u16") },
    ];
    let split = split_params(params).unwrap();
    assert!(split.via_receiver);
    assert_eq!(split.outer.len(), 6);
    assert_eq!(split.inner.len(), 6);
    assert_eq!(
        split.args,
        vec![s("a"), s("__unsafe_fn_arg0"), s("d"), s("__unsafe_fn_arg1")]
    );
    let outer: Vec<String> = split.outer.iter().map(|p| p.to_source()).collect();
    assert_eq!(
        outer,
        vec![
            s("&self"),
            s("a: u8"),
            s("__unsafe_fn_arg0: (u8, u8)"),
            s("d: u8"),
            s("__unsafe_fn_arg1: u8"),
            s("u16"),
        ]
    );
    let inner: Vec<String> = split.inner.iter().map(|p| p.to_source()).collect();
    assert_eq!(inner[1], "mut a: u8");
    assert_eq!(inner[2], "(b, c): (u8, u8)");
}

#[test]
fn mutable_reference_receiver_is_kept() {
    let p = Param::Receiver(Receiver {
        attrs: vec![],
        by_ref: true,
        lifetime: Some(s("'a")),
        ref_mut: true,
        binding_mut: false,
        ty: None,
    });
    let split = split_params(vec![p]).unwrap();
    assert_eq!(split.outer[0].to_source(), "&'a mut self");
    assert!(split.args.is_empty());
}

#[test]
fn synthetic_names_count_from_zero() {
    assert_eq!(make_synthetic_name(0), "__unsafe_fn_arg0");
    assert_eq!(make_synthetic_name(12), "__unsafe_fn_arg12");
    assert_eq!(decimal_string(0), "0");
    assert_eq!(decimal_string(907), "907");
    assert_eq!(decimal_string(usize::MAX), usize::MAX.to_string());
}

#[test]
fn inner_name_strips_the_raw_prefix() {
    assert_eq!(make_inner_name(&s("r#match")), "__unsafe_fn_match");
    assert_eq!(make_inner_name(&s("hello")), "__unsafe_fn_hello");
    assert_eq!(make_inner_name(&s("r")), "__unsafe_fn_r");
}

#[test]
fn self_search_skips_nested_items() {
    assert!(has_self_type(&idents(&["a", "Self"])));
    assert!(!has_self_type(&idents(&["a", "SelfType", "self"])));
    let nested = vec![
        Mark::EnterItem,
        Mark::Ident(s("Self")),
        Mark::LeaveItem,
        Mark::Ident(s("x")),
    ];
    assert!(!has_self_type(&nested));
    let after = vec![Mark::EnterItem, Mark::LeaveItem, Mark::Ident(s("Self"))];
    assert!(has_self_type(&after));
    assert!(!has_self_type(&vec![]));
}

#[test]
fn self_in_signature_dispatches_through_the_alias() {
    let mut f = decl("make", vec![], Some("Self"), Some(("{ todo }", vec![])));
    f.signature_marks = idents(&["Self"]);
    match unsafe_fn(Item::Function(f)) {
        Ok(Transformed::Split(p)) => {
            assert!(matches!(p.dispatch, Dispatch::SelfAlias));
            assert_eq!(p.call_source(), "Self::__unsafe_fn_make()");
        }
        _ => panic!("expected a split"),
    }
}

#[test]
fn qualifiers_and_attributes_are_kept() {
    let mut f = decl("f", vec![], None, Some(("{}", vec![])));
    f.attrs = vec![s("#[must_use]"), s("#[inline]")];
    f.vis = s("pub(crate)");
    f.constness = true;
    f.asyncness = false;
    match unsafe_fn(Item::Function(f)) {
        Ok(Transformed::Split(p)) => {
            assert_eq!(p.outer.to_source(), "#[must_use] #[inline] pub(crate) const unsafe fn f()");
            assert_eq!(p.inner.to_source(), "const fn __unsafe_fn_f()");
        }
        _ => panic!("expected a split"),
    }
}

fn attrs(xs: &[&str]) -> Vec<String> {
    xs.iter().map(|x| s(x)).collect()
}

#[test]
fn parameter_attributes_reach_both_signatures() {
    let params = vec![
        Param::Pattern {
            attrs: attrs(&["#[allow(unused)]", "#[cfg(all())]"]),
            pat: s("(a, b)"),
            ty: s("(u32, u32)"),
        },
        Param::Named { attrs: attrs(&["#[allow(unused_mut)]"]), binding_mut: true, name: s("c"), ty: s("u8") },
    ];
    let f = decl("f", params, Some("u32"), Some(("{ a + b }", idents(&["a", "b"]))));
    match unsafe_fn(Item::Function(f)) {
        Ok(Transformed::Split(p)) => {
            assert_eq!(
                p.outer.to_source(),
                "unsafe fn f(#[allow(unused)] #[cfg(all())] __unsafe_fn_arg0: (u32, u32), \
                 #[allow(unused_mut)] c: u8) -> u32"
            );
            assert_eq!(
                p.inner.to_source(),
                "fn __unsafe_fn_f(#[allow(unused)] #[cfg(all())] (a, b): (u32, u32), \
                 #[allow(unused_mut)] mut c: u8) -> u32"
            );
            assert_eq!(p.call_source(), "__unsafe_fn_f(__unsafe_fn_arg0, c)");
        }
        _ => panic!("expected a split"),
    }
}

#[test]
fn async_call_is_awaited() {
    let mut f = decl("f", vec![named(false, "x", "u32")], Some("u32"), Some(("{ x }", idents(&["x"]))));
    f.asyncness = true;
    match unsafe_fn(Item::Function(f)) {
        Ok(Transformed::Split(p)) => {
            assert_eq!(p.call_source(), "__unsafe_fn_f(x).await");
            assert_eq!(p.outer.to_source(), "async unsafe fn f(x: u32) -> u32");
            assert_eq!(p.inner.to_source(), "async fn __unsafe_fn_f(x: u32) -> u32");
        }
        _ => panic!("expected a split"),
    }
}

#[test]
fn variadic_body_is_refused_and_declaration_kept() {
    let mut f = decl("f", vec![named(false, "x", "i32")], None, Some(("{}", vec![])));
    f.variadic = true;
    assert!(matches!(
        unsafe_fn(Item::Function(f)),
        Err(TransformError::UnsupportedParameterShape)
    ));
    let mut g = decl("g", vec![named(false, "x", "i32")], None, None);
    g.variadic = true;
    match unsafe_fn(Item::Function(g)) {
        Ok(Transformed::Interface(i)) => assert_eq!(i.decl.to_source(), "unsafe fn g(x: i32, ...)"),
        _ => panic!("expected an interface declaration"),
    }
}

fn ident_pat(by_ref: bool, mutable: bool, name: &str, has_subpat: bool, text: &str) -> RawPat {
    RawPat::Ident { by_ref, mutable, name: s(name), has_subpat, text: s(text) }
}

#[test]
fn classifier_tells_parameter_shapes_apart() {
    match classify(RawParam::Typed { attrs: vec![], pat: ident_pat(false, true, "x", false, "mut x"), ty: s("u8") }) {
        Param::Named { binding_mut, name, ty, .. } => {
            assert!(binding_mut);
            assert_eq!(name, "x");
            assert_eq!(ty, "u8");
        }
        _ => panic!("expected a named parameter"),
    }
    match classify(RawParam::Typed {
        attrs: attrs(&["#[a]"]),
        pat: ident_pat(false, false, "self", false, "self"),
        ty: s("Box<Self>"),
    }) {
        Param::Receiver(r) => {
            assert_eq!(r.ty, Some(s("Box<Self>")));
            assert_eq!(r.attrs, attrs(&["#[a]"]));
            assert!(!r.by_ref);
        }
        _ => panic!("expected a receiver"),
    }
    match classify(RawParam::Typed { attrs: vec![], pat: ident_pat(true, false, "x", false, "ref x"), ty: s("u8") }) {
        Param::Pattern { pat, .. } => assert_eq!(pat, "ref x"),
        _ => panic!("expected a pattern"),
    }
    match classify(RawParam::Typed {
        attrs: vec![],
        pat: ident_pat(false, false, "foo", true, "foo @ S { .. }"),
        ty: s("S"),
    }) {
        Param::Pattern { pat, .. } => assert_eq!(pat, "foo @ S { .. }"),
        _ => panic!("expected a pattern"),
    }
    let all = classify_params(vec![
        RawParam::Receiver(Receiver { attrs: vec![], by_ref: true, lifetime: None, ref_mut: true, binding_mut: false, ty: None }),
        RawParam::Typed { attrs: vec![], pat: RawPat::Other(s("(a, b)")), ty: s("(u8, u8)") },
        RawParam::Typed { attrs: vec![], pat: ident_pat(false, false, "c", false, "c"), ty: s("u8") },
    ]);
    let texts: Vec<String> = all.iter().map(|p| p.to_source()).collect();
    assert_eq!(texts, vec![s("&mut self"), s("(a, b): (u8, u8)"), s("c: u8")]);
}
