use script_prelude::sig::{Arg, Dfn, Function, Lt, PreludeError, Type};

fn arg(name: &str, ty: Type, lifetime: Option<&str>) -> Arg {
    Arg { name: name.to_owned(), ty, lifetime: lifetime.map(|s| s.to_owned()) }
}

#[test]
fn nl_builds_unconstrained_signature() {
    let d = Dfn::nl(vec![Type::Num, Type::Str, Type::Bool], Type::Num);
    assert_eq!(d.lts.len(), 3);
    assert_eq!(d.tys.len(), 3);
    for lt in &d.lts {
        assert_eq!(*lt, Lt::Default);
    }
    assert_eq!(d.tys, vec![Type::Num, Type::Str, Type::Bool]);
    assert_eq!(d.ret, Type::Num);
    assert!(d.returns_value());
}

#[test]
fn nl_void_signature_returns_nothing() {
    let d = Dfn::nl(vec![], Type::Void);
    assert_eq!(d.lts.len(), 0);
    assert_eq!(d.ret, Type::Void);
    assert!(!d.returns_value());
}

#[test]
fn derive_return_annotation() {
    let f = Function {
        namespace: vec![],
        name: "push".to_owned(),
        args: vec![arg("arr", Type::Arr, Some("return")), arg("val", Type::Any, None)],
        ret: Type::Arr,
    };
    let d = Dfn::new(&f).unwrap();
    assert_eq!(d.lts, vec![Lt::Return, Lt::Default]);
    assert_eq!(d.tys, vec![Type::Arr, Type::Any]);
    assert_eq!(d.ret, Type::Arr);
}

#[test]
fn derive_sibling_annotation() {
    let f = Function {
        namespace: vec![],
        name: "borrow".to_owned(),
        args: vec![arg("owner", Type::Obj, None), arg("field", Type::Str, Some("owner"))],
        ret: Type::Void,
    };
    let d = Dfn::new(&f).unwrap();
    assert_eq!(d.lts, vec![Lt::Default, Lt::Arg(0)]);
}

#[test]
fn derive_self_reference() {
    let f = Function {
        namespace: vec![],
        name: "tie".to_owned(),
        args: vec![arg("knot", Type::Obj, Some("knot"))],
        ret: Type::Void,
    };
    let d = Dfn::new(&f).unwrap();
    assert_eq!(d.lts, vec![Lt::Arg(0)]);
}

#[test]
fn derive_first_match_wins() {
    // two arguments share a name (malformed upstream): the earlier one binds
    let f = Function {
        namespace: vec![],
        name: "dup".to_owned(),
        args: vec![
            arg("x", Type::Num, None),
            arg("x", Type::Str, None),
            arg("y", Type::Any, Some("x")),
        ],
        ret: Type::Void,
    };
    let d = Dfn::new(&f).unwrap();
    assert_eq!(d.lts, vec![Lt::Default, Lt::Default, Lt::Arg(0)]);
}

#[test]
fn return_keyword_wins_over_argument_named_return() {
    let f = Function {
        namespace: vec![],
        name: "odd".to_owned(),
        args: vec![arg("return", Type::Num, None), arg("x", Type::Num, Some("return"))],
        ret: Type::Num,
    };
    let d = Dfn::new(&f).unwrap();
    assert_eq!(d.lts, vec![Lt::Default, Lt::Return]);
}

#[test]
fn derive_unresolved_annotation_fails() {
    let f = Function {
        namespace: vec![],
        name: "bad".to_owned(),
        args: vec![arg("x", Type::Num, None), arg("y", Type::Num, Some("q"))],
        ret: Type::Void,
    };
    let e = Dfn::new(&f).unwrap_err();
    assert!(matches!(e, PreludeError::MalformedSignature(t) if t == "q"));
}

#[test]
fn derive_reports_first_unresolved_annotation() {
    let f = Function {
        namespace: vec![],
        name: "bad2".to_owned(),
        args: vec![arg("x", Type::Num, Some("ghost1")), arg("y", Type::Num, Some("ghost2"))],
        ret: Type::Void,
    };
    let e = Dfn::new(&f).unwrap_err();
    assert!(matches!(e, PreludeError::MalformedSignature(t) if t == "ghost1"));
}

#[test]
fn clone_keeps_signature() {
    let d = Dfn::nl(vec![Type::Num], Type::Bool);
    let c = d.clone();
    assert_eq!(c.lts, d.lts);
    assert_eq!(c.tys, d.tys);
    assert_eq!(c.ret, d.ret);
}
