use script_prelude::registry::{ExtSig, Intrinsic, Module, Prelude};
use script_prelude::sig::{Arg, Dfn, Function, Lt, PreludeError, Type};

fn builtin(name: &str, index: usize, dfn: Dfn) -> Intrinsic {
    Intrinsic { name: name.to_owned(), index, dfn }
}

fn standard_builtins() -> Vec<Intrinsic> {
    vec![
        builtin("print", 0, Dfn::nl(vec![Type::Any], Type::Void)),
        builtin("len", 1, Dfn::nl(vec![Type::Arr], Type::Num)),
    ]
}

#[test]
fn empty_registry_finds_nothing() {
    let p = Prelude::new();
    assert_eq!(p.lookup(&"print".to_owned()), None);
    assert!(p.signature(0).is_none());
}

#[test]
fn default_is_empty() {
    let p = Prelude::default();
    assert_eq!(p.lookup(&"f".to_owned()), None);
}

#[test]
fn insert_then_lookup() {
    let mut p = Prelude::new();
    p.insert(vec!["std".to_owned()], "f".to_owned(), Dfn::nl(vec![], Type::Num));
    assert_eq!(p.lookup(&"f".to_owned()), Some(0));
    let d = p.signature(0).unwrap();
    assert_eq!(d.ret, Type::Num);
}

#[test]
fn insert_shadows_name_lookup() {
    let mut p = Prelude::new();
    p.insert(vec![], "f".to_owned(), Dfn::nl(vec![], Type::Void));
    p.insert(vec![], "f".to_owned(), Dfn::nl(vec![Type::Num], Type::Num));
    // the name resolves to the later entry
    assert_eq!(p.lookup(&"f".to_owned()), Some(1));
    let new = p.signature(1).unwrap();
    assert_eq!(new.ret, Type::Num);
    // the shadowed signature stays retrievable by its original index
    let old = p.signature(0).unwrap();
    assert_eq!(old.ret, Type::Void);
    assert_eq!(old.tys.len(), 0);
}

#[test]
fn intrinsic_wrong_index_fails() {
    let mut p = Prelude::new();
    let e = p.intrinsic("x".to_owned(), 1, Dfn::nl(vec![], Type::Void)).unwrap_err();
    assert!(matches!(e, PreludeError::BuiltinIndexDrift(t) if t == "x"));
    // the failed registration left no entry behind
    assert_eq!(p.lookup(&"x".to_owned()), None);
    assert!(p.signature(0).is_none());
}

#[test]
fn intrinsic_expected_index_succeeds() {
    let mut p = Prelude::new();
    p.intrinsic("x".to_owned(), 0, Dfn::nl(vec![], Type::Void)).unwrap();
    assert_eq!(p.lookup(&"x".to_owned()), Some(0));
}

#[test]
fn new_intrinsics_seeds_in_order() {
    let p = Prelude::new_intrinsics(&standard_builtins()).unwrap();
    assert_eq!(p.lookup(&"print".to_owned()), Some(0));
    assert_eq!(p.lookup(&"len".to_owned()), Some(1));
    assert!(!p.signature(0).unwrap().returns_value());
    assert!(p.signature(1).unwrap().returns_value());
}

#[test]
fn new_intrinsics_index_drift_fails() {
    let table = vec![
        builtin("print", 0, Dfn::nl(vec![Type::Any], Type::Void)),
        builtin("len", 2, Dfn::nl(vec![Type::Arr], Type::Num)),
    ];
    let e = Prelude::new_intrinsics(&table).unwrap_err();
    assert!(matches!(e, PreludeError::BuiltinIndexDrift(t) if t == "len"));
}

#[test]
fn from_module_declared_function() {
    // seed built-ins {print -> 0, len -> 1}; the module declares one function
    // "double" over a numeric parameter without a lifetime annotation
    let module = Module {
        ext_prelude: vec![],
        functions: vec![Function {
            namespace: vec!["main".to_owned()],
            name: "double".to_owned(),
            args: vec![Arg { name: "x".to_owned(), ty: Type::Num, lifetime: None }],
            ret: Type::Num,
        }],
    };
    let p = Prelude::from_module(&module, &standard_builtins()).unwrap();
    assert_eq!(p.lookup(&"double".to_owned()), Some(2));
    let d = p.signature(2).unwrap();
    assert_eq!(d.tys, vec![Type::Num]);
    assert_eq!(d.lts, vec![Lt::Default]);
    assert_eq!(d.ret, Type::Num);
    assert!(d.returns_value());
}

#[test]
fn from_module_shadows_builtin() {
    // the built-ins define "foo"; the module declares "foo" too
    let table = vec![
        builtin("foo", 0, Dfn::nl(vec![], Type::Void)),
        builtin("len", 1, Dfn::nl(vec![Type::Arr], Type::Num)),
    ];
    let module = Module {
        ext_prelude: vec![],
        functions: vec![Function {
            namespace: vec![],
            name: "foo".to_owned(),
            args: vec![],
            ret: Type::Str,
        }],
    };
    let p = Prelude::from_module(&module, &table).unwrap();
    // the name resolves to the module's version
    assert_eq!(p.lookup(&"foo".to_owned()), Some(2));
    assert_eq!(p.signature(2).unwrap().ret, Type::Str);
    // the built-in's entry is reachable only by its original index
    assert_eq!(p.signature(0).unwrap().ret, Type::Void);
}

#[test]
fn from_module_layers_external_prelude_between() {
    let module = Module {
        ext_prelude: vec![ExtSig {
            namespace: vec!["host".to_owned()],
            name: "draw".to_owned(),
            p: Dfn::nl(vec![Type::Obj], Type::Void),
        }],
        functions: vec![Function {
            namespace: vec![],
            name: "tick".to_owned(),
            args: vec![],
            ret: Type::Void,
        }],
    };
    let p = Prelude::from_module(&module, &standard_builtins()).unwrap();
    assert_eq!(p.lookup(&"print".to_owned()), Some(0));
    assert_eq!(p.lookup(&"draw".to_owned()), Some(2));
    assert_eq!(p.lookup(&"tick".to_owned()), Some(3));
    assert_eq!(p.signature(2).unwrap().tys, vec![Type::Obj]);
}

#[test]
fn from_module_external_entry_shadows_builtin_and_is_shadowed() {
    let module = Module {
        ext_prelude: vec![ExtSig {
            namespace: vec![],
            name: "print".to_owned(),
            p: Dfn::nl(vec![Type::Str], Type::Void),
        }],
        functions: vec![Function {
            namespace: vec![],
            name: "print".to_owned(),
            args: vec![Arg { name: "x".to_owned(), ty: Type::Any, lifetime: None }],
            ret: Type::Bool,
        }],
    };
    let p = Prelude::from_module(&module, &standard_builtins()).unwrap();
    // the module's own declaration wins over both earlier layers
    assert_eq!(p.lookup(&"print".to_owned()), Some(3));
    assert_eq!(p.signature(3).unwrap().ret, Type::Bool);
    // both earlier layers stay at their indices
    assert_eq!(p.signature(0).unwrap().tys, vec![Type::Any]);
    assert_eq!(p.signature(2).unwrap().tys, vec![Type::Str]);
}

#[test]
fn from_module_malformed_declaration_fails() {
    let module = Module {
        ext_prelude: vec![],
        functions: vec![Function {
            namespace: vec![],
            name: "bad".to_owned(),
            args: vec![Arg { name: "x".to_owned(), ty: Type::Num, lifetime: Some("q".to_owned()) }],
            ret: Type::Void,
        }],
    };
    let e = Prelude::from_module(&module, &standard_builtins()).unwrap_err();
    assert!(matches!(e, PreludeError::MalformedSignature(t) if t == "q"));
}

#[test]
fn from_module_index_drift_fails() {
    let table = vec![builtin("print", 7, Dfn::nl(vec![Type::Any], Type::Void))];
    let module = Module { ext_prelude: vec![], functions: vec![] };
    let e = Prelude::from_module(&module, &table).unwrap_err();
    assert!(matches!(e, PreludeError::BuiltinIndexDrift(t) if t == "print"));
}

#[test]
fn signature_out_of_range_is_none() {
    let p = Prelude::new_intrinsics(&standard_builtins()).unwrap();
    assert!(p.signature(2).is_none());
}
