//! The per-function signature record and the derivation of lifetime
//! constraints from a parsed declaration's textual annotations.

use vstd::prelude::*;

verus! {

/// Argument lifetime constraint.
#[derive(Debug, Copy, Clone, PartialEq, Eq, Structural)]
pub enum Lt {
    /// Outlives another argument, given by its index.
    Arg(usize),
    /// Outlives the return value on the stack.
    ///
    /// This means that some variable must be declared
    /// and referenced before calling.
    Return,
    /// No specified lifetime.
    ///
    /// This means that the argument might be created
    /// after the return value on the stack.
    Default,
}

/// Type of a value in the scripting runtime.
///
/// `Void` is the designated "no value" return type of a void function.
#[derive(Debug, Copy, Clone, PartialEq, Eq, Structural)]
pub enum Type {
    Void,
    Any,
    Bool,
    Num,
    Str,
    Arr,
    Obj,
}

/// One argument of a parsed function declaration: a name, a type, and an
/// optional textual lifetime annotation.
#[derive(Debug)]
pub struct Arg {
    /// Argument name.
    pub name: String,
    /// Argument type.
    pub ty: Type,
    /// Lifetime annotation text, if the declaration carries one.
    pub lifetime: Option<String>,
}

/// A parsed function declaration: its namespace path, its name, its ordered
/// arguments, and its return type.
#[derive(Debug)]
pub struct Function {
    /// Namespace path the function is declared under.
    pub namespace: Vec<String>,
    /// Function name.
    pub name: String,
    /// Ordered arguments.
    pub args: Vec<Arg>,
    /// Return type; `Type::Void` for a void function.
    pub ret: Type,
}

/// Failure conditions of signature derivation and registry construction.
#[derive(Debug)]
pub enum PreludeError {
    /// A lifetime annotation names no sibling argument and is not the
    /// `"return"` keyword; carries the unresolved annotation text.
    MalformedSignature(String),
    /// A built-in's computed index does not equal its expected index; carries
    /// the built-in's name. This signals that the built-in table and some
    /// hard-coded index table have desynchronized, so construction must be
    /// abandoned rather than continued with misnumbered built-ins.
    BuiltinIndexDrift(String),
}

/// Argument `j` is the first argument, in declaration order, whose name
/// equals the annotation text.
pub open spec fn resolves_to(args: Seq<Arg>, text: Seq<char>, j: int) -> bool {
    &&& 0 <= j < args.len()
    &&& args[j].name@ == text
    &&& forall|k: int| 0 <= k < j ==> args[k].name@ != text
}

/// Argument `i`'s annotation can be derived: it is absent, it is the
/// `"return"` keyword, or it names some argument of the same declaration
/// (itself included).
pub open spec fn resolvable(args: Seq<Arg>, i: int) -> bool {
    match args[i].lifetime {
        None => true,
        Some(text) => text@ == "return"@ || (exists|j: int| 0 <= j < args.len() && args[j].name@ == text@),
    }
}

/// `lt` is the lifetime constraint derived for argument `i`: `Default`
/// without an annotation, `Return` for the `"return"` keyword, and otherwise
/// the index of the first argument whose name equals the annotation text.
pub open spec fn lt_ok(args: Seq<Arg>, i: int, lt: Lt) -> bool {
    match args[i].lifetime {
        None => lt == Lt::Default,
        Some(text) => if text@ == "return"@ {
            lt == Lt::Return
        } else {
            lt matches Lt::Arg(j) && resolves_to(args, text@, j as int)
        },
    }
}

/// Every argument of the declaration derives a constraint.
pub open spec fn decl_resolvable(f: Function) -> bool {
    forall|i: int| 0 <= i < f.args@.len() ==> resolvable(f.args@, i)
}

/// `t` is the annotation text of the first argument, in declaration order,
/// whose annotation cannot be derived.
pub open spec fn malformed_text_of(f: Function, t: Seq<char>) -> bool {
    exists|i: int|
        #![trigger resolvable(f.args@, i)]
        {
            &&& 0 <= i < f.args@.len()
            &&& !resolvable(f.args@, i)
            &&& forall|j: int| 0 <= j < i ==> resolvable(f.args@, j)
            &&& f.args@[i].lifetime matches Some(a) && a@ == t
        }
}

/// Stores preloaded function constraints.
/// These are already checked.
#[derive(Debug)]
pub struct Dfn {
    /// Lifetimes of argument.
    pub lts: Vec<Lt>,
    /// Argument types of function.
    pub tys: Vec<Type>,
    /// Return type of function.
    pub ret: Type,
}

/// Mathematical value of a `Dfn`.
#[verifier::ext_equal]
pub struct DfnView {
    /// Lifetime constraints, one per parameter.
    pub lts: Seq<Lt>,
    /// Parameter types.
    pub tys: Seq<Type>,
    /// Return type.
    pub ret: Type,
}

impl View for Dfn {
    type V = DfnView;

    open spec fn view(&self) -> DfnView {
        DfnView { lts: self.lts@, tys: self.tys@, ret: self.ret }
    }
}

/// `s` is the signature derived from declaration `f`: the argument types in
/// declaration order, the derived constraint per argument, and `f`'s return
/// type.
pub open spec fn derived_sig_ok(f: Function, s: DfnView) -> bool {
    &&& s.lts.len() == f.args@.len()
    &&& s.tys.len() == f.args@.len()
    &&& forall|i: int| 0 <= i < f.args@.len() ==> lt_ok(f.args@, i, #[trigger] s.lts[i])
    &&& forall|i: int| 0 <= i < f.args@.len() ==> #[trigger] s.tys[i] == f.args@[i].ty
    &&& s.ret == f.ret
}

/// Copies a vector of plain values.
pub(crate) fn copy_vec<T: Copy>(v: &Vec<T>) -> (r: Vec<T>)
    ensures
        r@ == v@,
{
    let mut r: Vec<T> = Vec::new();
    let mut k: usize = 0;
    while k < v.len()
        invariant
            k <= v@.len(),
            r@.len() == k as int,
            forall|i: int| 0 <= i < k ==> r@[i] == v@[i],
        decreases v@.len() - k,
    {
        r.push(v[k]);
        k += 1;
    }
    proof {
        assert(r@ =~= v@);
    }
    r
}

impl Dfn {
    /// The structural invariant: one lifetime constraint per parameter.
    pub open spec fn wf(self) -> bool {
        self.lts@.len() == self.tys@.len()
    }

    /// Creates a new function signature with no lifetime: every parameter is
    /// `Lt::Default`.
    pub fn nl(args: Vec<Type>, ret: Type) -> (r: Dfn)
        ensures
            r.wf(),
            r@.tys == args@,
            r@.ret == ret,
            r@.lts.len() == args@.len(),
            forall|i: int| 0 <= i < args@.len() ==> r@.lts[i] == Lt::Default,
    {
        let n = args.len();
        let mut lts: Vec<Lt> = Vec::new();
        let mut k: usize = 0;
        while k < n
            invariant
                k <= n,
                lts@.len() == k as int,
                forall|i: int| 0 <= i < k ==> lts@[i] == Lt::Default,
            decreases n - k,
        {
            lts.push(Lt::Default);
            k += 1;
        }
        Dfn { lts, tys: args, ret }
    }

    /// Creates a new function signature from a parsed function declaration,
    /// deriving each argument's lifetime constraint from its annotation.
    ///
    /// Fails with `PreludeError::MalformedSignature`, naming the annotation
    /// text, on the first argument whose annotation is neither `"return"`
    /// nor the name of an argument of the same declaration.
    pub fn new(f: &Function) -> (r: Result<Dfn, PreludeError>)
        ensures
            r is Ok <==> decl_resolvable(*f),
            r matches Ok(d) ==> d.wf() && derived_sig_ok(*f, d@),
            r matches Err(e) ==> e matches PreludeError::MalformedSignature(t)
                && malformed_text_of(*f, t@),
    {
        let mut lts: Vec<Lt> = Vec::new();
        let mut tys: Vec<Type> = Vec::new();
        let ret_kw: String = "return".to_owned();
        let mut idx: usize = 0;
        while idx < f.args.len()
            invariant
                idx <= f.args@.len(),
                lts@.len() == idx as int,
                tys@.len() == idx as int,
                forall|i: int| 0 <= i < idx ==> resolvable(f.args@, i),
                forall|i: int| 0 <= i < idx ==> lt_ok(f.args@, i, #[trigger] lts@[i]),
                forall|i: int| 0 <= i < idx ==> #[trigger] tys@[i] == f.args@[i].ty,
                ret_kw@ == "return"@,
            decreases f.args@.len() - idx,
        {
            let arg = &f.args[idx];
            tys.push(arg.ty);
            match &arg.lifetime {
                None => {
                    lts.push(Lt::Default);
                }
                Some(text) => {
                    if *text == ret_kw {
                        lts.push(Lt::Return);
                    } else {
                        match find_arg(&f.args, text) {
                            Some(j) => {
                                lts.push(Lt::Arg(j));
                            }
                            None => {
                                proof {
                                    assert(!resolvable(f.args@, idx as int));
                                }
                                return Err(PreludeError::MalformedSignature(text.clone()));
                            }
                        }
                    }
                }
            }
            idx += 1;
        }
        Ok(Dfn { lts, tys, ret: f.ret })
    }

    /// Returns `true` if the function returns something.
    pub fn returns_value(&self) -> (r: bool)
        ensures
            r == (self@.ret != Type::Void),
    {
        self.ret != Type::Void
    }
}

impl Clone for Dfn {
    /// A copy with the same mathematical value.
    fn clone(&self) -> (r: Dfn)
        ensures
            r@ == self@,
    {
        Dfn { lts: copy_vec(&self.lts), tys: copy_vec(&self.tys), ret: self.ret }
    }
}

/// Finds the first argument, in declaration order, whose name equals the
/// annotation text.
fn find_arg(args: &Vec<Arg>, text: &String) -> (r: Option<usize>)
    ensures
        match r {
            Some(j) => resolves_to(args@, text@, j as int),
            None => forall|k: int| 0 <= k < args@.len() ==> args@[k].name@ != text@,
        },
{
    let mut j: usize = 0;
    while j < args.len()
        invariant
            j <= args@.len(),
            forall|k: int| 0 <= k < j ==> args@[k].name@ != text@,
        decreases args@.len() - j,
    {
        let arg = &args[j];
        if arg.name == *text {
            return Some(j);
        }
        j += 1;
    }
    None
}

} // verus!
