//! The name-indexed, append-only signature registry and its construction
//! strategies: empty, seeded with built-ins, and layered from a module.

use vstd::prelude::*;
use crate::sig::{decl_resolvable, derived_sig_ok, malformed_text_of, Dfn, DfnView, Function,
    PreludeError};

verus! {

/// One built-in operation: its name, the index the runtime's fixed tables
/// expect it at, and its signature.
#[derive(Debug)]
pub struct Intrinsic {
    /// Built-in name.
    pub name: String,
    /// The index this entry must receive when the table is seeded in order.
    pub index: usize,
    /// Signature of the built-in.
    pub dfn: Dfn,
}

/// An externally supplied, already-resolved signature carried by a module.
#[derive(Debug)]
pub struct ExtSig {
    /// Namespace path the signature is registered under.
    pub namespace: Vec<String>,
    /// Name the signature is registered under.
    pub name: String,
    /// The signature itself.
    pub p: Dfn,
}

/// A compiled module: the externally supplied signatures injected into it,
/// and the function declarations it makes itself.
#[derive(Debug)]
pub struct Module {
    /// Externally supplied, already-resolved signatures.
    pub ext_prelude: Vec<ExtSig>,
    /// The module's own function declarations.
    pub functions: Vec<Function>,
}

/// Stores a prelude, used to load standard intrinsics and type check new
/// modules.
///
/// Three parallel structures share one index space: a name table mapping each
/// live name to the index of the last entry inserted under it, a dense
/// index-to-signature store, and a dense index-to-(namespace, name) store.
/// Both dense stores are append-only, so an entry shadowed by a later
/// insertion of its name stays retrievable by its original index.
#[derive(Debug)]
pub struct Prelude {
    pub(crate) functions: Vec<(String, usize)>,
    pub(crate) list: Vec<Dfn>,
    pub(crate) namespaces: Vec<(Vec<String>, String)>,
}

impl Prelude {
    /// Number of entries.
    pub closed spec fn spec_len(self) -> int {
        self.list@.len() as int
    }

    /// Name of the entry at index `i`.
    pub closed spec fn entry_name(self, i: int) -> Seq<char> {
        self.namespaces@[i].1@
    }

    /// Namespace path of the entry at index `i`.
    pub closed spec fn entry_ns(self, i: int) -> Seq<String> {
        self.namespaces@[i].0@
    }

    /// Signature of the entry at index `i`.
    pub closed spec fn sig_at(self, i: int) -> DfnView {
        self.list@[i]@
    }

    /// Key of the name-table binding at table position `k`.
    pub closed spec fn key_at(self, k: int) -> Seq<char> {
        self.functions@[k].0@
    }

    /// The name-table binding at table position `k` points at the last entry
    /// bearing its key.
    pub closed spec fn binding_ok(self, k: int) -> bool {
        let b = self.functions@[k];
        &&& (b.1 as int) < self.namespaces@.len()
        &&& self.entry_name(b.1 as int) == b.0@
        &&& forall|j: int| b.1 < j < self.namespaces@.len() ==> self.entry_name(j) != b.0@
    }

    /// The three-way invariant of the registry: the two dense stores run in
    /// step, every stored signature is well formed, and the name table binds
    /// each stored name — exactly once — to the last index bearing it.
    pub closed spec fn wf(self) -> bool {
        &&& self.list@.len() == self.namespaces@.len()
        &&& forall|i: int| 0 <= i < self.list@.len() ==> (#[trigger] self.list@[i]).wf()
        &&& forall|k: int| 0 <= k < self.functions@.len() ==> #[trigger] self.binding_ok(k)
        &&& forall|k1: int, k2: int|
            #![trigger self.key_at(k1), self.key_at(k2)]
            0 <= k1 < k2 < self.functions@.len() ==> self.key_at(k1) != self.key_at(k2)
        &&& forall|i: int|
            #![trigger self.entry_name(i)]
            0 <= i < self.namespaces@.len() ==> exists|k: int|
                0 <= k < self.functions@.len() && #[trigger] self.key_at(k) == self.entry_name(i)
    }

    /// Creates a new prelude.
    pub fn new() -> (r: Prelude)
        ensures
            r.wf(),
            r.spec_len() == 0,
    {
        Prelude { functions: Vec::new(), list: Vec::new(), namespaces: Vec::new() }
    }

    /// Adds type information of function.
    ///
    /// Appends the signature and its (namespace, name) at the next free
    /// index, then points the name table at that index — overwriting any
    /// prior binding of the name. This is the sole shadowing mechanism:
    /// the earlier entry stays retrievable by its original index.
    pub fn insert(&mut self, namespace: Vec<String>, name: String, f: Dfn)
        requires
            old(self).wf(),
            f.wf(),
            old(self).spec_len() < usize::MAX as int,
        ensures
            final(self).wf(),
            final(self).spec_len() == old(self).spec_len() + 1,
            final(self).entry_name(old(self).spec_len()) == name@,
            final(self).entry_ns(old(self).spec_len()) == namespace@,
            final(self).sig_at(old(self).spec_len()) == f@,
            forall|i: int|
                #![trigger final(self).entry_name(i)]
                #![trigger final(self).entry_ns(i)]
                #![trigger final(self).sig_at(i)]
                0 <= i < old(self).spec_len() ==> final(self).entry_name(i) == old(self).entry_name(i)
                    && final(self).entry_ns(i) == old(self).entry_ns(i)
                    && final(self).sig_at(i) == old(self).sig_at(i),
    {
        let n = self.list.len();
        let key = name.clone();
        let k_opt = find_binding(&self.functions, &name);
        match k_opt {
            Some(k) => {
                self.functions.set(k, (key, n));
            }
            None => {
                self.functions.push((key, n));
            }
        }
        self.list.push(f);
        self.namespaces.push((namespace, name));
        proof {
            let nn = n as int;
            assert(key@ == name@);
            assert(self.namespaces@.len() == nn + 1);
            assert(self.entry_name(nn) == name@);
            assert forall|i: int| 0 <= i < nn implies #[trigger] self.entry_name(i) == old(
                self,
            ).entry_name(i) by {}
            assert forall|k2: int| 0 <= k2 < self.functions@.len() implies self.binding_ok(k2) by {
                let b = self.functions@[k2];
                let is_new: bool = match k_opt {
                    Some(k) => k2 == k as int,
                    None => k2 == self.functions@.len() - 1,
                };
                if is_new {
                    assert(b.0 == key && b.1 == n);
                    assert(self.entry_name(b.1 as int) == b.0@);
                    // no index lies above nn, so the binding's key is unshadowed
                    assert(self.namespaces@.len() == nn + 1);
                } else {
                    assert(old(self).binding_ok(k2));
                    assert(b == old(self).functions@[k2]);
                    // the new last entry does not bear this binding's key
                    match k_opt {
                        Some(k) => {
                            assert(old(self).key_at(k as int) == name@);
                            assert(old(self).key_at(k2) != name@);
                        }
                        None => {
                            assert(old(self).key_at(k2) != name@);
                        }
                    }
                    assert(b.0@ != name@);
                    assert forall|j: int| b.1 < j < self.namespaces@.len() implies self.entry_name(
                        j,
                    ) != b.0@ by {
                        if j < nn {
                            assert(self.entry_name(j) == old(self).entry_name(j));
                            assert(old(self).entry_name(j) != b.0@);
                        } else {
                            assert(j == nn);
                        }
                    }
                    assert(self.entry_name(b.1 as int) == old(self).entry_name(b.1 as int));
                }
            }
            assert forall|k1: int, k2: int|
                0 <= k1 < k2 < self.functions@.len() implies self.key_at(k1) != self.key_at(
                k2,
            ) by {
                match k_opt {
                    Some(k) => {
                        assert(old(self).key_at(k as int) == name@);
                        if k1 == k as int {
                            assert(old(self).key_at(k2) != name@);
                            assert(self.key_at(k2) == old(self).key_at(k2));
                        } else if k2 == k as int {
                            assert(old(self).key_at(k1) != name@);
                            assert(self.key_at(k1) == old(self).key_at(k1));
                        } else {
                            assert(old(self).key_at(k1) != old(self).key_at(k2));
                            assert(self.key_at(k1) == old(self).key_at(k1));
                            assert(self.key_at(k2) == old(self).key_at(k2));
                        }
                    }
                    None => {
                        if k2 == self.functions@.len() - 1 {
                            assert(old(self).key_at(k1) != name@);
                            assert(self.key_at(k1) == old(self).key_at(k1));
                            assert(self.key_at(k2) == name@);
                        } else {
                            assert(old(self).key_at(k1) != old(self).key_at(k2));
                            assert(self.key_at(k1) == old(self).key_at(k1));
                            assert(self.key_at(k2) == old(self).key_at(k2));
                        }
                    }
                }
            }
            assert forall|i: int| #![trigger self.entry_name(i)] 0 <= i < self.namespaces@.len()
                implies exists|k2: int|
                0 <= k2 < self.functions@.len() && #[trigger] self.key_at(k2) == self.entry_name(i) by {
                if i == nn {
                    match k_opt {
                        Some(k) => {
                            assert(self.key_at(k as int) == self.entry_name(i));
                        }
                        None => {
                            let last = self.functions@.len() - 1;
                            assert(self.key_at(last) == self.entry_name(i));
                        }
                    }
                } else {
                    assert(old(self).entry_name(i) == self.entry_name(i));
                    let k2 = choose|k2: int|
                        0 <= k2 < old(self).functions@.len() && #[trigger] old(self).key_at(k2)
                            == old(self).entry_name(i);
                    match k_opt {
                        Some(k) => {
                            if k2 == k as int {
                                assert(self.key_at(k2) == name@ && old(self).key_at(k2) == name@);
                            } else {
                                assert(self.key_at(k2) == old(self).key_at(k2));
                            }
                        }
                        None => {
                            assert(self.key_at(k2) == old(self).key_at(k2));
                        }
                    }
                    assert(self.key_at(k2) == self.entry_name(i));
                }
            }
        }
    }

    /// Adds a new intrinsic (a built-in operation), under the empty
    /// namespace.
    ///
    /// The entry would be appended at index `spec_len()`. If that does not
    /// equal `index`, the fixed built-in table and some other hard-coded
    /// index table of the runtime have desynchronized: the registry is left
    /// unchanged and `BuiltinIndexDrift`, naming the built-in, is returned,
    /// so that construction is abandoned rather than continued with
    /// misnumbered built-ins.
    pub fn intrinsic(&mut self, name: String, index: usize, f: Dfn) -> (r: Result<
        (),
        PreludeError,
    >)
        requires
            old(self).wf(),
            f.wf(),
            old(self).spec_len() < usize::MAX as int,
        ensures
            final(self).wf(),
            r is Ok <==> index as int == old(self).spec_len(),
            r is Ok ==> final(self).spec_len() == old(self).spec_len() + 1
                && final(self).entry_name(old(self).spec_len()) == name@
                && final(self).entry_ns(old(self).spec_len()) == Seq::<String>::empty()
                && final(self).sig_at(old(self).spec_len()) == f@
                && (forall|i: int|
                    #![trigger final(self).entry_name(i)]
                    #![trigger final(self).entry_ns(i)]
                    #![trigger final(self).sig_at(i)]
                    0 <= i < old(self).spec_len() ==> final(self).entry_name(i) == old(self).entry_name(i)
                        && final(self).entry_ns(i) == old(self).entry_ns(i)
                        && final(self).sig_at(i) == old(self).sig_at(i)),
            r matches Err(e) ==> *final(self) == *old(self) && (
            e matches PreludeError::BuiltinIndexDrift(t) && t@ == name@),
    {
        let n = self.list.len();
        if n == index {
            let ns: Vec<String> = Vec::new();
            self.insert(ns, name, f);
            Ok(())
        } else {
            Err(PreludeError::BuiltinIndexDrift(name))
        }
    }

    /// Looks a name up: the index of the last entry inserted under it, if
    /// the name is known at all. A miss is a normal "not found" result, not
    /// a failure.
    pub fn lookup(&self, name: &String) -> (r: Option<usize>)
        requires
            self.wf(),
        ensures
            match r {
                Some(i) => (i as int) < self.spec_len() && self.entry_name(i as int) == name@
                    && (forall|j: int| i < j < self.spec_len() ==> self.entry_name(j) != name@),
                None => forall|j: int| 0 <= j < self.spec_len() ==> self.entry_name(j) != name@,
            },
    {
        match find_binding(&self.functions, name) {
            Some(k) => {
                let pair = &self.functions[k];
                proof {
                    assert(self.binding_ok(k as int));
                }
                Some(pair.1)
            }
            None => {
                proof {
                    assert forall|j: int| 0 <= j < self.spec_len() implies self.entry_name(j)
                        != name@ by {
                        let k2 = choose|k2: int|
                            0 <= k2 < self.functions@.len() && #[trigger] self.key_at(k2)
                                == self.entry_name(j);
                        assert(self.key_at(k2) != name@);
                    }
                }
                None
            }
        }
    }

    /// The signature stored at a given index, if the index is live. Entries
    /// are never removed, so every index below the entry count answers.
    pub fn signature(&self, index: usize) -> (r: Option<&Dfn>)
        ensures
            match r {
                Some(d) => (index as int) < self.spec_len() && d@ == self.sig_at(index as int),
                None => (index as int) >= self.spec_len(),
            },
    {
        if index < self.list.len() {
            Some(&self.list[index])
        } else {
            None
        }
    }
}

impl Default for Prelude {
    /// Same as `Prelude::new`: a registry with no entries.
    fn default() -> (r: Prelude)
        ensures
            r.wf(),
            r.spec_len() == 0,
    {
        Prelude::new()
    }
}

/// Every built-in of the table expects exactly the index at which seeding in
/// table order, starting at index 0, places it.
pub open spec fn well_indexed(bs: Seq<Intrinsic>) -> bool {
    forall|k: int| 0 <= k < bs.len() ==> (#[trigger] bs[k].index) as int == k
}

/// `t` is the name of the first built-in whose expected index disagrees with
/// its position in the table.
pub open spec fn drift_name_of(bs: Seq<Intrinsic>, t: Seq<char>) -> bool {
    exists|k: int|
        #![trigger bs[k].index]
        {
            &&& 0 <= k < bs.len()
            &&& bs[k].index as int != k
            &&& forall|k2: int| 0 <= k2 < k ==> (#[trigger] bs[k2].index) as int == k2
            &&& bs[k].name@ == t
        }
}

/// The registry layout that building from a module yields: the built-ins at
/// their fixed indices, then the module's externally supplied signatures
/// verbatim, then one signature derived from each declaration the module
/// makes itself.
pub open spec fn from_module_layout(p: Prelude, m: Module, bs: Seq<Intrinsic>) -> bool {
    let b = bs.len() as int;
    let e = m.ext_prelude@.len() as int;
    let n = m.functions@.len() as int;
    &&& p.spec_len() == b + e + n
    &&& forall|i: int|
        #![trigger p.entry_name(i)]
        #![trigger p.entry_ns(i)]
        #![trigger p.sig_at(i)]
        0 <= i < b ==> p.entry_name(i) == bs[i].name@ && p.entry_ns(i) == Seq::<String>::empty()
            && p.sig_at(i) == bs[i].dfn@
    &&& forall|i: int|
        #![trigger p.entry_name(i)]
        #![trigger p.entry_ns(i)]
        #![trigger p.sig_at(i)]
        b <= i < b + e ==> p.entry_name(i) == m.ext_prelude@[i - b].name@ && p.entry_ns(i)
            == m.ext_prelude@[i - b].namespace@ && p.sig_at(i) == m.ext_prelude@[i - b].p@
    &&& forall|i: int|
        #![trigger p.entry_name(i)]
        #![trigger p.entry_ns(i)]
        #![trigger p.sig_at(i)]
        b + e <= i < b + e + n ==> p.entry_name(i) == m.functions@[i - b - e].name@ && p.entry_ns(i)
            == m.functions@[i - b - e].namespace@ && derived_sig_ok(
            m.functions@[i - b - e],
            p.sig_at(i),
        )
}

impl Prelude {
    /// Creates prelude seeded with the given table of intrinsics,
    /// registering each one at its expected index, in table order starting
    /// at index 0.
    ///
    /// Fails with `BuiltinIndexDrift`, naming the first offending built-in,
    /// as soon as a built-in's expected index disagrees with its position:
    /// such a drift is an internal-consistency violation, so no registry is
    /// produced at all.
    pub fn new_intrinsics(builtins: &Vec<Intrinsic>) -> (r: Result<Prelude, PreludeError>)
        requires
            forall|k: int| 0 <= k < builtins@.len() ==> (#[trigger] builtins@[k].dfn).wf(),
        ensures
            r is Ok <==> well_indexed(builtins@),
            r matches Ok(p) ==> p.wf() && p.spec_len() == builtins@.len() && (forall|i: int|
                #![trigger p.entry_name(i)]
                #![trigger p.entry_ns(i)]
                #![trigger p.sig_at(i)]
                0 <= i < builtins@.len() ==> p.entry_name(i) == builtins@[i].name@ && p.entry_ns(i)
                    == Seq::<String>::empty() && p.sig_at(i) == builtins@[i].dfn@),
            r matches Err(e) ==> e matches PreludeError::BuiltinIndexDrift(t) && drift_name_of(
                builtins@,
                t@,
            ),
    {
        let mut p = Prelude::new();
        let mut i: usize = 0;
        while i < builtins.len()
            invariant
                i <= builtins@.len(),
                p.wf(),
                p.spec_len() == i as int,
                forall|k: int| 0 <= k < builtins@.len() ==> (#[trigger] builtins@[k].dfn).wf(),
                forall|k: int| 0 <= k < i ==> (#[trigger] builtins@[k].index) as int == k,
                forall|k: int|
                    #![trigger p.entry_name(k)]
                    #![trigger p.entry_ns(k)]
                    #![trigger p.sig_at(k)]
                    0 <= k < i ==> p.entry_name(k) == builtins@[k].name@ && p.entry_ns(k)
                        == Seq::<String>::empty() && p.sig_at(k) == builtins@[k].dfn@,
            decreases builtins@.len() - i,
        {
            let b = &builtins[i];
            match p.intrinsic(b.name.clone(), b.index, b.dfn.clone()) {
                Ok(()) => {}
                Err(e) => {
                    proof {
                        assert(builtins@[i as int].index as int != i as int);
                        assert(!well_indexed(builtins@));
                        assert(drift_name_of(builtins@, builtins@[i as int].name@));
                    }
                    return Err(e);
                }
            }
            i += 1;
        }
        Ok(p)
    }

    /// Creates prelude from existing module, layered over the given built-in
    /// table.
    ///
    /// Starts from the seeded built-ins; inserts each of the module's
    /// externally supplied signatures verbatim; then derives a signature
    /// from each function the module declares itself and inserts it under
    /// that function's namespace and name. Later insertions shadow earlier
    /// ones that share a name.
    ///
    /// Fails with `BuiltinIndexDrift` when the built-in table disagrees with
    /// its expected indices, and with `MalformedSignature` on the first
    /// declaration whose lifetime annotations do not resolve; either way no
    /// registry is produced, so a failed build leaves nothing partial
    /// behind.
    pub fn from_module(module: &Module, builtins: &Vec<Intrinsic>) -> (r: Result<
        Prelude,
        PreludeError,
    >)
        requires
            forall|k: int| 0 <= k < builtins@.len() ==> (#[trigger] builtins@[k].dfn).wf(),
            forall|k: int|
                0 <= k < module.ext_prelude@.len() ==> (#[trigger] module.ext_prelude@[k].p).wf(),
            builtins@.len() + module.ext_prelude@.len() + module.functions@.len() <= usize::MAX,
        ensures
            r is Ok <==> (well_indexed(builtins@) && (forall|m: int|
                0 <= m < module.functions@.len() ==> decl_resolvable(
                    #[trigger] module.functions@[m],
                ))),
            r matches Ok(p) ==> p.wf() && from_module_layout(p, *module, builtins@),
            r matches Err(e) ==> {
                ||| (e matches PreludeError::BuiltinIndexDrift(t) && drift_name_of(builtins@, t@))
                ||| (well_indexed(builtins@) && (e matches PreludeError::MalformedSignature(t)
                    && (exists|m: int|
                    #![trigger module.functions@[m]]
                    {
                        &&& 0 <= m < module.functions@.len()
                        &&& !decl_resolvable(module.functions@[m])
                        &&& (forall|m2: int|
                            0 <= m2 < m ==> decl_resolvable(#[trigger] module.functions@[m2]))
                        &&& malformed_text_of(module.functions@[m], t@)
                    })))
            },
    {
        let mut p = match Prelude::new_intrinsics(builtins) {
            Ok(p0) => p0,
            Err(e) => {
                return Err(e);
            }
        };
        let nb = builtins.len();
        let ne = module.ext_prelude.len();
        let mut i: usize = 0;
        while i < ne
            invariant
                i <= ne,
                ne == module.ext_prelude@.len(),
                nb == builtins@.len(),
                p.wf(),
                p.spec_len() == nb + i,
                nb + module.ext_prelude@.len() + module.functions@.len() <= usize::MAX,
                forall|k: int|
                    0 <= k < module.ext_prelude@.len() ==> (
                    #[trigger] module.ext_prelude@[k].p).wf(),
                forall|k: int|
                    #![trigger p.entry_name(k)]
                    #![trigger p.entry_ns(k)]
                    #![trigger p.sig_at(k)]
                    0 <= k < nb ==> p.entry_name(k) == builtins@[k].name@ && p.entry_ns(k)
                        == Seq::<String>::empty() && p.sig_at(k) == builtins@[k].dfn@,
                forall|k: int|
                    #![trigger p.entry_name(k)]
                    #![trigger p.entry_ns(k)]
                    #![trigger p.sig_at(k)]
                    nb <= k < nb + i ==> p.entry_name(k) == module.ext_prelude@[k - nb].name@
                        && p.entry_ns(k) == module.ext_prelude@[k - nb].namespace@ && p.sig_at(k)
                        == module.ext_prelude@[k - nb].p@,
            decreases ne - i,
        {
            let x = &module.ext_prelude[i];
            let ns = clone_strings(&x.namespace);
            p.insert(ns, x.name.clone(), x.p.clone());
            i += 1;
        }
        let nf = module.functions.len();
        let mut j: usize = 0;
        while j < nf
            invariant
                j <= nf,
                nf == module.functions@.len(),
                ne == module.ext_prelude@.len(),
                nb == builtins@.len(),
                p.wf(),
                p.spec_len() == nb + ne + j,
                nb + ne + nf <= usize::MAX,
                well_indexed(builtins@),
                forall|m: int| 0 <= m < j ==> decl_resolvable(#[trigger] module.functions@[m]),
                forall|k: int|
                    #![trigger p.entry_name(k)]
                    #![trigger p.entry_ns(k)]
                    #![trigger p.sig_at(k)]
                    0 <= k < nb ==> p.entry_name(k) == builtins@[k].name@ && p.entry_ns(k)
                        == Seq::<String>::empty() && p.sig_at(k) == builtins@[k].dfn@,
                forall|k: int|
                    #![trigger p.entry_name(k)]
                    #![trigger p.entry_ns(k)]
                    #![trigger p.sig_at(k)]
                    nb <= k < nb + ne ==> p.entry_name(k) == module.ext_prelude@[k - nb].name@
                        && p.entry_ns(k) == module.ext_prelude@[k - nb].namespace@ && p.sig_at(k)
                        == module.ext_prelude@[k - nb].p@,
                forall|k: int|
                    #![trigger p.entry_name(k)]
                    #![trigger p.entry_ns(k)]
                    #![trigger p.sig_at(k)]
                    nb + ne <= k < nb + ne + j ==> p.entry_name(k) == module.functions@[k - nb
                        - ne].name@ && p.entry_ns(k) == module.functions@[k - nb - ne].namespace@
                        && derived_sig_ok(module.functions@[k - nb - ne], p.sig_at(k)),
            decreases nf - j,
        {
            let f = &module.functions[j];
            match Dfn::new(f) {
                Ok(d) => {
                    let ns = clone_strings(&f.namespace);
                    p.insert(ns, f.name.clone(), d);
                }
                Err(e) => {
                    return Err(e);
                }
            }
            j += 1;
        }
        Ok(p)
    }
}

/// Copies a namespace path.
fn clone_strings(v: &Vec<String>) -> (r: Vec<String>)
    ensures
        r@ == v@,
{
    let mut r: Vec<String> = Vec::new();
    let mut k: usize = 0;
    while k < v.len()
        invariant
            k <= v@.len(),
            r@.len() == k as int,
            forall|i: int| 0 <= i < k ==> r@[i] == v@[i],
        decreases v@.len() - k,
    {
        r.push(v[k].clone());
        k += 1;
    }
    proof {
        assert(r@ =~= v@);
    }
    r
}

/// Law: a later entry shadows every earlier entry of the same name. Any
/// index that name lookup can answer for `name` — an index bearing the name
/// with no later entry bearing it — lies at or after the later entry `j`,
/// and is never the earlier entry `i`; entry `i` itself stays retrievable by
/// direct index.
pub proof fn lemma_insert_shadows(p: Prelude, name: Seq<char>, i: int, j: int, k: int)
    requires
        p.wf(),
        0 <= i < j < p.spec_len(),
        p.entry_name(i) == name,
        p.entry_name(j) == name,
        0 <= k < p.spec_len(),
        p.entry_name(k) == name,
        forall|l: int| k < l < p.spec_len() ==> p.entry_name(l) != name,
    ensures
        j <= k,
        k != i,
{
    if k < j {
        assert(p.entry_name(j) != name);
    }
}

/// Finds the position in the name table whose key equals `name`, if any.
fn find_binding(tbl: &Vec<(String, usize)>, name: &String) -> (r: Option<usize>)
    ensures
        match r {
            Some(k) => (k as int) < tbl@.len() && tbl@[k as int].0@ == name@,
            None => forall|k: int| 0 <= k < tbl@.len() ==> tbl@[k].0@ != name@,
        },
{
    let mut k: usize = 0;
    while k < tbl.len()
        invariant
            k <= tbl@.len(),
            forall|i: int| 0 <= i < k ==> tbl@[i].0@ != name@,
        decreases tbl@.len() - k,
    {
        let pair = &tbl[k];
        if pair.0 == *name {
            return Some(k);
        }
        k += 1;
    }
    None
}

} // verus!
