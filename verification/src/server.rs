use vstd::prelude::*;

use crate::module::LoadedModule;

verus! {

/// A named bundle of modules: a mapping from global module-name to the module
/// that provides it. Constructed once, atomically, from a fixed set of
/// (name, module) pairs; never mutated after handoff to the registry.
pub struct Server {
    pub modules: Vec<(String, LoadedModule)>,
}

impl Server {
    /// The (name, module) pairs, in construction order.
    pub open spec fn entries_spec(self) -> Seq<(String, LoadedModule)> {
        self.modules@
    }

    /// Whether this server provides a module under the global name `n`.
    pub open spec fn has_module(self, n: Seq<char>) -> bool {
        exists|i: int|
            0 <= i < self.entries_spec().len() && self.entries_spec()[i].0@ == n
    }

    /// The position of the entry named `n` (meaningful only when `has_module(n)`).
    pub open spec fn idx_of(self, n: Seq<char>) -> int {
        choose|i: int|
            0 <= i < self.entries_spec().len() && self.entries_spec()[i].0@ == n
    }

    /// The module this server provides under `n` (meaningful only when
    /// `has_module(n)`).
    pub open spec fn module_for(self, n: Seq<char>) -> LoadedModule {
        self.entries_spec()[self.idx_of(n)].1
    }

    /// Whether every module of this server lives in the store with identity
    /// `sid`.
    pub open spec fn in_store(self, sid: int) -> bool {
        forall|i: int|
            0 <= i < self.entries_spec().len() ==> (#[trigger] self.entries_spec()[i].1).in_store(
                sid,
            )
    }

    /// Well-formedness: module-names are unique within the server, and every
    /// module is well-formed.
    pub open spec fn wf(self) -> bool {
        &&& forall|i: int, j: int|
            0 <= i < j < self.entries_spec().len() ==> self.entries_spec()[i].0@
                != self.entries_spec()[j].0@
        &&& forall|i: int|
            0 <= i < self.entries_spec().len() ==> self.entries_spec()[i].1.wf()
    }

    /// Takes exclusive ownership of the given modules under their names.
    pub fn new(modules: Vec<(String, LoadedModule)>) -> (r: Server)
        requires
            forall|i: int, j: int|
                0 <= i < j < modules@.len() ==> modules@[i].0@ != modules@[j].0@,
            forall|i: int| 0 <= i < modules@.len() ==> modules@[i].1.wf(),
        ensures
            r.wf(),
            r.entries_spec() == modules@,
    {
        Server { modules }
    }

    /// Map lookup: the module this server provides under `name`, if any.
    pub fn get(&self, name: &String) -> (r: Option<&LoadedModule>)
        requires
            self.wf(),
        ensures
            match r {
                Some(m) => self.has_module(name@) && *m == self.module_for(name@),
                None => !self.has_module(name@),
            },
    {
        let n = self.modules.len();
        let mut i: usize = 0;
        while i < n
            invariant
                n == self.entries_spec().len(),
                0 <= i <= n,
                self.wf(),
                forall|j: int| 0 <= j < i ==> self.entries_spec()[j].0@ != name@,
            decreases n - i,
        {
            let e = &self.modules[i];
            if e.0 == *name {
                proof {
                    let k = self.idx_of(name@);
                    assert(0 <= k < self.entries_spec().len() && self.entries_spec()[k].0@
                        == name@);
                    assert(k == i);
                }
                return Some(&e.1);
            }
            i = i + 1;
        }
        None
    }
}

} // verus!
