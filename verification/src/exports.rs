use vstd::prelude::*;

use crate::host::FuncHandle;
use crate::values::ExportKind;

verus! {

/// One named export of an instantiated module: its name, its position in the
/// module's export list, its kind, and — for function exports — the engine
/// handle through which it is invoked.
pub struct ExportEntry {
    pub name: String,
    pub index: usize,
    pub kind: ExportKind,
    pub handle: Option<FuncHandle>,
}

/// A module's export table, built once when the module is instantiated and
/// never mutated afterward: a name-keyed view of the module's export list.
pub struct ExportTable {
    pub entries: Vec<ExportEntry>,
}

impl ExportTable {
    /// The entries as a sequence, in export-list order.
    pub open spec fn entries_spec(self) -> Seq<ExportEntry> {
        self.entries@
    }

    /// Whether some export bears the name `n`.
    pub open spec fn has(self, n: Seq<char>) -> bool {
        exists|i: int|
            0 <= i < self.entries_spec().len() && self.entries_spec()[i].name@ == n
    }

    /// The position of the entry named `n` (meaningful only when `has(n)`).
    pub open spec fn idx_of(self, n: Seq<char>) -> int {
        choose|i: int|
            0 <= i < self.entries_spec().len() && self.entries_spec()[i].name@ == n
    }

    /// The kind of the export named `n` (meaningful only when `has(n)`).
    pub open spec fn kind_of(self, n: Seq<char>) -> ExportKind {
        self.entries_spec()[self.idx_of(n)].kind
    }

    /// Whether every function handle in the table belongs to the store with
    /// identity `sid`.
    pub open spec fn in_store(self, sid: int) -> bool {
        forall|i: int|
            0 <= i < self.entries_spec().len() ==> ((#[trigger] self.entries_spec()[i]).handle
                matches Some(h) ==> h.store_id() == sid)
    }

    /// Well-formedness: names are unique, each entry records its own position
    /// as its export index, and exactly the function entries carry a handle.
    pub open spec fn wf(self) -> bool {
        &&& forall|i: int, j: int|
            0 <= i < j < self.entries_spec().len() ==> self.entries_spec()[i].name@
                != self.entries_spec()[j].name@
        &&& forall|i: int|
            0 <= i < self.entries_spec().len() ==> self.entries_spec()[i].index == i
        &&& forall|i: int|
            0 <= i < self.entries_spec().len() ==> ((self.entries_spec()[i].kind
                == ExportKind::Function) <==> self.entries_spec()[i].handle is Some)
    }

    /// Wraps a fully-formed entry list. The entries come straight from the
    /// engine's export list for one instantiated module.
    pub fn new(entries: Vec<ExportEntry>) -> (r: ExportTable)
        requires
            forall|i: int, j: int|
                0 <= i < j < entries@.len() ==> entries@[i].name@ != entries@[j].name@,
            forall|i: int| 0 <= i < entries@.len() ==> entries@[i].index == i,
            forall|i: int|
                0 <= i < entries@.len() ==> ((entries@[i].kind == ExportKind::Function)
                    <==> entries@[i].handle is Some),
        ensures
            r.wf(),
            r.entries_spec() == entries@,
    {
        ExportTable { entries }
    }

    /// Looks the name up by a scan of the export list; returns the unique
    /// entry of that name, or `None` when no export bears it.
    pub fn lookup(&self, name: &String) -> (r: Option<&ExportEntry>)
        requires
            self.wf(),
        ensures
            match r {
                Some(e) => self.has(name@) && *e == self.entries_spec()[self.idx_of(name@)],
                None => !self.has(name@),
            },
    {
        let n = self.entries.len();
        let mut i: usize = 0;
        while i < n
            invariant
                n == self.entries_spec().len(),
                0 <= i <= n,
                self.wf(),
                forall|j: int| 0 <= j < i ==> self.entries_spec()[j].name@ != name@,
            decreases n - i,
        {
            let e = &self.entries[i];
            if e.name == *name {
                proof {
                    let k = self.idx_of(name@);
                    assert(0 <= k < self.entries_spec().len() && self.entries_spec()[k].name@
                        == name@);
                    assert(k == i);
                }
                return Some(e);
            }
            i = i + 1;
        }
        None
    }
}

} // verus!
