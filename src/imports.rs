//! The import table: bindings keyed by (namespace, symbol).

use crate::symbols::HostFunction;
use vstd::prelude::*;

verus! {

/// What a function import resolves to.
#[derive(Clone, Copy, Debug, PartialEq, Eq, Structural)]
pub enum FunctionBinding {
    /// A host emulation function.
    Host(HostFunction),
    /// A placeholder that reports the call and returns zero.
    Stub,
}

/// What an import resolves to: a function, or a 32-bit global.
#[derive(Clone, Copy, Debug, PartialEq, Eq, Structural)]
pub enum ImportValue {
    Func(FunctionBinding),
    Global(i32),
}

/// One binding of the table.
struct ImportEntry {
    namespace: String,
    name: String,
    value: ImportValue,
}

/// The key of a binding: its namespace and its symbol.
pub type ImportKey = (Seq<char>, Seq<char>);

/// A table of import bindings; each key is bound at most once.
pub struct ImportObject {
    entries: Vec<ImportEntry>,
}

impl ImportObject {
    pub closed spec fn key_at(self, i: int) -> ImportKey {
        (self.entries@[i].namespace@, self.entries@[i].name@)
    }

    /// No key is bound twice.
    pub closed spec fn wf(self) -> bool {
        forall|i: int, j: int|
            0 <= i < j < self.entries@.len() ==> self.key_at(i) != self.key_at(j)
    }

    /// The bindings, as a map from key to value.
    pub closed spec fn view(self) -> Map<ImportKey, ImportValue> {
        Map::new(
            |k: ImportKey| exists|i: int| 0 <= i < self.entries@.len() && self.key_at(i) == k,
            |k: ImportKey|
                self.entries@[choose|i: int| 0 <= i < self.entries@.len() && self.key_at(i) == k].value,
        )
    }

    proof fn lemma_view_at(self, i: int)
        requires
            self.wf(),
            0 <= i < self.entries@.len(),
        ensures
            self@.contains_key(self.key_at(i)),
            self@[self.key_at(i)] == self.entries@[i].value,
    {
        let k = self.key_at(i);
        assert(0 <= i < self.entries@.len() && self.key_at(i) == k);
        let j = choose|j: int| 0 <= j < self.entries@.len() && self.key_at(j) == k;
        if j != i {
            if j < i {
                assert(self.key_at(j) != self.key_at(i));
            } else {
                assert(self.key_at(i) != self.key_at(j));
            }
        }
    }

    /// `after` is `before` with the entry at `idx` bound to `value` under
    /// `k`: either that entry replaces one of the same key, or it is
    /// appended and the key was not bound.
    proof fn lemma_rebind(before: ImportObject, after: ImportObject, k: ImportKey, value: ImportValue, idx: int)
        requires
            before.wf(),
            0 <= idx <= before.entries@.len(),
            idx < before.entries@.len() ==> before.key_at(idx) == k,
            idx == before.entries@.len() ==> forall|j: int| 0 <= j < idx ==> before.key_at(j) != k,
            after.entries@.len() == if idx < before.entries@.len() {
                before.entries@.len()
            } else {
                before.entries@.len() + 1
            },
            after.key_at(idx) == k,
            after.entries@[idx].value == value,
            forall|j: int| 0 <= j < after.entries@.len() && j != idx ==> after.entries@[j] == before.entries@[j],
        ensures
            after.wf(),
            after@ == before@.insert(k, value),
    {
        assert forall|a: int, b: int| 0 <= a < b < after.entries@.len() implies after.key_at(a) != after.key_at(b) by {
            if a != idx && b != idx {
                assert(after.key_at(a) == before.key_at(a));
                assert(after.key_at(b) == before.key_at(b));
            } else if a == idx {
                assert(after.key_at(b) == before.key_at(b));
            } else {
                assert(after.key_at(a) == before.key_at(a));
            }
        }
        let m = before@.insert(k, value);
        assert forall|key: ImportKey| #[trigger] after@.dom().contains(key) <==> m.dom().contains(key) by {
            if after@.dom().contains(key) {
                let j = choose|j: int| 0 <= j < after.entries@.len() && after.key_at(j) == key;
                if j != idx {
                    assert(after.key_at(j) == before.key_at(j));
                    before.lemma_view_at(j);
                }
            }
            if before@.dom().contains(key) {
                let j = choose|j: int| 0 <= j < before.entries@.len() && before.key_at(j) == key;
                if j != idx {
                    assert(after.key_at(j) == before.key_at(j));
                    after.lemma_view_at(j);
                }
            }
            if key == k {
                after.lemma_view_at(idx);
            }
        }
        assert forall|key: ImportKey| after@.dom().contains(key) implies #[trigger] after@[key] == m[key] by {
            let j = choose|j: int| 0 <= j < after.entries@.len() && after.key_at(j) == key;
            after.lemma_view_at(j);
            if j != idx {
                assert(after.key_at(j) == before.key_at(j));
                before.lemma_view_at(j);
            }
        }
        assert(after@ =~= m);
    }

    /// An empty table.
    pub fn new() -> (r: ImportObject)
        ensures
            r.wf(),
            r@ == Map::<ImportKey, ImportValue>::empty(),
    {
        let r = ImportObject { entries: Vec::new() };
        assert(r@ =~= Map::<ImportKey, ImportValue>::empty());
        r
    }

    /// Binds `(namespace, name)` to `value`, replacing an earlier binding of
    /// the same key.
    pub fn set(&mut self, namespace: &str, name: &str, value: ImportValue)
        requires
            old(self).wf(),
        ensures
            final(self).wf(),
            final(self)@ == old(self)@.insert((namespace@, name@), value),
    {
        let ns = String::from_str(namespace);
        let nm = String::from_str(name);
        let ghost k: ImportKey = (namespace@, name@);
        let ghost before = *self;
        let mut i: usize = 0;
        while i < self.entries.len()
            invariant
                before == *old(self),
                *self == before,
                before.wf(),
                ns@ == namespace@,
                nm@ == name@,
                k == (namespace@, name@),
                0 <= i <= self.entries@.len(),
                forall|j: int| 0 <= j < i ==> self.key_at(j) != k,
            decreases self.entries@.len() - i,
        {
            if self.entries[i].namespace == ns && self.entries[i].name == nm {
                self.entries.set(i, ImportEntry { namespace: ns, name: nm, value });
                proof {
                    assert(before.key_at(i as int) == k);
                    ImportObject::lemma_rebind(before, *self, k, value, i as int);
                }
                return;
            }
            i = i + 1;
        }
        self.entries.push(ImportEntry { namespace: ns, name: nm, value });
        proof {
            ImportObject::lemma_rebind(before, *self, k, value, before.entries@.len() as int);
        }
    }

    /// The value bound to `(namespace, name)`, if any.
    pub fn get(&self, namespace: &str, name: &str) -> (r: Option<ImportValue>)
        requires
            self.wf(),
        ensures
            r is Some <==> self@.contains_key((namespace@, name@)),
            r is Some ==> r->0 == self@[(namespace@, name@)],
    {
        let ns = String::from_str(namespace);
        let nm = String::from_str(name);
        let ghost k: ImportKey = (namespace@, name@);
        let mut i: usize = 0;
        while i < self.entries.len()
            invariant
                self.wf(),
                ns@ == namespace@,
                nm@ == name@,
                k == (namespace@, name@),
                0 <= i <= self.entries@.len(),
                forall|j: int| 0 <= j < i ==> self.key_at(j) != k,
            decreases self.entries@.len() - i,
        {
            if self.entries[i].namespace == ns && self.entries[i].name == nm {
                proof {
                    self.lemma_view_at(i as int);
                }
                return Some(self.entries[i].value);
            }
            i = i + 1;
        }
        proof {
            if self@.contains_key(k) {
                let j = choose|j: int| 0 <= j < self.entries@.len() && self.key_at(j) == k;
                assert(self.key_at(j) != k);
            }
        }
        None
    }
}

/// Why a module cannot be linked against a table.
#[derive(Debug)]
pub enum LinkError {
    /// The module imports a key that the table does not bind.
    UnresolvedImport { namespace: String, name: String },
}

/// The key of a module's `i`-th declared import.
pub open spec fn import_key(imports: Seq<(String, String)>, i: int) -> ImportKey {
    (imports[i].0@, imports[i].1@)
}

/// Resolves each import a module declares, in order, against `table`.
///
/// Succeeds iff every import is bound, with the bound values in the order of
/// the imports; otherwise fails naming the first import that is not bound.
pub fn resolve_imports(table: &ImportObject, imports: &Vec<(String, String)>) -> (r: Result<Vec<ImportValue>, LinkError>)
    requires
        table.wf(),
    ensures
        r is Ok <==> forall|i: int| 0 <= i < imports@.len() ==> table@.contains_key(#[trigger] import_key(imports@, i)),
        r matches Ok(values) ==> {
            &&& values@.len() == imports@.len()
            &&& forall|i: int| 0 <= i < imports@.len() ==> values@[i] == table@[#[trigger] import_key(imports@, i)]
        },
        r matches Err(LinkError::UnresolvedImport { namespace, name }) ==> exists|i: int| {
            &&& 0 <= i < imports@.len()
            &&& #[trigger] import_key(imports@, i) == (namespace@, name@)
            &&& !table@.contains_key(import_key(imports@, i))
            &&& forall|j: int| 0 <= j < i ==> table@.contains_key(#[trigger] import_key(imports@, j))
        },
{
    let mut values: Vec<ImportValue> = Vec::new();
    let mut i: usize = 0;
    while i < imports.len()
        invariant
            table.wf(),
            0 <= i <= imports@.len(),
            values@.len() == i,
            forall|j: int| 0 <= j < i ==> table@.contains_key(#[trigger] import_key(imports@, j)),
            forall|j: int| 0 <= j < i ==> values@[j] == table@[#[trigger] import_key(imports@, j)],
        decreases imports@.len() - i,
    {
        match table.get(imports[i].0.as_str(), imports[i].1.as_str()) {
            Some(v) => {
                values.push(v);
            },
            None => {
                let err = LinkError::UnresolvedImport {
                    namespace: imports[i].0.clone(),
                    name: imports[i].1.clone(),
                };
                assert(import_key(imports@, i as int) == (imports@[i as int].0@, imports@[i as int].1@));
                return Err(err);
            },
        }
        i = i + 1;
    }
    Ok(values)
}

} // verus!
