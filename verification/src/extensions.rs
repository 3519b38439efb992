//! The registry of copy extensions: a closed set of known handler kinds,
//! each described by its metadata and filed under a key.

use vstd::prelude::*;
use crate::text::str_eq;

verus! {

/// The closed set of copy behaviours an extension can provide.
#[derive(Debug, Clone, Copy, PartialEq, Eq, Structural)]
pub enum CopyHandler {
    Standard,
    ParallelChunks,
    Verified,
}

/// One extension: its metadata, what it supports, and the handler it stands
/// for.
pub struct CopyExtension {
    pub name: String,
    pub description: String,
    pub author: String,
    pub version: String,
    pub features: Vec<String>,
    pub handler: CopyHandler,
}

impl CopyExtension {
    /// Whether the extension lists `feature`.
    pub open spec fn has_feature(self, feature: Seq<char>) -> bool {
        exists|i: int| 0 <= i < self.features@.len() && self.features@[i]@ == feature
    }

    pub fn supports_feature(&self, feature: &str) -> (r: bool)
        ensures
            r == self.has_feature(feature@),
    {
        let n = self.features.len();
        let mut i: usize = 0;
        while i < n
            invariant
                0 <= i <= n,
                n == self.features@.len(),
                forall|j: int| 0 <= j < i ==> self.features@[j]@ != feature@,
            decreases n - i,
        {
            if str_eq(self.features[i].as_str(), feature) {
                proof {
                    assert(self.features@[i as int]@ == feature@);
                }
                return true;
            }
            i = i + 1;
        }
        false
    }

    pub fn create_handler(&self) -> (r: CopyHandler)
        ensures
            r == self.handler,
    {
        self.handler
    }
}

/// One registry slot: the key an extension was filed under, and the
/// extension.
pub struct RegisteredExtension {
    pub key: String,
    pub extension: CopyExtension,
}

/// The first slot filed under `key`, or `-1`.
pub open spec fn find_key_index(entries: Seq<RegisteredExtension>, key: Seq<char>) -> int
    decreases entries.len(),
{
    if entries.len() == 0 {
        -1
    } else if entries[0].key@ == key {
        0
    } else {
        let r = find_key_index(entries.drop_first(), key);
        if r < 0 {
            -1
        } else {
            r + 1
        }
    }
}

proof fn lemma_find_key_prefix(entries: Seq<RegisteredExtension>, key: Seq<char>, i: int)
    requires
        0 <= i <= entries.len(),
        forall|j: int| 0 <= j < i ==> entries[j].key@ != key,
    ensures
        i == entries.len() ==> find_key_index(entries, key) == -1,
        i < entries.len() && entries[i].key@ == key ==> find_key_index(entries, key) == i,
    decreases entries.len(),
{
    if entries.len() == 0 {
    } else if i == 0 {
    } else {
        lemma_find_key_prefix(entries.drop_first(), key, i - 1);
        assert(forall|j: int| 0 <= j < i - 1 ==> entries.drop_first()[j] == entries[j + 1]);
        if i < entries.len() {
            assert(entries.drop_first()[i - 1] == entries[i]);
        }
    }
}

/// The available extensions, each under one key; registering under a taken
/// key replaces that entry.
pub struct ExtensionRegistry {
    pub extensions: Vec<RegisteredExtension>,
}

impl ExtensionRegistry {
    /// The registry's invariant: no two slots share a key. `new` establishes
    /// it and `register` preserves it, so `get` finds the one entry of a key
    /// and `list` names each key exactly once.
    pub open spec fn wf(self) -> bool {
        forall|a: int, b: int|
            0 <= a < b < self.extensions@.len() ==> (#[trigger] self.extensions@[a].key@)
                != (#[trigger] self.extensions@[b].key@)
    }

    pub fn new() -> (r: Self)
        ensures
            r.extensions@.len() == 0,
            r.wf(),
    {
        Self { extensions: Vec::new() }
    }

    /// Files `extension` under `name`, replacing the entry already filed
    /// there or appending a new one.
    pub fn register(&mut self, name: String, extension: CopyExtension)
        requires
            old(self).wf(),
        ensures
            final(self).wf(),
            ({
                let es = old(self).extensions@;
                let k = find_key_index(es, name@);
                let entry = RegisteredExtension { key: name, extension };
                if k >= 0 {
                    final(self).extensions@ == es.update(k, entry)
                } else {
                    final(self).extensions@ == es.push(entry)
                }
            }),
    {
        let n = self.extensions.len();
        let mut i: usize = 0;
        while i < n
            invariant
                0 <= i <= n,
                n == self.extensions@.len(),
                *self == *old(self),
                self.wf(),
                forall|j: int| 0 <= j < i ==> self.extensions@[j].key@ != name@,
            decreases n - i,
        {
            if str_eq(self.extensions[i].key.as_str(), name.as_str()) {
                proof {
                    lemma_find_key_prefix(self.extensions@, name@, i as int);
                }
                let ghost before = self.extensions@;
                let ghost slot = i as int;
                self.extensions.set(i, RegisteredExtension { key: name, extension });
                proof {
                    assert forall|a: int, b: int|
                        0 <= a < b < self.extensions@.len() implies (
                    #[trigger] self.extensions@[a].key@) != (
                    #[trigger] self.extensions@[b].key@) by {
                        let cur = self.extensions@;
                        assert(before[slot].key@ == name@);
                        if a == slot {
                            assert(cur[b] == before[b]);
                            assert(cur[a].key@ == name@);
                            assert(before[slot].key@ != before[b].key@);
                        } else if b == slot {
                            assert(cur[a] == before[a]);
                            assert(cur[b].key@ == name@);
                            assert(before[a].key@ != before[slot].key@);
                        } else {
                            assert(cur[a] == before[a]);
                            assert(cur[b] == before[b]);
                            assert(before[a].key@ != before[b].key@);
                        }
                    }
                }
                return;
            }
            i = i + 1;
        }
        proof {
            lemma_find_key_prefix(self.extensions@, name@, n as int);
        }
        self.extensions.push(RegisteredExtension { key: name, extension });
        proof {
            assert forall|a: int, b: int|
                0 <= a < b < self.extensions@.len() implies (
            #[trigger] self.extensions@[a].key@) != (#[trigger] self.extensions@[b].key@) by {
                if b < self.extensions@.len() - 1 {
                    assert(self.extensions@[a] == old(self).extensions@[a]);
                    assert(self.extensions@[b] == old(self).extensions@[b]);
                } else {
                    assert(self.extensions@[a] == old(self).extensions@[a]);
                    assert(self.extensions@[b].key@ == name@);
                }
            }
        }
    }

    /// The extension filed under `name`, if any.
    pub fn get(&self, name: &str) -> (r: Option<&CopyExtension>)
        ensures
            ({
                let k = find_key_index(self.extensions@, name@);
                match r {
                    Some(e) => k >= 0 && *e == self.extensions@[k].extension,
                    None => k == -1,
                }
            }),
    {
        let n = self.extensions.len();
        let mut i: usize = 0;
        while i < n
            invariant
                0 <= i <= n,
                n == self.extensions@.len(),
                forall|j: int| 0 <= j < i ==> self.extensions@[j].key@ != name@,
            decreases n - i,
        {
            if str_eq(self.extensions[i].key.as_str(), name) {
                proof {
                    lemma_find_key_prefix(self.extensions@, name@, i as int);
                }
                return Some(&self.extensions[i].extension);
            }
            i = i + 1;
        }
        proof {
            lemma_find_key_prefix(self.extensions@, name@, n as int);
        }
        None
    }

    /// The keys on file, in registration order: on a well-formed registry,
    /// each exactly once.
    pub fn list(&self) -> (r: Vec<String>)
        ensures
            r@.len() == self.extensions@.len(),
            forall|i: int|
                0 <= i < r@.len() ==> (#[trigger] r@[i])@ == self.extensions@[i].key@,
            self.wf() ==> forall|a: int, b: int|
                0 <= a < b < r@.len() ==> (#[trigger] r@[a])@ != (#[trigger] r@[b])@,
    {
        let n = self.extensions.len();
        let mut out: Vec<String> = Vec::new();
        let mut i: usize = 0;
        while i < n
            invariant
                0 <= i <= n,
                n == self.extensions@.len(),
                out@.len() == i,
                forall|j: int|
                    0 <= j < i ==> (#[trigger] out@[j])@ == self.extensions@[j].key@,
            decreases n - i,
        {
            out.push(self.extensions[i].key.clone());
            i = i + 1;
        }
        out
    }
}

} // verus!
