//! Per-file outcomes reported by the worker, and the map that keeps the
//! latest one for each file path.
use crate::text::{owned, str_eq};
use vstd::prelude::*;

verus! {

/// What the worker reported for one file.
#[derive(Debug, Clone, PartialEq, Eq)]
pub struct FileOutcome {
    pub status: String,
    pub transcript_path: Option<String>,
    pub json_path: Option<String>,
    pub error: Option<String>,
}

/// The view of an optional string.
pub open spec fn opt_view(o: Option<String>) -> Option<Seq<char>> {
    match o {
        Some(s) => Some(s@),
        None => None,
    }
}

/// A copy of an optional string.
pub fn copy_opt(o: &Option<String>) -> (r: Option<String>)
    ensures
        opt_view(r) == opt_view(*o),
{
    match o {
        Some(s) => Some(owned(s.as_str())),
        None => None,
    }
}

/// A file outcome with its strings as character sequences.
pub struct OutcomeModel {
    pub status: Seq<char>,
    pub transcript_path: Option<Seq<char>>,
    pub json_path: Option<Seq<char>>,
    pub error: Option<Seq<char>>,
}

impl View for FileOutcome {
    type V = OutcomeModel;

    open spec fn view(&self) -> OutcomeModel {
        OutcomeModel {
            status: self.status@,
            transcript_path: opt_view(self.transcript_path),
            json_path: opt_view(self.json_path),
            error: opt_view(self.error),
        }
    }
}

/// The latest outcome of the entry keyed `key` at index `i` or later.
pub open spec fn find_from(entries: Seq<(String, FileOutcome)>, key: Seq<char>, i: int) -> Option<
    OutcomeModel,
>
    decreases entries.len() - i,
{
    if i < 0 || i >= entries.len() {
        None
    } else if entries[i].0@ == key {
        Some(entries[i].1@)
    } else {
        find_from(entries, key, i + 1)
    }
}

/// Outcomes keyed by the file path the worker reported; inserting for a path
/// that is already present replaces its outcome.
#[derive(Debug)]
pub struct OutcomeMap {
    entries: Vec<(String, FileOutcome)>,
}

proof fn lemma_find_push(s: Seq<(String, FileOutcome)>, e: (String, FileOutcome), k: Seq<char>, i: int)
    requires
        0 <= i <= s.len(),
    ensures
        find_from(s.push(e), k, i) == (if find_from(s, k, i) is Some {
            find_from(s, k, i)
        } else if e.0@ == k {
            Some(e.1@)
        } else {
            None
        }),
    decreases s.len() - i,
{
    if i < s.len() {
        assert(s.push(e)[i] == s[i]);
        lemma_find_push(s, e, k, i + 1);
    } else {
        assert(s.push(e)[i] == e);
        assert(find_from(s.push(e), k, i + 1) is None);
    }
}

proof fn lemma_find_update(
    s: Seq<(String, FileOutcome)>,
    j: int,
    e: (String, FileOutcome),
    k: Seq<char>,
    i: int,
)
    requires
        0 <= i <= s.len(),
        0 <= j < s.len(),
        e.0@ == s[j].0@,
        forall|m: int| i <= m < j ==> (#[trigger] s[m]).0@ != e.0@,
    ensures
        k == e.0@ && i <= j ==> find_from(s.update(j, e), k, i) == Some(e.1@),
        k != e.0@ ==> find_from(s.update(j, e), k, i) == find_from(s, k, i),
    decreases s.len() - i,
{
    if i < s.len() {
        if i != j {
            assert(s.update(j, e)[i] == s[i]);
        }
        if i < j || k != e.0@ {
            lemma_find_update(s, j, e, k, i + 1);
        }
    }
}

impl OutcomeMap {
    /// The latest outcome recorded for `path`.
    pub closed spec fn lookup(&self, path: Seq<char>) -> Option<OutcomeModel> {
        find_from(self.entries@, path, 0)
    }

    /// An empty map.
    pub fn new() -> (r: OutcomeMap)
        ensures
            forall|p: Seq<char>| r.lookup(p) is None,
    {
        OutcomeMap { entries: Vec::new() }
    }

    /// Records `outcome` for `path`, replacing what was recorded before.
    pub fn insert(&mut self, path: String, outcome: FileOutcome)
        ensures
            final(self).lookup(path@) == Some(outcome@),
            forall|p: Seq<char>| p != path@ ==> final(self).lookup(p) == old(self).lookup(p),
    {
        let n = self.entries.len();
        let mut i: usize = 0;
        while i < n
            invariant
                0 <= i <= n,
                n == self.entries@.len(),
                self.entries@ == old(self).entries@,
                forall|m: int| 0 <= m < i ==> (#[trigger] self.entries@[m]).0@ != path@,
            decreases n - i,
        {
            if str_eq(self.entries[i].0.as_str(), path.as_str()) {
                let ghost s = self.entries@;
                let ghost e = (path, outcome);
                proof {
                    lemma_find_update(s, i as int, e, e.0@, 0);
                    assert forall|k: Seq<char>| true implies (k == path@ ==> find_from(
                        s.update(i as int, e),
                        k,
                        0,
                    ) == Some(outcome@)) && (k != path@ ==> find_from(s.update(i as int, e), k, 0)
                        == find_from(s, k, 0)) by {
                        lemma_find_update(s, i as int, e, k, 0);
                    }
                }
                self.entries.set(i, (path, outcome));
                assert(self.entries@ == s.update(i as int, e));
                return ;
            }
            i = i + 1;
        }
        let ghost s = self.entries@;
        let ghost e = (path, outcome);
        proof {
            assert forall|k: Seq<char>| true implies find_from(s.push(e), k, 0) == (if find_from(
                s,
                k,
                0,
            ) is Some {
                find_from(s, k, 0)
            } else if e.0@ == k {
                Some(e.1@)
            } else {
                None
            }) by {
                lemma_find_push(s, e, k, 0);
            }
            assert(find_from(s, path@, 0) is None) by {
                lemma_find_absent(s, path@, 0);
            }
        }
        self.entries.push((path, outcome));
    }

    /// The outcome recorded for `path`.
    pub fn get(&self, path: &str) -> (r: Option<&FileOutcome>)
        ensures
            r matches Some(o) ==> self.lookup(path@) == Some(o@),
            r is None ==> self.lookup(path@) is None,
    {
        let n = self.entries.len();
        let mut i: usize = 0;
        while i < n
            invariant
                0 <= i <= n,
                n == self.entries@.len(),
                self.lookup(path@) == find_from(self.entries@, path@, i as int),
            decreases n - i,
        {
            let entry = &self.entries[i];
            if str_eq(entry.0.as_str(), path) {
                return Some(&entry.1);
            }
            i = i + 1;
        }
        None
    }
}

proof fn lemma_find_absent(s: Seq<(String, FileOutcome)>, k: Seq<char>, i: int)
    requires
        0 <= i <= s.len(),
        forall|m: int| i <= m < s.len() ==> (#[trigger] s[m]).0@ != k,
    ensures
        find_from(s, k, i) is None,
    decreases s.len() - i,
{
    if i < s.len() {
        lemma_find_absent(s, k, i + 1);
    }
}

} // verus!
