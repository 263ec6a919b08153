//! Named link declarations and the configuration that owns them.

use vstd::prelude::*;

verus! {

/// One named declaration: a symlink expected at `target`, pointing at
/// `source`. Both paths are declared strings and may still hold `~` or
/// `$VAR` references.
pub struct LinkEntry {
    pub name: String,
    pub source: String,
    pub target: String,
}

/// The loaded configuration: a collection of entries keyed by unique name.
/// Insertion order is not significant; every multi-entry operation sorts
/// the names it processes.
pub struct Configuration {
    pub entries: Vec<LinkEntry>,
}

impl Configuration {
    /// Entry names are unique keys.
    pub open spec fn wf(self) -> bool {
        forall|i: int, j: int|
            0 <= i < j < self.entries@.len() ==> (#[trigger] self.entries@[i].name@) != (
            #[trigger] self.entries@[j].name@)
    }

    /// Some entry is named `n`.
    pub open spec fn has_name(self, n: Seq<char>) -> bool {
        exists|i: int| 0 <= i < self.entries@.len() && (#[trigger] self.entries@[i].name@) == n
    }

    /// Decides whether the entry names are unique keys. A caller that
    /// builds a configuration from unchecked input runs this before
    /// handing it to the engine.
    pub fn check_well_formed(&self) -> (b: bool)
        ensures
            b == self.wf(),
    {
        let n = self.entries.len();
        let mut i: usize = 0;
        while i < n
            invariant
                i <= n,
                n == self.entries@.len(),
                forall|a: int, b: int|
                    0 <= a < b < n && a < i ==> (#[trigger] self.entries@[a].name@) != (
                    #[trigger] self.entries@[b].name@),
            decreases n - i,
        {
            let mut j: usize = i + 1;
            while j < n
                invariant
                    i < j <= n,
                    n == self.entries@.len(),
                    forall|b: int|
                        i < b < j ==> self.entries@[i as int].name@ != (
                        #[trigger] self.entries@[b].name@),
                decreases n - j,
            {
                if self.entries[i].name == self.entries[j].name {
                    return false;
                }
                j = j + 1;
            }
            i = i + 1;
        }
        true
    }

    /// Finds the entry named `name`, if any.
    pub fn lookup(&self, name: &String) -> (r: Option<&LinkEntry>)
        ensures
            match r {
                Some(e) => e.name@ == name@ && self.has_name(name@) && (exists|i: int|
                    0 <= i < self.entries@.len() && (#[trigger] self.entries@[i]) == *e),
                None => !self.has_name(name@),
            },
    {
        let n = self.entries.len();
        let mut i: usize = 0;
        while i < n
            invariant
                i <= n,
                n == self.entries@.len(),
                forall|k: int| 0 <= k < i ==> (#[trigger] self.entries@[k].name@) != name@,
            decreases n - i,
        {
            if self.entries[i].name == *name {
                return Some(&self.entries[i]);
            }
            i = i + 1;
        }
        None
    }
}

} // verus!
