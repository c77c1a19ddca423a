use vstd::prelude::*;
use crate::config::WatchEntry;

verus! {

/// Why the daemon refuses to start.
#[derive(Debug, PartialEq, Eq, Structural)]
pub enum StartupError {
    /// The source directory of rule `index` is not a watchable directory.
    InvalidSource { index: usize },
    /// Rules `first` and `second` were given the same watch handle, so one of
    /// them could never be told apart from the other.
    DuplicateWatch { first: usize, second: usize },
}

/// Every handle in `hs` occurs once.
pub open spec fn handles_distinct(hs: Seq<u64>) -> bool {
    forall|i: int, j: int| 0 <= i < hs.len() && 0 <= j < hs.len() && i != j ==> hs[i] != hs[j]
}

/// No handle before position `n` repeats an earlier one.
pub open spec fn distinct_before(hs: Seq<u64>, n: int) -> bool {
    forall|i: int, j: int| 0 <= i < j < n ==> hs[i] != hs[j]
}

/// The position of handle `h` in `hs`, if it occurs there.
pub open spec fn find_handle(hs: Seq<u64>, h: u64) -> Option<int> {
    if exists|i: int| 0 <= i < hs.len() && hs[i] == h {
        Some(choose|i: int| 0 <= i < hs.len() && hs[i] == h)
    } else {
        None
    }
}

/// In a sequence of distinct handles, the handle at `i` is found at `i`.
pub proof fn lemma_find_handle_at(hs: Seq<u64>, i: int)
    requires
        handles_distinct(hs),
        0 <= i < hs.len(),
    ensures
        find_handle(hs, hs[i]) == Some(i),
{
    let h = hs[i];
    assert(hs[i] == h);
    let j = choose|j: int| 0 <= j < hs.len() && hs[j] == h;
    assert(j == i);
}

/// Every source directory in `is_dir` is a watchable directory.
pub open spec fn all_sources_valid(is_dir: Seq<bool>) -> bool {
    forall|i: int| 0 <= i < is_dir.len() ==> is_dir[i]
}

/// Decides, before any watch is registered, whether the daemon may start:
/// `is_dir[i]` tells whether the source of rule `i` is a directory. A single
/// invalid source refuses the whole start, naming the first one.
pub fn check_sources(entries: &Vec<WatchEntry>, is_dir: &Vec<bool>) -> (r: Result<(), StartupError>)
    requires
        is_dir.len() == entries.len(),
    ensures
        r is Ok <==> all_sources_valid(is_dir@),
        r matches Err(e) ==> (e matches StartupError::InvalidSource { index } && index < is_dir.len()
            && !is_dir@[index as int]
            && forall|i: int| 0 <= i < index ==> is_dir@[i]),
{
    let mut i: usize = 0;
    while i < is_dir.len()
        invariant
            0 <= i <= is_dir.len(),
            forall|k: int| 0 <= k < i ==> is_dir@[k],
        decreases is_dir.len() - i,
    {
        if !is_dir[i] {
            return Err(StartupError::InvalidSource { index: i });
        }
        i = i + 1;
    }
    Ok(())
}

/// One source directory that is not a watchable directory, among any number
/// of rules, refuses the whole start: the daemon never runs with the watches
/// of the other rules alone.
pub proof fn law_one_invalid_source_refuses_start(is_dir: Seq<bool>, i: int)
    requires
        0 <= i < is_dir.len(),
        !is_dir[i],
    ensures
        !all_sources_valid(is_dir),
{
}

/// The table from watch handle to replication rule, built once at startup
/// and read-only afterwards. Rule `i` was registered under the `i`-th handle.
pub struct RuleTable {
    handles: Vec<u64>,
    entries: Vec<WatchEntry>,
}

impl RuleTable {
    /// The handle of each rule, in configuration order.
    pub closed spec fn handles(&self) -> Seq<u64> {
        self.handles@
    }

    /// The rules, in configuration order.
    pub closed spec fn rules(&self) -> Seq<WatchEntry> {
        self.entries@
    }

    /// One handle per rule, and no handle shared by two rules.
    pub open spec fn wf(&self) -> bool {
        &&& self.handles().len() == self.rules().len()
        &&& handles_distinct(self.handles())
    }

    /// The rule registered under handle `h`, if any.
    pub open spec fn rule_of(&self, h: u64) -> Option<int> {
        find_handle(self.handles(), h)
    }

    /// Builds the table from the rules and the handle that registering the
    /// watch of each one returned. Two rules under one handle would leave one
    /// of them silently unserved, so that refuses the start, naming the
    /// first handle that repeats an earlier one.
    pub fn build(entries: Vec<WatchEntry>, handles: Vec<u64>) -> (r: Result<RuleTable, StartupError>)
        requires
            handles.len() == entries.len(),
        ensures
            r is Ok <==> handles_distinct(handles@),
            r matches Ok(t) ==> t.wf() && t.handles() == handles@ && t.rules() == entries@,
            r matches Err(e) ==> (e matches StartupError::DuplicateWatch { first, second }
                && first < second < handles.len()
                && handles@[first as int] == handles@[second as int]
                && distinct_before(handles@, second as int)
                && forall|i: int| 0 <= i < first ==> handles@[i] != handles@[second as int]),
    {
        let n = handles.len();
        let mut j: usize = 0;
        while j < n
            invariant
                n == handles.len(),
                0 <= j <= n,
                distinct_before(handles@, j as int),
            decreases n - j,
        {
            let mut i: usize = 0;
            while i < j
                invariant
                    n == handles.len(),
                    0 <= i <= j < n,
                    distinct_before(handles@, j as int),
                    forall|k: int| 0 <= k < i ==> handles@[k] != handles@[j as int],
                decreases j - i,
            {
                if handles[i] == handles[j] {
                    return Err(StartupError::DuplicateWatch { first: i, second: j });
                }
                i = i + 1;
            }
            j = j + 1;
        }
        Ok(RuleTable { handles, entries })
    }

    /// The number of rules.
    pub fn len(&self) -> (r: usize)
        ensures
            r == self.rules().len(),
    {
        self.entries.len()
    }

    /// The rule at position `i`.
    pub fn rule(&self, i: usize) -> (r: &WatchEntry)
        requires
            i < self.rules().len(),
        ensures
            *r == self.rules()[i as int],
    {
        &self.entries[i]
    }

    /// The position of the rule registered under handle `h`, if any.
    pub fn lookup(&self, h: u64) -> (r: Option<usize>)
        requires
            self.wf(),
        ensures
            r matches Some(i) ==> self.rule_of(h) == Some(i as int),
            r is None ==> self.rule_of(h) is None,
    {
        let mut i: usize = 0;
        while i < self.handles.len()
            invariant
                self.wf(),
                0 <= i <= self.handles@.len(),
                forall|k: int| 0 <= k < i ==> self.handles@[k] != h,
            decreases self.handles@.len() - i,
        {
            if self.handles[i] == h {
                proof {
                    lemma_find_handle_at(self.handles@, i as int);
                }
                return Some(i);
            }
            i = i + 1;
        }
        None
    }
}

} // verus!
