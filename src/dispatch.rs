use vstd::prelude::*;
use crate::config::{join, join_path};
use crate::table::{lemma_find_handle_at, RuleTable};

verus! {

/// The filename that a change notification carries.
#[derive(Debug)]
pub enum EventName {
    /// The notification named no entry.
    Absent,
    /// The entry's name is not valid text.
    Undecodable,
    /// The name of the entry that was written.
    Text(String),
}

/// One write-completed notification: the handle of the watch that fired and
/// the name of the file inside the watched directory.
#[derive(Debug)]
pub struct ChangeEvent {
    pub handle: u64,
    pub name: EventName,
}

/// Why a notification leads to no copy. None of these stops the daemon.
#[derive(Debug, PartialEq, Eq, Structural)]
pub enum SkipReason {
    /// No rule was registered under the notification's handle.
    UnknownHandle,
    /// The notification carries no filename.
    MissingName,
    /// The filename is not valid text.
    UndecodableName,
    /// The source file could not be resolved: it is gone.
    SourceVanished,
}

/// A notification matched to a rule: the file to resolve and its name.
#[derive(Debug)]
pub struct Resolution {
    /// Position of the matching rule in the table.
    pub rule: usize,
    /// The rule's source directory joined with the filename.
    pub candidate: String,
    pub filename: String,
}

/// One copy to attempt: from the resolved source file to a destination path.
#[derive(Debug)]
pub struct CopyJob {
    pub from: String,
    pub to: String,
}

/// Which rule and filename a notification resolves to, or why it is skipped.
/// The handle is looked at first, then the name.
pub open spec fn plan_of(t: &RuleTable, ev: &ChangeEvent) -> Result<(int, Seq<char>), SkipReason> {
    match t.rule_of(ev.handle) {
        None => Err(SkipReason::UnknownHandle),
        Some(i) => match ev.name {
            EventName::Absent => Err(SkipReason::MissingName),
            EventName::Undecodable => Err(SkipReason::UndecodableName),
            EventName::Text(f) => Ok((i, f@)),
        },
    }
}

/// The copies of `source` for file `f`: one per destination, in list order,
/// each to the destination joined with the same filename.
pub open spec fn planned_copies(dests: Seq<String>, source: Seq<char>, f: Seq<char>) -> Seq<
    (Seq<char>, Seq<char>),
> {
    Seq::new(dests.len(), |k: int| (source, join(dests[k]@, f)))
}

/// The source and destination path of each job.
pub open spec fn job_views(js: Seq<CopyJob>) -> Seq<(Seq<char>, Seq<char>)> {
    js.map_values(|j: CopyJob| (j.from@, j.to@))
}

/// The copies that one notification leads to, given what resolving its
/// source file gave (`None`: the file was gone).
pub open spec fn event_copies(t: &RuleTable, ev: &ChangeEvent, canonical: Option<Seq<char>>) -> Seq<
    (Seq<char>, Seq<char>),
> {
    match (plan_of(t, ev), canonical) {
        (Ok((i, f)), Some(s)) => planned_copies(t.rules()[i].dest@, s, f),
        _ => Seq::empty(),
    }
}

/// The copies that a batch of notifications leads to, processed strictly in
/// the order delivered; `canonical[k]` is what resolving the source of
/// notification `k` gave.
pub open spec fn batch_copies(
    t: &RuleTable,
    evs: Seq<ChangeEvent>,
    canonical: Seq<Option<Seq<char>>>,
) -> Seq<(Seq<char>, Seq<char>)>
    decreases evs.len(),
{
    if evs.len() == 0 || canonical.len() == 0 {
        Seq::empty()
    } else {
        event_copies(t, &evs[0], canonical[0]) + batch_copies(
            t,
            evs.drop_first(),
            canonical.drop_first(),
        )
    }
}

impl RuleTable {
    /// Matches a notification to its rule and names the source file to
    /// resolve, or says why the notification is skipped.
    pub fn classify(&self, ev: &ChangeEvent) -> (r: Result<Resolution, SkipReason>)
        requires
            self.wf(),
        ensures
            match r {
                Ok(res) => {
                    &&& plan_of(self, ev) == Ok::<(int, Seq<char>), SkipReason>(
                        (res.rule as int, res.filename@),
                    )
                    &&& res.candidate@ == join(self.rules()[res.rule as int].src@, res.filename@)
                },
                Err(e) => plan_of(self, ev) == Err::<(int, Seq<char>), SkipReason>(e),
            },
    {
        let i = match self.lookup(ev.handle) {
            None => return Err(SkipReason::UnknownHandle),
            Some(i) => i,
        };
        match &ev.name {
            EventName::Absent => Err(SkipReason::MissingName),
            EventName::Undecodable => Err(SkipReason::UndecodableName),
            EventName::Text(f) => {
                let candidate = join_path(self.rule(i).src.as_str(), f.as_str());
                Ok(Resolution { rule: i, candidate, filename: f.clone() })
            },
        }
    }

    /// The copies for a file of rule `rule` named `filename`, given what
    /// resolving the source file gave: one job per destination, in list
    /// order, or a skip when the file was gone.
    pub fn copy_jobs(&self, rule: usize, source: Option<String>, filename: &String) -> (r: Result<
        Vec<CopyJob>,
        SkipReason,
    >)
        requires
            rule < self.rules().len(),
        ensures
            match source {
                None => r == Err::<Vec<CopyJob>, SkipReason>(SkipReason::SourceVanished),
                Some(s) => r matches Ok(jobs) && jobs@.len() == self.rules()[rule as int].dest@.len()
                    && job_views(jobs@) == planned_copies(
                    self.rules()[rule as int].dest@,
                    s@,
                    filename@,
                ),
            },
    {
        let s = match source {
            None => return Err(SkipReason::SourceVanished),
            Some(s) => s,
        };
        let dests = &self.rule(rule).dest;
        let mut jobs: Vec<CopyJob> = Vec::new();
        let mut k: usize = 0;
        while k < dests.len()
            invariant
                0 <= k <= dests@.len(),
                jobs@.len() == k,
                forall|m: int|
                    0 <= m < k ==> (#[trigger] jobs@[m]).from@ == s@ && jobs@[m].to@ == join(
                        dests@[m]@,
                        filename@,
                    ),
            decreases dests@.len() - k,
        {
            let to = join_path(dests[k].as_str(), filename.as_str());
            jobs.push(CopyJob { from: s.clone(), to });
            k = k + 1;
        }
        assert(job_views(jobs@) =~= planned_copies(dests@, s@, filename@));
        Ok(jobs)
    }
}

/// A write-completed notification for file `f` under the source directory of
/// rule `i` leads to exactly one copy per destination of that rule, in the
/// order of the destination list, each to the destination joined with `f`.
pub proof fn law_one_copy_per_destination(t: &RuleTable, i: int, ev: &ChangeEvent, source: Seq<char>)
    requires
        t.wf(),
        0 <= i < t.rules().len(),
        ev.handle == t.handles()[i],
        ev.name is Text,
    ensures
        ({
            let f = ev.name->Text_0@;
            let dests = t.rules()[i].dest@;
            let copies = event_copies(t, ev, Some(source));
            &&& plan_of(t, ev) == Ok::<(int, Seq<char>), SkipReason>((i, f))
            &&& copies.len() == dests.len()
            &&& forall|k: int| 0 <= k < dests.len() ==> copies[k] == (source, join(dests[k]@, f))
        }),
{
    lemma_find_handle_at(t.handles(), i);
}

/// A notification under a handle that no rule was registered under is
/// skipped, with no copy, and the rest of its batch is processed as if it
/// had not come.
pub proof fn law_unknown_handle_skipped(
    t: &RuleTable,
    ev: ChangeEvent,
    rest: Seq<ChangeEvent>,
    c: Option<Seq<char>>,
    rest_canonical: Seq<Option<Seq<char>>>,
)
    requires
        t.wf(),
        t.rule_of(ev.handle) is None,
    ensures
        plan_of(t, &ev) == Err::<(int, Seq<char>), SkipReason>(SkipReason::UnknownHandle),
        event_copies(t, &ev, c) == Seq::<(Seq<char>, Seq<char>)>::empty(),
        batch_copies(t, seq![ev] + rest, seq![c] + rest_canonical) == batch_copies(
            t,
            rest,
            rest_canonical,
        ),
{
    lemma_skipped_event_adds_nothing(t, ev, rest, c, rest_canonical);
}

/// A notification with no filename, or one that is not valid text, is
/// skipped, with no copy, and the rest of its batch is processed as if it
/// had not come.
pub proof fn law_malformed_name_skipped(
    t: &RuleTable,
    ev: ChangeEvent,
    rest: Seq<ChangeEvent>,
    c: Option<Seq<char>>,
    rest_canonical: Seq<Option<Seq<char>>>,
)
    requires
        t.wf(),
        !(ev.name is Text),
    ensures
        plan_of(t, &ev) is Err,
        plan_of(t, &ev) != Err::<(int, Seq<char>), SkipReason>(SkipReason::SourceVanished),
        event_copies(t, &ev, c) == Seq::<(Seq<char>, Seq<char>)>::empty(),
        batch_copies(t, seq![ev] + rest, seq![c] + rest_canonical) == batch_copies(
            t,
            rest,
            rest_canonical,
        ),
{
    lemma_skipped_event_adds_nothing(t, ev, rest, c, rest_canonical);
}

/// A notification that resolves to no rule and filename adds no copy to its
/// batch.
proof fn lemma_skipped_event_adds_nothing(
    t: &RuleTable,
    ev: ChangeEvent,
    rest: Seq<ChangeEvent>,
    c: Option<Seq<char>>,
    rest_canonical: Seq<Option<Seq<char>>>,
)
    requires
        plan_of(t, &ev) is Err,
    ensures
        event_copies(t, &ev, c) == Seq::<(Seq<char>, Seq<char>)>::empty(),
        batch_copies(t, seq![ev] + rest, seq![c] + rest_canonical) == batch_copies(
            t,
            rest,
            rest_canonical,
        ),
{
    let evs = seq![ev] + rest;
    let cs = seq![c] + rest_canonical;
    assert(evs[0] == ev);
    assert(cs[0] == c);
    assert(evs.drop_first() =~= rest);
    assert(cs.drop_first() =~= rest_canonical);
    assert(event_copies(t, &ev, c) =~= Seq::<(Seq<char>, Seq<char>)>::empty());
    assert(batch_copies(t, evs, cs) =~= batch_copies(t, rest, rest_canonical));
}

} // verus!
