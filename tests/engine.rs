use watchcopy::config::{join_path, Config, WatchEntry};
use watchcopy::copy_round::{CopyOutcome, CopyRound};
use watchcopy::dispatch::{ChangeEvent, CopyJob, EventName, SkipReason};
use watchcopy::table::{check_sources, RuleTable, StartupError};

fn entry(src: &str, dest: &[&str]) -> WatchEntry {
    WatchEntry { src: src.to_string(), dest: dest.iter().map(|d| d.to_string()).collect() }
}

fn text_event(handle: u64, name: &str) -> ChangeEvent {
    ChangeEvent { handle, name: EventName::Text(name.to_string()) }
}

fn pairs(jobs: &[CopyJob]) -> Vec<(String, String)> {
    jobs.iter().map(|j| (j.from.clone(), j.to.clone())).collect()
}

fn sample_table() -> RuleTable {
    RuleTable::build(vec![entry("/a", &["/b", "/c"])], vec![1]).unwrap()
}

fn jobs_for(t: &RuleTable, ev: &ChangeEvent) -> Vec<CopyJob> {
    let res = t.classify(ev).unwrap();
    t.copy_jobs(res.rule, Some(res.candidate.clone()), &res.filename).unwrap()
}

#[test]
fn join_path_uses_one_separator() {
    assert_eq!(join_path("/a", "x.txt"), "/a/x.txt");
    assert_eq!(join_path("", "x"), "/x");
    assert_eq!(join_path("rel/dir", ""), "rel/dir/");
}

#[test]
fn config_holds_rules_in_order() {
    let cfg = Config { version: 1, entries: vec![entry("/src", &["/dest1", "/dest2"])] };
    assert_eq!(cfg.version, 1);
    assert_eq!(cfg.entries.len(), 1);
    assert_eq!(cfg.entries[0].src, "/src");
    assert_eq!(cfg.entries[0].dest, vec!["/dest1".to_string(), "/dest2".to_string()]);
}

#[test]
fn two_destinations_both_copied() {
    let entries = vec![entry("/a", &["/b", "/c"])];
    assert_eq!(check_sources(&entries, &vec![true]), Ok(()));
    let t = RuleTable::build(entries, vec![1]).unwrap();
    let res = t.classify(&text_event(1, "x.txt")).unwrap();
    assert_eq!(res.rule, 0);
    assert_eq!(res.candidate, "/a/x.txt");
    assert_eq!(res.filename, "x.txt");
    let jobs = t.copy_jobs(0, Some("/a/x.txt".to_string()), &res.filename).unwrap();
    assert_eq!(
        pairs(&jobs),
        vec![
            ("/a/x.txt".to_string(), "/b/x.txt".to_string()),
            ("/a/x.txt".to_string(), "/c/x.txt".to_string()),
        ]
    );
    let mut round = CopyRound::new(jobs);
    assert_eq!(round.next_job().unwrap().to, "/b/x.txt");
    round.record(CopyOutcome::Copied(5));
    assert_eq!(round.next_job().unwrap().to, "/c/x.txt");
    round.record(CopyOutcome::Copied(5));
    assert!(round.next_job().is_none());
    assert!(round.is_done());
    assert_eq!(round.copied(), 2);
}

#[test]
fn missing_destination_does_not_stop_the_rest() {
    let t = sample_table();
    let mut round = CopyRound::new(jobs_for(&t, &text_event(1, "x.txt")));
    assert_eq!(round.next_job().unwrap().to, "/b/x.txt");
    round.record(CopyOutcome::Copied(3));
    assert_eq!(round.next_job().unwrap().to, "/c/x.txt");
    round.record(CopyOutcome::Failed);
    assert!(round.is_done());
    assert_eq!(round.copied(), 1);
    // the next notification is handled as usual
    let jobs = jobs_for(&t, &text_event(1, "y.txt"));
    assert_eq!(jobs[0].to, "/b/y.txt");
    assert_eq!(jobs[1].to, "/c/y.txt");
}

#[test]
fn failed_first_destination_still_tries_second() {
    let t = sample_table();
    let mut round = CopyRound::new(jobs_for(&t, &text_event(1, "f")));
    assert_eq!(round.next_job().unwrap().to, "/b/f");
    round.record(CopyOutcome::Failed);
    assert!(!round.is_done());
    assert_eq!(round.next_job().unwrap().to, "/c/f");
    round.record(CopyOutcome::Copied(0));
    assert_eq!(round.copied(), 1);
}

#[test]
fn unknown_handle_is_skipped_and_next_event_handled() {
    let t = sample_table();
    assert_eq!(t.classify(&text_event(2, "x.txt")).unwrap_err(), SkipReason::UnknownHandle);
    assert_eq!(t.lookup(2), None);
    let res = t.classify(&text_event(1, "z")).unwrap();
    assert_eq!(res.candidate, "/a/z");
}

#[test]
fn absent_name_is_skipped() {
    let t = sample_table();
    let ev = ChangeEvent { handle: 1, name: EventName::Absent };
    assert_eq!(t.classify(&ev).unwrap_err(), SkipReason::MissingName);
}

#[test]
fn undecodable_name_is_skipped() {
    let t = sample_table();
    let ev = ChangeEvent { handle: 1, name: EventName::Undecodable };
    assert_eq!(t.classify(&ev).unwrap_err(), SkipReason::UndecodableName);
    // an unknown handle is reported before the name
    let ev = ChangeEvent { handle: 9, name: EventName::Undecodable };
    assert_eq!(t.classify(&ev).unwrap_err(), SkipReason::UnknownHandle);
}

#[test]
fn vanished_source_is_skipped() {
    let t = sample_table();
    let r = t.copy_jobs(0, None, &"x.txt".to_string());
    assert_eq!(r.unwrap_err(), SkipReason::SourceVanished);
}

#[test]
fn canonical_source_is_copied_from() {
    let t = sample_table();
    let jobs = t.copy_jobs(0, Some("/real/a/x".to_string()), &"x".to_string()).unwrap();
    assert_eq!(jobs[0].from, "/real/a/x");
    assert_eq!(jobs[1].from, "/real/a/x");
    assert_eq!(jobs[0].to, "/b/x");
}

#[test]
fn one_invalid_source_refuses_start() {
    let entries = vec![entry("/a", &["/b"]), entry("/missing", &["/b"]), entry("/c", &["/d"])];
    assert_eq!(
        check_sources(&entries, &vec![true, false, true]),
        Err(StartupError::InvalidSource { index: 1 })
    );
    assert_eq!(
        check_sources(&entries, &vec![false, false, true]),
        Err(StartupError::InvalidSource { index: 0 })
    );
    assert_eq!(check_sources(&entries, &vec![true, true, true]), Ok(()));
    assert_eq!(check_sources(&Vec::new(), &Vec::new()), Ok(()));
}

#[test]
fn shared_handle_refuses_start() {
    let r = RuleTable::build(
        vec![entry("/a", &["/x"]), entry("/b", &["/y"]), entry("/a", &["/z"])],
        vec![3, 5, 3],
    );
    assert_eq!(r.err(), Some(StartupError::DuplicateWatch { first: 0, second: 2 }));
    let r = RuleTable::build(
        vec![entry("/a", &[]), entry("/b", &[]), entry("/c", &[]), entry("/d", &[])],
        vec![1, 2, 2, 1],
    );
    assert_eq!(r.err(), Some(StartupError::DuplicateWatch { first: 1, second: 2 }));
}

#[test]
fn rules_are_found_by_handle() {
    let t = RuleTable::build(
        vec![entry("/a", &["/x"]), entry("/b", &["/y", "/z"])],
        vec![7, 4],
    )
    .unwrap();
    assert_eq!(t.len(), 2);
    assert_eq!(t.lookup(7), Some(0));
    assert_eq!(t.lookup(4), Some(1));
    assert_eq!(t.rule(1).src, "/b");
    let jobs = jobs_for(&t, &text_event(4, "n"));
    assert_eq!(
        pairs(&jobs),
        vec![
            ("/b/n".to_string(), "/y/n".to_string()),
            ("/b/n".to_string(), "/z/n".to_string()),
        ]
    );
}

#[test]
fn empty_table_knows_no_handle() {
    let t = RuleTable::build(Vec::new(), Vec::new()).unwrap();
    assert_eq!(t.len(), 0);
    assert_eq!(t.classify(&text_event(0, "x")).unwrap_err(), SkipReason::UnknownHandle);
}

#[test]
fn no_destinations_means_no_copies() {
    let t = RuleTable::build(vec![entry("/a", &[])], vec![1]).unwrap();
    let jobs = jobs_for(&t, &text_event(1, "x"));
    assert!(jobs.is_empty());
    let round = CopyRound::new(jobs);
    assert!(round.is_done());
    assert!(round.next_job().is_none());
    assert_eq!(round.copied(), 0);
}

#[test]
fn repeated_destination_is_copied_twice() {
    let t = RuleTable::build(vec![entry("/a", &["/b", "/b"])], vec![1]).unwrap();
    let jobs = jobs_for(&t, &text_event(1, "x"));
    assert_eq!(
        pairs(&jobs),
        vec![("/a/x".to_string(), "/b/x".to_string()), ("/a/x".to_string(), "/b/x".to_string())]
    );
}
