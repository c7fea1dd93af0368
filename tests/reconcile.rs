use dir_mirror::{decide, finish_pass, plan_pass, Decision, DestProbe, EntryProbe, Timestamp};

fn t(secs: u64) -> Timestamp {
    Timestamp::after_epoch(secs, 0)
}

fn file(name: &str, src: u64, dest: DestProbe) -> EntryProbe {
    EntryProbe { name: name.to_string(), is_dir: false, source_modified: Some(t(src)), dest }
}

fn dir(name: &str) -> EntryProbe {
    EntryProbe { name: name.to_string(), is_dir: true, source_modified: Some(t(1)), dest: DestProbe::Absent }
}

#[test]
fn missing_file_is_copied() {
    assert_eq!(decide(&file("a.txt", 5, DestProbe::Absent)), Decision::CopyMissing);
}

#[test]
fn missing_file_is_copied_without_its_time() {
    let p = EntryProbe {
        name: "a.txt".to_string(),
        is_dir: false,
        source_modified: None,
        dest: DestProbe::Absent,
    };
    assert_eq!(decide(&p), Decision::CopyMissing);
}

#[test]
fn newer_file_overwrites() {
    assert_eq!(decide(&file("b.txt", 9, DestProbe::Present(Some(t(3))))), Decision::CopyNewer);
}

#[test]
fn equal_times_do_not_copy() {
    assert_eq!(decide(&file("b.txt", 3, DestProbe::Present(Some(t(3))))), Decision::UpToDate);
}

#[test]
fn older_file_is_left() {
    assert_eq!(decide(&file("c.txt", 2, DestProbe::Present(Some(t(3))))), Decision::UpToDate);
}

#[test]
fn one_nanosecond_newer_copies() {
    let p = EntryProbe {
        name: "b.txt".to_string(),
        is_dir: false,
        source_modified: Some(Timestamp::after_epoch(3, 1)),
        dest: DestProbe::Present(Some(t(3))),
    };
    assert_eq!(decide(&p), Decision::CopyNewer);
}

#[test]
fn directories_are_skipped() {
    assert_eq!(decide(&dir("sub")), Decision::SkipDirectory);
    let mut d = dir("sub");
    d.dest = DestProbe::Present(Some(t(0)));
    assert_eq!(decide(&d), Decision::SkipDirectory);
}

#[test]
fn unreadable_times_are_reported() {
    assert_eq!(decide(&file("x", 3, DestProbe::Present(None))), Decision::MetadataUnreadable);
    let p = EntryProbe {
        name: "x".to_string(),
        is_dir: false,
        source_modified: None,
        dest: DestProbe::Present(Some(t(1))),
    };
    assert_eq!(decide(&p), Decision::MetadataUnreadable);
}

#[test]
fn scenario_mixed_source() {
    let entries = vec![
        file("a.txt", 10, DestProbe::Absent),
        file("b.txt", 20, DestProbe::Present(Some(t(15)))),
        file("c.txt", 5, DestProbe::Present(Some(t(8)))),
        dir("sub"),
    ];
    let plan = plan_pass(&entries);
    assert_eq!(
        plan,
        vec![Decision::CopyMissing, Decision::CopyNewer, Decision::UpToDate, Decision::SkipDirectory]
    );
    let ok = vec![true, true, false, false];
    assert_eq!(finish_pass(&plan, &ok).unwrap(), 2);
}

#[test]
fn empty_source_plans_nothing() {
    let plan = plan_pass(&Vec::new());
    assert!(plan.is_empty());
    assert_eq!(finish_pass(&plan, &Vec::new()).unwrap(), 0);
}

#[test]
fn second_pass_after_copy_is_noop() {
    // After the first pass each copied file is at least as new as its source.
    let first = plan_pass(&vec![
        file("a.txt", 10, DestProbe::Absent),
        file("b.txt", 20, DestProbe::Present(Some(t(15)))),
    ]);
    assert_eq!(finish_pass(&first, &vec![true, true]).unwrap(), 2);
    let second = plan_pass(&vec![
        file("a.txt", 10, DestProbe::Present(Some(t(10)))),
        file("b.txt", 20, DestProbe::Present(Some(t(31)))),
    ]);
    assert_eq!(second, vec![Decision::UpToDate, Decision::UpToDate]);
    assert_eq!(finish_pass(&second, &vec![false, false]).unwrap(), 0);
}

#[test]
fn one_failure_does_not_stop_the_others() {
    let plan = plan_pass(&vec![
        file("a.txt", 10, DestProbe::Absent),
        file("locked.txt", 10, DestProbe::Absent),
        file("c.txt", 30, DestProbe::Present(Some(t(8)))),
    ]);
    assert_eq!(plan, vec![Decision::CopyMissing, Decision::CopyMissing, Decision::CopyNewer]);
    let failure = finish_pass(&plan, &vec![true, false, true]).unwrap_err();
    assert_eq!(failure.copied, 2);
    assert_eq!(failure.failed, vec![1]);
}

#[test]
fn unreadable_entries_fail_the_pass_softly() {
    let plan = plan_pass(&vec![
        file("x", 3, DestProbe::Present(None)),
        file("a.txt", 10, DestProbe::Absent),
        file("y", 3, DestProbe::Present(None)),
    ]);
    let failure = finish_pass(&plan, &vec![true, true, true]).unwrap_err();
    assert_eq!(failure.copied, 1);
    assert_eq!(failure.failed, vec![0, 2]);
}

#[test]
fn skipped_entries_ignore_copy_flags() {
    let plan = vec![Decision::UpToDate, Decision::SkipDirectory];
    assert_eq!(finish_pass(&plan, &vec![false, true]).unwrap(), 0);
}
