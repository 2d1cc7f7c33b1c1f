use gpm::error::ErrorKind;
use gpm::error::Operation;
use gpm::error::VersionControlError;
use gpm::walker::decide;
use gpm::walker::Decision;
use gpm::walker::Pending;
use gpm::walker::Step;
use gpm::walker::Walker;

fn not_a_repository() -> Result<bool, VersionControlError> {
    Err(VersionControlError {
        operation: Operation::Open,
        code: -3,
        class: 6,
        message: String::from("could not find repository"),
    })
}

fn missing(dir: &tempfile::TempDir, name: &str) -> String {
    dir.path().join(name).to_str().unwrap().to_string()
}

#[test]
fn clean_repository_is_updated_forced_or_not() {
    assert_eq!(decide(&Ok(true), false, 1, 3), Decision::Update);
    assert_eq!(decide(&Ok(true), true, 1, 3), Decision::Update);
}

#[test]
fn unclean_repository_is_updated_only_when_forced() {
    assert_eq!(decide(&Ok(false), false, 1, 3), Decision::Skip);
    assert_eq!(decide(&Ok(false), true, 1, 3), Decision::Update);
    assert_eq!(decide(&Ok(false), true, 3, 3), Decision::Update);
    assert_eq!(decide(&Ok(false), true, 4, 3), Decision::Update);
}

#[test]
fn unclassified_directory_is_entered_above_the_limit_only() {
    assert_eq!(decide(&not_a_repository(), false, 1, 3), Decision::Descend);
    assert_eq!(decide(&not_a_repository(), false, 2, 3), Decision::Descend);
    assert_eq!(decide(&not_a_repository(), false, 3, 3), Decision::Stop);
    assert_eq!(decide(&not_a_repository(), false, 4, 3), Decision::Stop);
    assert_eq!(decide(&not_a_repository(), false, 1, 0), Decision::Stop);
}

#[test]
fn unclassified_directory_is_never_updated() {
    assert_eq!(decide(&not_a_repository(), true, 1, 3), Decision::Descend);
    assert_eq!(decide(&not_a_repository(), true, 3, 3), Decision::Stop);
}

#[test]
fn new_walker_has_nothing_pending() {
    let mut walker = Walker::new(3, true, None);
    assert_eq!(walker.max_depth(), 3);
    assert!(walker.force_update());
    assert_eq!(walker.pending_count(), 0);
    assert!(walker.peek().is_none());
    let mut count: u16 = 0;
    assert!(matches!(walker.step(&mut count), Step::Finished));
    assert_eq!(count, 0);
}

#[test]
fn children_of_the_start_lie_at_depth_one_in_the_order_given() {
    let root = tempfile::tempdir().unwrap();
    let mut walker = Walker::new(3, false, None);
    assert!(walker.enter(vec![missing(&root, "a"), missing(&root, "b"), missing(&root, "c")]));
    assert_eq!(walker.pending_count(), 3);
    let next = walker.peek().unwrap();
    assert_eq!(next.path, missing(&root, "a"));
    assert_eq!(next.depth, 1);
}

#[test]
fn entries_are_taken_once_per_directory() {
    let root = tempfile::tempdir().unwrap();
    let mut walker = Walker::new(3, false, None);
    assert!(walker.enter(vec![missing(&root, "a")]));
    assert!(!walker.enter(vec![missing(&root, "b")]));
    assert_eq!(walker.pending_count(), 1);
}

#[test]
fn directory_that_is_no_repository_is_entered_depth_first() {
    let root = tempfile::tempdir().unwrap();
    let mut walker = Walker::new(2, false, None);
    let mut count: u16 = 7;
    assert!(walker.enter(vec![missing(&root, "a"), missing(&root, "b")]));
    match walker.step(&mut count) {
        Step::Descend { path, depth, reason } => {
            assert_eq!(path, missing(&root, "a"));
            assert_eq!(depth, 1);
            assert_eq!(reason.operation, Operation::Open);
            assert_eq!(reason.kind(), ErrorKind::NotARepository);
            assert!(!reason.message.is_empty());
        }
        other => panic!("unexpected step {:?}", other),
    }
    assert!(walker.enter(vec![missing(&root, "a/x"), missing(&root, "a/y")]));
    assert_eq!(walker.pending_count(), 3);
    let mut visited = Vec::new();
    loop {
        match walker.step(&mut count) {
            Step::Finished => break,
            Step::Stopped { path, depth, .. } => visited.push((path, depth, false)),
            Step::Descend { path, depth, .. } => visited.push((path, depth, true)),
            other => panic!("unexpected step {:?}", other),
        }
    }
    assert_eq!(
        visited,
        vec![
            (missing(&root, "a/x"), 2, false),
            (missing(&root, "a/y"), 2, false),
            (missing(&root, "b"), 1, true),
        ]
    );
    assert_eq!(count, 7);
}

#[test]
fn subdirectories_not_handed_over_are_not_visited() {
    let root = tempfile::tempdir().unwrap();
    let mut walker = Walker::new(2, false, None);
    let mut count: u16 = 0;
    assert!(walker.enter(vec![missing(&root, "a"), missing(&root, "b")]));
    assert!(matches!(walker.step(&mut count), Step::Descend { .. }));
    assert!(matches!(walker.step(&mut count), Step::Descend { .. }));
    assert!(walker.enter(Vec::new()));
    assert!(matches!(walker.step(&mut count), Step::Finished));
}

#[test]
fn nothing_below_the_limit_is_visited() {
    let root = tempfile::tempdir().unwrap();
    let mut walker = Walker::new(3, false, None);
    let mut count: u16 = 0;
    let mut path = String::from(root.path().to_str().unwrap());
    let mut deepest = 0;
    assert!(walker.enter(vec![format!("{}/d", path)]));
    loop {
        path = format!("{}/d", path);
        match walker.step(&mut count) {
            Step::Descend { depth, .. } => {
                deepest = depth;
                assert!(walker.enter(vec![format!("{}/d", path)]));
            }
            Step::Stopped { depth, .. } => {
                deepest = depth;
                assert!(!walker.enter(vec![format!("{}/d", path)]));
            }
            Step::Finished => break,
            other => panic!("unexpected step {:?}", other),
        }
    }
    assert_eq!(deepest, 3);
    assert_eq!(count, 0);
}

#[test]
fn depth_limit_of_zero_still_visits_the_children_of_the_start() {
    let root = tempfile::tempdir().unwrap();
    let mut walker = Walker::new(0, false, None);
    let mut count: u16 = 0;
    assert!(walker.enter(vec![missing(&root, "a")]));
    match walker.step(&mut count) {
        Step::Stopped { depth, .. } => assert_eq!(depth, 1),
        other => panic!("unexpected step {:?}", other),
    }
    assert!(matches!(walker.step(&mut count), Step::Finished));
}

#[test]
fn take_hands_out_the_pending_directories_in_order() {
    let root = tempfile::tempdir().unwrap();
    let mut walker = Walker::new(3, false, None);
    assert!(walker.take().is_none());
    assert!(!walker.enter(vec![missing(&root, "late")]));
    let mut walker = Walker::new(3, false, None);
    assert!(walker.enter(vec![missing(&root, "a"), missing(&root, "b")]));
    let first = walker.take().unwrap();
    assert_eq!((first.path, first.depth), (missing(&root, "a"), 1));
    assert_eq!(walker.pending_count(), 1);
    let second = walker.take().unwrap();
    assert_eq!((second.path, second.depth), (missing(&root, "b"), 1));
    assert!(walker.take().is_none());
}

#[test]
fn settle_follows_the_classification_it_is_given() {
    let root = tempfile::tempdir().unwrap();
    let mut walker = Walker::new(2, false, None);
    let mut count: u16 = 3;
    let entry = |depth| Pending { path: missing(&root, "a"), depth };
    match walker.settle(entry(1), Ok(false), &mut count) {
        Step::Skipped { path, depth } => assert_eq!((path, depth), (missing(&root, "a"), 1)),
        other => panic!("unexpected step {:?}", other),
    }
    match walker.settle(entry(1), not_a_repository(), &mut count) {
        Step::Descend { path, depth, reason } => {
            assert_eq!((path, depth), (missing(&root, "a"), 1));
            assert_eq!(Err(reason), not_a_repository());
        }
        other => panic!("unexpected step {:?}", other),
    }
    assert!(walker.enter(vec![missing(&root, "a/x")]));
    assert_eq!(walker.peek().unwrap().depth, 2);
    match walker.settle(entry(2), not_a_repository(), &mut count) {
        Step::Stopped { path, depth, reason } => {
            assert_eq!((path, depth), (missing(&root, "a"), 2));
            assert_eq!(Err(reason), not_a_repository());
        }
        other => panic!("unexpected step {:?}", other),
    }
    assert!(!walker.enter(vec![missing(&root, "a/y")]));
    assert_eq!(walker.pending_count(), 1);
    assert_eq!(count, 3);
}

#[test]
fn settle_reports_an_update_that_fails() {
    let root = tempfile::tempdir().unwrap();
    let mut walker = Walker::new(2, false, None);
    let mut count: u16 = 3;
    match walker.settle(Pending { path: missing(&root, "a"), depth: 1 }, Ok(true), &mut count) {
        Step::UpdateFailed { path, depth, error } => {
            assert_eq!((path, depth), (missing(&root, "a"), 1));
            assert_eq!(error.operation, Operation::Open);
        }
        other => panic!("unexpected step {:?}", other),
    }
    assert_eq!(count, 3);
    assert!(!walker.enter(vec![missing(&root, "a/x")]));
}

#[test]
fn full_counter_is_no_hindrance_where_nothing_is_updated() {
    let root = tempfile::tempdir().unwrap();
    let mut walker = Walker::new(1, true, None);
    let mut count: u16 = u16::MAX;
    assert!(matches!(walker.step(&mut count), Step::Finished));
    let entry = |depth| Pending { path: missing(&root, "a"), depth };
    assert!(matches!(walker.settle(entry(1), Ok(false), &mut 0), Step::UpdateFailed { .. }));
    assert!(matches!(walker.settle(entry(1), not_a_repository(), &mut count), Step::Stopped { .. }));
    assert!(matches!(walker.settle(entry(0), not_a_repository(), &mut count), Step::Descend { .. }));
    let mut lenient = Walker::new(1, false, None);
    assert!(matches!(lenient.settle(entry(1), Ok(false), &mut count), Step::Skipped { .. }));
    assert!(matches!(lenient.step(&mut count), Step::Finished));
    assert_eq!(count, u16::MAX);
}

#[test]
fn counter_goes_up_by_the_number_of_updates() {
    let root = tempfile::tempdir().unwrap();
    let mut walker = Walker::new(2, false, None);
    let mut count: u16 = 10;
    let mut updated: u16 = 0;
    assert!(walker.enter(vec![missing(&root, "a"), missing(&root, "b"), missing(&root, "c")]));
    loop {
        let before = count;
        match walker.step(&mut count) {
            Step::Finished => break,
            Step::Updated { .. } => {
                updated += 1;
                assert_eq!(count, before + 1);
            }
            _ => assert_eq!(count, before),
        }
    }
    assert_eq!(updated, 0);
    assert_eq!(count, 10);
}
