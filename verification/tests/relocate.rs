use media_sorter::placement::PlacementOutcome;
use media_sorter::relocate::{
    handle_file, handle_image, handle_missing_parents, is_taken_up, FileAction, KnownParents, Mode,
    Transfer,
};

fn place(path: &str) -> PlacementOutcome {
    PlacementOutcome::Place(path.to_string())
}

fn relocate(create_parent: Option<&str>, destination: &str, transfer: Transfer) -> FileAction {
    FileAction::Relocate {
        create_parent: create_parent.map(|p| p.to_string()),
        destination: destination.to_string(),
        transfer,
    }
}

#[test]
fn known_parents_start_empty_and_only_grow() {
    let mut known = KnownParents::new();
    assert!(!known.contains("t/2023/7"));
    assert!(known.insert("t/2023/7"));
    assert!(known.contains("t/2023/7"));
    assert!(!known.insert("t/2023/7"));
    assert!(known.insert("t/2023/8"));
    assert!(known.contains("t/2023/7"));
    assert!(known.contains("t/2023/8"));
    assert!(!known.contains("t/2023"));
    assert_eq!(known.len(), 2);
}

#[test]
fn known_parents_count_each_directory_once() {
    let mut known = KnownParents::new();
    assert_eq!(known.len(), 0);
    for directory in ["a", "b", "a", "c", "b", "a"] {
        known.insert(directory);
    }
    assert_eq!(known.len(), 3);
}

#[test]
fn missing_parent_is_named_until_it_is_known() {
    let mut known = KnownParents::new();
    assert_eq!(handle_missing_parents("t/2023/7/a.jpg", &known), Some("t/2023/7".to_string()));
    known.insert("t/2023/7");
    assert_eq!(handle_missing_parents("t/2023/7/a.jpg", &known), None);
    assert_eq!(handle_missing_parents("t/2023/8/a.jpg", &known), Some("t/2023/8".to_string()));
}

#[test]
fn move_creates_a_shared_parent_once() {
    let mut known = KnownParents::new();
    let first = handle_image(&place("target/2023/7/a.jpg"), Mode::Move, false, &known);
    assert_eq!(first, relocate(Some("target/2023/7"), "target/2023/7/a.jpg", Transfer::Move));
    handle_file(&first, &mut known);
    let second = handle_image(&place("target/2023/7/b.jpg"), Mode::Move, false, &known);
    assert_eq!(second, relocate(None, "target/2023/7/b.jpg", Transfer::Move));
    handle_file(&second, &mut known);
    let third = handle_image(&place("target/2023/8/c.jpg"), Mode::Move, false, &known);
    assert_eq!(third, relocate(Some("target/2023/8"), "target/2023/8/c.jpg", Transfer::Move));
}

#[test]
fn copy_creates_a_shared_parent_once() {
    let mut known = KnownParents::new();
    let first = handle_image(&place("target/2023/7/a.jpg"), Mode::Copy, true, &known);
    assert_eq!(first, relocate(Some("target/2023/7"), "target/2023/7/a.jpg", Transfer::Copy));
    handle_file(&first, &mut known);
    let second = handle_image(&place("target/2023/7/b.jpg"), Mode::Copy, true, &known);
    assert_eq!(second, relocate(None, "target/2023/7/b.jpg", Transfer::Copy));
}

#[test]
fn parent_is_asked_for_again_while_no_file_arrived() {
    let known = KnownParents::new();
    let first = handle_image(&place("target/2023/7/a.jpg"), Mode::Move, false, &known);
    let second = handle_image(&place("target/2023/7/b.jpg"), Mode::Move, false, &known);
    assert_eq!(first, relocate(Some("target/2023/7"), "target/2023/7/a.jpg", Transfer::Move));
    assert_eq!(second, relocate(Some("target/2023/7"), "target/2023/7/b.jpg", Transfer::Move));
}

#[test]
fn dry_run_only_describes() {
    let mut known = KnownParents::new();
    let action = handle_image(&place("target/2023/7/a.jpg"), Mode::DryRun, false, &known);
    assert_eq!(action, FileAction::Describe { destination: "target/2023/7/a.jpg".to_string() });
    handle_file(&action, &mut known);
    assert!(!known.contains("target/2023/7"));
    assert_eq!(handle_image(&PlacementOutcome::Skip, Mode::DryRun, true, &known), FileAction::DescribeDeletion);
    assert_eq!(handle_image(&PlacementOutcome::Skip, Mode::DryRun, false, &known), FileAction::Leave);
}

#[test]
fn skipped_source_is_deleted_only_where_the_run_says_so() {
    let known = KnownParents::new();
    assert_eq!(handle_image(&PlacementOutcome::Skip, Mode::Move, true, &known), FileAction::DeleteSource);
    assert_eq!(handle_image(&PlacementOutcome::Skip, Mode::Copy, true, &known), FileAction::DeleteSource);
    assert_eq!(handle_image(&PlacementOutcome::Skip, Mode::Move, false, &known), FileAction::Leave);
    assert_eq!(handle_image(&PlacementOutcome::Skip, Mode::Copy, false, &known), FileAction::Leave);
}

#[test]
fn skip_and_description_teach_no_directory() {
    let mut known = KnownParents::new();
    handle_file(&FileAction::Leave, &mut known);
    handle_file(&FileAction::DeleteSource, &mut known);
    handle_file(&FileAction::DescribeDeletion, &mut known);
    assert_eq!(handle_missing_parents("a/b", &known), Some("a".to_string()));
}

#[test]
fn run_takes_up_media_files_and_others_on_demand() {
    assert!(is_taken_up("a.jpg", false));
    assert!(is_taken_up("a.mp4", false));
    assert!(!is_taken_up("a.txt", false));
    assert!(is_taken_up("a.txt", true));
    assert!(is_taken_up("a.jpg", true));
}
