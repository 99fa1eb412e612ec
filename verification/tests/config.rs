use media_sorter::config::{
    check_target_folder, classify_argument, parse_arguments, parse_conflict_mode, Argument,
    Configuration, ConfigurationError,
};
use media_sorter::placement::ConflictMode;
use media_sorter::relocate::Mode;

fn arguments(words: &[&str]) -> Vec<String> {
    words.iter().map(|word| word.to_string()).collect()
}

fn defaults(target: &str) -> Configuration {
    Configuration {
        verbose: false,
        mode: Mode::Move,
        source_folder: ".".to_string(),
        target_folder: target.to_string(),
        conflict_mode: ConflictMode::Choose,
        file_creation_fallback: false,
        delete_skipped_source_duplicates: false,
        include_unsupported: false,
    }
}

#[test]
fn target_alone_makes_a_run_with_the_defaults() {
    assert_eq!(parse_arguments(&arguments(&["--target", "sorted"])), Ok(defaults("sorted")));
    assert_eq!(parse_arguments(&arguments(&["-t", "sorted"])), Ok(defaults("sorted")));
}

#[test]
fn every_switch_sets_its_setting() {
    let parsed = parse_arguments(&arguments(&[
        "photos",
        "--verbose",
        "--copy",
        "--target",
        "sorted",
        "--conflict-mode",
        "both",
        "--file-creation-fallback",
        "--delete-skipped-source-duplicates",
        "--include-unsupported-file-types",
    ]));
    let expected = Configuration {
        verbose: true,
        mode: Mode::Copy,
        source_folder: "photos".to_string(),
        target_folder: "sorted".to_string(),
        conflict_mode: ConflictMode::KeepBoth,
        file_creation_fallback: true,
        delete_skipped_source_duplicates: true,
        include_unsupported: true,
    };
    assert_eq!(parsed, Ok(expected.clone()));
    let short = parse_arguments(&arguments(&["-v", "-c", "-t", "sorted", "-k", "both", "-s", "-q", "-u", "photos"]));
    assert_eq!(short, Ok(expected));
}

#[test]
fn each_mode_can_be_asked_for() {
    let mode_of = |switch: &str| parse_arguments(&arguments(&[switch, "-t", "x"])).map(|c| c.mode);
    assert_eq!(mode_of("--dry-run"), Ok(Mode::DryRun));
    assert_eq!(mode_of("-d"), Ok(Mode::DryRun));
    assert_eq!(mode_of("--copy"), Ok(Mode::Copy));
    assert_eq!(mode_of("--move"), Ok(Mode::Move));
    assert_eq!(mode_of("-m"), Ok(Mode::Move));
}

#[test]
fn second_mode_is_refused() {
    assert_eq!(parse_arguments(&arguments(&["-d", "-c", "-t", "x"])), Err(ConfigurationError::SeveralModes));
    assert_eq!(parse_arguments(&arguments(&["-m", "-t", "x", "--move"])), Err(ConfigurationError::SeveralModes));
    assert_eq!(parse_arguments(&arguments(&["--copy", "--dry-run"])), Err(ConfigurationError::SeveralModes));
}

#[test]
fn second_source_is_refused() {
    assert_eq!(parse_arguments(&arguments(&["a", "b", "-t", "x"])), Err(ConfigurationError::TooManyArguments));
    assert_eq!(parse_arguments(&arguments(&["a", "-t", "x", "--unknown"])), Err(ConfigurationError::TooManyArguments));
}

#[test]
fn first_fault_from_the_left_is_reported() {
    assert_eq!(parse_arguments(&arguments(&["a", "b", "-d", "-c"])), Err(ConfigurationError::TooManyArguments));
    assert_eq!(parse_arguments(&arguments(&["-d", "-c", "a", "b"])), Err(ConfigurationError::SeveralModes));
}

#[test]
fn missing_target_is_refused() {
    assert_eq!(parse_arguments(&arguments(&[])), Err(ConfigurationError::NoTargetFolder));
    assert_eq!(parse_arguments(&arguments(&["photos", "-v"])), Err(ConfigurationError::NoTargetFolder));
    assert_eq!(parse_arguments(&arguments(&["photos", "--target"])), Err(ConfigurationError::NoTargetFolder));
    assert_eq!(parse_arguments(&arguments(&["-t", "x", "-t"])), Err(ConfigurationError::NoTargetFolder));
}

#[test]
fn value_is_taken_whatever_it_is() {
    let parsed = parse_arguments(&arguments(&["-t", "-v"])).unwrap();
    assert_eq!(parsed.target_folder, "-v");
    assert!(!parsed.verbose);
    let parsed = parse_arguments(&arguments(&["-k", "-d", "-t", "x"])).unwrap();
    assert_eq!(parsed.conflict_mode, ConflictMode::Choose);
    assert_eq!(parsed.mode, Mode::Move);
}

#[test]
fn value_set_twice_holds_as_set_last() {
    let parsed = parse_arguments(&arguments(&["-t", "x", "-t", "y", "-k", "both", "-k", "target"])).unwrap();
    assert_eq!(parsed.target_folder, "y");
    assert_eq!(parsed.conflict_mode, ConflictMode::KeepTarget);
}

#[test]
fn conflict_mode_knows_three_values() {
    assert_eq!(parse_conflict_mode(Some("both")), ConflictMode::KeepBoth);
    assert_eq!(parse_conflict_mode(Some("source")), ConflictMode::KeepSource);
    assert_eq!(parse_conflict_mode(Some("target")), ConflictMode::KeepTarget);
    assert_eq!(parse_conflict_mode(Some("choose")), ConflictMode::Choose);
    assert_eq!(parse_conflict_mode(Some("Both")), ConflictMode::Choose);
    assert_eq!(parse_conflict_mode(Some("")), ConflictMode::Choose);
    assert_eq!(parse_conflict_mode(None), ConflictMode::Choose);
}

#[test]
fn conflict_mode_without_a_value_lets_the_operator_choose() {
    let parsed = parse_arguments(&arguments(&["-t", "x", "-k"])).unwrap();
    assert_eq!(parsed.conflict_mode, ConflictMode::Choose);
}

#[test]
fn arguments_are_told_apart() {
    assert_eq!(classify_argument("--verbose"), Argument::Verbose);
    assert_eq!(classify_argument("-q"), Argument::DeleteSkipped);
    assert_eq!(classify_argument("-u"), Argument::IncludeUnsupported);
    assert_eq!(classify_argument("--Verbose"), Argument::Source);
    assert_eq!(classify_argument("photos"), Argument::Source);
    assert_eq!(classify_argument(""), Argument::Source);
}

#[test]
fn faults_have_their_messages() {
    assert_eq!(ConfigurationError::SeveralModes.message(), "Only one mode can be chosen.");
    assert_eq!(ConfigurationError::TooManyArguments.message(), "Too many arguments given.");
    assert_eq!(ConfigurationError::NoTargetFolder.message(), "No target folder supplied.");
    assert_eq!(
        ConfigurationError::TargetFolderUnavailable.message(),
        "Target folder does not exists or you are missing the required permissions."
    );
}

#[test]
fn run_needs_its_target_folder() {
    assert_eq!(check_target_folder(true), Ok(()));
    assert_eq!(check_target_folder(false), Err(ConfigurationError::TargetFolderUnavailable));
}
