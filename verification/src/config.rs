//! What a run is told on the command line. The arguments are read from left
//! to right; the settings they make hold for the whole run.

use vstd::prelude::*;
use crate::placement::ConflictMode;
use crate::relocate::Mode;
use crate::text::same_text;

verus! {

/// The settings of a run.
#[derive(Clone, Debug, PartialEq, Eq)]
pub struct Configuration {
    /// Whether the run says what it does with each file.
    pub verbose: bool,
    /// What the run does with the files.
    pub mode: Mode,
    /// The directory whose files are sorted.
    pub source_folder: String,
    /// The directory that the tree of years and months grows in.
    pub target_folder: String,
    /// What is done about a name that is taken.
    pub conflict_mode: ConflictMode,
    /// Whether a file's time in the file system is taken unasked.
    pub file_creation_fallback: bool,
    /// Whether a source that is skipped is deleted.
    pub delete_skipped_source_duplicates: bool,
    /// Whether files that are neither images nor videos are sorted too.
    pub include_unsupported: bool,
}

/// The settings of a run, its paths as texts.
#[verifier::ext_equal]
pub struct ConfigurationText {
    pub verbose: bool,
    pub mode: Mode,
    pub source_folder: Seq<char>,
    pub target_folder: Seq<char>,
    pub conflict_mode: ConflictMode,
    pub file_creation_fallback: bool,
    pub delete_skipped_source_duplicates: bool,
    pub include_unsupported: bool,
}

impl DeepView for Configuration {
    type V = ConfigurationText;

    open spec fn deep_view(&self) -> ConfigurationText {
        ConfigurationText {
            verbose: self.verbose,
            mode: self.mode,
            source_folder: self.source_folder@,
            target_folder: self.target_folder@,
            conflict_mode: self.conflict_mode,
            file_creation_fallback: self.file_creation_fallback,
            delete_skipped_source_duplicates: self.delete_skipped_source_duplicates,
            include_unsupported: self.include_unsupported,
        }
    }
}

/// Why the arguments make no run. Each of these ends the program before any
/// file is touched.
#[derive(Clone, Copy, Debug, PartialEq, Eq, Structural)]
pub enum ConfigurationError {
    /// More than one of dry run, copy and move was asked for.
    SeveralModes,
    /// More than one source directory was named.
    TooManyArguments,
    /// No target directory was named.
    NoTargetFolder,
    /// The target directory is not there, or may not be entered.
    TargetFolderUnavailable,
}

/// What an argument is.
#[derive(Clone, Copy, Debug, PartialEq, Eq, Structural)]
pub enum Argument {
    Verbose,
    DryRun,
    Copy,
    Move,
    /// The argument behind this one names the target directory.
    Target,
    /// The argument behind this one names the conflict mode.
    Conflict,
    FileCreationFallback,
    DeleteSkipped,
    IncludeUnsupported,
    /// No switch: the source directory.
    Source,
}

/// What the text of an argument means: one of the switches, in its long or
/// its short form, or else a source directory.
pub open spec fn argument_of(text: Seq<char>) -> Argument {
    if text == "--verbose"@ || text == "-v"@ {
        Argument::Verbose
    } else if text == "--dry-run"@ || text == "-d"@ {
        Argument::DryRun
    } else if text == "--copy"@ || text == "-c"@ {
        Argument::Copy
    } else if text == "--move"@ || text == "-m"@ {
        Argument::Move
    } else if text == "--target"@ || text == "-t"@ {
        Argument::Target
    } else if text == "--conflict-mode"@ || text == "-k"@ {
        Argument::Conflict
    } else if text == "--file-creation-fallback"@ || text == "-s"@ {
        Argument::FileCreationFallback
    } else if text == "--delete-skipped-source-duplicates"@ || text == "-q"@ {
        Argument::DeleteSkipped
    } else if text == "--include-unsupported-file-types"@ || text == "-u"@ {
        Argument::IncludeUnsupported
    } else {
        Argument::Source
    }
}

/// Says what an argument is.
pub fn classify_argument(text: &str) -> (argument: Argument)
    ensures
        argument == argument_of(text@),
{
    if same_text(text, "--verbose") || same_text(text, "-v") {
        Argument::Verbose
    } else if same_text(text, "--dry-run") || same_text(text, "-d") {
        Argument::DryRun
    } else if same_text(text, "--copy") || same_text(text, "-c") {
        Argument::Copy
    } else if same_text(text, "--move") || same_text(text, "-m") {
        Argument::Move
    } else if same_text(text, "--target") || same_text(text, "-t") {
        Argument::Target
    } else if same_text(text, "--conflict-mode") || same_text(text, "-k") {
        Argument::Conflict
    } else if same_text(text, "--file-creation-fallback") || same_text(text, "-s") {
        Argument::FileCreationFallback
    } else if same_text(text, "--delete-skipped-source-duplicates") || same_text(text, "-q") {
        Argument::DeleteSkipped
    } else if same_text(text, "--include-unsupported-file-types") || same_text(text, "-u") {
        Argument::IncludeUnsupported
    } else {
        Argument::Source
    }
}

/// The conflict mode that a value names. Any value but `both`, `source` and
/// `target`, and a value that is missing, leave the decision to the
/// operator.
pub open spec fn conflict_mode_of(value: Option<Seq<char>>) -> ConflictMode {
    match value {
        Some(text) => if text == "both"@ {
            ConflictMode::KeepBoth
        } else if text == "source"@ {
            ConflictMode::KeepSource
        } else if text == "target"@ {
            ConflictMode::KeepTarget
        } else {
            ConflictMode::Choose
        },
        None => ConflictMode::Choose,
    }
}

/// Reads the value of the conflict mode.
pub fn parse_conflict_mode(value: Option<&str>) -> (mode: ConflictMode)
    ensures
        mode == conflict_mode_of(
            match value {
                Some(text) => Some(text@),
                None => None,
            },
        ),
{
    match value {
        Some(text) => if same_text(text, "both") {
            ConflictMode::KeepBoth
        } else if same_text(text, "source") {
            ConflictMode::KeepSource
        } else if same_text(text, "target") {
            ConflictMode::KeepTarget
        } else {
            ConflictMode::Choose
        },
        None => ConflictMode::Choose,
    }
}

/// What the arguments read so far have set.
#[verifier::ext_equal]
pub struct Settings {
    pub verbose: bool,
    pub mode: Option<Mode>,
    pub source_folder: Option<Seq<char>>,
    pub target_folder: Option<Seq<char>>,
    pub conflict_mode: ConflictMode,
    pub file_creation_fallback: bool,
    pub delete_skipped_source_duplicates: bool,
    pub include_unsupported: bool,
}

/// The settings before any argument is read.
pub open spec fn no_settings() -> Settings {
    Settings {
        verbose: false,
        mode: None,
        source_folder: None,
        target_folder: None,
        conflict_mode: ConflictMode::Choose,
        file_creation_fallback: false,
        delete_skipped_source_duplicates: false,
        include_unsupported: false,
    }
}

/// The argument at `at`, if there is one.
pub open spec fn value_at(arguments: Seq<Seq<char>>, at: int) -> Option<Seq<char>> {
    if 0 <= at < arguments.len() {
        Some(arguments[at])
    } else {
        None
    }
}

/// The settings once a mode was asked for: a second mode is refused.
pub open spec fn with_mode(seen: Settings, mode: Mode) -> Result<Settings, ConfigurationError> {
    if seen.mode is Some {
        Err(ConfigurationError::SeveralModes)
    } else {
        Ok(Settings { mode: Some(mode), ..seen })
    }
}

/// How many arguments a switch with a value takes: itself and the value
/// behind it, if there is one.
pub open spec fn taken_with_value(arguments: Seq<Seq<char>>, at: int) -> int {
    if at + 1 < arguments.len() {
        2
    } else {
        1
    }
}

/// The settings once the argument at `at` is read, and the number of
/// arguments that this took: the two switches with a value take the argument
/// behind them, whatever it is; a value that is set twice holds as it was
/// set last.
pub open spec fn read_argument(arguments: Seq<Seq<char>>, at: int, seen: Settings) -> Result<
    (Settings, int),
    ConfigurationError,
> {
    match argument_of(arguments[at]) {
        Argument::Verbose => Ok((Settings { verbose: true, ..seen }, 1)),
        Argument::DryRun => match with_mode(seen, Mode::DryRun) {
            Ok(next) => Ok((next, 1)),
            Err(fault) => Err(fault),
        },
        Argument::Copy => match with_mode(seen, Mode::Copy) {
            Ok(next) => Ok((next, 1)),
            Err(fault) => Err(fault),
        },
        Argument::Move => match with_mode(seen, Mode::Move) {
            Ok(next) => Ok((next, 1)),
            Err(fault) => Err(fault),
        },
        Argument::Target => Ok(
            (
                Settings { target_folder: value_at(arguments, at + 1), ..seen },
                taken_with_value(arguments, at),
            ),
        ),
        Argument::Conflict => Ok(
            (
                Settings {
                    conflict_mode: conflict_mode_of(value_at(arguments, at + 1)),
                    ..seen
                },
                taken_with_value(arguments, at),
            ),
        ),
        Argument::FileCreationFallback => Ok((Settings { file_creation_fallback: true, ..seen }, 1)),
        Argument::DeleteSkipped => Ok(
            (Settings { delete_skipped_source_duplicates: true, ..seen }, 1),
        ),
        Argument::IncludeUnsupported => Ok((Settings { include_unsupported: true, ..seen }, 1)),
        Argument::Source => if seen.source_folder is Some {
            Err(ConfigurationError::TooManyArguments)
        } else {
            Ok((Settings { source_folder: Some(arguments[at]), ..seen }, 1))
        },
    }
}

/// The settings once all arguments from `at` on are read, or the first
/// fault among them. A proof about given arguments gives the definition fuel
/// for their number.
pub open spec fn read_from(arguments: Seq<Seq<char>>, at: int, seen: Settings) -> Result<
    Settings,
    ConfigurationError,
>
    decreases arguments.len() - at,
{
    if at < 0 || at >= arguments.len() {
        Ok(seen)
    } else {
        match read_argument(arguments, at, seen) {
            Ok((next, taken)) => if taken == 2 {
                read_from(arguments, at + 2, next)
            } else {
                read_from(arguments, at + 1, next)
            },
            Err(fault) => Err(fault),
        }
    }
}

/// The run that settings make: the files are moved unless another mode was
/// asked for, and the source is the current directory unless one was named.
/// Without a target there is no run.
pub open spec fn run_of(seen: Settings) -> Result<ConfigurationText, ConfigurationError> {
    match seen.target_folder {
        Some(target_folder) => Ok(
            ConfigurationText {
                verbose: seen.verbose,
                mode: match seen.mode {
                    Some(mode) => mode,
                    None => Mode::Move,
                },
                source_folder: match seen.source_folder {
                    Some(source_folder) => source_folder,
                    None => "."@,
                },
                target_folder,
                conflict_mode: seen.conflict_mode,
                file_creation_fallback: seen.file_creation_fallback,
                delete_skipped_source_duplicates: seen.delete_skipped_source_duplicates,
                include_unsupported: seen.include_unsupported,
            },
        ),
        None => Err(ConfigurationError::NoTargetFolder),
    }
}

/// The run that the arguments of a program make; the name of the program is
/// not among them.
pub open spec fn configuration_of(arguments: Seq<Seq<char>>) -> Result<
    ConfigurationText,
    ConfigurationError,
> {
    match read_from(arguments, 0, no_settings()) {
        Ok(seen) => run_of(seen),
        Err(fault) => Err(fault),
    }
}

struct Scan {
    verbose: bool,
    mode: Option<Mode>,
    source_folder: Option<String>,
    target_folder: Option<String>,
    conflict_mode: ConflictMode,
    file_creation_fallback: bool,
    delete_skipped_source_duplicates: bool,
    include_unsupported: bool,
}

impl Scan {
    spec fn settings(&self) -> Settings {
        Settings {
            verbose: self.verbose,
            mode: self.mode,
            source_folder: self.source_folder.deep_view(),
            target_folder: self.target_folder.deep_view(),
            conflict_mode: self.conflict_mode,
            file_creation_fallback: self.file_creation_fallback,
            delete_skipped_source_duplicates: self.delete_skipped_source_duplicates,
            include_unsupported: self.include_unsupported,
        }
    }
}

fn read_one(arguments: &Vec<String>, at: usize, seen: Scan) -> (read: Result<
    (Scan, usize),
    ConfigurationError,
>)
    requires
        at < arguments.len(),
    ensures
        match read {
            Ok((next, taken)) => read_argument(arguments.deep_view(), at as int, seen.settings())
                == Ok::<(Settings, int), ConfigurationError>((next.settings(), taken as int))
                && 1 <= taken <= 2 && at + taken <= arguments.len(),
            Err(fault) => read_argument(arguments.deep_view(), at as int, seen.settings()) == Err::<
                (Settings, int),
                ConfigurationError,
            >(fault),
        },
{
    let ghost texts = arguments.deep_view();
    assert(texts[at as int] == arguments[at as int]@);
    let has_value = at + 1 < arguments.len();
    if has_value {
        assert(texts[at + 1] == arguments[at + 1]@);
    }
    let with_value: usize = if has_value {
        2
    } else {
        1
    };
    let mut next = seen;
    match classify_argument(arguments[at].as_str()) {
        Argument::Verbose => {
            next.verbose = true;
            Ok((next, 1))
        },
        Argument::DryRun => {
            if next.mode.is_some() {
                return Err(ConfigurationError::SeveralModes);
            }
            next.mode = Some(Mode::DryRun);
            Ok((next, 1))
        },
        Argument::Copy => {
            if next.mode.is_some() {
                return Err(ConfigurationError::SeveralModes);
            }
            next.mode = Some(Mode::Copy);
            Ok((next, 1))
        },
        Argument::Move => {
            if next.mode.is_some() {
                return Err(ConfigurationError::SeveralModes);
            }
            next.mode = Some(Mode::Move);
            Ok((next, 1))
        },
        Argument::Target => {
            next.target_folder = if has_value {
                Some(arguments[at + 1].clone())
            } else {
                None
            };
            Ok((next, with_value))
        },
        Argument::Conflict => {
            next.conflict_mode = if has_value {
                parse_conflict_mode(Some(arguments[at + 1].as_str()))
            } else {
                parse_conflict_mode(None)
            };
            Ok((next, with_value))
        },
        Argument::FileCreationFallback => {
            next.file_creation_fallback = true;
            Ok((next, 1))
        },
        Argument::DeleteSkipped => {
            next.delete_skipped_source_duplicates = true;
            Ok((next, 1))
        },
        Argument::IncludeUnsupported => {
            next.include_unsupported = true;
            Ok((next, 1))
        },
        Argument::Source => {
            if next.source_folder.is_some() {
                return Err(ConfigurationError::TooManyArguments);
            }
            next.source_folder = Some(arguments[at].clone());
            Ok((next, 1))
        },
    }
}

/// Reads the arguments of a program, without the program's name, into the
/// settings of a run.
pub fn parse_arguments(arguments: &Vec<String>) -> (parsed: Result<
    Configuration,
    ConfigurationError,
>)
    ensures
        match parsed {
            Ok(configuration) => configuration_of(arguments.deep_view()) == Ok::<
                ConfigurationText,
                ConfigurationError,
            >(configuration.deep_view()),
            Err(fault) => configuration_of(arguments.deep_view()) == Err::<
                ConfigurationText,
                ConfigurationError,
            >(fault),
        },
{
    let mut seen = Scan {
        verbose: false,
        mode: None,
        source_folder: None,
        target_folder: None,
        conflict_mode: ConflictMode::Choose,
        file_creation_fallback: false,
        delete_skipped_source_duplicates: false,
        include_unsupported: false,
    };
    let ghost texts = arguments.deep_view();
    let mut at: usize = 0;
    while at < arguments.len()
        invariant
            texts == arguments.deep_view(),
            0 <= at <= arguments.len(),
            read_from(texts, 0, no_settings()) == read_from(texts, at as int, seen.settings()),
        decreases arguments.len() - at,
    {
        match read_one(arguments, at, seen) {
            Ok((next, taken)) => {
                seen = next;
                at = at + taken;
            },
            Err(fault) => {
                return Err(fault);
            },
        }
    }
    let target_folder = match seen.target_folder {
        Some(target_folder) => target_folder,
        None => {
            return Err(ConfigurationError::NoTargetFolder);
        },
    };
    let source_folder = match seen.source_folder {
        Some(source_folder) => source_folder,
        None => ".".to_owned(),
    };
    let mode = match seen.mode {
        Some(mode) => mode,
        None => Mode::Move,
    };
    Ok(
        Configuration {
            verbose: seen.verbose,
            mode,
            source_folder,
            target_folder,
            conflict_mode: seen.conflict_mode,
            file_creation_fallback: seen.file_creation_fallback,
            delete_skipped_source_duplicates: seen.delete_skipped_source_duplicates,
            include_unsupported: seen.include_unsupported,
        },
    )
}

/// What the operator is told about arguments that make no run.
pub open spec fn message_of(fault: ConfigurationError) -> Seq<char> {
    match fault {
        ConfigurationError::SeveralModes => "Only one mode can be chosen."@,
        ConfigurationError::TooManyArguments => "Too many arguments given."@,
        ConfigurationError::NoTargetFolder => "No target folder supplied."@,
        ConfigurationError::TargetFolderUnavailable =>
            "Target folder does not exists or you are missing the required permissions."@,
    }
}

impl ConfigurationError {
    /// What the operator is told.
    pub fn message(&self) -> (text: String)
        ensures
            text@ == message_of(*self),
    {
        match self {
            ConfigurationError::SeveralModes => "Only one mode can be chosen.".to_owned(),
            ConfigurationError::TooManyArguments => "Too many arguments given.".to_owned(),
            ConfigurationError::NoTargetFolder => "No target folder supplied.".to_owned(),
            ConfigurationError::TargetFolderUnavailable =>
                "Target folder does not exists or you are missing the required permissions.".to_owned(),
        }
    }
}

/// A run needs its target directory before it touches any file: the caller
/// looks whether the directory is there and says so.
pub fn check_target_folder(target_exists: bool) -> (checked: Result<(), ConfigurationError>)
    ensures
        checked == if target_exists {
            Ok::<(), ConfigurationError>(())
        } else {
            Err::<(), ConfigurationError>(ConfigurationError::TargetFolderUnavailable)
        },
{
    if target_exists {
        Ok(())
    } else {
        Err(ConfigurationError::TargetFolderUnavailable)
    }
}

} // verus!
