//! The merge request: what the user asked for, and the defaults derived from it.

use vstd::prelude::*;
use crate::text::{file_stem, file_stem_of, lowercase_of, to_lowercase};

verus! {

/// What a look at the filesystem found at an input path.
#[derive(Clone, Copy, Debug, PartialEq, Eq, Structural)]
pub enum PathStatus {
    /// Nothing exists at the path.
    Missing,
    /// Something exists at the path that is not a regular file.
    NotAFile,
    /// A regular file exists at the path.
    RegularFile,
}

impl PathStatus {
    /// The status of a path of which it is known whether anything exists
    /// there and whether that is a regular file.
    pub open spec fn of(exists: bool, is_file: bool) -> PathStatus {
        if !exists {
            PathStatus::Missing
        } else if !is_file {
            PathStatus::NotAFile
        } else {
            PathStatus::RegularFile
        }
    }

    /// Classifies a path from the answers to the two questions.
    pub fn from_probe(exists: bool, is_file: bool) -> (r: PathStatus)
        ensures
            r == PathStatus::of(exists, is_file),
    {
        if !exists {
            PathStatus::Missing
        } else if !is_file {
            PathStatus::NotAFile
        } else {
            PathStatus::RegularFile
        }
    }
}

/// Why a request was turned down.
#[derive(Clone, Debug, PartialEq, Eq)]
pub enum CliError {
    /// The request names no input file.
    NoInputFiles,
    /// Nothing exists at the named input path.
    MissingInput(String),
    /// The named input path is not a regular file.
    NotAFile(String),
    /// The first input has no file stem to name the output after.
    InvalidFilename,
}

/// The mathematical value of a [`CliError`].
pub enum CliFault {
    NoInputFiles,
    MissingInput(Seq<char>),
    NotAFile(Seq<char>),
    InvalidFilename,
}

impl CliFault {
    /// The text shown to the user for this fault.
    pub open spec fn message(self) -> Seq<char> {
        match self {
            CliFault::NoInputFiles => "No input files provided"@,
            CliFault::MissingInput(p) => "Input file does not exist: "@ + p,
            CliFault::NotAFile(p) => "Input path is not a file: "@ + p,
            CliFault::InvalidFilename => "Invalid input filename"@,
        }
    }
}

impl View for CliError {
    type V = CliFault;

    open spec fn view(&self) -> CliFault {
        match self {
            CliError::NoInputFiles => CliFault::NoInputFiles,
            CliError::MissingInput(p) => CliFault::MissingInput(p@),
            CliError::NotAFile(p) => CliFault::NotAFile(p@),
            CliError::InvalidFilename => CliFault::InvalidFilename,
        }
    }
}

impl CliError {
    /// The text shown to the user for this error.
    pub fn message(&self) -> (r: String)
        ensures
            r@ == self@.message(),
    {
        match self {
            CliError::NoInputFiles => String::from_str("No input files provided"),
            CliError::MissingInput(p) => String::from_str("Input file does not exist: ").concat(
                p.as_str(),
            ),
            CliError::NotAFile(p) => String::from_str("Input path is not a file: ").concat(
                p.as_str(),
            ),
            CliError::InvalidFilename => String::from_str("Invalid input filename"),
        }
    }
}

/// The video codec that the table assigns to a lowercased output format.
pub open spec fn video_codec_for(lowered: Seq<char>) -> Seq<char> {
    if lowered == "mp4"@ || lowered == "mkv"@ || lowered == "mov"@ {
        "libx264"@
    } else if lowered == "avi"@ {
        "libxvid"@
    } else {
        "copy"@
    }
}

/// The audio codec that the table assigns to a lowercased output format.
pub open spec fn audio_codec_for(lowered: Seq<char>) -> Seq<char> {
    if lowered == "mp4"@ || lowered == "mkv"@ || lowered == "mov"@ {
        "aac"@
    } else if lowered == "avi"@ {
        "mp3"@
    } else {
        "copy"@
    }
}

/// The fault that a status other than `RegularFile` raises for `path`.
pub open spec fn fault_of(path: Seq<char>, status: PathStatus) -> CliFault {
    match status {
        PathStatus::Missing => CliFault::MissingInput(path),
        _ => CliFault::NotAFile(path),
    }
}

/// The outcome of checking the inputs from index `from` on, in order: the
/// first one that is not a regular file decides.
pub open spec fn first_rejection(paths: Seq<String>, statuses: Seq<PathStatus>, from: int) -> Result<
    (),
    CliFault,
>
    decreases paths.len() - from,
{
    if from < 0 || from >= paths.len() || from >= statuses.len() {
        Ok(())
    } else if statuses[from] == PathStatus::RegularFile {
        first_rejection(paths, statuses, from + 1)
    } else {
        Err(fault_of(paths[from]@, statuses[from]))
    }
}

/// Looks up the video codec for an output format that is already in lowercase.
pub fn video_codec_for_format(lowered: &String) -> (r: String)
    ensures
        r@ == video_codec_for(lowered@),
{
    if *lowered == String::from_str("mp4") || *lowered == String::from_str("mkv") || *lowered
        == String::from_str("mov") {
        String::from_str("libx264")
    } else if *lowered == String::from_str("avi") {
        String::from_str("libxvid")
    } else {
        String::from_str("copy")
    }
}

/// Looks up the audio codec for an output format that is already in lowercase.
pub fn audio_codec_for_format(lowered: &String) -> (r: String)
    ensures
        r@ == audio_codec_for(lowered@),
{
    if *lowered == String::from_str("mp4") || *lowered == String::from_str("mkv") || *lowered
        == String::from_str("mov") {
        String::from_str("aac")
    } else if *lowered == String::from_str("avi") {
        String::from_str("mp3")
    } else {
        String::from_str("copy")
    }
}

/// The output path for a request without an explicit one: the stem of the
/// first input, then `_merged.`, then the format.
pub fn default_output_name(stem: &str, format: &str) -> (r: String)
    ensures
        r@ == stem@ + "_merged."@ + format@,
{
    let mut name = String::from_str(stem);
    name.append("_merged.");
    name.append(format);
    name
}

/// A merge request as the user stated it.
#[derive(Clone, Debug)]
pub struct Cli {
    /// Input video files to merge, in playback order.
    pub input_files: Vec<String>,
    /// Output format, such as mp4, avi, mov or mkv.
    pub output_format: Option<String>,
    /// Output file path.
    pub output_path: Option<String>,
    /// Whether progress is reported in detail.
    pub verbose: bool,
    /// Codec for the video stream.
    pub video_codec: Option<String>,
    /// Codec for the audio stream.
    pub audio_codec: Option<String>,
    /// Quality or bitrate of the video stream.
    pub video_quality: Option<String>,
}

impl Cli {
    /// The output format, `mp4` where none was given.
    pub open spec fn format_or_default(&self) -> Seq<char> {
        match self.output_format {
            Some(f) => f@,
            None => "mp4"@,
        }
    }

    /// The output path of this request, or why it has none.
    pub open spec fn resolved_output(&self) -> Result<Seq<char>, CliFault> {
        match self.output_path {
            Some(p) => Ok(p@),
            None => if self.input_files@.len() == 0 {
                Err(CliFault::NoInputFiles)
            } else {
                match file_stem_of(self.input_files@[0]@) {
                    Some(stem) => Ok(stem + "_merged."@ + self.format_or_default()),
                    None => Err(CliFault::InvalidFilename),
                }
            },
        }
    }

    /// The outcome of validating the inputs, where `statuses[i]` is what
    /// was found at `input_files[i]`.
    pub open spec fn validation(&self, statuses: Seq<PathStatus>) -> Result<(), CliFault> {
        if self.input_files@.len() == 0 {
            Err(CliFault::NoInputFiles)
        } else {
            first_rejection(self.input_files@, statuses, 0)
        }
    }

    /// The video codec of this request.
    pub open spec fn video_codec_choice(&self) -> Seq<char> {
        match self.video_codec {
            Some(c) => c@,
            None => match self.output_format {
                Some(f) => video_codec_for(lowercase_of(f@)),
                None => "copy"@,
            },
        }
    }

    /// The audio codec of this request.
    pub open spec fn audio_codec_choice(&self) -> Seq<char> {
        match self.audio_codec {
            Some(c) => c@,
            None => match self.output_format {
                Some(f) => audio_codec_for(lowercase_of(f@)),
                None => "copy"@,
            },
        }
    }

    /// Generate the output path from the explicit path, or else from the
    /// first input file and the format.
    pub fn generate_output_path(&self) -> (r: Result<String, CliError>)
        ensures
            match r {
                Ok(p) => self.resolved_output() == Ok::<Seq<char>, CliFault>(p@),
                Err(e) => self.resolved_output() == Err::<Seq<char>, CliFault>(e@),
            },
    {
        match &self.output_path {
            Some(p) => Ok(p.clone()),
            None => {
                if self.input_files.len() == 0 {
                    return Err(CliError::NoInputFiles);
                }
                match file_stem(self.input_files[0].as_str()) {
                    Some(stem) => {
                        match &self.output_format {
                            Some(f) => Ok(default_output_name(stem.as_str(), f.as_str())),
                            None => Ok(default_output_name(stem.as_str(), "mp4")),
                        }
                    },
                    None => Err(CliError::InvalidFilename),
                }
            },
        }
    }

    /// Validate the input files against what was found on disk:
    /// `statuses[i]` is the status of `input_files[i]`.
    pub fn validate_inputs(&self, statuses: &Vec<PathStatus>) -> (r: Result<(), CliError>)
        requires
            statuses.len() == self.input_files.len(),
        ensures
            match r {
                Ok(_) => self.validation(statuses@) == Ok::<(), CliFault>(()),
                Err(e) => self.validation(statuses@) == Err::<(), CliFault>(e@),
            },
    {
        if self.input_files.len() == 0 {
            return Err(CliError::NoInputFiles);
        }
        let n: usize = self.input_files.len();
        let mut i: usize = 0;
        while i < n
            invariant
                i <= n,
                n == self.input_files.len(),
                n == statuses.len(),
                first_rejection(self.input_files@, statuses@, 0) == first_rejection(
                    self.input_files@,
                    statuses@,
                    i as int,
                ),
            decreases n - i,
        {
            match statuses[i] {
                PathStatus::Missing => {
                    return Err(CliError::MissingInput(self.input_files[i].clone()));
                },
                PathStatus::NotAFile => {
                    return Err(CliError::NotAFile(self.input_files[i].clone()));
                },
                PathStatus::RegularFile => {},
            }
            i += 1;
        }
        Ok(())
    }

    /// Get the video codec: the explicit one, else the one that the table
    /// gives for the output format, else `copy`.
    pub fn get_video_codec(&self) -> (r: String)
        ensures
            r@ == self.video_codec_choice(),
    {
        match &self.video_codec {
            Some(c) => c.clone(),
            None => match &self.output_format {
                Some(f) => {
                    let lowered = to_lowercase(f.as_str());
                    video_codec_for_format(&lowered)
                },
                None => String::from_str("copy"),
            },
        }
    }

    /// Get the audio codec: the explicit one, else the one that the table
    /// gives for the output format, else `copy`.
    pub fn get_audio_codec(&self) -> (r: String)
        ensures
            r@ == self.audio_codec_choice(),
    {
        match &self.audio_codec {
            Some(c) => c.clone(),
            None => match &self.output_format {
                Some(f) => {
                    let lowered = to_lowercase(f.as_str());
                    audio_codec_for_format(&lowered)
                },
                None => String::from_str("copy"),
            },
        }
    }
}

/// Inputs that are regular files do not decide: checking from `from` on
/// gives what checking from `k` on gives, where every input between the
/// two is a regular file.
proof fn lemma_regular_files_are_passed(
    paths: Seq<String>,
    statuses: Seq<PathStatus>,
    from: int,
    k: int,
)
    requires
        0 <= from <= k <= paths.len(),
        k <= statuses.len(),
        forall|j: int| from <= j < k ==> statuses[j] == PathStatus::RegularFile,
    ensures
        first_rejection(paths, statuses, from) == first_rejection(paths, statuses, k),
    decreases k - from,
{
    if from < k {
        lemma_regular_files_are_passed(paths, statuses, from + 1, k);
    }
}

/// Validation turns a request down for its first input that is not a
/// regular file, and names that input.
pub proof fn validation_names_first_rejected_input(cli: Cli, statuses: Seq<PathStatus>, k: int)
    requires
        statuses.len() == cli.input_files@.len(),
        0 <= k < statuses.len(),
        statuses[k] != PathStatus::RegularFile,
        forall|j: int| 0 <= j < k ==> statuses[j] == PathStatus::RegularFile,
    ensures
        cli.validation(statuses) == Err::<(), CliFault>(
            fault_of(cli.input_files@[k]@, statuses[k]),
        ),
{
    lemma_regular_files_are_passed(cli.input_files@, statuses, 0, k);
}

/// Where one input is missing and every other is a regular file,
/// validation fails with `MissingInput` naming the missing one.
pub proof fn single_missing_input_is_named(cli: Cli, statuses: Seq<PathStatus>, k: int)
    requires
        statuses.len() == cli.input_files@.len(),
        0 <= k < statuses.len(),
        statuses[k] == PathStatus::Missing,
        forall|j: int| 0 <= j < statuses.len() && j != k ==> statuses[j] == PathStatus::RegularFile,
    ensures
        cli.validation(statuses) == Err::<(), CliFault>(
            CliFault::MissingInput(cli.input_files@[k]@),
        ),
{
    validation_names_first_rejected_input(cli, statuses, k);
}

/// Validation accepts a request exactly when it has at least one input
/// and every input is a regular file.
pub proof fn validation_accepts_only_regular_files(cli: Cli, statuses: Seq<PathStatus>)
    requires
        statuses.len() == cli.input_files@.len(),
    ensures
        cli.validation(statuses) is Ok <==> statuses.len() > 0 && forall|j: int|
            0 <= j < statuses.len() ==> statuses[j] == PathStatus::RegularFile,
{
    let n = statuses.len() as int;
    if n > 0 {
        if forall|j: int| 0 <= j < n ==> statuses[j] == PathStatus::RegularFile {
            lemma_regular_files_are_passed(cli.input_files@, statuses, 0, n);
        } else {
            let k = first_other_than_regular(statuses, n);
            validation_names_first_rejected_input(cli, statuses, k);
        }
    }
}

/// The least index below `upto` whose status is not `RegularFile`.
proof fn first_other_than_regular(statuses: Seq<PathStatus>, upto: int) -> (k: int)
    requires
        0 <= upto <= statuses.len(),
        exists|j: int| 0 <= j < upto && statuses[j] != PathStatus::RegularFile,
    ensures
        0 <= k < upto,
        statuses[k] != PathStatus::RegularFile,
        forall|j: int| 0 <= j < k ==> statuses[j] == PathStatus::RegularFile,
    decreases upto,
{
    if exists|j: int| 0 <= j < upto - 1 && statuses[j] != PathStatus::RegularFile {
        first_other_than_regular(statuses, upto - 1)
    } else {
        upto - 1
    }
}

/// A request without inputs fails validation with `NoInputFiles`,
/// whatever was found on disk.
pub proof fn empty_request_is_rejected(cli: Cli, statuses: Seq<PathStatus>)
    requires
        cli.input_files@.len() == 0,
    ensures
        cli.validation(statuses) == Err::<(), CliFault>(CliFault::NoInputFiles),
{
}

/// A request with inputs, no explicit output path and the format `avi`
/// is written to the stem of its first input followed by `_merged.avi`;
/// it has no output path only where that input has no stem.
pub proof fn default_output_is_named_after_first_input(cli: Cli)
    requires
        cli.input_files@.len() > 0,
        cli.output_path is None,
        cli.output_format matches Some(f) && f@ == "avi"@,
    ensures
        match file_stem_of(cli.input_files@[0]@) {
            Some(stem) => cli.resolved_output() == Ok::<Seq<char>, CliFault>(
                stem + "_merged.avi"@,
            ),
            None => cli.resolved_output() == Err::<Seq<char>, CliFault>(
                CliFault::InvalidFilename,
            ),
        },
{
    reveal_strlit("avi");
    reveal_strlit("_merged.");
    reveal_strlit("_merged.avi");
    assert("_merged."@ + "avi"@ =~= "_merged.avi"@);
    match file_stem_of(cli.input_files@[0]@) {
        Some(stem) => {
            assert(stem + "_merged."@ + "avi"@ =~= stem + ("_merged."@ + "avi"@));
        },
        None => {},
    }
}

/// An explicit output path is used as it stands.
pub proof fn explicit_output_is_kept(cli: Cli)
    requires
        cli.output_path is Some,
    ensures
        cli.resolved_output() == Ok::<Seq<char>, CliFault>(cli.output_path->0@),
{
}

/// An explicit codec is used as it stands, whatever the output format.
pub proof fn explicit_codecs_win(cli: Cli)
    ensures
        cli.video_codec matches Some(c) ==> cli.video_codec_choice() == c@,
        cli.audio_codec matches Some(c) ==> cli.audio_codec_choice() == c@,
{
}

/// Without explicit codecs, the format `mkv` in any case that lowers to
/// it selects `libx264` and `aac`.
pub proof fn mkv_selects_libx264_and_aac(cli: Cli)
    requires
        cli.video_codec is None,
        cli.audio_codec is None,
        cli.output_format matches Some(f) && lowercase_of(f@) == "mkv"@,
    ensures
        cli.video_codec_choice() == "libx264"@,
        cli.audio_codec_choice() == "aac"@,
{
}

/// Without explicit codecs, a request with no format, or with one that
/// the table does not list, copies both streams.
pub proof fn unlisted_format_copies_streams(cli: Cli)
    requires
        cli.video_codec is None,
        cli.audio_codec is None,
        cli.output_format matches Some(f) ==> {
            let lowered = lowercase_of(f@);
            lowered != "mp4"@ && lowered != "mkv"@ && lowered != "avi"@ && lowered != "mov"@
        },
    ensures
        cli.video_codec_choice() == "copy"@,
        cli.audio_codec_choice() == "copy"@,
{
}

} // verus!
