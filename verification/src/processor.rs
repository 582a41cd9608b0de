//! The FFmpeg side of a merge: the concat list, the command line, and what
//! the outcome of a process run means.

use vstd::prelude::*;
use crate::cli::{Cli, CliError, CliFault};

verus! {

/// Why a merge failed.
#[derive(Clone, Debug, PartialEq, Eq)]
pub enum ProcessorError {
    /// The request itself was turned down.
    InvalidInput(CliError),
    /// FFmpeg could not be started, or its version query failed.
    FfmpegNotFound,
    /// FFmpeg ran and reported failure; holds its standard error text.
    FfmpegExecutionFailed(String),
    /// The named input path could not be resolved to an absolute path.
    PathResolution(String),
    /// A filesystem operation failed; holds the reason.
    FileIoError(String),
    /// FFmpeg reported success but the named output file is not there.
    OutputNotCreated(String),
}

/// The mathematical value of a [`ProcessorError`].
pub enum ProcessorFault {
    InvalidInput(CliFault),
    FfmpegNotFound,
    FfmpegExecutionFailed(Seq<char>),
    PathResolution(Seq<char>),
    FileIoError(Seq<char>),
    OutputNotCreated(Seq<char>),
}

impl ProcessorFault {
    /// The text shown to the user for this fault.
    pub open spec fn message(self) -> Seq<char> {
        match self {
            ProcessorFault::InvalidInput(f) => f.message(),
            ProcessorFault::FfmpegNotFound =>
                "FFmpeg not found. Please install FFmpeg and ensure it's in your PATH"@,
            ProcessorFault::FfmpegExecutionFailed(t) => "FFmpeg execution failed: "@ + t,
            ProcessorFault::PathResolution(p) => "Failed to get absolute path for: "@ + p,
            ProcessorFault::FileIoError(t) => "File I/O error: "@ + t,
            ProcessorFault::OutputNotCreated(p) => "Output file was not created: "@ + p,
        }
    }
}

impl View for ProcessorError {
    type V = ProcessorFault;

    open spec fn view(&self) -> ProcessorFault {
        match self {
            ProcessorError::InvalidInput(e) => ProcessorFault::InvalidInput(e@),
            ProcessorError::FfmpegNotFound => ProcessorFault::FfmpegNotFound,
            ProcessorError::FfmpegExecutionFailed(t) => ProcessorFault::FfmpegExecutionFailed(t@),
            ProcessorError::PathResolution(p) => ProcessorFault::PathResolution(p@),
            ProcessorError::FileIoError(t) => ProcessorFault::FileIoError(t@),
            ProcessorError::OutputNotCreated(p) => ProcessorFault::OutputNotCreated(p@),
        }
    }
}

impl ProcessorError {
    /// The text shown to the user for this error.
    pub fn message(&self) -> (r: String)
        ensures
            r@ == self@.message(),
    {
        match self {
            ProcessorError::InvalidInput(e) => e.message(),
            ProcessorError::FfmpegNotFound => String::from_str(
                "FFmpeg not found. Please install FFmpeg and ensure it's in your PATH",
            ),
            ProcessorError::FfmpegExecutionFailed(t) => String::from_str(
                "FFmpeg execution failed: ",
            ).concat(t.as_str()),
            ProcessorError::PathResolution(p) => String::from_str(
                "Failed to get absolute path for: ",
            ).concat(p.as_str()),
            ProcessorError::FileIoError(t) => String::from_str("File I/O error: ").concat(
                t.as_str(),
            ),
            ProcessorError::OutputNotCreated(p) => String::from_str(
                "Output file was not created: ",
            ).concat(p.as_str()),
        }
    }
}

/// How an attempt to run a process ended.
#[derive(Clone, Debug, PartialEq, Eq)]
pub enum ProcessOutcome {
    /// The process could not be started; holds the reason.
    NotLaunched(String),
    /// The process ran to its end.
    Exited {
        /// Whether the exit status reported success.
        success: bool,
        /// What the process wrote to standard output.
        stdout: String,
        /// What the process wrote to standard error.
        stderr: String,
    },
}

impl ProcessOutcome {
    /// Whether the process ran and its exit status reported success.
    pub open spec fn succeeded(&self) -> bool {
        match self {
            ProcessOutcome::NotLaunched(_) => false,
            ProcessOutcome::Exited { success, .. } => *success,
        }
    }
}

/// The two streams of a process that ended in success.
#[derive(Clone, Debug, PartialEq, Eq)]
pub struct CapturedOutput {
    pub stdout: String,
    pub stderr: String,
}

/// A program and its arguments, ready to be spawned.
#[derive(Clone, Debug, PartialEq, Eq)]
pub struct FfmpegCommand {
    pub program: String,
    pub args: Vec<String>,
}

/// The texts of a sequence of strings.
pub open spec fn texts(v: Seq<String>) -> Seq<Seq<char>> {
    v.map_values(|s: String| s@)
}

impl FfmpegCommand {
    /// The arguments as texts, in order.
    pub open spec fn args_view(&self) -> Seq<Seq<char>> {
        texts(self.args@)
    }
}

/// The bitrate arguments: the flag and its value where a quality was
/// given, nothing otherwise.
pub open spec fn quality_arguments(quality: Option<String>) -> Seq<Seq<char>> {
    match quality {
        Some(q) => seq!["-b:v"@, q@],
        None => Seq::empty(),
    }
}

/// The argument vector of the merge, in the order FFmpeg's grammar asks for.
pub open spec fn merge_arguments(cli: &Cli, manifest: Seq<char>, output: Seq<char>) -> Seq<
    Seq<char>,
> {
    seq![
        "-f"@,
        "concat"@,
        "-safe"@,
        "0"@,
        "-i"@,
        manifest,
        "-c:v"@,
        cli.video_codec_choice(),
        "-c:a"@,
        cli.audio_codec_choice(),
    ] + quality_arguments(cli.video_quality) + seq!["-y"@, output]
}

/// One line of the concat list: the path between single quotes.
pub open spec fn manifest_line(path: Seq<char>) -> Seq<char> {
    "file '"@ + path + "'\n"@
}

/// The concat list for `paths`: one line per path, in the order given.
pub open spec fn manifest_text(paths: Seq<String>) -> Seq<char>
    decreases paths.len(),
{
    if paths.len() == 0 {
        Seq::empty()
    } else {
        manifest_text(paths.drop_last()) + manifest_line(paths.last()@)
    }
}

/// What a processor echoes of the captured streams: nothing unless it is
/// verbose, else each stream that is not empty under its heading.
pub open spec fn echo_lines(verbose: bool, out: &CapturedOutput) -> Seq<Seq<char>> {
    if !verbose {
        Seq::empty()
    } else {
        (if out.stdout@.len() == 0 {
            Seq::empty()
        } else {
            seq!["FFmpeg stdout:\n"@ + out.stdout@]
        }) + (if out.stderr@.len() == 0 {
            Seq::empty()
        } else {
            seq!["FFmpeg stderr:\n"@ + out.stderr@]
        })
    }
}

/// Appends a copy of `s` to `args`.
fn push_text(args: &mut Vec<String>, s: &str)
    ensures
        texts(final(args)@) == texts(old(args)@).push(s@),
{
    let owned = String::from_str(s);
    args.push(owned);
    assert(texts(args@) =~= texts(old(args)@).push(s@));
}

/// The command that asks FFmpeg for its version, as a probe that it is there.
pub fn version_query_command() -> (cmd: FfmpegCommand)
    ensures
        cmd.program@ == "ffmpeg"@,
        cmd.args_view() == seq!["-version"@],
{
    let mut args: Vec<String> = Vec::new();
    assert(texts(args@) =~= Seq::<Seq<char>>::empty());
    push_text(&mut args, "-version");
    assert(texts(args@) =~= seq!["-version"@]);
    FfmpegCommand { program: String::from_str("ffmpeg"), args }
}

/// The contents of the concat list file for inputs whose absolute paths
/// are `canonical_paths`.
pub fn concat_file_contents(canonical_paths: &Vec<String>) -> (r: String)
    ensures
        r@ == manifest_text(canonical_paths@),
{
    let mut out = String::new();
    let n: usize = canonical_paths.len();
    let mut i: usize = 0;
    assert(canonical_paths@.take(0) =~= Seq::<String>::empty());
    while i < n
        invariant
            i <= n,
            n == canonical_paths.len(),
            out@ == manifest_text(canonical_paths@.take(i as int)),
        decreases n - i,
    {
        let ghost before = out@;
        out.append("file '");
        out.append(canonical_paths[i].as_str());
        out.append("'\n");
        proof {
            let next = canonical_paths@.take(i + 1);
            assert(next.drop_last() =~= canonical_paths@.take(i as int));
            assert(next.last() == canonical_paths@[i as int]);
            assert(out@ =~= before + manifest_line(canonical_paths@[i as int]@));
        }
        i += 1;
    }
    assert(canonical_paths@.take(n as int) =~= canonical_paths@);
    out
}

/// Drives FFmpeg for one merge.
#[derive(Clone, Copy, Debug)]
pub struct VideoProcessor {
    verbose: bool,
}

impl VideoProcessor {
    /// Whether this processor reports in detail.
    pub closed spec fn verbose_view(&self) -> bool {
        self.verbose
    }

    pub fn new(verbose: bool) -> (r: Self)
        ensures
            r.verbose_view() == verbose,
    {
        Self { verbose }
    }

    /// Whether this processor reports in detail.
    pub fn is_verbose(&self) -> (r: bool)
        ensures
            r == self.verbose_view(),
    {
        self.verbose
    }

    /// Decide from the outcome of the version query whether FFmpeg is
    /// available: it is when the query ran and exited with success.
    pub fn check_ffmpeg_availability(&self, probe: &ProcessOutcome) -> (r: Result<
        (),
        ProcessorError,
    >)
        ensures
            match r {
                Ok(_) => probe.succeeded(),
                Err(e) => e@ == ProcessorFault::FfmpegNotFound && !probe.succeeded(),
            },
    {
        match probe {
            ProcessOutcome::Exited { success, .. } => {
                if *success {
                    Ok(())
                } else {
                    Err(ProcessorError::FfmpegNotFound)
                }
            },
            ProcessOutcome::NotLaunched(_) => Err(ProcessorError::FfmpegNotFound),
        }
    }

    /// Build the FFmpeg command for merging the inputs listed in the file
    /// at `concat_file_path` into `output_path`.
    pub fn build_ffmpeg_command(&self, cli: &Cli, concat_file_path: &str, output_path: &str) -> (cmd:
        FfmpegCommand)
        ensures
            cmd.program@ == "ffmpeg"@,
            cmd.args_view() == merge_arguments(cli, concat_file_path@, output_path@),
    {
        let mut args: Vec<String> = Vec::new();
        assert(texts(args@) =~= Seq::<Seq<char>>::empty());
        push_text(&mut args, "-f");
        push_text(&mut args, "concat");
        push_text(&mut args, "-safe");
        push_text(&mut args, "0");
        push_text(&mut args, "-i");
        push_text(&mut args, concat_file_path);
        push_text(&mut args, "-c:v");
        let video_codec = cli.get_video_codec();
        push_text(&mut args, video_codec.as_str());
        push_text(&mut args, "-c:a");
        let audio_codec = cli.get_audio_codec();
        push_text(&mut args, audio_codec.as_str());
        match &cli.video_quality {
            Some(quality) => {
                push_text(&mut args, "-b:v");
                push_text(&mut args, quality.as_str());
            },
            None => {},
        }
        push_text(&mut args, "-y");
        push_text(&mut args, output_path);
        assert(texts(args@) =~= merge_arguments(cli, concat_file_path@, output_path@));
        FfmpegCommand { program: String::from_str("ffmpeg"), args }
    }

    /// The lines to print after a successful run.
    pub fn verbose_report(&self, out: &CapturedOutput) -> (lines: Vec<String>)
        ensures
            texts(lines@) == echo_lines(self.verbose_view(), out),
    {
        let mut lines: Vec<String> = Vec::new();
        assert(texts(lines@) =~= Seq::<Seq<char>>::empty());
        if self.verbose {
            if !out.stdout.as_str().is_empty() {
                let line = String::from_str("FFmpeg stdout:\n").concat(out.stdout.as_str());
                push_text(&mut lines, line.as_str());
            }
            if !out.stderr.as_str().is_empty() {
                let line = String::from_str("FFmpeg stderr:\n").concat(out.stderr.as_str());
                push_text(&mut lines, line.as_str());
            }
        }
        assert(texts(lines@) =~= echo_lines(self.verbose_view(), out));
        lines
    }

    /// Decide what the outcome of the merge command means: the captured
    /// streams on success, the standard error text on failure.
    pub fn execute_ffmpeg_command(&self, outcome: ProcessOutcome) -> (r: Result<
        CapturedOutput,
        ProcessorError,
    >)
        ensures
            match outcome {
                ProcessOutcome::NotLaunched(reason) => r matches Err(e) && e@
                    == ProcessorFault::FileIoError(reason@),
                ProcessOutcome::Exited { success, stdout, stderr } => if success {
                    r matches Ok(out) && out.stdout@ == stdout@ && out.stderr@ == stderr@
                } else {
                    r matches Err(e) && e@ == ProcessorFault::FfmpegExecutionFailed(stderr@)
                },
            },
    {
        match outcome {
            ProcessOutcome::NotLaunched(reason) => Err(ProcessorError::FileIoError(reason)),
            ProcessOutcome::Exited { success, stdout, stderr } => {
                if success {
                    Ok(CapturedOutput { stdout, stderr })
                } else {
                    Err(ProcessorError::FfmpegExecutionFailed(stderr))
                }
            },
        }
    }
}

/// The concat list keeps the order of the inputs: the list for one
/// sequence of paths followed by another is the first list followed by
/// the second.
pub proof fn manifest_text_keeps_order(first: Seq<String>, second: Seq<String>)
    ensures
        manifest_text(first + second) == manifest_text(first) + manifest_text(second),
    decreases second.len(),
{
    if second.len() == 0 {
        assert(first + second =~= first);
        assert(manifest_text(first) + manifest_text(second) =~= manifest_text(first));
    } else {
        manifest_text_keeps_order(first, second.drop_last());
        assert((first + second).drop_last() =~= first + second.drop_last());
        assert((first + second).last() == second.last());
        assert(manifest_text(first + second) =~= manifest_text(first) + manifest_text(second));
    }
}

/// The concat list for two inputs is the line of the first, then the line
/// of the second, and nothing else.
pub proof fn manifest_of_two_inputs(a: String, b: String)
    ensures
        manifest_text(seq![a, b]) == manifest_line(a@) + manifest_line(b@),
{
    let both = seq![a, b];
    assert(both.drop_last() =~= seq![a]);
    assert(seq![a].drop_last() =~= Seq::<String>::empty());
    assert(manifest_text(seq![a].drop_last()) =~= Seq::<char>::empty());
    assert(manifest_text(seq![a]) =~= manifest_line(a@));
}

/// With a quality, the bitrate flag and the quality stand together
/// between the audio codec and the overwrite flag.
pub proof fn quality_is_passed_as_bitrate(cli: &Cli, manifest: Seq<char>, output: Seq<char>)
    requires
        cli.video_quality is Some,
    ensures
        merge_arguments(cli, manifest, output).len() == 14,
        merge_arguments(cli, manifest, output)[10] == "-b:v"@,
        merge_arguments(cli, manifest, output)[11] == cli.video_quality->0@,
        merge_arguments(cli, manifest, output)[12] == "-y"@,
        merge_arguments(cli, manifest, output)[13] == output,
{
}

/// Without a quality the arguments hold no bitrate flag, unless one of
/// the caller's own values (a path or a codec) is spelled like it.
pub proof fn no_quality_means_no_bitrate_flag(cli: &Cli, manifest: Seq<char>, output: Seq<char>)
    requires
        cli.video_quality is None,
        manifest != "-b:v"@,
        output != "-b:v"@,
        cli.video_codec_choice() != "-b:v"@,
        cli.audio_codec_choice() != "-b:v"@,
    ensures
        merge_arguments(cli, manifest, output).len() == 12,
        !merge_arguments(cli, manifest, output).contains("-b:v"@),
{
    reveal_strlit("-b:v");
    reveal_strlit("-f");
    reveal_strlit("concat");
    reveal_strlit("-safe");
    reveal_strlit("0");
    reveal_strlit("-i");
    reveal_strlit("-c:v");
    reveal_strlit("-c:a");
    reveal_strlit("-y");
    let args = merge_arguments(cli, manifest, output);
    assert("-b:v"@.len() == 4);
    assert("-b:v"@[1] == 'b');
    assert("-f"@.len() == 2);
    assert("concat"@.len() == 6);
    assert("-safe"@.len() == 5);
    assert("0"@.len() == 1);
    assert("-i"@.len() == 2);
    assert("-c:v"@[1] == 'c');
    assert("-c:a"@[1] == 'c');
    assert("-y"@.len() == 2);
    assert forall|i: int| 0 <= i < args.len() implies args[i] != "-b:v"@ by {}
}

} // verus!
