//! The merge as a sequence of decisions. The caller does the outside work
//! that each action names and reports back with the matching event.

use vstd::prelude::*;
use vstd::pervasive::unreached;
use crate::cli::{Cli, PathStatus};
use crate::processor::{
    merge_arguments, FfmpegCommand, ProcessOutcome, ProcessorError, ProcessorFault,
    VideoProcessor, version_query_command,
};

verus! {

/// Where a merge stands: what it is waiting for.
#[derive(Clone, Debug, PartialEq, Eq)]
pub enum MergePhase {
    /// Waiting for the status of each input path.
    ValidatingInputs,
    /// Waiting for the outcome of the version query.
    CheckingTool,
    /// Waiting for the concat list to be written.
    WritingManifest { output: String },
    /// Waiting for the merge command to end.
    Running { output: String },
    /// Waiting for a look at the output path.
    VerifyingOutput { output: String },
    /// The merge has ended, in success or failure.
    Finished,
}

/// What the caller found when it did the outside work.
#[derive(Clone, Debug, PartialEq, Eq)]
pub enum MergeEvent {
    /// The status of each input path, in the order of the inputs.
    InputsProbed(Vec<PathStatus>),
    /// How the version query ended.
    ToolProbed(ProcessOutcome),
    /// The concat list was written to a file at this path.
    ManifestWritten(String),
    /// The concat list could not be written.
    ManifestFailed(ProcessorError),
    /// How the merge command ended.
    CommandFinished(ProcessOutcome),
    /// Whether a file exists at the output path.
    OutputProbed(bool),
}

/// What the caller is to do next.
#[derive(Clone, Debug, PartialEq, Eq)]
pub enum MergeAction {
    /// Run this command and report how it ended.
    ProbeTool(FfmpegCommand),
    /// Resolve each input to its absolute path, write the concat list to a
    /// temporary file and report its path.
    WriteManifest,
    /// Run this command and report how it ended.
    Run(FfmpegCommand),
    /// Report whether a file exists at this path.
    ProbeOutput(String),
    /// Report success: the output is at this path.
    Succeed(String),
    /// Report this failure.
    Fail(ProcessorError),
}

impl MergePhase {
    /// Whether `event` is the one this phase is waiting for.
    pub open spec fn awaits(&self, cli: &Cli, event: &MergeEvent) -> bool {
        match (*self, *event) {
            (MergePhase::ValidatingInputs, MergeEvent::InputsProbed(statuses)) => statuses@.len()
                == cli.input_files@.len(),
            (MergePhase::CheckingTool, MergeEvent::ToolProbed(_)) => true,
            (MergePhase::WritingManifest { .. }, MergeEvent::ManifestWritten(_)) => true,
            (MergePhase::WritingManifest { .. }, MergeEvent::ManifestFailed(_)) => true,
            (MergePhase::Running { .. }, MergeEvent::CommandFinished(_)) => true,
            (MergePhase::VerifyingOutput { .. }, MergeEvent::OutputProbed(_)) => true,
            _ => false,
        }
    }

    /// The heading under which to report `error`, where it came up on the
    /// event that this phase was waiting for.
    pub fn heading_of(&self, error: &ProcessorError) -> (r: Option<String>)
        ensures
            match r {
                Some(text) => failure_heading(*self, error@) == Some(text@),
                None => failure_heading(*self, error@) is None,
            },
    {
        match self {
            MergePhase::ValidatingInputs => Some(String::from_str("Input validation failed")),
            MergePhase::CheckingTool => match error {
                ProcessorError::InvalidInput(_) => Some(
                    String::from_str("Failed to generate output path"),
                ),
                _ => Some(String::from_str("FFmpeg availability check failed")),
            },
            MergePhase::WritingManifest { .. } => Some(
                String::from_str("Failed to create concat file"),
            ),
            MergePhase::Running { .. } => Some(String::from_str("FFmpeg execution failed")),
            MergePhase::VerifyingOutput { .. } => None,
            MergePhase::Finished => None,
        }
    }

    /// Tells whether `event` is the one this phase is waiting for.
    pub fn is_awaited(&self, cli: &Cli, event: &MergeEvent) -> (r: bool)
        ensures
            r == self.awaits(cli, event),
    {
        match (self, event) {
            (MergePhase::ValidatingInputs, MergeEvent::InputsProbed(statuses)) => statuses.len()
                == cli.input_files.len(),
            (MergePhase::CheckingTool, MergeEvent::ToolProbed(_)) => true,
            (MergePhase::WritingManifest { .. }, MergeEvent::ManifestWritten(_)) => true,
            (MergePhase::WritingManifest { .. }, MergeEvent::ManifestFailed(_)) => true,
            (MergePhase::Running { .. }, MergeEvent::CommandFinished(_)) => true,
            (MergePhase::VerifyingOutput { .. }, MergeEvent::OutputProbed(_)) => true,
            _ => false,
        }
    }
}

/// The heading under which a failure with `fault` is reported when it came
/// up on the event that `phase` was waiting for, where it has one.
pub open spec fn failure_heading(phase: MergePhase, fault: ProcessorFault) -> Option<Seq<char>> {
    match phase {
        MergePhase::ValidatingInputs => Some("Input validation failed"@),
        MergePhase::CheckingTool => if fault is InvalidInput {
            Some("Failed to generate output path"@)
        } else {
            Some("FFmpeg availability check failed"@)
        },
        MergePhase::WritingManifest { .. } => Some("Failed to create concat file"@),
        MergePhase::Running { .. } => Some("FFmpeg execution failed"@),
        MergePhase::VerifyingOutput { .. } => None,
        MergePhase::Finished => None,
    }
}

/// The merge ends here with `fault`.
pub open spec fn fails_with(next: MergePhase, action: MergeAction, fault: ProcessorFault) -> bool {
    &&& next is Finished
    &&& action matches MergeAction::Fail(e) && e@ == fault
}

/// The merge goes on to wait for the merge command, which writes to `output`.
pub open spec fn goes_on(
    next: MergePhase,
    action: MergeAction,
    cli: &Cli,
    manifest: Seq<char>,
    output: Seq<char>,
) -> bool {
    &&& next matches MergePhase::Running { output: kept } && kept@ == output
    &&& action matches MergeAction::Run(cmd) && cmd.program@ == "ffmpeg"@ && cmd.args_view()
        == merge_arguments(cli, manifest, output)
}

/// What one step of the merge decides: in `phase`, on `event`, the merge
/// moves to `next` and asks for `action`.
pub open spec fn merge_transition(
    cli: &Cli,
    phase: MergePhase,
    event: MergeEvent,
    next: MergePhase,
    action: MergeAction,
) -> bool {
    match (phase, event) {
        (MergePhase::ValidatingInputs, MergeEvent::InputsProbed(statuses)) => match cli.validation(
            statuses@,
        ) {
            Err(fault) => fails_with(next, action, ProcessorFault::InvalidInput(fault)),
            Ok(_) => {
                &&& next is CheckingTool
                &&& action matches MergeAction::ProbeTool(cmd) && cmd.program@ == "ffmpeg"@
                    && cmd.args_view() == seq!["-version"@]
            },
        },
        (MergePhase::CheckingTool, MergeEvent::ToolProbed(outcome)) => if !outcome.succeeded() {
            fails_with(next, action, ProcessorFault::FfmpegNotFound)
        } else {
            match cli.resolved_output() {
                Err(fault) => fails_with(next, action, ProcessorFault::InvalidInput(fault)),
                Ok(path) => {
                    &&& next matches MergePhase::WritingManifest { output } && output@ == path
                    &&& action is WriteManifest
                },
            }
        },
        (MergePhase::WritingManifest { output }, MergeEvent::ManifestWritten(manifest)) => goes_on(
            next,
            action,
            cli,
            manifest@,
            output@,
        ),
        (MergePhase::WritingManifest { .. }, MergeEvent::ManifestFailed(e)) => fails_with(
            next,
            action,
            e@,
        ),
        (MergePhase::Running { output }, MergeEvent::CommandFinished(outcome)) => match outcome {
            ProcessOutcome::NotLaunched(reason) => fails_with(
                next,
                action,
                ProcessorFault::FileIoError(reason@),
            ),
            ProcessOutcome::Exited { success, stderr, .. } => if success {
                &&& next matches MergePhase::VerifyingOutput { output: kept } && kept@ == output@
                &&& action matches MergeAction::ProbeOutput(path) && path@ == output@
            } else {
                fails_with(next, action, ProcessorFault::FfmpegExecutionFailed(stderr@))
            },
        },
        (MergePhase::VerifyingOutput { output }, MergeEvent::OutputProbed(found)) => if found {
            &&& next is Finished
            &&& action matches MergeAction::Succeed(path) && path@ == output@
        } else {
            fails_with(next, action, ProcessorFault::OutputNotCreated(output@))
        },
        _ => false,
    }
}

impl VideoProcessor {
    /// One step of merging the video files of `cli`: takes the phase the
    /// merge is in and the event that the caller reports, and returns the
    /// next phase with what the caller is to do.
    ///
    /// A merge starts in `ValidatingInputs` and has ended when the action
    /// is `Succeed` or `Fail`.
    pub fn merge_videos(&self, cli: &Cli, phase: MergePhase, event: MergeEvent) -> (r: (
        MergePhase,
        MergeAction,
    ))
        requires
            phase.awaits(cli, &event),
        ensures
            merge_transition(cli, phase, event, r.0, r.1),
    {
        match (phase, event) {
            (MergePhase::ValidatingInputs, MergeEvent::InputsProbed(statuses)) => {
                match cli.validate_inputs(&statuses) {
                    Err(e) => (
                        MergePhase::Finished,
                        MergeAction::Fail(ProcessorError::InvalidInput(e)),
                    ),
                    Ok(_) => (
                        MergePhase::CheckingTool,
                        MergeAction::ProbeTool(version_query_command()),
                    ),
                }
            },
            (MergePhase::CheckingTool, MergeEvent::ToolProbed(outcome)) => {
                match self.check_ffmpeg_availability(&outcome) {
                    Err(e) => (MergePhase::Finished, MergeAction::Fail(e)),
                    Ok(_) => match cli.generate_output_path() {
                        Err(e) => (
                            MergePhase::Finished,
                            MergeAction::Fail(ProcessorError::InvalidInput(e)),
                        ),
                        Ok(output) => (
                            MergePhase::WritingManifest { output },
                            MergeAction::WriteManifest,
                        ),
                    },
                }
            },
            (MergePhase::WritingManifest { output }, MergeEvent::ManifestWritten(manifest)) => {
                let cmd = self.build_ffmpeg_command(cli, manifest.as_str(), output.as_str());
                (MergePhase::Running { output }, MergeAction::Run(cmd))
            },
            (MergePhase::WritingManifest { .. }, MergeEvent::ManifestFailed(e)) => (
                MergePhase::Finished,
                MergeAction::Fail(e),
            ),
            (MergePhase::Running { output }, MergeEvent::CommandFinished(outcome)) => {
                match self.execute_ffmpeg_command(outcome) {
                    Err(e) => (MergePhase::Finished, MergeAction::Fail(e)),
                    Ok(_) => {
                        let path = output.clone();
                        (MergePhase::VerifyingOutput { output }, MergeAction::ProbeOutput(path))
                    },
                }
            },
            (MergePhase::VerifyingOutput { output }, MergeEvent::OutputProbed(found)) => {
                if found {
                    (MergePhase::Finished, MergeAction::Succeed(output))
                } else {
                    (
                        MergePhase::Finished,
                        MergeAction::Fail(ProcessorError::OutputNotCreated(output)),
                    )
                }
            },
            _ => unreached(),
        }
    }
}

/// A request that fails validation ends the merge at once: the step
/// reports the validation fault and asks for no process and no file.
pub proof fn rejected_request_starts_nothing(
    cli: &Cli,
    statuses: Vec<PathStatus>,
    next: MergePhase,
    action: MergeAction,
)
    requires
        cli.validation(statuses@) is Err,
        merge_transition(
            cli,
            MergePhase::ValidatingInputs,
            MergeEvent::InputsProbed(statuses),
            next,
            action,
        ),
    ensures
        fails_with(next, action, ProcessorFault::InvalidInput(cli.validation(statuses@)->Err_0)),
        !next.awaits(cli, &MergeEvent::InputsProbed(statuses)),
{
}

/// Where the version query could not be started or did not succeed, the
/// merge ends with `FfmpegNotFound` before any concat list is asked for.
pub proof fn unavailable_tool_ends_merge(
    cli: &Cli,
    outcome: ProcessOutcome,
    next: MergePhase,
    action: MergeAction,
)
    requires
        !outcome.succeeded(),
        merge_transition(cli, MergePhase::CheckingTool, MergeEvent::ToolProbed(outcome), next, action),
    ensures
        fails_with(next, action, ProcessorFault::FfmpegNotFound),
        !(action is WriteManifest),
        !(action is Run),
{
}

/// Where the merge command succeeded and no file is found at the output
/// path, the merge fails with `OutputNotCreated` naming that path, which
/// is not the failure of a command that reported an error.
pub proof fn missing_output_is_its_own_failure(
    cli: &Cli,
    output: String,
    next: MergePhase,
    action: MergeAction,
)
    requires
        merge_transition(
            cli,
            (MergePhase::VerifyingOutput { output }),
            MergeEvent::OutputProbed(false),
            next,
            action,
        ),
    ensures
        fails_with(next, action, ProcessorFault::OutputNotCreated(output@)),
        action matches MergeAction::Fail(e) && !(e@ is FfmpegExecutionFailed),
{
}

/// A merge that has ended waits for nothing more.
pub proof fn finished_merge_awaits_nothing(cli: &Cli, event: MergeEvent)
    ensures
        !(MergePhase::Finished).awaits(cli, &event),
{
}

/// A merge in which every step succeeds runs the merge command on the
/// concat list that was written and ends in success at the output path of
/// the request.
pub proof fn merge_without_failure_succeeds(
    cli: &Cli,
    statuses: Vec<PathStatus>,
    tool: ProcessOutcome,
    manifest: String,
    run: ProcessOutcome,
    phases: Seq<MergePhase>,
    actions: Seq<MergeAction>,
)
    requires
        cli.validation(statuses@) is Ok,
        tool.succeeded(),
        cli.resolved_output() is Ok,
        run.succeeded(),
        phases.len() == 5,
        actions.len() == 5,
        merge_transition(
            cli,
            MergePhase::ValidatingInputs,
            MergeEvent::InputsProbed(statuses),
            phases[0],
            actions[0],
        ),
        merge_transition(cli, phases[0], MergeEvent::ToolProbed(tool), phases[1], actions[1]),
        merge_transition(
            cli,
            phases[1],
            MergeEvent::ManifestWritten(manifest),
            phases[2],
            actions[2],
        ),
        merge_transition(cli, phases[2], MergeEvent::CommandFinished(run), phases[3], actions[3]),
        merge_transition(cli, phases[3], MergeEvent::OutputProbed(true), phases[4], actions[4]),
    ensures
        actions[2] matches MergeAction::Run(cmd) && cmd.args_view() == merge_arguments(
            cli,
            manifest@,
            cli.resolved_output()->Ok_0,
        ),
        phases[4] is Finished,
        actions[4] matches MergeAction::Succeed(path) && path@ == cli.resolved_output()->Ok_0,
{
}

} // verus!
