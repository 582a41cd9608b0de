use vmerger::cli::{Cli, CliError};
use vmerger::processor::{
    concat_file_contents, version_query_command, CapturedOutput, ProcessOutcome, ProcessorError,
    VideoProcessor,
};

fn plain_request(inputs: &[&str]) -> Cli {
    Cli {
        input_files: inputs.iter().map(|s| s.to_string()).collect(),
        output_format: None,
        output_path: None,
        verbose: false,
        video_codec: None,
        audio_codec: None,
        video_quality: None,
    }
}

fn exited(success: bool, stdout: &str, stderr: &str) -> ProcessOutcome {
    ProcessOutcome::Exited { success, stdout: stdout.to_string(), stderr: stderr.to_string() }
}

#[test]
fn manifest_lists_inputs_in_order() {
    let paths = vec!["/videos/a.mp4".to_string(), "/videos/b.mp4".to_string()];
    assert_eq!(concat_file_contents(&paths), "file '/videos/a.mp4'\nfile '/videos/b.mp4'\n");
    let text = concat_file_contents(&paths);
    let lines: Vec<&str> = text.lines().collect();
    assert_eq!(lines, vec!["file '/videos/a.mp4'", "file '/videos/b.mp4'"]);
}

#[test]
fn manifest_of_nothing_is_empty() {
    assert_eq!(concat_file_contents(&vec![]), "");
}

#[test]
fn manifest_keeps_the_path_as_it_is() {
    let paths = vec!["/my videos/it's here.mp4".to_string()];
    assert_eq!(concat_file_contents(&paths), "file '/my videos/it's here.mp4'\n");
}

#[test]
fn command_without_quality_has_no_bitrate_flag() {
    let cli = plain_request(&["a.mp4"]);
    let cmd = VideoProcessor::new(false).build_ffmpeg_command(&cli, "/tmp/list.txt", "a_merged.mp4");
    assert_eq!(cmd.program, "ffmpeg");
    assert_eq!(
        cmd.args,
        vec![
            "-f", "concat", "-safe", "0", "-i", "/tmp/list.txt", "-c:v", "copy", "-c:a", "copy",
            "-y", "a_merged.mp4"
        ]
    );
    assert!(!cmd.args.iter().any(|a| a == "-b:v"));
}

#[test]
fn command_with_quality_passes_bitrate() {
    let mut cli = plain_request(&["a.mp4"]);
    cli.video_quality = Some("1M".to_string());
    cli.output_format = Some("avi".to_string());
    let cmd = VideoProcessor::new(true).build_ffmpeg_command(&cli, "/tmp/list.txt", "out.avi");
    assert_eq!(
        cmd.args,
        vec![
            "-f", "concat", "-safe", "0", "-i", "/tmp/list.txt", "-c:v", "libxvid", "-c:a", "mp3",
            "-b:v", "1M", "-y", "out.avi"
        ]
    );
}

#[test]
fn command_uses_explicit_codecs() {
    let mut cli = plain_request(&["a.mp4"]);
    cli.video_codec = Some("libx264".to_string());
    cli.audio_codec = Some("aac".to_string());
    let cmd = VideoProcessor::new(false).build_ffmpeg_command(&cli, "l", "o");
    assert_eq!(cmd.args[6..10], ["-c:v", "libx264", "-c:a", "aac"]);
}

#[test]
fn version_query_asks_ffmpeg_for_its_version() {
    let cmd = version_query_command();
    assert_eq!(cmd.program, "ffmpeg");
    assert_eq!(cmd.args, vec!["-version"]);
}

#[test]
fn availability_needs_a_successful_run() {
    let p = VideoProcessor::new(false);
    assert_eq!(p.check_ffmpeg_availability(&exited(true, "ffmpeg version 6", "")), Ok(()));
    assert_eq!(
        p.check_ffmpeg_availability(&exited(false, "", "broken")),
        Err(ProcessorError::FfmpegNotFound)
    );
    assert_eq!(
        p.check_ffmpeg_availability(&ProcessOutcome::NotLaunched("No such file".to_string())),
        Err(ProcessorError::FfmpegNotFound)
    );
}

#[test]
fn execution_failure_keeps_standard_error() {
    let p = VideoProcessor::new(false);
    let r = p.execute_ffmpeg_command(exited(false, "out", "Invalid data found\nline 2\n"));
    assert_eq!(
        r,
        Err(ProcessorError::FfmpegExecutionFailed("Invalid data found\nline 2\n".to_string()))
    );
    assert_eq!(
        r.unwrap_err().message(),
        "FFmpeg execution failed: Invalid data found\nline 2\n"
    );
}

#[test]
fn execution_success_returns_both_streams() {
    let p = VideoProcessor::new(false);
    assert_eq!(
        p.execute_ffmpeg_command(exited(true, "done", "frame=1")),
        Ok(CapturedOutput { stdout: "done".to_string(), stderr: "frame=1".to_string() })
    );
}

#[test]
fn execution_that_could_not_start_is_an_io_error() {
    let p = VideoProcessor::new(false);
    let r = p.execute_ffmpeg_command(ProcessOutcome::NotLaunched("permission denied".to_string()));
    assert_eq!(r, Err(ProcessorError::FileIoError("permission denied".to_string())));
    assert_eq!(r.unwrap_err().message(), "File I/O error: permission denied");
}

#[test]
fn verbose_report_echoes_streams_that_are_not_empty() {
    let out = CapturedOutput { stdout: "done".to_string(), stderr: "frame=1".to_string() };
    assert_eq!(
        VideoProcessor::new(true).verbose_report(&out),
        vec!["FFmpeg stdout:\ndone", "FFmpeg stderr:\nframe=1"]
    );
    let only_err = CapturedOutput { stdout: String::new(), stderr: "frame=1".to_string() };
    assert_eq!(VideoProcessor::new(true).verbose_report(&only_err), vec!["FFmpeg stderr:\nframe=1"]);
    let nothing = CapturedOutput { stdout: String::new(), stderr: String::new() };
    assert!(VideoProcessor::new(true).verbose_report(&nothing).is_empty());
}

#[test]
fn quiet_processor_echoes_nothing() {
    let out = CapturedOutput { stdout: "done".to_string(), stderr: "frame=1".to_string() };
    assert!(VideoProcessor::new(false).verbose_report(&out).is_empty());
    assert!(!VideoProcessor::new(false).is_verbose());
    assert!(VideoProcessor::new(true).is_verbose());
}

#[test]
fn error_messages() {
    assert_eq!(
        ProcessorError::FfmpegNotFound.message(),
        "FFmpeg not found. Please install FFmpeg and ensure it's in your PATH"
    );
    assert_eq!(
        ProcessorError::OutputNotCreated("out.mp4".to_string()).message(),
        "Output file was not created: out.mp4"
    );
    assert_eq!(
        ProcessorError::PathResolution("a.mp4".to_string()).message(),
        "Failed to get absolute path for: a.mp4"
    );
    assert_eq!(
        ProcessorError::InvalidInput(CliError::NoInputFiles).message(),
        "No input files provided"
    );
}
