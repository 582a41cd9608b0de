use vmerger::cli::{
    audio_codec_for_format, default_output_name, video_codec_for_format, Cli, CliError, PathStatus,
};

fn request(inputs: &[&str]) -> Cli {
    Cli {
        input_files: inputs.iter().map(|s| s.to_string()).collect(),
        output_format: None,
        output_path: None,
        verbose: false,
        video_codec: None,
        audio_codec: None,
        video_quality: None,
    }
}

#[test]
fn test_nonexistent_input_file() {
    let cli = request(&["nonexistent_file.mp4"]);
    let err = cli.validate_inputs(&vec![PathStatus::Missing]).unwrap_err();
    assert_eq!(err, CliError::MissingInput("nonexistent_file.mp4".to_string()));
    assert!(err.message().contains("does not exist"));
    assert_eq!(err.message(), "Input file does not exist: nonexistent_file.mp4");
}

#[test]
fn output_defaults_to_stem_merged_mp4() {
    let cli = request(&["/videos/holiday.mov", "/videos/other.mov"]);
    assert_eq!(cli.generate_output_path(), Ok("holiday_merged.mp4".to_string()));
}

#[test]
fn output_uses_given_format() {
    let mut cli = request(&["clips/test.mp4"]);
    cli.output_format = Some("avi".to_string());
    assert_eq!(cli.generate_output_path(), Ok("test_merged.avi".to_string()));
}

#[test]
fn output_format_is_used_as_written() {
    let mut cli = request(&["test.mp4"]);
    cli.output_format = Some("MKV".to_string());
    assert_eq!(cli.generate_output_path(), Ok("test_merged.MKV".to_string()));
}

#[test]
fn explicit_output_path_is_kept_verbatim() {
    let mut cli = request(&["test.mp4"]);
    cli.output_path = Some("/tmp/out dir/output.mp4".to_string());
    cli.output_format = Some("avi".to_string());
    assert_eq!(cli.generate_output_path(), Ok("/tmp/out dir/output.mp4".to_string()));
}

#[test]
fn explicit_output_path_needs_no_inputs() {
    let mut cli = request(&[]);
    cli.output_path = Some("out.mp4".to_string());
    assert_eq!(cli.generate_output_path(), Ok("out.mp4".to_string()));
}

#[test]
fn output_without_inputs_is_no_input_files() {
    let cli = request(&[]);
    assert_eq!(cli.generate_output_path(), Err(CliError::NoInputFiles));
}

#[test]
fn output_without_stem_is_invalid_filename() {
    assert_eq!(request(&[".."]).generate_output_path(), Err(CliError::InvalidFilename));
    assert_eq!(request(&["/"]).generate_output_path(), Err(CliError::InvalidFilename));
    assert_eq!(request(&[""]).generate_output_path(), Err(CliError::InvalidFilename));
    assert_eq!(request(&["videos/.."]).generate_output_path(), Err(CliError::InvalidFilename));
}

#[test]
fn stem_drops_only_the_last_extension() {
    assert_eq!(
        request(&["/a/b/clip.tar.gz"]).generate_output_path(),
        Ok("clip.tar_merged.mp4".to_string())
    );
    assert_eq!(request(&[".hidden"]).generate_output_path(), Ok(".hidden_merged.mp4".to_string()));
    assert_eq!(request(&["noext"]).generate_output_path(), Ok("noext_merged.mp4".to_string()));
    assert_eq!(request(&["dir/"]).generate_output_path(), Ok("dir_merged.mp4".to_string()));
}

#[test]
fn default_output_name_joins_stem_and_format() {
    assert_eq!(default_output_name("a", "mkv"), "a_merged.mkv");
    assert_eq!(default_output_name("", ""), "_merged.");
}

#[test]
fn validation_of_empty_request_is_no_input_files() {
    let cli = request(&[]);
    let err = cli.validate_inputs(&vec![]).unwrap_err();
    assert_eq!(err, CliError::NoInputFiles);
    assert_eq!(err.message(), "No input files provided");
}

#[test]
fn validation_accepts_regular_files() {
    let cli = request(&["a.mp4", "b.mp4", "c.mp4"]);
    let statuses = vec![PathStatus::RegularFile, PathStatus::RegularFile, PathStatus::RegularFile];
    assert_eq!(cli.validate_inputs(&statuses), Ok(()));
}

#[test]
fn validation_names_the_missing_input() {
    let cli = request(&["a.mp4", "gone.mp4", "c.mp4"]);
    let statuses = vec![PathStatus::RegularFile, PathStatus::Missing, PathStatus::RegularFile];
    assert_eq!(
        cli.validate_inputs(&statuses),
        Err(CliError::MissingInput("gone.mp4".to_string()))
    );
}

#[test]
fn validation_rejects_a_directory() {
    let cli = request(&["a.mp4", "some_dir"]);
    let statuses = vec![PathStatus::RegularFile, PathStatus::NotAFile];
    let err = cli.validate_inputs(&statuses).unwrap_err();
    assert_eq!(err, CliError::NotAFile("some_dir".to_string()));
    assert_eq!(err.message(), "Input path is not a file: some_dir");
}

#[test]
fn validation_reports_the_first_rejected_input() {
    let cli = request(&["a", "b", "c"]);
    let statuses = vec![PathStatus::NotAFile, PathStatus::Missing, PathStatus::Missing];
    assert_eq!(cli.validate_inputs(&statuses), Err(CliError::NotAFile("a".to_string())));
    let statuses = vec![PathStatus::RegularFile, PathStatus::Missing, PathStatus::NotAFile];
    assert_eq!(cli.validate_inputs(&statuses), Err(CliError::MissingInput("b".to_string())));
}

#[test]
fn invalid_filename_message() {
    assert_eq!(CliError::InvalidFilename.message(), "Invalid input filename");
}

#[test]
fn explicit_video_codec_wins_over_format() {
    let mut cli = request(&["a.mp4"]);
    cli.video_codec = Some("libx265".to_string());
    cli.output_format = Some("avi".to_string());
    assert_eq!(cli.get_video_codec(), "libx265");
    assert_eq!(cli.get_audio_codec(), "mp3");
}

#[test]
fn explicit_audio_codec_wins_over_format() {
    let mut cli = request(&["a.mp4"]);
    cli.audio_codec = Some("opus".to_string());
    cli.output_format = Some("mp4".to_string());
    assert_eq!(cli.get_audio_codec(), "opus");
    assert_eq!(cli.get_video_codec(), "libx264");
}

#[test]
fn format_table_gives_codecs() {
    let table = [
        ("mp4", "libx264", "aac"),
        ("mkv", "libx264", "aac"),
        ("avi", "libxvid", "mp3"),
        ("mov", "libx264", "aac"),
        ("webm", "copy", "copy"),
        ("", "copy", "copy"),
    ];
    for (format, video, audio) in table {
        let mut cli = request(&["a.mp4"]);
        cli.output_format = Some(format.to_string());
        assert_eq!(cli.get_video_codec(), video);
        assert_eq!(cli.get_audio_codec(), audio);
    }
}

#[test]
fn format_is_matched_without_regard_to_case() {
    let mut cli = request(&["a.mp4"]);
    cli.output_format = Some("MKV".to_string());
    assert_eq!(cli.get_video_codec(), "libx264");
    assert_eq!(cli.get_audio_codec(), "aac");
    cli.output_format = Some("Avi".to_string());
    assert_eq!(cli.get_video_codec(), "libxvid");
    assert_eq!(cli.get_audio_codec(), "mp3");
}

#[test]
fn no_format_and_no_override_copies_streams() {
    let cli = request(&["a.mp4"]);
    assert_eq!(cli.get_video_codec(), "copy");
    assert_eq!(cli.get_audio_codec(), "copy");
}

#[test]
fn lowered_format_lookup_is_exact() {
    assert_eq!(video_codec_for_format(&"avi".to_string()), "libxvid");
    assert_eq!(audio_codec_for_format(&"avi".to_string()), "mp3");
    assert_eq!(video_codec_for_format(&"AVI".to_string()), "copy");
    assert_eq!(audio_codec_for_format(&"AVI".to_string()), "copy");
    assert_eq!(video_codec_for_format(&"mov".to_string()), "libx264");
    assert_eq!(audio_codec_for_format(&"mov".to_string()), "aac");
}

#[test]
fn probe_answers_are_classified() {
    assert_eq!(PathStatus::from_probe(false, false), PathStatus::Missing);
    assert_eq!(PathStatus::from_probe(false, true), PathStatus::Missing);
    assert_eq!(PathStatus::from_probe(true, false), PathStatus::NotAFile);
    assert_eq!(PathStatus::from_probe(true, true), PathStatus::RegularFile);
}
