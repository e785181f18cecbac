use dispatcharr_download_core::cli::OverwriteMode;
use dispatcharr_download_core::downloader::download::{
    after_attempt, after_validation_check, check_download_status, check_reported_duration,
    check_track_duration, episode_file_name, episode_url, existing_file_action,
    finish_download_attempt, first_attempt, next_packet_step, output_file_path, PacketRead,
    PacketStep, validate_download, overwrite_after_validation,
    seek_target, AttemptStep, DownloadError, ExistingFileAction, ValidationError, ValidationStep,
    TOLERANCE, VALIDATION_RETRIES,
};

fn failed(text: &str) -> Result<(), DownloadError> {
    Err(DownloadError::StartDownloadFailed { title: "t".to_string(), error_type: text.to_string() })
}

/// Runs the download loop on the given attempt outcomes; returns the final
/// outcome and how many attempts were made.
fn run_attempts(max: u32, outcomes: Vec<Result<(), DownloadError>>) -> (Result<(), DownloadError>, u32) {
    let mut outcomes = outcomes.into_iter();
    let mut made = 0;
    let mut step = first_attempt(max);
    loop {
        match step {
            AttemptStep::Attempt(n) => {
                made += 1;
                assert_eq!(n, made);
                step = after_attempt(max, n, outcomes.next().unwrap());
            },
            AttemptStep::Finish(result) => return (result, made),
        }
    }
}

fn run_checks(ext: &str, results: Vec<Result<u64, ValidationError>>) -> (Result<u64, ValidationError>, u64) {
    let mut results = results.into_iter();
    let mut made = 0;
    let mut step = validate_download(ext);
    loop {
        match step {
            ValidationStep::Check(n) => {
                made += 1;
                assert_eq!(n, made);
                step = after_validation_check(n, results.next().unwrap());
            },
            ValidationStep::Finish(result) => return (result, made),
        }
    }
}

#[test]
fn stream_address() {
    assert_eq!(
        episode_url("http://192.168.2.2:9191", "ab-12", 7),
        "http://192.168.2.2:9191/proxy/vod/episode/ab-12?m3u_account_id=7"
    );
    assert_eq!(episode_url("", "", 0), "/proxy/vod/episode/?m3u_account_id=0");
    assert_eq!(episode_url("h", "u", u32::MAX), "h/proxy/vod/episode/u?m3u_account_id=4294967295");
}

#[test]
fn file_names_drop_whitespace() {
    assert_eq!(episode_file_name("EN - Stranger Things - S01E01", "mkv"), "EN-StrangerThings-S01E01.mkv");
    assert_eq!(episode_file_name(" a\tb\nc\u{3000}d\u{a0}", "mp4"), "abcd.mp4");
    assert_eq!(episode_file_name("", ""), ".");
    assert_eq!(episode_file_name("Café_Ünïcode", "mp4"), "Café_Ünïcode.mp4");
}

#[test]
fn existing_files() {
    assert_eq!(existing_file_action(OverwriteMode::Never, Some(10)), ExistingFileAction::Keep);
    assert_eq!(
        existing_file_action(OverwriteMode::Bad, Some(10)),
        ExistingFileAction::Validate { expected_secs: 10 }
    );
    assert_eq!(existing_file_action(OverwriteMode::Bad, None), ExistingFileAction::Overwrite);
    assert_eq!(existing_file_action(OverwriteMode::All, Some(10)), ExistingFileAction::Overwrite);
    assert!(!overwrite_after_validation(&Ok(10)));
    assert!(overwrite_after_validation(&Err(ValidationError::DurationMismatch { expected_secs: 10, actual_secs: 3 })));
    assert!(!overwrite_after_validation(&Err(ValidationError::NoTrackFound)));
    assert!(!overwrite_after_validation(&Err(ValidationError::FailedToReadFile { error_type: "x".to_string() })));
}

#[test]
fn download_loop_stops_at_first_success() {
    let (result, made) = run_attempts(3, vec![failed("a"), Ok(()), failed("c")]);
    assert!(result.is_ok());
    assert_eq!(made, 2);
}

#[test]
fn download_loop_returns_last_error() {
    let (result, made) = run_attempts(2, vec![failed("a"), failed("b"), Ok(())]);
    assert_eq!(made, 2);
    match result {
        Err(DownloadError::StartDownloadFailed { error_type, .. }) => assert_eq!(error_type, "b"),
        other => panic!("{:?}", other),
    }
}

#[test]
fn download_loop_without_attempts() {
    let (result, made) = run_attempts(0, vec![]);
    assert_eq!(made, 0);
    match result {
        Err(DownloadError::StartDownloadFailed { title, error_type }) => {
            assert!(title.is_empty());
            assert!(error_type.is_empty());
        },
        other => panic!("{:?}", other),
    }
}

#[test]
fn validation_checks() {
    assert_eq!(VALIDATION_RETRIES, 3);
    assert_eq!(TOLERANCE, 2);
    for ext in ["mp4", "m4v", "mov", "mkv", "webm"] {
        let (result, made) = run_checks(ext, vec![Ok(1200)]);
        assert_eq!(result.unwrap(), 1200);
        assert_eq!(made, 1);
    }
    let (result, made) = run_checks("avi", vec![]);
    assert_eq!(made, 0);
    match result {
        Err(ValidationError::UnsupportedContainerType { container_type }) => assert_eq!(container_type, "avi"),
        other => panic!("{:?}", other),
    }
    let (result, made) = run_checks(
        "mkv",
        vec![Err(ValidationError::NoTrackFound), Err(ValidationError::DurationMismatch { expected_secs: 9, actual_secs: 1 })],
    );
    assert_eq!(made, 2);
    assert!(matches!(result, Err(ValidationError::DurationMismatch { expected_secs: 9, actual_secs: 1 })));
    let (result, made) = run_checks(
        "mp4",
        vec![
            Err(ValidationError::FailedToReadFile { error_type: "a".to_string() }),
            Err(ValidationError::PacketReadError { error_type: "b".to_string() }),
            Err(ValidationError::FailedToGetFormat { error_type: "c".to_string() }),
            Ok(5),
        ],
    );
    assert_eq!(made, 3);
    assert!(matches!(result, Err(ValidationError::NoTrackFound)));
}

#[test]
fn download_status() {
    assert!(check_download_status("t", 200).is_ok());
    assert!(check_download_status("t", 299).is_ok());
    match check_download_status("t", 404) {
        Err(DownloadError::DownloadFailed { title, exit_code }) => {
            assert_eq!(title, "t");
            assert_eq!(exit_code, 404);
        },
        other => panic!("{:?}", other),
    }
    assert!(check_download_status("t", 199).is_err());
    assert!(check_download_status("t", 300).is_err());
}

#[test]
fn attempt_endings() {
    assert!(finish_download_attempt("t", None).is_ok());
    assert!(finish_download_attempt("t", Some(Ok(3))).is_ok());
    match finish_download_attempt("t", Some(Err(ValidationError::NoTrackFound))) {
        Err(DownloadError::ValidationFailed { title, error: ValidationError::NoTrackFound }) => assert_eq!(title, "t"),
        other => panic!("{:?}", other),
    }
}

#[test]
fn reported_lengths() {
    assert!(check_reported_duration(98, 100, 2).is_ok());
    assert!(matches!(
        check_reported_duration(97, 100, 2),
        Err(ValidationError::DurationMismatch { expected_secs: 100, actual_secs: 97 })
    ));
    assert!(check_reported_duration(0, 1, 2).is_ok());
    // 60000 ticks of a millisecond are 60 seconds.
    assert!(check_track_duration(1, 1000, 60_000, 61, 2).is_ok());
    assert!(matches!(
        check_track_duration(1, 1000, 60_000, 100, 2),
        Err(ValidationError::DurationMismatch { expected_secs: 100, actual_secs: 60 })
    ));
    // 1001/30000 seconds per frame: 30000 frames are 1001 seconds.
    assert!(matches!(
        check_track_duration(1001, 30000, 30_000, 2000, 2),
        Err(ValidationError::DurationMismatch { expected_secs: 2000, actual_secs: 1001 })
    ));
    // A dividend past 52 bits: 2^60 ticks of 3/7 seconds.
    let ticks: u64 = 1 << 60;
    let seconds = ((ticks as u128) * 3 / 7) as u64;
    assert!(matches!(
        check_track_duration(3, 7, ticks, u64::MAX, 0),
        Err(ValidationError::DurationMismatch { actual_secs, .. }) if actual_secs == seconds
    ));
}

#[test]
fn seeking() {
    assert_eq!(seek_target(31), Some(1));
    assert_eq!(seek_target(30), None);
    assert_eq!(seek_target(0), None);
    assert_eq!(seek_target(1500), Some(1470));
}

#[test]
fn download_error_messages() {
    let cases = vec![
        (
            DownloadError::StartDownloadFailed { title: "T".to_string(), error_type: "e".to_string() },
            "Starting download: \"T\" failed with error: e.",
        ),
        (
            DownloadError::DownloadFailed { title: "T".to_string(), exit_code: 503 },
            "Download: \"T\" exited with exit code: 503 and subsequently failed.",
        ),
        (
            DownloadError::DownloadFailed { title: "T".to_string(), exit_code: -4 },
            "Download: \"T\" exited with exit code: -4 and subsequently failed.",
        ),
        (
            DownloadError::FailedToCreateFile { title: "T".to_string(), file: "/o/T.mp4".to_string(), error_type: "e".to_string() },
            "Download: \"T\" failed, because of being unable to create file \"/o/T.mp4\" due to error: e.",
        ),
        (
            DownloadError::FailedToCopyContentsToFile { title: "T".to_string(), file: "f".to_string(), error_type: "e".to_string() },
            "Download: \"T\" failed, because of being unable to copy HTTP response contents to file \"f\" with errorcode: e.",
        ),
        (
            DownloadError::ValidationFailed {
                title: "T".to_string(),
                error: ValidationError::DurationMismatch { expected_secs: 1320, actual_secs: 0 },
            },
            "Download: \"T\" failed during validation, error: Duration mismatch, expected file to be 1320 seconds long, got 0 seconds..",
        ),
    ];
    for (error, text) in cases {
        assert_eq!(error.message(), text);
    }
}

#[test]
fn validation_error_messages() {
    let cases = vec![
        (ValidationError::UnsupportedContainerType { container_type: "avi".to_string() }, "Container type not supported for validating: avi."),
        (ValidationError::FailedToReadFile { error_type: "e".to_string() }, "Read error: e."),
        (ValidationError::FailedToGetFormat { error_type: "e".to_string() }, "Unable to read video format, error: e."),
        (ValidationError::NoTrackFound, "Unable to find a video track in the file."),
        (ValidationError::PacketReadError { error_type: "e".to_string() }, "Unable to read packets, error: e."),
        (
            ValidationError::DurationMismatch { expected_secs: 18446744073709551615, actual_secs: 10 },
            "Duration mismatch, expected file to be 18446744073709551615 seconds long, got 10 seconds.",
        ),
    ];
    for (error, text) in cases {
        assert_eq!(error.message(), text);
        assert_eq!(error.clone().message(), text);
    }
}

#[test]
fn output_paths() {
    assert_eq!(output_file_path("out", "ThePilot.mkv", '/'), "out/ThePilot.mkv");
    assert_eq!(output_file_path("out/", "ThePilot.mkv", '/'), "out/ThePilot.mkv");
    assert_eq!(output_file_path(".", "a.mp4", '/'), "./a.mp4");
    assert_eq!(output_file_path("", "a.mp4", '/'), "a.mp4");
    assert_eq!(output_file_path("out", "/abs.mp4", '/'), "/abs.mp4");
    assert_eq!(output_file_path("C:\\v", "a.mp4", '\\'), "C:\\v\\a.mp4");
    assert_eq!(output_file_path("out/", "a.mp4", '\\'), "out/a.mp4");
    assert_eq!(output_file_path("out", "/a.mp4", '\\'), "/a.mp4");
    assert_eq!(output_file_path("out", "a.mp4", '\\'), "out\\a.mp4");
    for (folder, name) in [("out", "ThePilot.mkv"), ("out/", "x.mkv"), ("", "y.mp4"), ("/v", "/z.mp4")] {
        let joined = std::path::Path::new(folder).join(name);
        assert_eq!(output_file_path(folder, name, '/'), joined.to_str().unwrap());
    }
}

#[test]
fn packets_are_sorted() {
    assert!(matches!(next_packet_step(2, PacketRead::Packet { track_id: 2 }), PacketStep::Record));
    assert!(matches!(next_packet_step(2, PacketRead::Packet { track_id: 3 }), PacketStep::Skip));
    assert!(matches!(next_packet_step(2, PacketRead::EndOfStream), PacketStep::Stop));
    match next_packet_step(2, PacketRead::Failure { error_type: "bad frame".to_string() }) {
        PacketStep::Fail(ValidationError::PacketReadError { error_type }) => assert_eq!(error_type, "bad frame"),
        other => panic!("{:?}", other),
    }
}
