use dispatcharr_download_core::cli::{DownloadOptions, OverwriteMode};
use dispatcharr_download_core::downloader::download::{
    download_episode, output_file_path, DownloadError, EpisodeAction, EpisodeDownload, EpisodeStage,
    ValidationError,
};
use dispatcharr_download_core::downloader::types::Episode;
use dispatcharr_download_core::recipe::Recipe;

fn options(mode: OverwriteMode, max_reties: u32) -> DownloadOptions {
    DownloadOptions {
        url: "http://10.0.0.2:9191".to_string(),
        api_key: "k".to_string(),
        output_folder: "/videos".to_string(),
        log_file: None,
        recipe: Recipe::new(),
        max_reties,
        overwrite_mode: mode,
        verbose: false,
    }
}

fn episode(seconds: Option<u64>) -> Episode {
    Episode {
        uuid: "e-1".to_string(),
        episode_number: 1,
        title: "The Vanishing of Will Byers".to_string(),
        container_extension: "mkv".to_string(),
        seconds,
    }
}

fn start(mode: OverwriteMode, max: u32, seconds: Option<u64>) -> EpisodeDownload {
    download_episode(&options(mode, max), &episode(seconds), 4)
}

fn failure(text: &str) -> Result<(), DownloadError> {
    Err(DownloadError::DownloadFailed { title: text.to_string(), exit_code: 500 })
}

#[test]
fn download_is_set_up_from_options_and_episode() {
    let d = start(OverwriteMode::Bad, 3, Some(60));
    assert_eq!(d.url, "http://10.0.0.2:9191/proxy/vod/episode/e-1?m3u_account_id=4");
    assert_eq!(d.file_name, "TheVanishingofWillByers.mkv");
    assert_eq!(d.title, "The Vanishing of Will Byers");
    assert_eq!(d.container_extension, "mkv");
    assert_eq!(d.expected_secs, Some(60));
    assert_eq!(d.max_reties, 3);
    assert_eq!(d.stage, EpisodeStage::CheckingExisting);
}

#[test]
fn absent_file_is_downloaded_until_success() {
    let mut d = start(OverwriteMode::Never, 3, None);
    assert!(matches!(d.existing_checked(false), EpisodeAction::Attempt(1)));
    assert!(matches!(d.attempt_finished(failure("a")), EpisodeAction::Attempt(2)));
    assert!(matches!(d.attempt_finished(Ok(())), EpisodeAction::Finish(Ok(()))));
    assert_eq!(d.stage, EpisodeStage::Done);
}

#[test]
fn attempts_run_out_with_last_error() {
    let mut d = start(OverwriteMode::All, 2, None);
    assert!(matches!(d.existing_checked(true), EpisodeAction::Attempt(1)));
    assert!(matches!(d.attempt_finished(failure("a")), EpisodeAction::Attempt(2)));
    match d.attempt_finished(failure("b")) {
        EpisodeAction::Finish(Err(DownloadError::DownloadFailed { title, .. })) => assert_eq!(title, "b"),
        other => panic!("{:?}", other),
    }
}

#[test]
fn no_attempts_allowed() {
    let mut d = start(OverwriteMode::All, 0, None);
    match d.existing_checked(false) {
        EpisodeAction::Finish(Err(DownloadError::StartDownloadFailed { title, error_type })) => {
            assert!(title.is_empty() && error_type.is_empty())
        },
        other => panic!("{:?}", other),
    }
}

#[test]
fn present_file_in_each_mode() {
    let mut d = start(OverwriteMode::Never, 3, Some(60));
    assert!(matches!(d.existing_checked(true), EpisodeAction::Finish(Ok(()))));

    let mut d = start(OverwriteMode::Bad, 3, None);
    assert!(matches!(d.existing_checked(true), EpisodeAction::Attempt(1)));

    let mut d = start(OverwriteMode::Bad, 3, Some(60));
    assert!(matches!(d.existing_checked(true), EpisodeAction::ValidateExisting { expected_secs: 60 }));
    assert_eq!(d.stage, EpisodeStage::ValidatingExisting);
    assert!(matches!(d.existing_validated(&Ok(60)), EpisodeAction::Finish(Ok(()))));

    let mut d = start(OverwriteMode::Bad, 3, Some(60));
    d.existing_checked(true);
    assert!(matches!(d.existing_validated(&Err(ValidationError::NoTrackFound)), EpisodeAction::Finish(Ok(()))));

    let mut d = start(OverwriteMode::Bad, 3, Some(60));
    d.existing_checked(true);
    let mismatch = Err(ValidationError::DurationMismatch { expected_secs: 60, actual_secs: 10 });
    assert!(matches!(d.existing_validated(&mismatch), EpisodeAction::Attempt(1)));
    assert_eq!(d.stage, EpisodeStage::Downloading(1));
}

#[test]
fn episode_lands_in_output_folder() {
    let mut o = options(OverwriteMode::All, 1);
    o.url = "http://a.b".to_string();
    o.output_folder = "out".to_string();
    let e = Episode {
        uuid: "u1".to_string(),
        episode_number: 1,
        title: "The Pilot".to_string(),
        container_extension: "mkv".to_string(),
        seconds: None,
    };
    let mut d = download_episode(&o, &e, 7);
    assert_eq!(d.url, "http://a.b/proxy/vod/episode/u1?m3u_account_id=7");
    assert_eq!(output_file_path(&o.output_folder, &d.file_name, '/'), "out/ThePilot.mkv");
    assert!(matches!(d.existing_checked(false), EpisodeAction::Attempt(1)));
    assert!(matches!(d.attempt_finished(Ok(())), EpisodeAction::Finish(Ok(()))));
}
