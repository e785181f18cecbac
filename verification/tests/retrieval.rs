use dispatcharr_download_core::downloader::retrieval::{
    collect_seasons, provider_info_url, EpisodeResponse, RetrieveError,
};

fn listed(uuid: &str, season: u32, number: u32) -> EpisodeResponse {
    EpisodeResponse {
        uuid: uuid.to_string(),
        title: format!("Episode {}", number),
        episode_number: number,
        season_number: season,
        duration_secs: if number % 2 == 0 { Some(1200) } else { None },
        container_extension: "mkv".to_string(),
    }
}

#[test]
fn provider_info_address() {
    assert_eq!(
        provider_info_url("http://192.168.2.2:9191", 1234),
        "http://192.168.2.2:9191/api/vod/series/1234/provider-info/?include_episodes=true"
    );
    assert_eq!(
        provider_info_url("https://d.example", 0),
        "https://d.example/api/vod/series/0/provider-info/?include_episodes=true"
    );
}

#[test]
fn episodes_are_sorted_into_their_seasons() {
    let groups = vec![
        vec![listed("a", 1, 1), listed("b", 1, 2), listed("x", 3, 9)],
        vec![],
        vec![listed("c", 2, 1), listed("d", 1, 3)],
    ];
    let seasons = collect_seasons(&groups);
    assert_eq!(seasons.len(), 3);
    let one: Vec<&str> = seasons[&1].episodes.iter().map(|e| e.uuid.as_str()).collect();
    assert_eq!(one, vec!["a", "b", "d"]);
    assert_eq!(seasons[&2].episodes.len(), 1);
    assert_eq!(seasons[&3].episodes[0].uuid, "x");
    let b = &seasons[&1].episodes[1];
    assert_eq!(b.title, "Episode 2");
    assert_eq!(b.episode_number, 2);
    assert_eq!(b.seconds, Some(1200));
    assert_eq!(b.container_extension, "mkv");
    assert_eq!(seasons[&1].episodes[2].seconds, None);
}

#[test]
fn no_episodes_no_seasons() {
    assert!(collect_seasons(&vec![]).is_empty());
    assert!(collect_seasons(&vec![vec![], vec![]]).is_empty());
}

#[test]
fn retrieve_error_messages() {
    let cases = vec![
        (RetrieveError::FailedToSetupHTTP { error_type: "tls".to_string() }, "Failed to set up HTTP client with error: tls."),
        (RetrieveError::GETProviderInfoFailed { error_type: "dns".to_string() }, "Failed to retrieve episodes from Dispatcharr with error: dns."),
        (
            RetrieveError::ProviderInfoReturnedErrorStatus { status_code: 401, error_type: "unauthorized".to_string() },
            "Failed to retrieve episodes from Dispatcharr with error code: 401. Additional context: unauthorized.",
        ),
        (RetrieveError::ProviderInfoContainsNoBody, "Failed to retrieve episodes from Dispatcharr, because response does not contain HTTP body."),
        (RetrieveError::FailedToParseJSON { error_type: "eof".to_string() }, "Failed to parse episode response JSON, error: eof."),
    ];
    for (error, text) in cases {
        assert_eq!(error.message(), text);
    }
}
