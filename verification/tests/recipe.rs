use dispatcharr_download_core::recipe::{ParseError, Recipe, Season};

#[test]
fn new_recipe_is_empty() {
    let r = Recipe::new();
    assert_eq!(r.series_id, 0);
    assert!(r.seasons.is_empty());
}

#[test]
fn recipe_copies_keep_their_seasons() {
    let mut r = Recipe::new();
    r.series_id = 12;
    r.seasons.insert(1, Season { episodes: vec![1, 2], exclude: vec![3] });
    let copy = r.clone();
    assert_eq!(copy.series_id, 12);
    assert_eq!(copy.seasons[&1].episodes, vec![1, 2]);
    assert_eq!(copy.seasons[&1].exclude, vec![3]);
}

#[test]
fn parse_error_messages() {
    let cases = vec![
        (ParseError::FailedToOpenFile { file: "r.json".to_string(), error_type: "missing".to_string() }, "Failed to open \"r.json\", error: missing."),
        (ParseError::FailedToReadFile { file: "r.json".to_string(), error_type: "io".to_string() }, "Failed to read \"r.json\", error: io."),
        (ParseError::FailedToParseJSON { error_type: "eof".to_string() }, "Failed to parse Recipe JSON, error: eof."),
    ];
    for (error, text) in cases {
        assert_eq!(error.message(), text);
        assert_eq!(error.clone().message(), text);
    }
}
