use dispatcharr_download_core::cli::{
    cli_options_panic, parse_api_key, parse_cli_argument, parse_cli_arguments, parse_cli_options,
    parse_log_file, parse_max_retries, parse_output_folder, parse_recipe, parse_url, recipe_elements,
    url_would_panic,
    CliEnvironment, CliError, CliOption, DownloadOptions, OverwriteMode, PathFacts, RecipeLoad,
};
use dispatcharr_download_core::recipe::{ParseError, Recipe};

fn value(s: &str) -> CliOption {
    CliOption::Value(s.to_string())
}

fn flag(s: &str) -> CliOption {
    CliOption::Flag(s.to_string())
}

fn opt(k: &str, v: &str) -> CliOption {
    CliOption::Option(k.to_string(), v.to_string())
}

fn recipe(series_id: u64) -> Recipe {
    let mut r = Recipe::new();
    r.series_id = series_id;
    r
}

fn plain() -> PathFacts {
    PathFacts { is_dir: false, recipe: RecipeLoad::Missing }
}

fn dir() -> PathFacts {
    PathFacts { is_dir: true, recipe: RecipeLoad::Missing }
}

fn loaded(series_id: u64) -> PathFacts {
    PathFacts { is_dir: false, recipe: RecipeLoad::Loaded(recipe(series_id)) }
}

fn env(paths: Vec<PathFacts>) -> CliEnvironment {
    CliEnvironment { separator: '/', paths }
}

fn parse(options: Vec<CliOption>, paths: Vec<PathFacts>) -> Result<DownloadOptions, CliError> {
    let environment = env(paths);
    assert!(!cli_options_panic(&options, &environment));
    parse_cli_options(options, &environment)
}

#[test]
fn options_with_defaults() {
    let options = parse(
        vec![opt("url", "http://192.168.2.2:9191"), opt("api-key", "secret"), value("show.json")],
        vec![plain(), plain(), loaded(42)],
    )
    .unwrap();
    assert_eq!(options.url, "http://192.168.2.2:9191");
    assert_eq!(options.api_key, "secret");
    assert_eq!(options.output_folder, ".");
    assert_eq!(options.log_file, None);
    assert_eq!(options.recipe.series_id, 42);
    assert_eq!(options.max_reties, 3);
    assert_eq!(options.overwrite_mode, OverwriteMode::Bad);
    assert!(!options.verbose);
}

#[test]
fn every_spelling_of_every_option() {
    for key in ["url", "baseurl", "base-url", "base_url"] {
        let o = parse(
            vec![opt(key, "https://a.example"), opt("api", "k"), value("r")],
            vec![plain(), plain(), loaded(1)],
        )
        .unwrap();
        assert_eq!(o.url, "https://a.example");
    }
    for key in ["api", "apikey", "api-key", "api_key"] {
        let o = parse(
            vec![opt("url", "http://a.b"), opt(key, "k2"), value("r")],
            vec![plain(), plain(), loaded(1)],
        )
        .unwrap();
        assert_eq!(o.api_key, "k2");
    }
    for key in ["output", "outputfolder", "output-folder", "output_folder"] {
        let o = parse(
            vec![opt("url", "http://a.b"), opt("api", "k"), value("r"), opt(key, "/videos")],
            vec![plain(), plain(), loaded(1), dir()],
        )
        .unwrap();
        assert_eq!(o.output_folder, "/videos");
    }
    for key in ["log", "logfile", "log-file", "log_file"] {
        let o = parse(
            vec![opt("url", "http://a.b"), opt("api", "k"), value("r"), opt(key, "run.log")],
            vec![plain(), plain(), loaded(1), plain()],
        )
        .unwrap();
        assert_eq!(o.log_file, Some("run.log".to_string()));
    }
    for key in ["retries", "maxretries", "max-retries", "max_retries"] {
        let o = parse(
            vec![opt("url", "http://a.b"), opt("api", "k"), value("r"), opt(key, "7")],
            vec![plain(), plain(), loaded(1), plain()],
        )
        .unwrap();
        assert_eq!(o.max_reties, 7);
    }
}

#[test]
fn flags_take_the_next_value() {
    let o = parse(
        vec![
            flag("u"),
            value("http://x.y/"),
            opt("api", "k"),
            flag("o"),
            value("/out"),
            flag("logfile"),
            value("/logs"),
            value("r"),
        ],
        vec![plain(), plain(), plain(), plain(), dir(), plain(), dir(), loaded(9)],
    )
    .unwrap();
    assert_eq!(o.url, "http://x.");
    assert_eq!(o.output_folder, "/out");
    assert_eq!(o.log_file, Some("/logs".to_string()));
    assert_eq!(o.recipe.series_id, 9);
}

#[test]
fn flag_without_value_is_ignored() {
    let o = parse(
        vec![opt("url", "http://a.b"), opt("api", "k"), value("r"), flag("o")],
        vec![plain(), plain(), loaded(3), plain()],
    )
    .unwrap();
    assert_eq!(o.output_folder, ".");
    let o = parse(
        vec![flag("baseurl"), flag("v"), opt("url", "http://a.b"), opt("api", "k"), value("r")],
        vec![plain(), plain(), plain(), plain(), loaded(3)],
    )
    .unwrap();
    assert!(o.verbose);
}

#[test]
fn switches() {
    for f in ["v", "verbose", "d", "debug"] {
        let o = parse(
            vec![opt("url", "http://a.b"), opt("api", "k"), value("r"), flag(f)],
            vec![plain(), plain(), loaded(1), plain()],
        )
        .unwrap();
        assert!(o.verbose);
    }
    let cases = [
        ("overwrite-none", OverwriteMode::Never),
        ("overwrite-bad", OverwriteMode::Bad),
        ("overwrite-all", OverwriteMode::All),
    ];
    for (f, mode) in cases {
        let o = parse(
            vec![opt("url", "http://a.b"), opt("api", "k"), value("r"), flag(f)],
            vec![plain(), plain(), loaded(1), plain()],
        )
        .unwrap();
        assert_eq!(o.overwrite_mode, mode);
    }
}

#[test]
fn later_elements_override_earlier_ones() {
    let o = parse(
        vec![
            opt("url", "http://first.example"),
            opt("url", "http://second.example"),
            opt("api", "k"),
            value("a"),
            value("b"),
        ],
        vec![plain(), plain(), plain(), loaded(1), loaded(2)],
    )
    .unwrap();
    assert_eq!(o.url, "http://second.example");
    assert_eq!(o.recipe.series_id, 2);
}

#[test]
fn each_error() {
    let base = |extra: Vec<CliOption>, extra_facts: Vec<PathFacts>| {
        let mut options = vec![opt("url", "http://a.b"), opt("api", "k"), value("r")];
        let mut facts = vec![plain(), plain(), loaded(5)];
        options.extend(extra);
        facts.extend(extra_facts);
        parse(options, facts)
    };
    match base(vec![flag("x")], vec![plain()]) {
        Err(CliError::UnknownFlag { flag }) => assert_eq!(flag, "x"),
        other => panic!("{:?}", other),
    }
    match base(vec![opt("colour", "red")], vec![plain()]) {
        Err(CliError::UnknownOption { option }) => assert_eq!(option, "colour"),
        other => panic!("{:?}", other),
    }
    match base(vec![opt("url", "ftp://a.b")], vec![plain()]) {
        Err(CliError::InvalidUrl { message }) => {
            assert_eq!(message, "the URL passed in doens't start with http or https")
        },
        other => panic!("{:?}", other),
    }
    match base(vec![opt("url", "http://localhost")], vec![plain()]) {
        Err(CliError::InvalidUrl { message }) => assert_eq!(message, "not enough .'s to form a valid URL"),
        other => panic!("{:?}", other),
    }
    match base(vec![opt("output", "/nope")], vec![plain()]) {
        Err(CliError::InvalidOutputPath { message }) => {
            assert_eq!(message, "expected a folder as an output destination")
        },
        other => panic!("{:?}", other),
    }
    match base(vec![opt("log", "/var/log/")], vec![plain()]) {
        Err(CliError::InvalidLogFile { message }) => assert_eq!(message, "expected a file as a log destination"),
        other => panic!("{:?}", other),
    }
    match base(vec![opt("retries", "many")], vec![plain()]) {
        Err(CliError::InvalidRetryCount { message }) => assert_eq!(message, "'many' is not an integer."),
        other => panic!("{:?}", other),
    }
    match base(vec![opt("retries", "0")], vec![plain()]) {
        Err(CliError::InvalidRetryCount { message }) => {
            assert_eq!(message, "retry count must be greater than zero")
        },
        other => panic!("{:?}", other),
    }
    match base(vec![value("gone.json")], vec![plain()]) {
        Err(CliError::NonExistentRecipeFile { file }) => assert_eq!(file, "gone.json"),
        other => panic!("{:?}", other),
    }
    let broken = PathFacts {
        is_dir: false,
        recipe: RecipeLoad::Failed(ParseError::FailedToParseJSON { error_type: "eof".to_string() }),
    };
    match base(vec![value("bad.json")], vec![broken]) {
        Err(CliError::RecipeParseError { parse_error: ParseError::FailedToParseJSON { error_type } }) => {
            assert_eq!(error_type, "eof")
        },
        other => panic!("{:?}", other),
    }
}

#[test]
fn missing_settings_in_checking_order() {
    match parse(vec![], vec![]) {
        Err(CliError::NoSeriesId) => {},
        other => panic!("{:?}", other),
    }
    match parse(vec![value("r")], vec![loaded(1)]) {
        Err(CliError::NoUrl) => {},
        other => panic!("{:?}", other),
    }
    match parse(vec![value("r"), opt("url", "http://a.b")], vec![loaded(1), plain()]) {
        Err(CliError::NoApiKey) => {},
        other => panic!("{:?}", other),
    }
    match parse(vec![value("r"), opt("api", "")], vec![loaded(1), plain()]) {
        Err(CliError::NoUrl) => {},
        other => panic!("{:?}", other),
    }
}

#[test]
fn first_error_wins() {
    match parse(vec![flag("zz"), opt("yy", "1")], vec![plain(), plain()]) {
        Err(CliError::UnknownFlag { flag }) => assert_eq!(flag, "zz"),
        other => panic!("{:?}", other),
    }
}

#[test]
fn panicking_command_lines_are_detected() {
    let e = env(vec![plain(), plain()]);
    assert!(cli_options_panic(&vec![flag("url"), value("http://a.b")], &e));
    assert!(!cli_options_panic(&vec![flag("url"), flag("v")], &e));
    assert!(cli_options_panic(&vec![opt("url", "http://a.bé/")], &e));
    assert!(!cli_options_panic(&vec![opt("url", "http://é.b/")], &e));
}

#[test]
fn url_checks() {
    assert_eq!(parse_url("http://a.b").unwrap(), "http://a.b");
    assert_eq!(parse_url("https://dispatcharr.example.com/").unwrap(), "https://dispatcharr.example.co");
    assert_eq!(parse_url("http://a.b/").unwrap(), "http://a.");
    assert!(parse_url("HTTP://a.b").is_err());
    assert!(parse_url("https//a.b").is_err());
    assert!(url_would_panic("http://a.bé/"));
    assert!(!url_would_panic("http://a.b/"));
    assert!(!url_would_panic("ftp://a.bé/"));
}

#[test]
fn small_checks() {
    assert_eq!(parse_api_key("").unwrap(), "");
    assert_eq!(parse_output_folder("/x", true).unwrap(), "/x");
    assert!(parse_output_folder("/x", false).is_err());
    assert_eq!(parse_log_file("a\\", '/').unwrap(), "a\\");
    assert!(parse_log_file("a\\", '\\').is_err());
    assert!(parse_log_file("", '/').is_ok());
    assert_eq!(parse_max_retries("+5").unwrap(), 5);
    assert_eq!(parse_max_retries("4294967295").unwrap(), u32::MAX);
    assert!(parse_max_retries("4294967296").is_err());
    assert!(parse_max_retries("-1").is_err());
    assert!(parse_max_retries("+").is_err());
    assert!(parse_max_retries("").is_err());
    assert!(parse_max_retries(" 1").is_err());
    assert_eq!(parse_max_retries("007").unwrap(), 7);
    match parse_recipe("x.json", &RecipeLoad::Loaded(recipe(77))) {
        Ok(r) => assert_eq!(r.series_id, 77),
        Err(e) => panic!("{:?}", e),
    }
}

#[test]
fn error_messages() {
    let cases = vec![
        (CliError::UnknownFlag { flag: "q".to_string() }, "Unknown flag: '-q'."),
        (CliError::UnknownOption { option: "q".to_string() }, "Unknown option: '--q=...'."),
        (CliError::NoUrl, "No url passed in. (use --url=...)."),
        (CliError::InvalidUrl { message: "m".to_string() }, "Url passed in is invalid, m."),
        (CliError::NoSeriesId, "No series id in your recipe."),
        (CliError::NonExistentRecipeFile { file: "f.json".to_string() }, "Recipe file passed in (\"f.json\") does not exist."),
        (
            CliError::RecipeParseError {
                parse_error: ParseError::FailedToOpenFile { file: "f".to_string(), error_type: "denied".to_string() },
            },
            "Failed to create recipe with error: Failed to open \"f\", error: denied.",
        ),
        (CliError::NoApiKey, "No api key passed in. (use --api-key=...)."),
        (CliError::InvalidOutputPath { message: "m".to_string() }, "Invalid output path passed in, m."),
        (CliError::InvalidLogFile { message: "m".to_string() }, "Invalid log file path passed in, m."),
        (CliError::InvalidRetryCount { message: "m".to_string() }, "Invalid retry count passed in, m."),
    ];
    for (error, text) in cases {
        assert_eq!(error.message(), text);
    }
}

#[test]
fn command_line_arguments() {
    let args: Vec<String> = ["prog", "--url=http://a.b=c", "-v", "--verbose", "show.json", "-", "--api-key="]
        .iter()
        .map(|s| s.to_string())
        .collect();
    let options = parse_cli_arguments(args);
    assert_eq!(options.len(), 6);
    match &options[0] {
        CliOption::Option(k, v) => {
            assert_eq!(k, "url");
            assert_eq!(v, "http://a.b=c");
        },
        other => panic!("{:?}", other),
    }
    assert!(matches!(&options[1], CliOption::Flag(f) if f == "v"));
    assert!(matches!(&options[2], CliOption::Flag(f) if f == "verbose"));
    assert!(matches!(&options[3], CliOption::Value(v) if v == "show.json"));
    assert!(matches!(&options[4], CliOption::Value(v) if v == "-"));
    assert!(matches!(&options[5], CliOption::Option(k, v) if k == "api-key" && v.is_empty()));
    assert!(parse_cli_arguments(vec![]).is_empty());
    assert!(matches!(parse_cli_argument("--"), CliOption::Flag(f) if f.is_empty()));
}

#[test]
fn only_recipe_values_are_marked() {
    let options = vec![
        value("show.json"),
        flag("o"),
        value("/out"),
        flag("v"),
        value("other.json"),
        opt("url", "http://a.b"),
        flag("log"),
        value("run.log"),
    ];
    assert_eq!(recipe_elements(&options), vec![true, false, false, false, true, false, false, false]);
}
