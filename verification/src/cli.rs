//! Command-line options: turning the options a user gave into download options.
use vstd::prelude::*;

use crate::recipe::{parse_error_text, ParseError, ParseErrorView, Recipe, RecipeView};
use crate::text::{
    contains_char, ends_with, ends_with_char, has_prefix, owned, parse_u32, starts_with, str_eq,
    u32_value,
};

verus! {

/// One command-line element: a bare value, a flag (`-x`, `--name`), or an
/// option with a value (`--key=value`).
#[derive(Debug, Clone)]
pub enum CliOption {
    Value(String),
    Flag(String),
    Option(String, String),
}

/// What to do with an episode that is already on disk.
#[derive(Debug, Clone, Copy, PartialEq, Eq, Structural)]
pub enum OverwriteMode {
    /// Keep it (the `overwrite-none` flag).
    Never,
    /// Download it again when it fails validation.
    Bad,
    /// Download it again.
    All,
}

/// Everything a download run needs to know.
#[derive(Debug, Clone)]
pub struct DownloadOptions {
    /// Base URL of the Dispatcharr instance, such as `http://192.168.2.2:9191`.
    pub url: String,
    pub api_key: String,
    pub output_folder: String,
    pub log_file: Option<String>,
    pub recipe: Recipe,
    pub max_reties: u32,
    pub overwrite_mode: OverwriteMode,
    pub verbose: bool,
}

/// `DownloadOptions` with texts as character sequences.
#[verifier::ext_equal]
pub struct DownloadOptionsView {
    pub url: Seq<char>,
    pub api_key: Seq<char>,
    pub output_folder: Seq<char>,
    pub log_file: Option<Seq<char>>,
    pub recipe: RecipeView,
    pub max_reties: u32,
    pub overwrite_mode: OverwriteMode,
    pub verbose: bool,
}

impl View for DownloadOptions {
    type V = DownloadOptionsView;

    open spec fn view(&self) -> DownloadOptionsView {
        DownloadOptionsView {
            url: self.url@,
            api_key: self.api_key@,
            output_folder: self.output_folder@,
            log_file: match self.log_file {
                Some(f) => Some(f@),
                None => None,
            },
            recipe: self.recipe@,
            max_reties: self.max_reties,
            overwrite_mode: self.overwrite_mode,
            verbose: self.verbose,
        }
    }
}

/// Why the command line could not be turned into download options.
#[derive(Debug, Clone)]
pub enum CliError {
    UnknownFlag { flag: String },
    UnknownOption { option: String },
    NoUrl,
    InvalidUrl { message: String },
    NoSeriesId,
    NonExistentRecipeFile { file: String },
    RecipeParseError { parse_error: ParseError },
    NoApiKey,
    InvalidOutputPath { message: String },
    InvalidLogFile { message: String },
    InvalidRetryCount { message: String },
}

/// `CliError` with texts as character sequences.
pub enum CliErrorView {
    UnknownFlag { flag: Seq<char> },
    UnknownOption { option: Seq<char> },
    NoUrl,
    InvalidUrl { message: Seq<char> },
    NoSeriesId,
    NonExistentRecipeFile { file: Seq<char> },
    RecipeParseError { parse_error: ParseErrorView },
    NoApiKey,
    InvalidOutputPath { message: Seq<char> },
    InvalidLogFile { message: Seq<char> },
    InvalidRetryCount { message: Seq<char> },
}

impl View for CliError {
    type V = CliErrorView;

    open spec fn view(&self) -> CliErrorView {
        match self {
            CliError::UnknownFlag { flag } => CliErrorView::UnknownFlag { flag: flag@ },
            CliError::UnknownOption { option } => CliErrorView::UnknownOption { option: option@ },
            CliError::NoUrl => CliErrorView::NoUrl,
            CliError::InvalidUrl { message } => CliErrorView::InvalidUrl { message: message@ },
            CliError::NoSeriesId => CliErrorView::NoSeriesId,
            CliError::NonExistentRecipeFile { file } => CliErrorView::NonExistentRecipeFile {
                file: file@,
            },
            CliError::RecipeParseError { parse_error } => CliErrorView::RecipeParseError {
                parse_error: parse_error@,
            },
            CliError::NoApiKey => CliErrorView::NoApiKey,
            CliError::InvalidOutputPath { message } => CliErrorView::InvalidOutputPath {
                message: message@,
            },
            CliError::InvalidLogFile { message } => CliErrorView::InvalidLogFile {
                message: message@,
            },
            CliError::InvalidRetryCount { message } => CliErrorView::InvalidRetryCount {
                message: message@,
            },
        }
    }
}

/// The text that describes a command-line error to the user.
pub open spec fn cli_error_text(e: CliErrorView) -> Seq<char> {
    match e {
        CliErrorView::UnknownFlag { flag } => "Unknown flag: '-"@ + flag + "'."@,
        CliErrorView::UnknownOption { option } => "Unknown option: '--"@ + option + "=...'."@,
        CliErrorView::NoUrl => "No url passed in. (use --url=...)."@,
        CliErrorView::InvalidUrl { message } => "Url passed in is invalid, "@ + message + "."@,
        CliErrorView::NoSeriesId => "No series id in your recipe."@,
        CliErrorView::NonExistentRecipeFile { file } => "Recipe file passed in (\""@ + file
            + "\") does not exist."@,
        CliErrorView::RecipeParseError { parse_error } => "Failed to create recipe with error: "@
            + parse_error_text(parse_error),
        CliErrorView::NoApiKey => "No api key passed in. (use --api-key=...)."@,
        CliErrorView::InvalidOutputPath { message } => "Invalid output path passed in, "@ + message
            + "."@,
        CliErrorView::InvalidLogFile { message } => "Invalid log file path passed in, "@ + message
            + "."@,
        CliErrorView::InvalidRetryCount { message } => "Invalid retry count passed in, "@ + message
            + "."@,
    }
}

fn text_around(before: &str, middle: &str, after: &str) -> (text: String)
    ensures
        text@ == before@ + middle@ + after@,
{
    let mut text = String::from_str(before);
    text.append(middle);
    text.append(after);
    text
}

impl CliError {
    /// The text that describes this error to the user.
    pub fn message(&self) -> (text: String)
        ensures
            text@ == cli_error_text(self@),
    {
        match self {
            CliError::UnknownFlag { flag } => text_around("Unknown flag: '-", flag.as_str(), "'."),
            CliError::UnknownOption { option } => text_around(
                "Unknown option: '--",
                option.as_str(),
                "=...'.",
            ),
            CliError::NoUrl => owned("No url passed in. (use --url=...)."),
            CliError::InvalidUrl { message } => text_around(
                "Url passed in is invalid, ",
                message.as_str(),
                ".",
            ),
            CliError::NoSeriesId => owned("No series id in your recipe."),
            CliError::NonExistentRecipeFile { file } => text_around(
                "Recipe file passed in (\"",
                file.as_str(),
                "\") does not exist.",
            ),
            CliError::RecipeParseError { parse_error } => {
                let mut text = String::from_str("Failed to create recipe with error: ");
                let inner = parse_error.message();
                text.append(inner.as_str());
                text
            },
            CliError::NoApiKey => owned("No api key passed in. (use --api-key=...)."),
            CliError::InvalidOutputPath { message } => text_around(
                "Invalid output path passed in, ",
                message.as_str(),
                ".",
            ),
            CliError::InvalidLogFile { message } => text_around(
                "Invalid log file path passed in, ",
                message.as_str(),
                ".",
            ),
            CliError::InvalidRetryCount { message } => text_around(
                "Invalid retry count passed in, ",
                message.as_str(),
                ".",
            ),
        }
    }
}

/// What is known of the file system about one command-line element's text,
/// gathered before the command line is read.
pub struct PathFacts {
    /// Whether the text names an existing directory.
    pub is_dir: bool,
    /// The outcome of loading the text as a recipe file.
    pub recipe: RecipeLoad,
}

/// The outcome of loading a path as a recipe file.
#[derive(Debug, Clone)]
pub enum RecipeLoad {
    /// The path is not an existing file.
    Missing,
    /// The file holds this recipe.
    Loaded(Recipe),
    /// The file could not be opened, read or parsed.
    Failed(ParseError),
}

/// The environment the command line is read in: the platform's path
/// separator, and the facts about the text of each command-line element, by
/// position.
pub struct CliEnvironment {
    pub separator: char,
    pub paths: Vec<PathFacts>,
}

/// Whether the text of element `i` names a directory.
pub open spec fn is_dir_at(environment: CliEnvironment, i: int) -> bool {
    0 <= i < environment.paths@.len() && environment.paths@[i].is_dir
}

/// A string outcome with its texts as character sequences.
pub open spec fn text_outcome(r: Result<String, CliError>) -> Result<Seq<char>, CliErrorView> {
    match r {
        Ok(s) => Ok(s@),
        Err(e) => Err(e@),
    }
}

/// A recipe outcome by its view.
pub open spec fn recipe_result(r: Result<Recipe, CliError>) -> Result<RecipeView, CliErrorView> {
    match r {
        Ok(recipe) => Ok(recipe@),
        Err(e) => Err(e@),
    }
}

/// Reading `file` as a recipe, given how loading it went.
pub open spec fn recipe_outcome(file: Seq<char>, load: RecipeLoad) -> Result<RecipeView, CliErrorView> {
    match load {
        RecipeLoad::Missing => Err(CliErrorView::NonExistentRecipeFile { file }),
        RecipeLoad::Loaded(recipe) => Ok(recipe@),
        RecipeLoad::Failed(e) => Err(CliErrorView::RecipeParseError { parse_error: e@ }),
    }
}

/// Reading the text of element `i`, `file`, as a recipe.
pub open spec fn recipe_at(file: Seq<char>, environment: CliEnvironment, i: int) -> Result<
    RecipeView,
    CliErrorView,
> {
    if 0 <= i < environment.paths@.len() {
        recipe_outcome(file, environment.paths@[i].recipe)
    } else {
        Err(CliErrorView::NonExistentRecipeFile { file })
    }
}

/// Whether `url` is accepted by the checks of `parse_url` and ends with `/`
/// behind a character that is not ASCII: cutting two bytes off its end then
/// falls inside that character.
pub open spec fn url_panics(url: Seq<char>) -> bool {
    &&& has_prefix(url, "http://"@) || has_prefix(url, "https://"@)
    &&& url.contains('.')
    &&& ends_with_char(url, '/')
    &&& !((url[url.len() - 2] as u32) < 128)
}

/// Checking a base URL: it must start with `http://` or `https://` and hold a
/// `.` (so that splitting it at `.` gives at least two parts); one ending in
/// `/` loses its last two characters.
pub open spec fn url_outcome(url: Seq<char>) -> Result<Seq<char>, CliErrorView> {
    if !(has_prefix(url, "http://"@) || has_prefix(url, "https://"@)) {
        Err(
            CliErrorView::InvalidUrl {
                message: "the URL passed in doens't start with http or https"@,
            },
        )
    } else if !url.contains('.') {
        Err(CliErrorView::InvalidUrl { message: "not enough .'s to form a valid URL"@ })
    } else if ends_with_char(url, '/') {
        Ok(url.subrange(0, url.len() - 2))
    } else {
        Ok(url)
    }
}

/// Checking an output folder: it must be an existing directory.
pub open spec fn folder_outcome(folder: Seq<char>, is_dir: bool) -> Result<Seq<char>, CliErrorView> {
    if is_dir {
        Ok(folder)
    } else {
        Err(
            CliErrorView::InvalidOutputPath {
                message: "expected a folder as an output destination"@,
            },
        )
    }
}

/// Checking a log file path: it must not end with the path separator.
pub open spec fn log_file_outcome(log_file: Seq<char>, separator: char) -> Result<
    Seq<char>,
    CliErrorView,
> {
    if ends_with_char(log_file, separator) {
        Err(CliErrorView::InvalidLogFile { message: "expected a file as a log destination"@ })
    } else {
        Ok(log_file)
    }
}

/// Checking a retry count: it must read as an unsigned 32-bit integer.
pub open spec fn retries_outcome(max_retries: Seq<char>) -> Result<u32, CliErrorView> {
    match u32_value(max_retries) {
        Some(n) => Ok(n),
        None => Err(
            CliErrorView::InvalidRetryCount { message: "'"@ + max_retries + "' is not an integer."@ },
        ),
    }
}

/// Checks a base URL: see `url_outcome`.
pub fn parse_url(url: &str) -> (r: Result<String, CliError>)
    requires
        !url_panics(url@),
    ensures
        text_outcome(r) == url_outcome(url@),
{
    proof {
        reveal_strlit("http://");
        reveal_strlit("https://");
    }
    if !starts_with(url, "http://") && !starts_with(url, "https://") {
        return Err(
            CliError::InvalidUrl {
                message: owned("the URL passed in doens't start with http or https"),
            },
        );
    }
    if !contains_char(url, '.') {
        return Err(CliError::InvalidUrl { message: owned("not enough .'s to form a valid URL") });
    }
    if ends_with(url, '/') {
        let n = url.unicode_len();
        Ok(owned(url.substring_char(0, n - 2)))
    } else {
        Ok(owned(url))
    }
}

/// Takes an API key as it is.
pub fn parse_api_key(api_key: &str) -> (r: Result<String, CliError>)
    ensures
        text_outcome(r) == Ok::<Seq<char>, CliErrorView>(api_key@),
{
    Ok(owned(api_key))
}

/// Checks an output folder: see `folder_outcome`.
pub fn parse_output_folder(output_folder: &str, is_dir: bool) -> (r: Result<String, CliError>)
    ensures
        text_outcome(r) == folder_outcome(output_folder@, is_dir),
{
    if !is_dir {
        Err(
            CliError::InvalidOutputPath {
                message: owned("expected a folder as an output destination"),
            },
        )
    } else {
        Ok(owned(output_folder))
    }
}

/// Checks a log file path: see `log_file_outcome`.
pub fn parse_log_file(log_file: &str, separator: char) -> (r: Result<String, CliError>)
    ensures
        text_outcome(r) == log_file_outcome(log_file@, separator),
{
    if ends_with(log_file, separator) {
        Err(CliError::InvalidLogFile { message: owned("expected a file as a log destination") })
    } else {
        Ok(owned(log_file))
    }
}

/// Checks a retry count: see `retries_outcome`.
pub fn parse_max_retries(max_retries: &str) -> (r: Result<u32, CliError>)
    ensures
        match r {
            Ok(n) => retries_outcome(max_retries@) == Ok::<u32, CliErrorView>(n),
            Err(e) => retries_outcome(max_retries@) == Err::<u32, CliErrorView>(e@),
        },
{
    match parse_u32(max_retries) {
        Some(n) => Ok(n),
        None => Err(
            CliError::InvalidRetryCount { message: text_around("'", max_retries, "' is not an integer.") },
        ),
    }
}

/// Reads `file` as a recipe, given how loading it went: see `recipe_outcome`.
pub fn parse_recipe(file: &str, load: &RecipeLoad) -> (r: Result<Recipe, CliError>)
    ensures
        recipe_result(r) == recipe_outcome(file@, *load),
{
    match load {
        RecipeLoad::Missing => Err(CliError::NonExistentRecipeFile { file: owned(file) }),
        RecipeLoad::Loaded(recipe) => Ok(recipe.clone()),
        RecipeLoad::Failed(e) => Err(CliError::RecipeParseError { parse_error: e.clone() }),
    }
}

/// The options before any command-line element is read.
pub open spec fn initial_options() -> DownloadOptionsView {
    DownloadOptionsView {
        url: Seq::empty(),
        api_key: Seq::empty(),
        output_folder: "."@,
        log_file: None,
        recipe: RecipeView { series_id: 0, seasons: Map::empty() },
        max_reties: 3,
        overwrite_mode: OverwriteMode::Bad,
        verbose: false,
    }
}

/// What reading one command-line element leads to.
pub enum CliStepView {
    /// Go on at this element with these options.
    Next(int, DownloadOptionsView),
    /// Stop with this error.
    Fail(CliErrorView),
    /// The command line cannot be read: the program stops here (a `url` flag
    /// with a value, which has no handling, or a URL cut inside a character).
    Panics,
}

/// What reading the whole command line leads to.
pub enum CliOutcome {
    Parsed(DownloadOptionsView),
    Failed(CliErrorView),
    /// The command line cannot be read: see `CliStepView::Panics`.
    Panics,
}

/// Flags that take the element after them as their value.
pub open spec fn takes_value(flag: Seq<char>) -> bool {
    ||| flag == "u"@
    ||| flag == "url"@
    ||| flag == "baseurl"@
    ||| flag == "o"@
    ||| flag == "output"@
    ||| flag == "outputfolder"@
    ||| flag == "log"@
    ||| flag == "logfile"@
}

/// Continuing at `next` with `options`, or stopping with the error.
pub open spec fn continue_with<T>(
    r: Result<T, CliErrorView>,
    next: int,
    update: spec_fn(T) -> DownloadOptionsView,
) -> CliStepView {
    match r {
        Ok(v) => CliStepView::Next(next, update(v)),
        Err(e) => CliStepView::Fail(e),
    }
}

/// Reading flag `flag` at element `i`.
pub open spec fn flag_step(
    options: Seq<CliOption>,
    environment: CliEnvironment,
    i: int,
    flag: Seq<char>,
    st: DownloadOptionsView,
) -> CliStepView {
    if takes_value(flag) {
        if i + 1 < options.len() && options[i + 1] is Value {
            let value = options[i + 1]->Value_0@;
            if flag == "u"@ || flag == "baseurl"@ {
                if url_panics(value) {
                    CliStepView::Panics
                } else {
                    continue_with(url_outcome(value), i + 2, |u: Seq<char>| DownloadOptionsView { url: u, ..st })
                }
            } else if flag == "o"@ || flag == "output"@ || flag == "outputfolder"@ {
                continue_with(
                    folder_outcome(value, is_dir_at(environment, i + 1)),
                    i + 2,
                    |f: Seq<char>| DownloadOptionsView { output_folder: f, ..st },
                )
            } else if flag == "log"@ || flag == "logfile"@ {
                continue_with(
                    folder_outcome(value, is_dir_at(environment, i + 1)),
                    i + 2,
                    |f: Seq<char>| DownloadOptionsView { log_file: Some(f), ..st },
                )
            } else {
                CliStepView::Panics
            }
        } else {
            CliStepView::Next(i + 1, st)
        }
    } else if flag == "v"@ || flag == "verbose"@ || flag == "d"@ || flag == "debug"@ {
        CliStepView::Next(i + 1, DownloadOptionsView { verbose: true, ..st })
    } else if flag == "overwrite-none"@ {
        CliStepView::Next(i + 1, DownloadOptionsView { overwrite_mode: OverwriteMode::Never, ..st })
    } else if flag == "overwrite-bad"@ {
        CliStepView::Next(i + 1, DownloadOptionsView { overwrite_mode: OverwriteMode::Bad, ..st })
    } else if flag == "overwrite-all"@ {
        CliStepView::Next(i + 1, DownloadOptionsView { overwrite_mode: OverwriteMode::All, ..st })
    } else {
        CliStepView::Fail(CliErrorView::UnknownFlag { flag })
    }
}

/// Reading option `key=value` at element `i`.
pub open spec fn option_step(
    environment: CliEnvironment,
    i: int,
    key: Seq<char>,
    value: Seq<char>,
    st: DownloadOptionsView,
) -> CliStepView {
    if key == "url"@ || key == "baseurl"@ || key == "base-url"@ || key == "base_url"@ {
        if url_panics(value) {
            CliStepView::Panics
        } else {
            continue_with(url_outcome(value), i + 1, |u: Seq<char>| DownloadOptionsView { url: u, ..st })
        }
    } else if key == "api"@ || key == "apikey"@ || key == "api-key"@ || key == "api_key"@ {
        CliStepView::Next(i + 1, DownloadOptionsView { api_key: value, ..st })
    } else if key == "output"@ || key == "outputfolder"@ || key == "output-folder"@ || key
        == "output_folder"@ {
        continue_with(
            folder_outcome(value, is_dir_at(environment, i)),
            i + 1,
            |f: Seq<char>| DownloadOptionsView { output_folder: f, ..st },
        )
    } else if key == "log"@ || key == "logfile"@ || key == "log-file"@ || key == "log_file"@ {
        continue_with(
            log_file_outcome(value, environment.separator),
            i + 1,
            |f: Seq<char>| DownloadOptionsView { log_file: Some(f), ..st },
        )
    } else if key == "retries"@ || key == "maxretries"@ || key == "max-retries"@ || key
        == "max_retries"@ {
        continue_with(
            retries_outcome(value),
            i + 1,
            |n: u32| DownloadOptionsView { max_reties: n, ..st },
        )
    } else {
        CliStepView::Fail(CliErrorView::UnknownOption { option: key })
    }
}

/// Reading element `i` of the command line with the options read so far.
pub open spec fn step_at(
    options: Seq<CliOption>,
    environment: CliEnvironment,
    i: int,
    st: DownloadOptionsView,
) -> CliStepView {
    match options[i] {
        CliOption::Value(v) => continue_with(
            recipe_at(v@, environment, i),
            i + 1,
            |r: RecipeView| DownloadOptionsView { recipe: r, ..st },
        ),
        CliOption::Flag(f) => flag_step(options, environment, i, f@, st),
        CliOption::Option(k, v) => option_step(environment, i, k@, v@, st),
    }
}

/// The checks made once every element has been read.
pub open spec fn finish(st: DownloadOptionsView) -> CliOutcome {
    if st.recipe.series_id == 0 {
        CliOutcome::Failed(CliErrorView::NoSeriesId)
    } else if st.url.len() == 0 {
        CliOutcome::Failed(CliErrorView::NoUrl)
    } else if st.api_key.len() == 0 {
        CliOutcome::Failed(CliErrorView::NoApiKey)
    } else if st.max_reties == 0 {
        CliOutcome::Failed(
            CliErrorView::InvalidRetryCount { message: "retry count must be greater than zero"@ },
        )
    } else {
        CliOutcome::Parsed(st)
    }
}

/// Reading the command line from element `i` on, with the options read so far.
pub open spec fn parse_from(
    options: Seq<CliOption>,
    environment: CliEnvironment,
    i: int,
    st: DownloadOptionsView,
) -> CliOutcome
    decreases options.len() - i,
{
    if i < 0 || i >= options.len() {
        finish(st)
    } else {
        match step_at(options, environment, i, st) {
            CliStepView::Next(j, next) => if i < j {
                parse_from(options, environment, j, next)
            } else {
                CliOutcome::Panics
            },
            CliStepView::Fail(e) => CliOutcome::Failed(e),
            CliStepView::Panics => CliOutcome::Panics,
        }
    }
}

/// What the command line `options` leads to, read in `environment`.
pub open spec fn cli_outcome(options: Seq<CliOption>, environment: CliEnvironment) -> CliOutcome {
    parse_from(options, environment, 0, initial_options())
}

/// Whether `url_panics` holds of `url`.
pub fn url_would_panic(url: &str) -> (r: bool)
    ensures
        r == url_panics(url@),
{
    proof {
        reveal_strlit("http://");
        reveal_strlit("https://");
    }
    if (starts_with(url, "http://") || starts_with(url, "https://")) && contains_char(url, '.')
        && ends_with(url, '/') {
        let n = url.unicode_len();
        !((url.get_char(n - 2) as u32) < 128)
    } else {
        false
    }
}

/// What reading one command-line element led to.
enum CliStep {
    Next(usize, DownloadOptions),
    Fail(CliError),
    Panics,
}

spec fn step_view(s: CliStep) -> CliStepView {
    match s {
        CliStep::Next(j, st) => CliStepView::Next(j as int, st@),
        CliStep::Fail(e) => CliStepView::Fail(e@),
        CliStep::Panics => CliStepView::Panics,
    }
}

spec fn step_moves_on(s: CliStep, i: int, len: int) -> bool {
    s matches CliStep::Next(j, _) ==> i < j <= len
}

fn is_dir_at_element(environment: &CliEnvironment, i: usize) -> (r: bool)
    ensures
        r == is_dir_at(*environment, i as int),
{
    i < environment.paths.len() && environment.paths[i].is_dir
}

fn recipe_at_element(file: &str, environment: &CliEnvironment, i: usize) -> (r: Result<Recipe, CliError>)
    ensures
        recipe_result(r) == recipe_at(file@, *environment, i as int),
{
    if i < environment.paths.len() {
        parse_recipe(file, &environment.paths[i].recipe)
    } else {
        Err(CliError::NonExistentRecipeFile { file: owned(file) })
    }
}

fn flag_step_exec(
    options: &Vec<CliOption>,
    environment: &CliEnvironment,
    i: usize,
    flag: &str,
    st: DownloadOptions,
) -> (r: CliStep)
    requires
        i < options@.len(),
    ensures
        step_view(r) == flag_step(options@, *environment, i as int, flag@, st@),
        step_moves_on(r, i as int, options@.len() as int),
{
    let mut st = st;
    let n = options.len();
    if str_eq(flag, "u") || str_eq(flag, "url") || str_eq(flag, "baseurl") || str_eq(flag, "o")
        || str_eq(flag, "output") || str_eq(flag, "outputfolder") || str_eq(flag, "log")
        || str_eq(flag, "logfile") {
        if i + 1 < n {
            match &options[i + 1] {
                CliOption::Value(value) => {
                    if str_eq(flag, "u") || str_eq(flag, "baseurl") {
                        if url_would_panic(value.as_str()) {
                            return CliStep::Panics;
                        }
                        match parse_url(value.as_str()) {
                            Ok(u) => {
                                st.url = u;
                                CliStep::Next(i + 2, st)
                            },
                            Err(e) => CliStep::Fail(e),
                        }
                    } else if str_eq(flag, "o") || str_eq(flag, "output") || str_eq(
                        flag,
                        "outputfolder",
                    ) {
                        match parse_output_folder(
                            value.as_str(),
                            is_dir_at_element(environment, i + 1),
                        ) {
                            Ok(f) => {
                                st.output_folder = f;
                                CliStep::Next(i + 2, st)
                            },
                            Err(e) => CliStep::Fail(e),
                        }
                    } else if str_eq(flag, "log") || str_eq(flag, "logfile") {
                        match parse_output_folder(
                            value.as_str(),
                            is_dir_at_element(environment, i + 1),
                        ) {
                            Ok(f) => {
                                st.log_file = Some(f);
                                CliStep::Next(i + 2, st)
                            },
                            Err(e) => CliStep::Fail(e),
                        }
                    } else {
                        CliStep::Panics
                    }
                },
                _ => CliStep::Next(i + 1, st),
            }
        } else {
            CliStep::Next(i + 1, st)
        }
    } else if str_eq(flag, "v") || str_eq(flag, "verbose") || str_eq(flag, "d") || str_eq(
        flag,
        "debug",
    ) {
        st.verbose = true;
        CliStep::Next(i + 1, st)
    } else if str_eq(flag, "overwrite-none") {
        st.overwrite_mode = OverwriteMode::Never;
        CliStep::Next(i + 1, st)
    } else if str_eq(flag, "overwrite-bad") {
        st.overwrite_mode = OverwriteMode::Bad;
        CliStep::Next(i + 1, st)
    } else if str_eq(flag, "overwrite-all") {
        st.overwrite_mode = OverwriteMode::All;
        CliStep::Next(i + 1, st)
    } else {
        CliStep::Fail(CliError::UnknownFlag { flag: owned(flag) })
    }
}

fn option_step_exec(
    environment: &CliEnvironment,
    i: usize,
    len: usize,
    key: &str,
    value: &str,
    st: DownloadOptions,
) -> (r: CliStep)
    requires
        i < len,
    ensures
        step_view(r) == option_step(*environment, i as int, key@, value@, st@),
        step_moves_on(r, i as int, len as int),
{
    let mut st = st;
    if str_eq(key, "url") || str_eq(key, "baseurl") || str_eq(key, "base-url") || str_eq(
        key,
        "base_url",
    ) {
        if url_would_panic(value) {
            return CliStep::Panics;
        }
        match parse_url(value) {
            Ok(u) => {
                st.url = u;
                CliStep::Next(i + 1, st)
            },
            Err(e) => CliStep::Fail(e),
        }
    } else if str_eq(key, "api") || str_eq(key, "apikey") || str_eq(key, "api-key") || str_eq(
        key,
        "api_key",
    ) {
        match parse_api_key(value) {
            Ok(k) => {
                st.api_key = k;
                CliStep::Next(i + 1, st)
            },
            Err(e) => CliStep::Fail(e),
        }
    } else if str_eq(key, "output") || str_eq(key, "outputfolder") || str_eq(key, "output-folder")
        || str_eq(key, "output_folder") {
        match parse_output_folder(value, is_dir_at_element(environment, i)) {
            Ok(f) => {
                st.output_folder = f;
                CliStep::Next(i + 1, st)
            },
            Err(e) => CliStep::Fail(e),
        }
    } else if str_eq(key, "log") || str_eq(key, "logfile") || str_eq(key, "log-file") || str_eq(
        key,
        "log_file",
    ) {
        match parse_log_file(value, environment.separator) {
            Ok(f) => {
                st.log_file = Some(f);
                CliStep::Next(i + 1, st)
            },
            Err(e) => CliStep::Fail(e),
        }
    } else if str_eq(key, "retries") || str_eq(key, "maxretries") || str_eq(key, "max-retries")
        || str_eq(key, "max_retries") {
        match parse_max_retries(value) {
            Ok(n) => {
                st.max_reties = n;
                CliStep::Next(i + 1, st)
            },
            Err(e) => CliStep::Fail(e),
        }
    } else {
        CliStep::Fail(CliError::UnknownOption { option: owned(key) })
    }
}

fn cli_step(options: &Vec<CliOption>, environment: &CliEnvironment, i: usize, st: DownloadOptions) -> (r:
    CliStep)
    requires
        i < options@.len(),
    ensures
        step_view(r) == step_at(options@, *environment, i as int, st@),
        step_moves_on(r, i as int, options@.len() as int),
{
    let n = options.len();
    match &options[i] {
        CliOption::Value(v) => match recipe_at_element(v.as_str(), environment, i) {
            Ok(recipe) => {
                let mut st = st;
                st.recipe = recipe;
                CliStep::Next(i + 1, st)
            },
            Err(e) => CliStep::Fail(e),
        },
        CliOption::Flag(f) => flag_step_exec(options, environment, i, f.as_str(), st),
        CliOption::Option(k, v) => option_step_exec(
            environment,
            i,
            n,
            k.as_str(),
            v.as_str(),
            st,
        ),
    }
}

/// What reading the whole command line led to.
enum CliRun {
    Done(Result<DownloadOptions, CliError>),
    Panicked,
}

/// A parse result by its view.
pub open spec fn options_outcome(r: Result<DownloadOptions, CliError>) -> CliOutcome {
    match r {
        Ok(options) => CliOutcome::Parsed(options@),
        Err(e) => CliOutcome::Failed(e@),
    }
}

spec fn run_view(r: CliRun) -> CliOutcome {
    match r {
        CliRun::Done(result) => options_outcome(result),
        CliRun::Panicked => CliOutcome::Panics,
    }
}

fn initial_download_options() -> (options: DownloadOptions)
    ensures
        options@ == initial_options(),
{
    DownloadOptions {
        url: String::new(),
        api_key: String::new(),
        output_folder: owned("."),
        log_file: None,
        recipe: Recipe::new(),
        max_reties: 3,
        overwrite_mode: OverwriteMode::Bad,
        verbose: false,
    }
}

fn finish_options(st: DownloadOptions) -> (r: Result<DownloadOptions, CliError>)
    ensures
        options_outcome(r) == finish(st@),
{
    if st.recipe.series_id == 0 {
        return Err(CliError::NoSeriesId);
    }
    if st.url.as_str().is_empty() {
        return Err(CliError::NoUrl);
    }
    if st.api_key.as_str().is_empty() {
        return Err(CliError::NoApiKey);
    }
    if st.max_reties == 0 {
        return Err(
            CliError::InvalidRetryCount { message: owned("retry count must be greater than zero") },
        );
    }
    Ok(st)
}

fn run_cli(options: &Vec<CliOption>, environment: &CliEnvironment) -> (r: CliRun)
    ensures
        run_view(r) == cli_outcome(options@, *environment),
{
    let n = options.len();
    let mut st = initial_download_options();
    let mut i: usize = 0;
    while i < n
        invariant
            n == options@.len(),
            i <= n,
            parse_from(options@, *environment, i as int, st@) == cli_outcome(
                options@,
                *environment,
            ),
        decreases n - i,
    {
        match cli_step(options, environment, i, st) {
            CliStep::Next(j, next) => {
                i = j;
                st = next;
            },
            CliStep::Fail(e) => {
                return CliRun::Done(Err(e));
            },
            CliStep::Panics => {
                return CliRun::Panicked;
            },
        }
    }
    CliRun::Done(finish_options(st))
}

/// Turns the command-line elements into download options.
///
/// `environment` holds, at each position, what the file system says of the
/// text of the element there: a bare value is loaded as the recipe, and the
/// value of an output or log flag must name a directory. Elements are read in
/// order and the first error is returned; after the last one the recipe's
/// series, the URL, the API key and the retry count are checked.
pub fn parse_cli_options(cli_options: Vec<CliOption>, environment: &CliEnvironment) -> (r: Result<
    DownloadOptions,
    CliError,
>)
    requires
        !(cli_outcome(cli_options@, *environment) is Panics),
    ensures
        options_outcome(r) == cli_outcome(cli_options@, *environment),
{
    match run_cli(&cli_options, environment) {
        CliRun::Done(result) => result,
        CliRun::Panicked => {
            // The precondition rules this case out.
            proof {
                assert(false);
            }
            Err(CliError::NoUrl)
        },
    }
}

/// Whether reading `cli_options` reaches a point where the program must stop
/// instead of answering: a `url` flag followed by a value, which has no
/// handling, or a URL that ends with `/` behind a character that is not
/// ASCII, where cutting two bytes would split that character. Callers test
/// this before `parse_cli_options`.
pub fn cli_options_panic(cli_options: &Vec<CliOption>, environment: &CliEnvironment) -> (r: bool)
    ensures
        r == (cli_outcome(cli_options@, *environment) is Panics),
{
    match run_cli(cli_options, environment) {
        CliRun::Done(_) => false,
        CliRun::Panicked => true,
    }
}

/// Whether `url` starts with `http://` or `https://`.
pub open spec fn has_http_prefix(url: Seq<char>) -> bool {
    has_prefix(url, "http://"@) || has_prefix(url, "https://"@)
}

proof fn lemma_url_outcome_keeps_prefix(url: Seq<char>)
    ensures
        url_outcome(url) matches Ok(checked) ==> has_http_prefix(checked),
{
    reveal_strlit("http://");
    reveal_strlit("https://");
    if url_outcome(url) is Ok && ends_with_char(url, '/') {
        let dot = choose|k: int| 0 <= k < url.len() && url[k] == '.';
        let p = if has_prefix(url, "http://"@) { "http://"@ } else { "https://"@ };
        assert(has_prefix(url, p));
        if dot < p.len() {
            assert(url.subrange(0, p.len() as int)[dot] == p[dot]);
        }
        assert(dot < url.len() - 1);
        let checked = url.subrange(0, url.len() - 2);
        assert(checked.subrange(0, p.len() as int) =~= url.subrange(0, p.len() as int));
        assert(has_prefix(checked, p));
    }
}

/// Whether the URL in options read so far is unset or a checked one.
spec fn url_checked(st: DownloadOptionsView) -> bool {
    st.url.len() == 0 || has_http_prefix(st.url)
}

proof fn lemma_step_keeps_url_checked(
    options: Seq<CliOption>,
    environment: CliEnvironment,
    i: int,
    st: DownloadOptionsView,
)
    requires
        0 <= i < options.len(),
        url_checked(st),
    ensures
        step_at(options, environment, i, st) matches CliStepView::Next(_, next) ==> url_checked(next),
{
    match options[i] {
        CliOption::Value(_) => {},
        CliOption::Flag(f) => {
            if i + 1 < options.len() && options[i + 1] is Value {
                lemma_url_outcome_keeps_prefix(options[i + 1]->Value_0@);
            }
        },
        CliOption::Option(_, v) => {
            lemma_url_outcome_keeps_prefix(v@);
        },
    }
}

proof fn lemma_parse_from_complete(
    options: Seq<CliOption>,
    environment: CliEnvironment,
    i: int,
    st: DownloadOptionsView,
)
    requires
        url_checked(st),
    ensures
        parse_from(options, environment, i, st) matches CliOutcome::Parsed(parsed) ==> {
            &&& parsed.recipe.series_id != 0
            &&& has_http_prefix(parsed.url)
            &&& parsed.api_key.len() > 0
            &&& parsed.max_reties > 0
        },
    decreases options.len() - i,
{
    if 0 <= i < options.len() {
        lemma_step_keeps_url_checked(options, environment, i, st);
        match step_at(options, environment, i, st) {
            CliStepView::Next(j, next) => {
                if i < j {
                    lemma_parse_from_complete(options, environment, j, next);
                }
            },
            _ => {},
        }
    }
}

/// Download options read from a command line are complete: they name a
/// series, a URL that starts with `http://` or `https://`, an API key, and
/// at least one attempt per download.
pub proof fn lemma_parsed_options_complete(options: Seq<CliOption>, environment: CliEnvironment)
    ensures
        cli_outcome(options, environment) matches CliOutcome::Parsed(parsed) ==> {
            &&& parsed.recipe.series_id != 0
            &&& has_http_prefix(parsed.url)
            &&& parsed.api_key.len() > 0
            &&& parsed.max_reties > 0
        },
{
    lemma_parse_from_complete(options, environment, 0, initial_options());
}

/// A command-line element with its texts as character sequences.
pub enum CliOptionView {
    Value(Seq<char>),
    Flag(Seq<char>),
    Option(Seq<char>, Seq<char>),
}

impl View for CliOption {
    type V = CliOptionView;

    open spec fn view(&self) -> CliOptionView {
        match self {
            CliOption::Value(v) => CliOptionView::Value(v@),
            CliOption::Flag(f) => CliOptionView::Flag(f@),
            CliOption::Option(k, v) => CliOptionView::Option(k@, v@),
        }
    }
}

/// The position of the first `c` in `s`, or -1 when there is none.
pub open spec fn first_index(s: Seq<char>, c: char) -> int
    decreases s.len(),
{
    if s.len() == 0 {
        -1
    } else if first_index(s.drop_last(), c) >= 0 {
        first_index(s.drop_last(), c)
    } else if s.last() == c {
        s.len() - 1
    } else {
        -1
    }
}

/// What one command-line argument is: `--key=value` is an option (split at
/// the first `=`), any other `--name` or `-name` a flag, and anything else,
/// a lone `-` included, a value.
pub open spec fn cli_element(arg: Seq<char>) -> CliOptionView {
    if has_prefix(arg, "--"@) {
        let rest = arg.subrange(2, arg.len() as int);
        let p = first_index(rest, '=');
        if p >= 0 {
            CliOptionView::Option(rest.subrange(0, p), rest.subrange(p + 1, rest.len() as int))
        } else {
            CliOptionView::Flag(rest)
        }
    } else if arg.len() > 1 && arg[0] == '-' {
        CliOptionView::Flag(arg.subrange(1, arg.len() as int))
    } else {
        CliOptionView::Value(arg)
    }
}

fn find_char(s: &str, c: char) -> (p: Option<usize>)
    ensures
        match p {
            Some(i) => i < s@.len() && i as int == first_index(s@, c) && s@[i as int] == c,
            None => first_index(s@, c) == -1,
        },
{
    let n = s.unicode_len();
    let mut i: usize = 0;
    assert(s@.take(0) =~= Seq::<char>::empty());
    while i < n
        invariant
            n == s@.len(),
            i <= n,
            first_index(s@.take(i as int), c) == -1,
        decreases n - i,
    {
        assert(s@.take(i + 1).drop_last() =~= s@.take(i as int));
        if s.get_char(i) == c {
            assert(s@.take(i + 1).last() == c);
            assert(first_index(s@.take(i + 1), c) == i);
            proof {
                lemma_first_index_extends(s@, c, i + 1, n as int);
            }
            assert(s@.take(n as int) =~= s@);
            return Some(i);
        }
        i = i + 1;
    }
    assert(s@.take(n as int) =~= s@);
    None
}

proof fn lemma_first_index_extends(s: Seq<char>, c: char, k: int, m: int)
    requires
        0 <= k <= m <= s.len(),
        first_index(s.take(k), c) >= 0,
    ensures
        first_index(s.take(m), c) == first_index(s.take(k), c),
    decreases m - k,
{
    if k < m {
        lemma_first_index_extends(s, c, k, m - 1);
        assert(s.take(m).drop_last() =~= s.take(m - 1));
    }
}

/// Reads one command-line argument: see `cli_element`.
pub fn parse_cli_argument(arg: &str) -> (option: CliOption)
    ensures
        option@ == cli_element(arg@),
{
    proof {
        reveal_strlit("--");
    }
    let n = arg.unicode_len();
    if starts_with(arg, "--") {
        let rest = arg.substring_char(2, n);
        match find_char(rest, '=') {
            Some(p) => {
                let m = rest.unicode_len();
                CliOption::Option(owned(rest.substring_char(0, p)), owned(rest.substring_char(p + 1, m)))
            },
            None => CliOption::Flag(owned(rest)),
        }
    } else if n > 1 && arg.get_char(0) == '-' {
        CliOption::Flag(owned(arg.substring_char(1, n)))
    } else {
        CliOption::Value(owned(arg))
    }
}

/// Reads the arguments a program was started with; the first, the
/// program's own name, is skipped.
pub fn parse_cli_arguments(arguments: Vec<String>) -> (options: Vec<CliOption>)
    ensures
        options@.len() == if arguments@.len() == 0 { 0 } else { arguments@.len() - 1 },
        forall|i: int| 0 <= i < options@.len() ==> #[trigger] options@[i]@ == cli_element(arguments@[i + 1]@),
{
    let mut options: Vec<CliOption> = Vec::new();
    let mut i: usize = 1;
    while i < arguments.len()
        invariant
            1 <= i,
            arguments@.len() == 0 ==> i == 1,
            arguments@.len() == 0 || i <= arguments@.len(),
            options@.len() == i - 1,
            forall|j: int| 0 <= j < options@.len() ==> #[trigger] options@[j]@ == cli_element(arguments@[j + 1]@),
        decreases arguments@.len() - i,
    {
        options.push(parse_cli_argument(arguments[i].as_str()));
        i = i + 1;
    }
    options
}

/// The group of keys that set the same option: 0 for the URL, 1 for the API
/// key, 2 for the output folder, 3 for the log file, 4 for the retry count,
/// and -1 for a key that sets nothing.
pub open spec fn key_group(key: Seq<char>) -> int {
    if key == "url"@ || key == "baseurl"@ || key == "base-url"@ || key == "base_url"@ {
        0
    } else if key == "api"@ || key == "apikey"@ || key == "api-key"@ || key == "api_key"@ {
        1
    } else if key == "output"@ || key == "outputfolder"@ || key == "output-folder"@ || key
        == "output_folder"@ {
        2
    } else if key == "log"@ || key == "logfile"@ || key == "log-file"@ || key == "log_file"@ {
        3
    } else if key == "retries"@ || key == "maxretries"@ || key == "max-retries"@ || key
        == "max_retries"@ {
        4
    } else {
        -1
    }
}

/// Whether `a` and `b` differ at most in the key of option `i`, the two keys
/// setting the same option.
pub open spec fn synonymous_at(a: Seq<CliOption>, b: Seq<CliOption>, i: int) -> bool {
    &&& a.len() == b.len()
    &&& 0 <= i < a.len()
    &&& forall|j: int| 0 <= j < a.len() && j != i ==> a[j] == b[j]
    &&& a[i] is Option
    &&& b[i] is Option
    &&& a[i]->Option_1@ == b[i]->Option_1@
    &&& key_group(a[i]->Option_0@) >= 0
    &&& key_group(a[i]->Option_0@) == key_group(b[i]->Option_0@)
}

proof fn lemma_step_synonyms(
    a: Seq<CliOption>,
    b: Seq<CliOption>,
    environment: CliEnvironment,
    i: int,
    j: int,
    st: DownloadOptionsView,
)
    requires
        synonymous_at(a, b, i),
        0 <= j < a.len(),
    ensures
        step_at(a, environment, j, st) == step_at(b, environment, j, st),
{
    if j != i {
        assert(a[j] == b[j]);
        if j + 1 < a.len() {
            if j + 1 != i {
                assert(a[j + 1] == b[j + 1]);
            } else {
                assert(!(a[j + 1] is Value) && !(b[j + 1] is Value));
            }
        }
    }
}

proof fn lemma_parse_from_synonyms(
    a: Seq<CliOption>,
    b: Seq<CliOption>,
    environment: CliEnvironment,
    i: int,
    j: int,
    st: DownloadOptionsView,
)
    requires
        synonymous_at(a, b, i),
    ensures
        parse_from(a, environment, j, st) == parse_from(b, environment, j, st),
    decreases a.len() - j,
{
    if 0 <= j < a.len() {
        lemma_step_synonyms(a, b, environment, i, j, st);
        match step_at(a, environment, j, st) {
            CliStepView::Next(k, next) => {
                if j < k {
                    lemma_parse_from_synonyms(a, b, environment, i, k, next);
                }
            },
            _ => {},
        }
    }
}

/// Any key of an option's group may stand for any other: replacing the key
/// of one option by another key of its group (such as `url` by `base-url`,
/// or `retries` by `max_retries`) reads the same.
pub proof fn lemma_option_key_synonyms(
    a: Seq<CliOption>,
    b: Seq<CliOption>,
    environment: CliEnvironment,
    i: int,
)
    requires
        synonymous_at(a, b, i),
    ensures
        cli_outcome(a, environment) == cli_outcome(b, environment),
{
    lemma_parse_from_synonyms(a, b, environment, i, 0, initial_options());
}

/// Whether element `i` is read as a recipe file when the command line is
/// read: a bare value that is not taken as the value of the flag before it.
pub open spec fn read_as_recipe(options: Seq<CliOption>, i: int) -> bool {
    &&& options[i] is Value
    &&& !(i > 0 && options[i - 1] is Flag && takes_value(options[i - 1]->Flag_0@))
}

/// For each command-line element, whether it is read as a recipe file, so
/// that only those files are loaded beforehand.
pub fn recipe_elements(options: &Vec<CliOption>) -> (marks: Vec<bool>)
    ensures
        marks@.len() == options@.len(),
        forall|i: int| 0 <= i < options@.len() ==> #[trigger] marks@[i] == read_as_recipe(options@, i),
{
    let n = options.len();
    let mut marks: Vec<bool> = Vec::new();
    let mut i: usize = 0;
    while i < n
        invariant
            n == options@.len(),
            i <= n,
            marks@.len() == i,
            forall|j: int| 0 <= j < i ==> #[trigger] marks@[j] == read_as_recipe(options@, j),
        decreases n - i,
    {
        let mut mark = false;
        if let CliOption::Value(_) = &options[i] {
            mark = true;
            if i > 0 {
                if let CliOption::Flag(f) = &options[i - 1] {
                    let flag = f.as_str();
                    if str_eq(flag, "u") || str_eq(flag, "url") || str_eq(flag, "baseurl") || str_eq(flag, "o")
                        || str_eq(flag, "output") || str_eq(flag, "outputfolder") || str_eq(flag, "log")
                        || str_eq(flag, "logfile") {
                        mark = false;
                    }
                }
            }
        }
        marks.push(mark);
        i = i + 1;
    }
    marks
}

/// Whether `e1` and `e2` tell the same about every element of `options`
/// that reading the command line may ask about: the same separator, the
/// same directories, and the same recipes for the elements read as recipes.
pub open spec fn agree_on(options: Seq<CliOption>, e1: CliEnvironment, e2: CliEnvironment) -> bool {
    &&& e1.separator == e2.separator
    &&& forall|i: int| 0 <= i < options.len() ==> #[trigger] is_dir_at(e1, i) == is_dir_at(e2, i)
    &&& forall|i: int|
        0 <= i < options.len() && #[trigger] read_as_recipe(options, i) ==> recipe_at(
            options[i]->Value_0@,
            e1,
            i,
        ) == recipe_at(options[i]->Value_0@, e2, i)
}

/// Whether element `i` may be reached while reading: it is not a value
/// taken by the flag before it.
spec fn reachable(options: Seq<CliOption>, i: int) -> bool {
    !(i > 0 && i < options.len() && options[i] is Value && options[i - 1] is Flag && takes_value(
        options[i - 1]->Flag_0@,
    ))
}

proof fn lemma_parse_from_agree(
    options: Seq<CliOption>,
    e1: CliEnvironment,
    e2: CliEnvironment,
    i: int,
    st: DownloadOptionsView,
)
    requires
        agree_on(options, e1, e2),
        reachable(options, i),
    ensures
        parse_from(options, e1, i, st) == parse_from(options, e2, i, st),
    decreases options.len() - i,
{
    if 0 <= i < options.len() {
        if options[i] is Value {
            assert(read_as_recipe(options, i));
        }
        if i + 1 < options.len() {
            assert(is_dir_at(e1, i + 1) == is_dir_at(e2, i + 1));
        }
        assert(is_dir_at(e1, i) == is_dir_at(e2, i));
        assert(step_at(options, e1, i, st) == step_at(options, e2, i, st));
        match step_at(options, e1, i, st) {
            CliStepView::Next(j, next) => {
                if i < j {
                    lemma_parse_from_agree(options, e1, e2, j, next);
                }
            },
            _ => {},
        }
    }
}

/// Reading the command line asks only about the elements `agree_on` names:
/// two environments that agree there give the same outcome, so only the
/// elements marked by `recipe_elements` need to be loaded as recipes.
pub proof fn lemma_only_marked_recipes_matter(options: Seq<CliOption>, e1: CliEnvironment, e2: CliEnvironment)
    requires
        agree_on(options, e1, e2),
    ensures
        cli_outcome(options, e1) == cli_outcome(options, e2),
{
    lemma_parse_from_agree(options, e1, e2, 0, initial_options());
}

/// The flags `o`, `output` and `outputfolder` read the element after them as
/// the output folder, all three alike: when that element is a value naming a
/// directory, reading goes on past it with that value as the output folder
/// and every other option, the log file included, as it was; when it names
/// no directory, reading stops with an invalid-output-path error.
pub proof fn lemma_output_flag_sets_output_folder(
    options: Seq<CliOption>,
    environment: CliEnvironment,
    i: int,
    st: DownloadOptionsView,
)
    requires
        0 <= i,
        i + 1 < options.len(),
        options[i] matches CliOption::Flag(f) && (f@ == "o"@ || f@ == "output"@ || f@
            == "outputfolder"@),
        options[i + 1] is Value,
    ensures
        ({
            let value = options[i + 1]->Value_0@;
            match step_at(options, environment, i, st) {
                CliStepView::Next(j, next) => {
                    &&& is_dir_at(environment, i + 1)
                    &&& j == i + 2
                    &&& next.output_folder == value
                    &&& next.log_file == st.log_file
                    &&& next.url == st.url
                    &&& next.api_key == st.api_key
                    &&& next.recipe == st.recipe
                    &&& next.max_reties == st.max_reties
                    &&& next.overwrite_mode == st.overwrite_mode
                    &&& next.verbose == st.verbose
                },
                CliStepView::Fail(e) => {
                    &&& !is_dir_at(environment, i + 1)
                    &&& e == CliErrorView::InvalidOutputPath {
                        message: "expected a folder as an output destination"@,
                    }
                },
                CliStepView::Panics => false,
            }
        }),
        is_dir_at(environment, i + 1) ==> step_at(options, environment, i, st) is Next,
{
    reveal_strlit("o");
    reveal_strlit("output");
    reveal_strlit("outputfolder");
    reveal_strlit("u");
    reveal_strlit("baseurl");
    reveal_strlit("url");
    reveal_strlit("log");
    reveal_strlit("logfile");
    assert("u"@.len() == 1 && "u"@[0] == 'u');
    assert("o"@.len() == 1 && "o"@[0] == 'o');
    assert("baseurl"@.len() == 7 && "baseurl"@[0] == 'b');
    assert("output"@.len() == 6 && "outputfolder"@.len() == 12);
    assert("log"@.len() == 3 && "logfile"@.len() == 7 && "log"@[0] == 'l' && "logfile"@[0] == 'l');
    assert("output"@[0] == 'o' && "outputfolder"@[0] == 'o');
}

/// The flags `log` and `logfile` read the element after them as the log file,
/// both alike: when that element is a value naming a directory, reading goes
/// on past it with that value as the log file and the output folder as it
/// was; otherwise reading stops with an invalid-output-path error.
pub proof fn lemma_log_flag_sets_log_file(
    options: Seq<CliOption>,
    environment: CliEnvironment,
    i: int,
    st: DownloadOptionsView,
)
    requires
        0 <= i,
        i + 1 < options.len(),
        options[i] matches CliOption::Flag(f) && (f@ == "log"@ || f@ == "logfile"@),
        options[i + 1] is Value,
    ensures
        ({
            let value = options[i + 1]->Value_0@;
            match step_at(options, environment, i, st) {
                CliStepView::Next(j, next) => {
                    &&& is_dir_at(environment, i + 1)
                    &&& j == i + 2
                    &&& next.log_file == Some(value)
                    &&& next.output_folder == st.output_folder
                    &&& next.url == st.url
                    &&& next.api_key == st.api_key
                    &&& next.recipe == st.recipe
                    &&& next.max_reties == st.max_reties
                    &&& next.overwrite_mode == st.overwrite_mode
                    &&& next.verbose == st.verbose
                },
                CliStepView::Fail(e) => {
                    &&& !is_dir_at(environment, i + 1)
                    &&& e == CliErrorView::InvalidOutputPath {
                        message: "expected a folder as an output destination"@,
                    }
                },
                CliStepView::Panics => false,
            }
        }),
        is_dir_at(environment, i + 1) ==> step_at(options, environment, i, st) is Next,
{
    reveal_strlit("o");
    reveal_strlit("output");
    reveal_strlit("outputfolder");
    reveal_strlit("u");
    reveal_strlit("baseurl");
    reveal_strlit("url");
    reveal_strlit("log");
    reveal_strlit("logfile");
    assert("u"@.len() == 1 && "u"@[0] == 'u');
    assert("o"@.len() == 1 && "o"@[0] == 'o');
    assert("baseurl"@.len() == 7 && "baseurl"@[0] == 'b');
    assert("output"@.len() == 6 && "outputfolder"@.len() == 12);
    assert("log"@.len() == 3 && "logfile"@.len() == 7 && "log"@[0] == 'l' && "logfile"@[0] == 'l');
    assert("output"@[0] == 'o' && "outputfolder"@[0] == 'o');
}

} // verus!
