//! Decisions taken while an episode is downloaded and validated: where it is
//! fetched from and saved to, what happens to a copy already on disk, how
//! often a download is tried, and when a downloaded file counts as complete.
use vstd::prelude::*;

use super::types::{Episode, M3UID};
use crate::cli::{DownloadOptions, OverwriteMode};
use crate::text::{
    decimal, owned, push_char, push_decimal, push_signed_decimal, push_without_whitespace, signed_decimal,
    str_eq, without_whitespace,
};

verus! {

/// Why a downloaded file could not be shown to be complete.
#[derive(Debug, Clone)]
pub enum ValidationError {
    UnsupportedContainerType { container_type: String },
    FailedToReadFile { error_type: String },
    FailedToGetFormat { error_type: String },
    NoTrackFound,
    PacketReadError { error_type: String },
    DurationMismatch { expected_secs: u64, actual_secs: u64 },
}

/// Why an episode could not be downloaded.
#[derive(Debug, Clone)]
pub enum DownloadError {
    StartDownloadFailed { title: String, error_type: String },
    DownloadFailed { title: String, exit_code: i32 },
    FailedToCreateFile { title: String, file: String, error_type: String },
    FailedToCopyContentsToFile { title: String, file: String, error_type: String },
    ValidationFailed { title: String, error: ValidationError },
}

/// The text that describes a validation error to the user.
pub open spec fn validation_error_text(e: ValidationError) -> Seq<char> {
    match e {
        ValidationError::UnsupportedContainerType { container_type } =>
            "Container type not supported for validating: "@ + container_type@ + "."@,
        ValidationError::FailedToReadFile { error_type } => "Read error: "@ + error_type@ + "."@,
        ValidationError::FailedToGetFormat { error_type } => "Unable to read video format, error: "@
            + error_type@ + "."@,
        ValidationError::NoTrackFound => "Unable to find a video track in the file."@,
        ValidationError::PacketReadError { error_type } => "Unable to read packets, error: "@
            + error_type@ + "."@,
        ValidationError::DurationMismatch { expected_secs, actual_secs } =>
            "Duration mismatch, expected file to be "@ + decimal(expected_secs as nat)
            + " seconds long, got "@ + decimal(actual_secs as nat) + " seconds."@,
    }
}

/// The text that describes a download error to the user.
pub open spec fn download_error_text(e: DownloadError) -> Seq<char> {
    match e {
        DownloadError::StartDownloadFailed { title, error_type } => "Starting download: \""@
            + title@ + "\" failed with error: "@ + error_type@ + "."@,
        DownloadError::DownloadFailed { title, exit_code } => "Download: \""@ + title@
            + "\" exited with exit code: "@ + signed_decimal(exit_code as int)
            + " and subsequently failed."@,
        DownloadError::FailedToCreateFile { title, file, error_type } => "Download: \""@ + title@
            + "\" failed, because of being unable to create file \""@ + file@ + "\" due to error: "@
            + error_type@ + "."@,
        DownloadError::FailedToCopyContentsToFile { title, file, error_type } => "Download: \""@
            + title@ + "\" failed, because of being unable to copy HTTP response contents to file \""@
            + file@ + "\" with errorcode: "@ + error_type@ + "."@,
        DownloadError::ValidationFailed { title, error } => "Download: \""@ + title@
            + "\" failed during validation, error: "@ + validation_error_text(error) + "."@,
    }
}

impl ValidationError {
    /// The text that describes this error to the user.
    pub fn message(&self) -> (text: String)
        ensures
            text@ == validation_error_text(*self),
    {
        match self {
            ValidationError::UnsupportedContainerType { container_type } => {
                let mut text = owned("Container type not supported for validating: ");
                text.append(container_type.as_str());
                text.append(".");
                text
            },
            ValidationError::FailedToReadFile { error_type } => {
                let mut text = owned("Read error: ");
                text.append(error_type.as_str());
                text.append(".");
                text
            },
            ValidationError::FailedToGetFormat { error_type } => {
                let mut text = owned("Unable to read video format, error: ");
                text.append(error_type.as_str());
                text.append(".");
                text
            },
            ValidationError::NoTrackFound => owned("Unable to find a video track in the file."),
            ValidationError::PacketReadError { error_type } => {
                let mut text = owned("Unable to read packets, error: ");
                text.append(error_type.as_str());
                text.append(".");
                text
            },
            ValidationError::DurationMismatch { expected_secs, actual_secs } => {
                let mut text = owned("Duration mismatch, expected file to be ");
                push_decimal(&mut text, *expected_secs);
                text.append(" seconds long, got ");
                push_decimal(&mut text, *actual_secs);
                text.append(" seconds.");
                text
            },
        }
    }
}

impl DownloadError {
    /// The text that describes this error to the user.
    pub fn message(&self) -> (text: String)
        ensures
            text@ == download_error_text(*self),
    {
        match self {
            DownloadError::StartDownloadFailed { title, error_type } => {
                let mut text = owned("Starting download: \"");
                text.append(title.as_str());
                text.append("\" failed with error: ");
                text.append(error_type.as_str());
                text.append(".");
                text
            },
            DownloadError::DownloadFailed { title, exit_code } => {
                let mut text = owned("Download: \"");
                text.append(title.as_str());
                text.append("\" exited with exit code: ");
                push_signed_decimal(&mut text, *exit_code);
                text.append(" and subsequently failed.");
                text
            },
            DownloadError::FailedToCreateFile { title, file, error_type } => {
                let mut text = owned("Download: \"");
                text.append(title.as_str());
                text.append("\" failed, because of being unable to create file \"");
                text.append(file.as_str());
                text.append("\" due to error: ");
                text.append(error_type.as_str());
                text.append(".");
                text
            },
            DownloadError::FailedToCopyContentsToFile { title, file, error_type } => {
                let mut text = owned("Download: \"");
                text.append(title.as_str());
                text.append("\" failed, because of being unable to copy HTTP response contents to file \"");
                text.append(file.as_str());
                text.append("\" with errorcode: ");
                text.append(error_type.as_str());
                text.append(".");
                text
            },
            DownloadError::ValidationFailed { title, error } => {
                let mut text = owned("Download: \"");
                text.append(title.as_str());
                text.append("\" failed during validation, error: ");
                let inner = error.message();
                text.append(inner.as_str());
                text.append(".");
                text
            },
        }
    }
}

/// The address an episode is streamed from.
pub open spec fn episode_address(base_url: Seq<char>, uuid: Seq<char>, m3u_id: M3UID) -> Seq<char> {
    base_url + "/proxy/vod/episode/"@ + uuid + "?m3u_account_id="@ + decimal(m3u_id as nat)
}

/// Builds the address an episode is streamed from: see `episode_address`.
pub fn episode_url(base_url: &str, uuid: &str, m3u_id: M3UID) -> (url: String)
    ensures
        url@ == episode_address(base_url@, uuid@, m3u_id),
{
    let mut url = owned(base_url);
    url.append("/proxy/vod/episode/");
    url.append(uuid);
    url.append("?m3u_account_id=");
    push_decimal(&mut url, m3u_id as u64);
    url
}

/// The stream address of an episode holds its parts one after the other,
/// each whole: the base URL, `/proxy/vod/episode/`, the uuid unchanged
/// whatever its length, `?m3u_account_id=`, and the account id as decimal
/// digits that read back as the id. Two uuids give the same address (with
/// the same base URL and id) only when they are the same uuid.
pub proof fn lemma_episode_address_parts(base_url: Seq<char>, uuid: Seq<char>, m3u_id: M3UID, other_uuid: Seq<char>)
    ensures
        ({
            let a = episode_address(base_url, uuid, m3u_id);
            let b = base_url.len();
            let u = b + 19;
            let q = u + uuid.len();
            let d = q + 16;
            &&& a.len() > d
            &&& a.subrange(0, b as int) == base_url
            &&& a.subrange(b as int, u as int) == "/proxy/vod/episode/"@
            &&& a.subrange(u as int, q as int) == uuid
            &&& a.subrange(q as int, d as int) == "?m3u_account_id="@
            &&& crate::text::all_digits(a.subrange(d as int, a.len() as int))
            &&& crate::text::digits_value(a.subrange(d as int, a.len() as int)) == m3u_id
        }),
        episode_address(base_url, uuid, m3u_id) == episode_address(base_url, other_uuid, m3u_id) ==> uuid
            == other_uuid,
{
    reveal_strlit("/proxy/vod/episode/");
    reveal_strlit("?m3u_account_id=");
    crate::text::lemma_decimal_reads_back(m3u_id as nat);
    let path = "/proxy/vod/episode/"@;
    let query = "?m3u_account_id="@;
    let digits = decimal(m3u_id as nat);
    assert(path.len() == 19);
    assert(query.len() == 16);
    let a = episode_address(base_url, uuid, m3u_id);
    let b = base_url.len() as int;
    let u = b + 19;
    let q = u + uuid.len();
    let d = q + 16;
    assert(a == base_url + path + uuid + query + digits);
    assert(a.subrange(0, b) =~= base_url);
    assert(a.subrange(b, u) =~= path);
    assert(a.subrange(u, q) =~= uuid);
    assert(a.subrange(q, d) =~= query);
    assert(a.subrange(d, a.len() as int) =~= digits);
    let o = episode_address(base_url, other_uuid, m3u_id);
    if a == o {
        assert(o == base_url + path + other_uuid + query + digits);
        assert(uuid.len() == other_uuid.len());
        assert(o.subrange(u, q) =~= other_uuid);
    }
}

/// The name of the file an episode is saved in: its title without
/// whitespace, a dot, and its container extension.
pub open spec fn episode_file(title: Seq<char>, container_extension: Seq<char>) -> Seq<char> {
    without_whitespace(title) + "."@ + container_extension
}

/// Builds the name of the file an episode is saved in: see `episode_file`.
pub fn episode_file_name(title: &str, container_extension: &str) -> (name: String)
    ensures
        name@ == episode_file(title@, container_extension@),
{
    let mut name = String::new();
    push_without_whitespace(&mut name, title);
    name.append(".");
    name.append(container_extension);
    assert(name@ =~= episode_file(title@, container_extension@));
    name
}

/// Whether `c` separates path components on a system whose main
/// separator is `separator`: `/` always does, and so does `separator`
/// (`\` on Windows).
pub open spec fn is_path_separator(c: char, separator: char) -> bool {
    c == '/' || c == separator
}

/// The path of a file named `file_name` inside `folder`, joined as
/// `Path::join` joins them when the name holds no drive prefix: a name that
/// starts with a separator stands for itself, an empty folder adds
/// nothing, and otherwise the main separator goes between folder and name
/// unless the folder already ends with a separator.
pub open spec fn joined_path(folder: Seq<char>, file_name: Seq<char>, separator: char) -> Seq<char> {
    if (file_name.len() > 0 && is_path_separator(file_name[0], separator)) || folder.len() == 0 {
        file_name
    } else if folder.len() > 0 && is_path_separator(folder.last(), separator) {
        folder + file_name
    } else {
        folder + seq![separator] + file_name
    }
}

/// Builds the path an episode's file is saved at: see `joined_path`.
pub fn output_file_path(output_folder: &str, file_name: &str, separator: char) -> (path: String)
    ensures
        path@ == joined_path(output_folder@, file_name@, separator),
{
    let name_length = file_name.unicode_len();
    let folder_length = output_folder.unicode_len();
    if name_length > 0 {
        let first = file_name.get_char(0);
        if first == '/' || first == separator {
            return owned(file_name);
        }
    }
    if folder_length == 0 {
        return owned(file_name);
    }
    let mut path = owned(output_folder);
    let last = output_folder.get_char(folder_length - 1);
    if !(last == '/' || last == separator) {
        push_char(&mut path, separator);
    }
    path.append(file_name);
    assert(path@ =~= joined_path(output_folder@, file_name@, separator));
    path
}

/// What to do about an episode whose file is already on disk.
#[derive(Debug, Clone, Copy, PartialEq, Eq, Structural)]
pub enum ExistingFileAction {
    /// Leave the file and count the episode as downloaded.
    Keep,
    /// Check the file against the episode's length first.
    Validate { expected_secs: u64 },
    /// Download the episode again.
    Overwrite,
}

/// The action the overwrite mode calls for on a file that is already on
/// disk; without a known length the `Bad` mode cannot check the file and
/// downloads it again.
pub open spec fn existing_file_decision(mode: OverwriteMode, seconds: Option<u64>) -> ExistingFileAction {
    match mode {
        OverwriteMode::Never => ExistingFileAction::Keep,
        OverwriteMode::Bad => match seconds {
            Some(s) => ExistingFileAction::Validate { expected_secs: s },
            None => ExistingFileAction::Overwrite,
        },
        OverwriteMode::All => ExistingFileAction::Overwrite,
    }
}

/// Decides what to do about a file already on disk: see `existing_file_decision`.
pub fn existing_file_action(mode: OverwriteMode, seconds: Option<u64>) -> (action: ExistingFileAction)
    ensures
        action == existing_file_decision(mode, seconds),
{
    match mode {
        OverwriteMode::Never => ExistingFileAction::Keep,
        OverwriteMode::Bad => match seconds {
            Some(s) => ExistingFileAction::Validate { expected_secs: s },
            None => ExistingFileAction::Overwrite,
        },
        OverwriteMode::All => ExistingFileAction::Overwrite,
    }
}

/// What each overwrite mode does with a file already on disk, whatever the
/// episode's length: the overwrite-none mode always keeps it, the
/// overwrite-all mode always downloads it again, and the overwrite-bad mode
/// checks it against the episode's length when that is known and downloads
/// it again when it is not.
pub proof fn lemma_existing_file_actions(seconds: Option<u64>)
    ensures
        existing_file_decision(OverwriteMode::Never, seconds) == ExistingFileAction::Keep,
        existing_file_decision(OverwriteMode::All, seconds) == ExistingFileAction::Overwrite,
        forall|s: u64|
            seconds == Some(s) ==> existing_file_decision(OverwriteMode::Bad, seconds)
                == (ExistingFileAction::Validate { expected_secs: s }),
        seconds is None ==> existing_file_decision(OverwriteMode::Bad, seconds)
            == ExistingFileAction::Overwrite,
{
}

/// Whether a file on disk is downloaded again after checking it: only when
/// its length is shown to be wrong. A file that checks out, or whose check
/// could not be made, is kept.
pub fn overwrite_after_validation(result: &Result<u64, ValidationError>) -> (overwrite: bool)
    ensures
        overwrite == (*result matches Err(ValidationError::DurationMismatch { .. })),
{
    match result {
        Err(ValidationError::DurationMismatch { .. }) => true,
        _ => false,
    }
}

/// The next move of the download loop of an episode.
#[derive(Debug)]
pub enum AttemptStep {
    /// Make download attempt number `n`, counting from 1.
    Attempt(u32),
    /// Stop with this outcome.
    Finish(Result<(), DownloadError>),
}

/// The move after attempt `attempt` of at most `max_reties` ended with
/// `outcome`: a success ends the loop, a failure leads to the next attempt
/// or, after the last one, ends the loop with its error.
pub open spec fn attempt_decision(max_reties: u32, attempt: u32, outcome: Result<(), DownloadError>) -> AttemptStep {
    match outcome {
        Ok(()) => AttemptStep::Finish(Ok(())),
        Err(e) => if attempt < max_reties {
            AttemptStep::Attempt((attempt + 1) as u32)
        } else {
            AttemptStep::Finish(Err(e))
        },
    }
}

/// The first move of the download loop: attempt 1, or, when no attempt is
/// allowed, failure with an error whose title and text are empty.
pub fn first_attempt(max_reties: u32) -> (step: AttemptStep)
    ensures
        max_reties > 0 ==> step == AttemptStep::Attempt(1),
        max_reties == 0 ==> (step matches AttemptStep::Finish(
            Err(DownloadError::StartDownloadFailed { title, error_type }),
        ) && title@.len() == 0 && error_type@.len() == 0),
{
    if max_reties > 0 {
        AttemptStep::Attempt(1)
    } else {
        AttemptStep::Finish(
            Err(DownloadError::StartDownloadFailed { title: String::new(), error_type: String::new() }),
        )
    }
}

/// The move after an attempt: see `attempt_decision`.
pub fn after_attempt(max_reties: u32, attempt: u32, outcome: Result<(), DownloadError>) -> (step: AttemptStep)
    requires
        1 <= attempt <= max_reties,
    ensures
        step == attempt_decision(max_reties, attempt, outcome),
{
    match outcome {
        Ok(()) => AttemptStep::Finish(Ok(())),
        Err(e) => if attempt < max_reties {
            AttemptStep::Attempt(attempt + 1)
        } else {
            AttemptStep::Finish(Err(e))
        },
    }
}

/// Where the download loop ends when attempt `n` has outcome `outcomes[n - 1]`,
/// starting at attempt `attempt`: the final outcome and the number of
/// attempts made, or nothing when the outcomes run out first.
pub open spec fn run_attempts(max_reties: u32, attempt: u32, outcomes: Seq<Result<(), DownloadError>>) -> Option<
    (Result<(), DownloadError>, u32),
>
    decreases max_reties - attempt,
{
    if attempt < 1 || attempt > max_reties || outcomes.len() < attempt {
        None
    } else {
        match attempt_decision(max_reties, attempt, outcomes[attempt - 1]) {
            AttemptStep::Finish(r) => Some((r, attempt)),
            AttemptStep::Attempt(next) => if attempt < next {
                run_attempts(max_reties, next, outcomes)
            } else {
                None
            },
        }
    }
}

/// The download loop makes at most `max_reties` attempts and stops at the
/// first that succeeds; it fails only when every attempt failed, and then
/// with the error of the last one.
pub proof fn lemma_download_attempts(max_reties: u32, outcomes: Seq<Result<(), DownloadError>>)
    requires
        max_reties >= 1,
        outcomes.len() >= max_reties,
    ensures
        run_attempts(max_reties, 1, outcomes) matches Some((result, made)) && {
            &&& 1 <= made <= max_reties
            &&& forall|j: int| 0 <= j < made - 1 ==> #[trigger] outcomes[j] is Err
            &&& (result is Ok <==> outcomes[made - 1] is Ok)
            &&& (result is Err ==> made == max_reties && result == outcomes[made - 1])
        },
{
    lemma_attempts_from(max_reties, 1, outcomes);
}

proof fn lemma_attempts_from(max_reties: u32, attempt: u32, outcomes: Seq<Result<(), DownloadError>>)
    requires
        1 <= attempt <= max_reties,
        outcomes.len() >= max_reties,
    ensures
        run_attempts(max_reties, attempt, outcomes) matches Some((result, made)) && {
            &&& attempt <= made <= max_reties
            &&& forall|j: int| attempt - 1 <= j < made - 1 ==> #[trigger] outcomes[j] is Err
            &&& (result is Ok <==> outcomes[made - 1] is Ok)
            &&& (result is Err ==> made == max_reties && result == outcomes[made - 1])
        },
    decreases max_reties - attempt,
{
    if outcomes[attempt - 1] is Err && attempt < max_reties {
        lemma_attempts_from(max_reties, (attempt + 1) as u32, outcomes);
    }
}

/// The status codes that count as success: 200 to 299.
pub open spec fn is_success_status(status: u16) -> bool {
    200 <= status <= 299
}

/// Exactly the statuses from 200 to 299 count as success: every status
/// below 200 or from 300 on, server errors (500 to 599) and redirects
/// included, fails the attempt.
pub proof fn lemma_success_statuses(status: u16)
    ensures
        is_success_status(status) <==> (200 <= status && status < 300),
        500 <= status <= 599 ==> !is_success_status(status),
        300 <= status <= 399 ==> !is_success_status(status),
{
}

/// Checks the status of the answer to a download request: anything but a
/// success fails the attempt with the status as its exit code.
pub fn check_download_status(title: &str, status: u16) -> (r: Result<(), DownloadError>)
    ensures
        (r is Ok) == (200 <= status && status <= 299),
        is_success_status(status) ==> r is Ok,
        !is_success_status(status) ==> (r matches Err(
            DownloadError::DownloadFailed { title: t, exit_code },
        ) && t@ == title@ && exit_code == status as i32),
{
    if 200 <= status && status <= 299 {
        Ok(())
    } else {
        Err(DownloadError::DownloadFailed { title: owned(title), exit_code: status as i32 })
    }
}

/// How a download attempt ends once the file is written: without a known
/// length it succeeds unchecked; otherwise the check of the file decides.
pub fn finish_download_attempt(title: &str, validation: Option<Result<u64, ValidationError>>) -> (r: Result<
    (),
    DownloadError,
>)
    ensures
        match validation {
            None => r is Ok,
            Some(Ok(_)) => r is Ok,
            Some(Err(e)) => r matches Err(DownloadError::ValidationFailed { title: t, error })
                && t@ == title@ && error == e,
        },
{
    match validation {
        None => Ok(()),
        Some(Ok(_)) => Ok(()),
        Some(Err(e)) => Err(DownloadError::ValidationFailed { title: owned(title), error: e }),
    }
}

/// Where the download of one episode stands.
#[derive(Debug, Clone, Copy, PartialEq, Eq, Structural)]
pub enum EpisodeStage {
    /// Waiting to learn whether the episode's file is already on disk.
    CheckingExisting,
    /// Waiting for the check of the file already on disk.
    ValidatingExisting,
    /// Waiting for the outcome of download attempt `n`, counting from 1.
    Downloading(u32),
    /// Finished.
    Done,
}

/// What the download of an episode asks for next.
#[derive(Debug)]
pub enum EpisodeAction {
    /// Check the file already on disk against this length.
    ValidateExisting { expected_secs: u64 },
    /// Make download attempt `n`, counting from 1.
    Attempt(u32),
    /// Stop with this outcome.
    Finish(Result<(), DownloadError>),
}

/// The download of one episode as a sequence of decisions: the caller finds
/// out whether the file is on disk, checks it, and makes download attempts
/// as asked, and reports each outcome back.
#[derive(Debug)]
pub struct EpisodeDownload {
    /// Where the episode is streamed from.
    pub url: String,
    /// The name of the file it is saved in, inside the output folder.
    pub file_name: String,
    pub title: String,
    pub container_extension: String,
    pub overwrite_mode: OverwriteMode,
    pub expected_secs: Option<u64>,
    pub max_reties: u32,
    pub stage: EpisodeStage,
}

/// Whether `stage` and `action` are how the attempts start: with attempt 1,
/// or, when no attempt is allowed, with failure with an empty title and text.
pub open spec fn starts_attempts(max_reties: u32, stage: EpisodeStage, action: EpisodeAction) -> bool {
    if max_reties > 0 {
        stage == EpisodeStage::Downloading(1) && action == EpisodeAction::Attempt(1)
    } else {
        &&& stage == EpisodeStage::Done
        &&& action matches EpisodeAction::Finish(
            Err(DownloadError::StartDownloadFailed { title, error_type }),
        )
        &&& title@.len() == 0
        &&& error_type@.len() == 0
    }
}

impl EpisodeDownload {
    /// Whether the attempt being waited for is one of the allowed ones.
    pub open spec fn well_formed(&self) -> bool {
        self.stage matches EpisodeStage::Downloading(n) ==> 1 <= n <= self.max_reties
    }

    /// Whether `self` differs from `other` at most in its stage.
    pub open spec fn same_episode(&self, other: &EpisodeDownload) -> bool {
        &&& self.url == other.url
        &&& self.file_name == other.file_name
        &&& self.title == other.title
        &&& self.container_extension == other.container_extension
        &&& self.overwrite_mode == other.overwrite_mode
        &&& self.expected_secs == other.expected_secs
        &&& self.max_reties == other.max_reties
    }

    fn start_attempts(&mut self) -> (action: EpisodeAction)
        ensures
            final(self).same_episode(old(self)),
            final(self).well_formed(),
            starts_attempts(old(self).max_reties, final(self).stage, action),
    {
        match first_attempt(self.max_reties) {
            AttemptStep::Attempt(n) => {
                self.stage = EpisodeStage::Downloading(n);
                EpisodeAction::Attempt(n)
            },
            AttemptStep::Finish(result) => {
                self.stage = EpisodeStage::Done;
                EpisodeAction::Finish(result)
            },
        }
    }

    /// Goes on once it is known whether the episode's file is on disk. An
    /// absent file is downloaded; for a present one the overwrite mode
    /// decides (see `existing_file_decision`).
    pub fn existing_checked(&mut self, exists: bool) -> (action: EpisodeAction)
        requires
            old(self).stage == EpisodeStage::CheckingExisting,
        ensures
            final(self).same_episode(old(self)),
            final(self).well_formed(),
            !exists ==> starts_attempts(old(self).max_reties, final(self).stage, action),
            exists ==> match existing_file_decision(old(self).overwrite_mode, old(self).expected_secs) {
                ExistingFileAction::Keep => final(self).stage == EpisodeStage::Done && action
                    == EpisodeAction::Finish(Ok(())),
                ExistingFileAction::Validate { expected_secs } => final(self).stage
                    == EpisodeStage::ValidatingExisting && action
                    == EpisodeAction::ValidateExisting { expected_secs },
                ExistingFileAction::Overwrite => starts_attempts(
                    old(self).max_reties,
                    final(self).stage,
                    action,
                ),
            },
    {
        if !exists {
            return self.start_attempts();
        }
        match existing_file_action(self.overwrite_mode, self.expected_secs) {
            ExistingFileAction::Keep => {
                self.stage = EpisodeStage::Done;
                EpisodeAction::Finish(Ok(()))
            },
            ExistingFileAction::Validate { expected_secs } => {
                self.stage = EpisodeStage::ValidatingExisting;
                EpisodeAction::ValidateExisting { expected_secs }
            },
            ExistingFileAction::Overwrite => self.start_attempts(),
        }
    }

    /// Goes on once the file on disk has been checked: it is downloaded
    /// again only when its length was shown to be wrong, and otherwise kept.
    pub fn existing_validated(&mut self, result: &Result<u64, ValidationError>) -> (action: EpisodeAction)
        requires
            old(self).stage == EpisodeStage::ValidatingExisting,
        ensures
            final(self).same_episode(old(self)),
            final(self).well_formed(),
            (*result matches Err(ValidationError::DurationMismatch { .. })) ==> starts_attempts(
                old(self).max_reties,
                final(self).stage,
                action,
            ),
            !(*result matches Err(ValidationError::DurationMismatch { .. })) ==> final(self).stage
                == EpisodeStage::Done && action == EpisodeAction::Finish(Ok(())),
    {
        if overwrite_after_validation(result) {
            self.start_attempts()
        } else {
            self.stage = EpisodeStage::Done;
            EpisodeAction::Finish(Ok(()))
        }
    }

    /// Goes on once a download attempt has ended: see `attempt_decision`.
    pub fn attempt_finished(&mut self, outcome: Result<(), DownloadError>) -> (action: EpisodeAction)
        requires
            old(self).stage is Downloading,
            old(self).well_formed(),
        ensures
            final(self).same_episode(old(self)),
            final(self).well_formed(),
            match attempt_decision(old(self).max_reties, old(self).stage->Downloading_0, outcome) {
                AttemptStep::Attempt(n) => final(self).stage == EpisodeStage::Downloading(n) && action
                    == EpisodeAction::Attempt(n),
                AttemptStep::Finish(r) => final(self).stage == EpisodeStage::Done && action
                    == EpisodeAction::Finish(r),
            },
    {
        let attempt = match self.stage {
            EpisodeStage::Downloading(n) => n,
            _ => 1,
        };
        match after_attempt(self.max_reties, attempt, outcome) {
            AttemptStep::Attempt(n) => {
                self.stage = EpisodeStage::Downloading(n);
                EpisodeAction::Attempt(n)
            },
            AttemptStep::Finish(result) => {
                self.stage = EpisodeStage::Done;
                EpisodeAction::Finish(result)
            },
        }
    }
}

/// Starts the download of `episode` from the series' M3U account: where it
/// is streamed from, the name of the file it is saved in, and the settings
/// that decide what happens; the first question is whether that file is
/// already on disk.
pub fn download_episode(options: &DownloadOptions, episode: &Episode, m3u_id: M3UID) -> (download: EpisodeDownload)
    ensures
        download.url@ == episode_address(options.url@, episode.uuid@, m3u_id),
        download.file_name@ == episode_file(episode.title@, episode.container_extension@),
        download.title@ == episode.title@,
        download.container_extension@ == episode.container_extension@,
        download.overwrite_mode == options.overwrite_mode,
        download.expected_secs == episode.seconds,
        download.max_reties == options.max_reties,
        download.stage == EpisodeStage::CheckingExisting,
{
    EpisodeDownload {
        url: episode_url(options.url.as_str(), episode.uuid.as_str(), m3u_id),
        file_name: episode_file_name(episode.title.as_str(), episode.container_extension.as_str()),
        title: owned(episode.title.as_str()),
        container_extension: owned(episode.container_extension.as_str()),
        overwrite_mode: options.overwrite_mode,
        expected_secs: episode.seconds,
        max_reties: options.max_reties,
        stage: EpisodeStage::CheckingExisting,
    }
}

/// How many times a downloaded file is checked before the check is given up.
pub const VALIDATION_RETRIES: u64 = 3;

/// How many seconds a file's length may differ from the expected length.
pub const TOLERANCE: u64 = 2;

/// The container formats whose files can be checked.
pub open spec fn is_validatable(container_extension: Seq<char>) -> bool {
    ||| container_extension == "mp4"@
    ||| container_extension == "m4v"@
    ||| container_extension == "mov"@
    ||| container_extension == "mkv"@
    ||| container_extension == "webm"@
}

/// The next move of the checks of a downloaded file.
#[derive(Debug)]
pub enum ValidationStep {
    /// Make check number `n`, counting from 1.
    Check(u64),
    /// Stop with this outcome: the length found, or why there is none.
    Finish(Result<u64, ValidationError>),
}

/// Starts the checks of a downloaded file of the given container format:
/// the first move is check 1, or failure when the format cannot be checked.
pub fn validate_download(container_extension: &str) -> (step: ValidationStep)
    ensures
        is_validatable(container_extension@) ==> step == ValidationStep::Check(1),
        !is_validatable(container_extension@) ==> (step matches ValidationStep::Finish(
            Err(ValidationError::UnsupportedContainerType { container_type }),
        ) && container_type@ == container_extension@),
{
    if str_eq(container_extension, "mp4") || str_eq(container_extension, "m4v") || str_eq(
        container_extension,
        "mov",
    ) || str_eq(container_extension, "mkv") || str_eq(container_extension, "webm") {
        ValidationStep::Check(1)
    } else {
        ValidationStep::Finish(
            Err(ValidationError::UnsupportedContainerType { container_type: owned(container_extension) }),
        )
    }
}

/// The move after check `check` ended with `result`: a length found ends the
/// checks, and so does a length shown to be wrong; any other failure may be a
/// passing hiccup and leads to the next check, and after the last one the
/// checks end with `NoTrackFound`.
pub open spec fn validation_decision(check: u64, result: Result<u64, ValidationError>) -> ValidationStep {
    match result {
        Ok(seconds) => ValidationStep::Finish(Ok(seconds)),
        Err(ValidationError::DurationMismatch { expected_secs, actual_secs }) => ValidationStep::Finish(
            Err(ValidationError::DurationMismatch { expected_secs, actual_secs }),
        ),
        Err(_) => if check < VALIDATION_RETRIES {
            ValidationStep::Check((check + 1) as u64)
        } else {
            ValidationStep::Finish(Err(ValidationError::NoTrackFound))
        },
    }
}

/// The move after a check: see `validation_decision`.
pub fn after_validation_check(check: u64, result: Result<u64, ValidationError>) -> (step: ValidationStep)
    requires
        1 <= check <= VALIDATION_RETRIES,
    ensures
        step == validation_decision(check, result),
{
    match result {
        Ok(seconds) => ValidationStep::Finish(Ok(seconds)),
        Err(ValidationError::DurationMismatch { expected_secs, actual_secs }) => ValidationStep::Finish(
            Err(ValidationError::DurationMismatch { expected_secs, actual_secs }),
        ),
        Err(_) => if check < VALIDATION_RETRIES {
            ValidationStep::Check(check + 1)
        } else {
            ValidationStep::Finish(Err(ValidationError::NoTrackFound))
        },
    }
}

/// Where the checks end when check `n` has result `results[n - 1]`, starting
/// at check `check`: the outcome and the number of checks made, or nothing
/// when the results run out first.
pub open spec fn run_checks(check: u64, results: Seq<Result<u64, ValidationError>>) -> Option<
    (Result<u64, ValidationError>, u64),
>
    decreases VALIDATION_RETRIES - check,
{
    if check < 1 || check > VALIDATION_RETRIES || results.len() < check {
        None
    } else {
        match validation_decision(check, results[check - 1]) {
            ValidationStep::Finish(r) => Some((r, check)),
            ValidationStep::Check(next) => if check < next {
                run_checks(next, results)
            } else {
                None
            },
        }
    }
}

/// Whether a check result settles the checks: a length found, or a length
/// shown to be wrong.
pub open spec fn is_definite(result: Result<u64, ValidationError>) -> bool {
    result is Ok || result matches Err(ValidationError::DurationMismatch { .. })
}

/// A file is checked at most `VALIDATION_RETRIES` times; the first definite
/// result is the outcome, and when none of the checks gives one the outcome
/// is `NoTrackFound`, whatever the checks failed with.
pub proof fn lemma_validation_checks(results: Seq<Result<u64, ValidationError>>)
    requires
        results.len() >= VALIDATION_RETRIES,
    ensures
        run_checks(1, results) matches Some((outcome, made)) && {
            &&& 1 <= made <= VALIDATION_RETRIES
            &&& forall|j: int| 0 <= j < made - 1 ==> !is_definite(#[trigger] results[j])
            &&& is_definite(results[made - 1]) ==> outcome == results[made - 1]
            &&& !is_definite(results[made - 1]) ==> made == VALIDATION_RETRIES && outcome
                == Err::<u64, ValidationError>(ValidationError::NoTrackFound)
        },
{
    lemma_checks_from(1, results);
}

proof fn lemma_checks_from(check: u64, results: Seq<Result<u64, ValidationError>>)
    requires
        1 <= check <= VALIDATION_RETRIES,
        results.len() >= VALIDATION_RETRIES,
    ensures
        run_checks(check, results) matches Some((outcome, made)) && {
            &&& check <= made <= VALIDATION_RETRIES
            &&& forall|j: int| check - 1 <= j < made - 1 ==> !is_definite(#[trigger] results[j])
            &&& is_definite(results[made - 1]) ==> outcome == results[made - 1]
            &&& !is_definite(results[made - 1]) ==> made == VALIDATION_RETRIES && outcome
                == Err::<u64, ValidationError>(ValidationError::NoTrackFound)
        },
    decreases VALIDATION_RETRIES - check,
{
    if !is_definite(results[check - 1]) && check < VALIDATION_RETRIES {
        lemma_checks_from((check + 1) as u64, results);
    }
}

/// The whole seconds in `ts` ticks of a time base of `numer / denom`
/// seconds per tick, kept to 64 bits.
pub open spec fn time_base_seconds(numer: u32, denom: u32, ts: u64) -> int {
    ((ts as int) * (numer as int) / (denom as int)) % 0x1_0000_0000_0000_0000
}

/// The whole seconds of `TimeBase::calc_time` in symphonia-core.
///
/// `TimeBase::new` panics on a zero numerator or denominator, hence the
/// `requires`. Its documentation says that `calc_time` computes the time
/// accurately and that its `seconds` wrap on overflow: the whole part of
/// `ts * numer / denom`, kept to 64 bits. Its source takes that part by
/// integer division when `ts * numer` needs 52 bits or more, and otherwise
/// truncates a float quotient of two integers that a double holds exactly,
/// which cannot round across a whole number when the divisor has at most 32
/// bits. The fractional part of the time is not used here.
#[verifier::external_body]
fn track_time_seconds(numer: u32, denom: u32, ts: u64) -> (seconds: u64)
    requires
        numer > 0,
        denom > 0,
    ensures
        seconds as int == time_base_seconds(numer, denom, ts),
{
    symphonia::core::units::TimeBase::new(numer, denom).calc_time(ts).seconds
}

/// Whether a reported length of `reported_secs` is too short for a file
/// expected to last `expected_secs`, give or take `tolerance_secs`.
pub open spec fn reported_too_short(reported_secs: u64, expected_secs: u64, tolerance_secs: u64) -> bool {
    reported_secs < (if expected_secs >= tolerance_secs { expected_secs - tolerance_secs } else { 0 })
}

/// Checks the length a file reports for itself before its packets are read:
/// one clearly too short is a length mismatch.
pub fn check_reported_duration(reported_secs: u64, expected_secs: u64, tolerance_secs: u64) -> (r: Result<
    (),
    ValidationError,
>)
    ensures
        !reported_too_short(reported_secs, expected_secs, tolerance_secs) ==> r is Ok,
        reported_too_short(reported_secs, expected_secs, tolerance_secs) ==> r == Err::<
            (),
            ValidationError,
        >(ValidationError::DurationMismatch { expected_secs, actual_secs: reported_secs }),
{
    if reported_secs < expected_secs.saturating_sub(tolerance_secs) {
        Err(ValidationError::DurationMismatch { expected_secs, actual_secs: reported_secs })
    } else {
        Ok(())
    }
}

/// Checks the length a track reports, `n_frames` ticks of a time base of
/// `numer / denom` seconds per tick, against the expected length: see
/// `check_reported_duration`.
pub fn check_track_duration(
    numer: u32,
    denom: u32,
    n_frames: u64,
    expected_secs: u64,
    tolerance_secs: u64,
) -> (r: Result<(), ValidationError>)
    requires
        numer > 0,
        denom > 0,
    ensures
        ({
            let reported = time_base_seconds(numer, denom, n_frames) as u64;
            &&& !reported_too_short(reported, expected_secs, tolerance_secs) ==> r is Ok
            &&& reported_too_short(reported, expected_secs, tolerance_secs) ==> r == Err::<
                (),
                ValidationError,
            >(ValidationError::DurationMismatch { expected_secs, actual_secs: reported })
        }),
{
    let reported = track_time_seconds(numer, denom, n_frames);
    check_reported_duration(reported, expected_secs, tolerance_secs)
}

/// What reading the next packet of a media file gave.
#[derive(Debug)]
pub enum PacketRead {
    /// A packet of the track with this id.
    Packet { track_id: u32 },
    /// The end of the stream, or a reset the reader asks for.
    EndOfStream,
    /// Any other read error, by its text.
    Failure { error_type: String },
}

/// What to do with what reading a packet gave.
#[derive(Debug)]
pub enum PacketStep {
    /// Take the packet's time as the latest time of the track.
    Record,
    /// Pass over a packet of another track.
    Skip,
    /// Stop reading: the last recorded time is the file's length.
    Stop,
    /// Stop reading: the file cannot be checked.
    Fail(ValidationError),
}

/// Sorts what reading a packet gave, while the length of track
/// `wanted_track` is measured.
pub fn next_packet_step(wanted_track: u32, read: PacketRead) -> (step: PacketStep)
    ensures
        match read {
            PacketRead::Packet { track_id } => if track_id == wanted_track {
                step is Record
            } else {
                step is Skip
            },
            PacketRead::EndOfStream => step is Stop,
            PacketRead::Failure { error_type } => step == PacketStep::Fail(
                ValidationError::PacketReadError { error_type },
            ),
        },
{
    match read {
        PacketRead::Packet { track_id } => if track_id == wanted_track {
            PacketStep::Record
        } else {
            PacketStep::Skip
        },
        PacketRead::EndOfStream => PacketStep::Stop,
        PacketRead::Failure { error_type } => PacketStep::Fail(
            ValidationError::PacketReadError { error_type },
        ),
    }
}

/// Where reading a downloaded file starts: 30 seconds before its expected
/// end, or at its start (no seek) when it is expected to be shorter.
pub fn seek_target(expected_secs: u64) -> (target: Option<u64>)
    ensures
        expected_secs > 30 ==> target == Some((expected_secs - 30) as u64),
        expected_secs <= 30 ==> target is None,
{
    let target = expected_secs.saturating_sub(30);
    if target > 0 {
        Some(target)
    } else {
        None
    }
}

} // verus!
