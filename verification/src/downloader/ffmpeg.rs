//! Downloading an episode by handing its stream to `ffmpeg`, which copies
//! it into an MP4 file.
use vstd::prelude::*;

use crate::text::{owned, push_without_whitespace, without_whitespace};

verus! {

/// Why an `ffmpeg` download failed.
#[derive(Debug, Clone)]
pub enum DownloadError {
    /// No `ffmpeg` program was found.
    NoFFmpeg,
    /// `ffmpeg` could not be started or waited for.
    CommandFailed(String),
}

/// The arguments `ffmpeg` is started with for the stream at `url`: the
/// stream is copied without re-encoding, its AAC audio converted from ADTS,
/// into an MP4 file named after the title without whitespace.
pub open spec fn ffmpeg_argument_list(url: Seq<char>, title: Seq<char>) -> Seq<Seq<char>> {
    seq![
        "-i"@,
        url,
        "-c"@,
        "copy"@,
        "-bsf:a"@,
        "aac_adtstoasc"@,
        without_whitespace(title) + ".mp4"@,
    ]
}

/// Builds the arguments of `ffmpeg`: see `ffmpeg_argument_list`.
pub fn ffmpeg_arguments(url: &str, title: &str) -> (arguments: Vec<String>)
    ensures
        arguments@.map_values(|a: String| a@) == ffmpeg_argument_list(url@, title@),
{
    let mut output_file = String::new();
    push_without_whitespace(&mut output_file, title);
    output_file.append(".mp4");
    let mut arguments: Vec<String> = Vec::new();
    arguments.push(owned("-i"));
    arguments.push(owned(url));
    arguments.push(owned("-c"));
    arguments.push(owned("copy"));
    arguments.push(owned("-bsf:a"));
    arguments.push(owned("aac_adtstoasc"));
    arguments.push(output_file);
    assert(arguments@.map_values(|a: String| a@) =~= ffmpeg_argument_list(url@, title@));
    arguments
}

/// What is reported of `ffmpeg`'s output: each line read, or a marker for a
/// line that could not be read, put together without separators; or a
/// marker when the output was not captured.
pub open spec fn output_report(lines: Option<Seq<Option<Seq<char>>>>) -> Seq<char> {
    match lines {
        None => "<NO OUTPUT>"@,
        Some(read) => joined_lines(read),
    }
}

/// The lines read, put together, with a marker for each unreadable one.
pub open spec fn joined_lines(read: Seq<Option<Seq<char>>>) -> Seq<char>
    decreases read.len(),
{
    if read.len() == 0 {
        Seq::empty()
    } else {
        joined_lines(read.drop_last()) + match read.last() {
            Some(line) => line,
            None => "<FAILED TO READ LINE>"@,
        }
    }
}

/// A line read from the output, by its characters.
pub open spec fn line_view(line: Option<String>) -> Option<Seq<char>> {
    match line {
        Some(l) => Some(l@),
        None => None,
    }
}

/// Puts together what is reported of `ffmpeg`'s output: see `output_report`.
pub fn collect_output(lines: &Option<Vec<Option<String>>>) -> (report: String)
    ensures
        report@ == output_report(
            match lines {
                Some(read) => Some(read@.map_values(|l: Option<String>| line_view(l))),
                None => None,
            },
        ),
{
    match lines {
        None => owned("<NO OUTPUT>"),
        Some(read) => {
            let ghost views = read@.map_values(|l: Option<String>| line_view(l));
            let mut report = String::new();
            let mut i: usize = 0;
            assert(views.take(0) =~= Seq::<Option<Seq<char>>>::empty());
            while i < read.len()
                invariant
                    i <= read@.len(),
                    views == read@.map_values(|l: Option<String>| line_view(l)),
                    report@ == joined_lines(views.take(i as int)),
                decreases read@.len() - i,
            {
                assert(views.take(i + 1).drop_last() =~= views.take(i as int));
                match &read[i] {
                    Some(line) => report.append(line.as_str()),
                    None => report.append("<FAILED TO READ LINE>"),
                }
                i = i + 1;
            }
            assert(views.take(read@.len() as int) =~= views);
            report
        },
    }
}

} // verus!
