# dispatcharr_download_core

The logic of a downloader for the video-on-demand series of a Dispatcharr
instance, written in Verus with its behaviour stated in contracts and proved.

- `src/cli.rs` turns command-line elements into download options. What the
  file system says of each element's text (is it a directory, what does it
  give when loaded as a recipe) is gathered beforehand and handed in.
- `src/recipe.rs` holds recipes and their errors.
- `src/downloader/retrieval.rs` builds the provider-info address of a series
  and sorts the episodes of its answer into seasons.
- `src/downloader/download.rs` decides how an episode is downloaded: the
  stream address and file name, what happens to a file already on disk, how
  often a download is tried, and when a downloaded file counts as complete.
- `src/downloader/ffmpeg.rs` builds the `ffmpeg` command line of the older
  download path and reports its output.
- `src/logging.rs` broadcasts log messages to registered sinks; the `Sink`
  trait states what each implementation promises of `log`.
- `src/text.rs` has the character-level helpers the rest is built from.

`app/` is the program around the library: it reads the command line and
the file system, talks HTTP (reqwest), parses JSON (serde), reads media
files (symphonia), prints logs, and follows the library's decisions.
