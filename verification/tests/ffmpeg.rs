use dispatcharr_download_core::downloader::ffmpeg::{collect_output, ffmpeg_arguments};

#[test]
fn ffmpeg_copies_the_stream_into_mp4() {
    let args = ffmpeg_arguments("http://h/proxy/vod/episode/u?m3u_account_id=1", "My Show S01E02");
    assert_eq!(
        args,
        vec![
            "-i",
            "http://h/proxy/vod/episode/u?m3u_account_id=1",
            "-c",
            "copy",
            "-bsf:a",
            "aac_adtstoasc",
            "MyShowS01E02.mp4",
        ]
    );
}

#[test]
fn ffmpeg_output_report() {
    assert_eq!(collect_output(&None), "<NO OUTPUT>");
    assert_eq!(collect_output(&Some(vec![])), "");
    assert_eq!(
        collect_output(&Some(vec![Some("frame=1".to_string()), None, Some("done".to_string())])),
        "frame=1<FAILED TO READ LINE>done"
    );
}
