use moviebay::config::{CodecConfig, FFmpegConfig};
use moviebay::ffmpeg::{ArgBuilder, FFmpeg};
use moviebay::stream::{Phase, StreamAction, StreamEvent, StreamSession, CHUNK_SIZE};
use std::sync::Arc;

fn profile(args: &[&str]) -> CodecConfig {
    CodecConfig { args: args.iter().map(|a| a.to_string()).collect() }
}

fn ffmpeg(codecs: Vec<(String, CodecConfig)>) -> FFmpeg {
    FFmpeg::new(Arc::new(FFmpegConfig { bin: "/usr/bin/ffmpeg".to_owned(), codecs }))
}

#[test]
fn a_placeholder_is_filled_where_it_first_stands() {
    let builder = ArgBuilder::new(vec!["-i", "%i", "-x", "%i"]).with("i", "movie.mkv");
    assert!(builder.unresolved().is_empty());
    assert_eq!(vec!["-i", "movie.mkv", "-x", "%i"], builder.build());
}

#[test]
fn a_missing_placeholder_is_a_warning_only() {
    let builder = ArgBuilder::new(vec!["-i", "%i"]).with("ss", "0").with("i", "a.mkv");
    assert_eq!(&vec!["ss".to_owned()], builder.unresolved());
    assert_eq!(vec!["-i", "a.mkv"], builder.build());
}

#[test]
fn a_name_is_matched_as_a_whole() {
    let builder = ArgBuilder::new(vec!["%is", "i", "%", "%i "]).with("i", "x");
    assert_eq!(&vec!["i".to_owned()], builder.unresolved());
    assert_eq!(vec!["%is", "i", "%", "%i "], builder.build());
    let builder = ArgBuilder::new(vec!["%"]).with("", "x");
    assert_eq!(vec!["x"], builder.build());
}

#[test]
fn the_default_profile_is_the_template() {
    let ffmpeg = ffmpeg(vec![
        ("h264".to_owned(), profile(&["-c", "h264"])),
        ("*".to_owned(), profile(&["-ss", "%ss", "-i", "%i"])),
        ("*".to_owned(), profile(&["second"])),
    ]);
    assert_eq!("/usr/bin/ffmpeg", ffmpeg.bin());
    let builder = ffmpeg.build_args().unwrap();
    assert!(builder.unresolved().is_empty());
    assert_eq!(vec!["-ss", "%ss", "-i", "%i"], builder.build());
}

#[test]
fn no_default_profile_no_arguments() {
    let ffmpeg = ffmpeg(vec![("h264".to_owned(), profile(&["-c", "h264"]))]);
    assert!(ffmpeg.build_args().is_none());
    assert!(ffmpeg.transcode_args("a.mkv").is_none());
    assert!(self::ffmpeg(vec![]).build_args().is_none());
}

#[test]
fn the_arguments_of_a_stream() {
    let ffmpeg = ffmpeg(vec![(
        "*".to_owned(),
        profile(&[
            "-ss", "%ss", "-i", "%i", "-f", "%f", "-vcodec", "%vcodec", "-acodec", "%acodec",
            "pipe:1",
        ]),
    )]);
    let builder = ffmpeg.transcode_args("Marked for Death (1990).mkv").unwrap();
    assert!(builder.unresolved().is_empty());
    assert_eq!(
        vec![
            "-ss",
            "0",
            "-i",
            "Marked for Death (1990).mkv",
            "-f",
            "mp4",
            "-vcodec",
            "copy",
            "-acodec",
            "copy",
            "pipe:1"
        ],
        builder.build()
    );
}

#[test]
fn the_arguments_of_a_stream_with_a_short_template() {
    let ffmpeg = ffmpeg(vec![("*".to_owned(), profile(&["-i", "%i", "%f"]))]);
    let builder = ffmpeg.transcode_args("a.mkv").unwrap();
    assert_eq!(
        &vec!["ss".to_owned(), "vcodec".to_owned(), "acodec".to_owned()],
        builder.unresolved()
    );
    assert_eq!(vec!["-i", "a.mkv", "mp4"], builder.build());
}

#[test]
fn a_profile_is_found_by_its_codec() {
    let config = FFmpegConfig {
        bin: "ffmpeg".to_owned(),
        codecs: vec![
            ("h264".to_owned(), profile(&["a"])),
            ("*".to_owned(), profile(&["b"])),
        ],
    };
    assert_eq!(vec!["a".to_owned()], config.profile("h264").unwrap().args);
    assert_eq!(vec!["b".to_owned()], config.profile("*").unwrap().args);
    assert!(config.profile("vp9").is_none());
    assert!(config.profile("").is_none());
}

#[test]
fn stream_completion() {
    let mut session = StreamSession::start();
    assert_eq!(StreamAction::Read, session.action());
    assert_eq!(Phase::Reading, session.phase());
    for _ in 0..3 {
        assert_eq!(StreamAction::Forward, session.step(StreamEvent::Read(CHUNK_SIZE)));
        assert_eq!(StreamAction::Read, session.step(StreamEvent::Accepted));
    }
    // the end of the source: what is left of a chunk is not forwarded
    assert_eq!(StreamAction::AwaitExit, session.step(StreamEvent::Read(100)));
    assert!(!session.is_closed());
    assert!(session.is_running());
    assert_eq!(StreamAction::Close, session.step(StreamEvent::Exited(Some(0))));
    assert_eq!(Phase::Finished, session.phase());
    assert_eq!(3, session.chunks());
    assert_eq!(3 * 65536, session.delivered());
    assert!(session.is_closed());
    assert!(!session.is_running());
    assert!(session.exited_cleanly());
    assert_eq!(Some(0), session.exit_code());
    assert!(!session.is_truncated());
}

#[test]
fn abandoned_stream() {
    let mut session = StreamSession::start();
    assert_eq!(StreamAction::Forward, session.step(StreamEvent::Read(CHUNK_SIZE)));
    assert_eq!(StreamAction::Read, session.step(StreamEvent::Accepted));
    assert_eq!(StreamAction::Forward, session.step(StreamEvent::Read(CHUNK_SIZE)));
    assert_eq!(StreamAction::Kill, session.step(StreamEvent::Rejected));
    assert_eq!(Phase::Killing, session.phase());
    // whatever is reported now, nothing is read or forwarded any more
    assert_eq!(StreamAction::Kill, session.step(StreamEvent::Read(CHUNK_SIZE)));
    assert_eq!(StreamAction::Kill, session.step(StreamEvent::Accepted));
    assert_eq!(StreamAction::Kill, session.step(StreamEvent::ReadFailed));
    assert!(session.is_running());
    assert!(!session.is_closed());
    assert_eq!(StreamAction::Close, session.step(StreamEvent::Exited(None)));
    assert!(!session.is_running());
    assert!(session.is_closed());
    assert!(session.is_truncated());
    assert!(!session.exited_cleanly());
    assert_eq!(1, session.chunks());
    assert_eq!(65536, session.delivered());
}

#[test]
fn a_failed_read_ends_the_stream_early() {
    let mut session = StreamSession::start();
    assert_eq!(StreamAction::Forward, session.step(StreamEvent::Read(CHUNK_SIZE)));
    assert_eq!(StreamAction::Read, session.step(StreamEvent::Accepted));
    assert_eq!(StreamAction::AwaitExit, session.step(StreamEvent::ReadFailed));
    assert_eq!(Phase::Draining, session.phase());
    assert!(session.is_truncated());
    assert_eq!(StreamAction::AwaitExit, session.step(StreamEvent::Read(CHUNK_SIZE)));
    assert_eq!(StreamAction::Close, session.step(StreamEvent::Exited(Some(1))));
    assert_eq!(Some(1), session.exit_code());
    assert!(!session.exited_cleanly());
    assert_eq!(65536, session.delivered());
}

#[test]
fn a_consumer_who_leaves_while_the_process_drains() {
    let mut session = StreamSession::start();
    assert_eq!(StreamAction::AwaitExit, session.step(StreamEvent::Read(0)));
    assert_eq!(StreamAction::Kill, session.step(StreamEvent::Rejected));
    assert_eq!(StreamAction::Close, session.step(StreamEvent::Exited(Some(0))));
    assert_eq!(0, session.delivered());
}

#[test]
fn a_finished_session_stays_finished() {
    let mut session = StreamSession::start();
    assert_eq!(StreamAction::Close, session.step(StreamEvent::Exited(Some(3))));
    assert_eq!(StreamAction::Close, session.step(StreamEvent::Read(CHUNK_SIZE)));
    assert_eq!(StreamAction::Close, session.step(StreamEvent::Accepted));
    assert_eq!(StreamAction::Close, session.step(StreamEvent::Rejected));
    assert_eq!(StreamAction::Close, session.step(StreamEvent::Exited(Some(0))));
    assert_eq!(Some(3), session.exit_code());
    assert!(!session.is_truncated());
    assert_eq!(0, session.chunks());
}

#[test]
fn an_event_out_of_place_changes_nothing() {
    let mut session = StreamSession::start();
    assert_eq!(StreamAction::Read, session.step(StreamEvent::Accepted));
    assert_eq!(0, session.chunks());
    assert_eq!(StreamAction::Forward, session.step(StreamEvent::Read(CHUNK_SIZE + 1)));
    assert_eq!(StreamAction::Forward, session.step(StreamEvent::Read(CHUNK_SIZE)));
    assert_eq!(StreamAction::Forward, session.step(StreamEvent::ReadFailed));
    assert!(!session.is_truncated());
    assert_eq!(StreamAction::Read, session.step(StreamEvent::Accepted));
    assert_eq!(1, session.chunks());
}
