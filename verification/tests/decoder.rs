use sporespawn::{mpv_arguments, read_samples, stream_locator, ReadOutcome};

#[test]
fn samples_are_read_low_byte_first() {
    let data = [0x18u8, 0xfc, 0x01, 0x00, 0x00, 0x01, 0xff, 0x7f, 0x00, 0x80, 0xff, 0xff];
    let mut buffer = [0i16; 6];
    assert_eq!(read_samples(&data, false, &mut buffer), ReadOutcome::Filled(6));
    assert_eq!(buffer, [-1000, 1, 256, 32767, -32768, -1]);
}

#[test]
fn a_full_frame_counts_even_after_a_failure() {
    let data = [0x34u8, 0x12];
    let mut buffer = [0i16; 1];
    assert_eq!(read_samples(&data, true, &mut buffer), ReadOutcome::Filled(1));
    assert_eq!(buffer, [0x1234]);
}

#[test]
fn bytes_beyond_the_frame_are_left_alone() {
    let data = [0x02u8, 0x00, 0x03, 0x00, 0x04, 0x00, 0x05];
    let mut buffer = [9i16; 2];
    assert_eq!(read_samples(&data, false, &mut buffer), ReadOutcome::Filled(2));
    assert_eq!(buffer, [2, 3]);
}

#[test]
fn a_short_read_is_the_end_of_the_stream() {
    let data = [0x02u8, 0x00, 0x03];
    let mut buffer = [7i16; 2];
    assert_eq!(read_samples(&data, false, &mut buffer), ReadOutcome::EndOfStream);
    assert_eq!(buffer, [7, 7]);
}

#[test]
fn an_empty_read_is_the_end_of_the_stream() {
    let mut buffer = [7i16; 4];
    assert_eq!(read_samples(&[], false, &mut buffer), ReadOutcome::EndOfStream);
    assert_eq!(buffer, [7, 7, 7, 7]);
}

#[test]
fn a_failed_read_is_an_error() {
    let data = [0x02u8, 0x00];
    let mut buffer = [7i16; 2];
    assert_eq!(read_samples(&data, true, &mut buffer), ReadOutcome::Error);
    assert_eq!(buffer, [7, 7]);
}

#[test]
fn an_empty_frame_is_always_full() {
    let mut buffer = [0i16; 0];
    assert_eq!(read_samples(&[], false, &mut buffer), ReadOutcome::Filled(0));
    assert_eq!(read_samples(&[1, 2, 3], true, &mut buffer), ReadOutcome::Filled(0));
}

#[test]
fn a_url_is_opened_as_it_is() {
    assert_eq!(stream_locator("http://example.org/a.ogg"), "http://example.org/a.ogg");
    assert_eq!(stream_locator("https://example.org/a"), "https://example.org/a");
    assert_eq!(stream_locator("http://"), "http://");
    assert_eq!(stream_locator("https://"), "https://");
    assert_eq!(stream_locator("https://é.example/夜"), "https://é.example/夜");
}

#[test]
fn other_locators_are_searched_for() {
    assert_eq!(stream_locator("darude sandstorm"), "ytdl://darude sandstorm");
    assert_eq!(stream_locator(""), "ytdl://");
    assert_eq!(stream_locator("htt"), "ytdl://htt");
    assert_eq!(stream_locator("émile http://"), "ytdl://émile http://");
}

#[test]
fn words_that_begin_with_http_are_searched_for() {
    assert_eq!(stream_locator("httpster mixtape"), "ytdl://httpster mixtape");
    assert_eq!(stream_locator("http"), "ytdl://http");
    assert_eq!(stream_locator("https"), "ytdl://https");
    assert_eq!(stream_locator("http:"), "ytdl://http:");
    assert_eq!(stream_locator("http:/"), "ytdl://http:/");
    assert_eq!(stream_locator("https:/x"), "ytdl://https:/x");
    assert_eq!(stream_locator("http error 404 song"), "ytdl://http error 404 song");
    assert_eq!(mpv_arguments("httpster mixtape")[0], "ytdl://httpster mixtape");
}

#[test]
fn the_scheme_is_read_in_lower_case() {
    assert_eq!(stream_locator("Http://example.org"), "ytdl://Http://example.org");
    assert_eq!(stream_locator("HTTPS://example.org"), "ytdl://HTTPS://example.org");
}

#[test]
fn mpv_is_told_to_write_raw_stereo_samples() {
    assert_eq!(
        mpv_arguments("some song"),
        vec![
            "ytdl://some song",
            "--really-quiet",
            "--ytdl-raw-options=default-search=ytsearch:format=bestaudio/best",
            "--no-video",
            "--o=-",
            "--of=s16le",
            "--audio-samplerate=48000",
            "--af=lavrresample",
            "--audio-channels=stereo",
            "--audio-stream-silence=yes",
            "--audio-wait-open=1",
            "--volume=75",
            "--cache=yes",
            "--cache-secs=2",
        ]
    );
    assert_eq!(mpv_arguments("https://example.org/x")[0], "https://example.org/x");
}
