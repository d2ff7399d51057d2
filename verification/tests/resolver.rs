use sporespawn::{parse_song_info, youtube_dl_arguments, Song};

fn parsed(output: &str) -> (String, String) {
    let song = parse_song_info("link".to_string(), "carol".to_string(), output);
    assert_eq!(song.link(), "link");
    assert_eq!(song.user(), "carol");
    (song.title().to_string(), song.duration().to_string())
}

fn pair(title: &str, duration: &str) -> (String, String) {
    (title.to_string(), duration.to_string())
}

#[test]
fn youtube_dl_is_asked_for_title_and_duration() {
    assert_eq!(
        youtube_dl_arguments("darude sandstorm"),
        vec![
            "--no-warnings",
            "-e",
            "--get-duration",
            "--no-playlist",
            "--skip-download",
            "--default-search=ytsearch",
            "darude sandstorm",
        ]
    );
}

#[test]
fn title_and_duration_are_the_first_two_lines() {
    assert_eq!(parsed("Sandstorm\n3:45\n"), pair("Sandstorm", "3:45"));
    assert_eq!(parsed("Sandstorm\n3:45"), pair("Sandstorm", "3:45"));
    assert_eq!(parsed("Sandstorm\n3:45\nmore\nlines\n"), pair("Sandstorm", "3:45"));
    assert_eq!(
        parse_song_info("l".to_string(), "u".to_string(), "T\nD\n"),
        Song::new("l".to_string(), "T".to_string(), "u".to_string(), "D".to_string())
    );
}

#[test]
fn missing_lines_count_as_empty() {
    assert_eq!(parsed(""), pair("", ""));
    assert_eq!(parsed("Sandstorm"), pair("Sandstorm", ""));
    assert_eq!(parsed("Sandstorm\n"), pair("Sandstorm", ""));
    assert_eq!(parsed("\n"), pair("", ""));
    assert_eq!(parsed("\n3:45"), pair("", "3:45"));
    assert_eq!(parsed("\n\n"), pair("", ""));
}

#[test]
fn carriage_returns_before_line_feeds_are_dropped() {
    assert_eq!(parsed("Sandstorm\r\n3:45\r\n"), pair("Sandstorm", "3:45"));
    assert_eq!(parsed("\r\n\r\n"), pair("", ""));
    assert_eq!(parsed("a\r\r\nb"), pair("a\r", "b"));
    assert_eq!(parsed("a\rb\nc"), pair("a\rb", "c"));
}

#[test]
fn a_carriage_return_at_the_end_of_the_text_stays() {
    assert_eq!(parsed("Sandstorm\r"), pair("Sandstorm\r", ""));
    assert_eq!(parsed("Sandstorm\n3:45\r"), pair("Sandstorm", "3:45\r"));
    assert_eq!(parsed("\r"), pair("\r", ""));
}

#[test]
fn lines_may_hold_any_characters() {
    assert_eq!(parsed("Déjà vu – 夜\n1:02:03\n"), pair("Déjà vu – 夜", "1:02:03"));
    assert_eq!(parsed("ünï\r\n夜\r\n"), pair("ünï", "夜"));
}

#[test]
fn lines_are_those_of_the_standard_library() {
    for output in ["", "a", "a\n", "a\nb", "a\r\nb\r\n", "\n", "\r\n", "a\r", "a\n\nb", "\n\r\nq\n"] {
        let mut lines = output.lines();
        let title = lines.next().unwrap_or("");
        let duration = lines.next().unwrap_or("");
        assert_eq!(parsed(output), pair(title, duration));
    }
}
