use sporespawn::message::{
    enqueued, listing, now_playing, removed, GUIDE, NOTHING_PLAYING, NOTHING_TO_UNDO,
    NOT_IN_VOICE_CHANNEL, SKIPPED, SONG_NOT_FOUND,
};
use sporespawn::Song;

fn sandstorm() -> Song {
    Song::new(
        "darude sandstorm".to_string(),
        "Darude - Sandstorm".to_string(),
        "dave".to_string(),
        "3:45".to_string(),
    )
}

fn other() -> Song {
    Song::new("x".to_string(), "Él".to_string(), "eve".to_string(), "0:07".to_string())
}

#[test]
fn now_playing_names_title_duration_and_user() {
    assert_eq!(
        now_playing(&sandstorm()),
        "Now Playing: *Darude - Sandstorm* [3:45] requested by **dave**"
    );
}

#[test]
fn enqueued_names_title_and_duration() {
    assert_eq!(enqueued(&sandstorm()), "Enqueued: *Darude - Sandstorm* [3:45]");
}

#[test]
fn removed_names_the_title() {
    assert_eq!(removed(&sandstorm()), "Removed *Darude - Sandstorm* from the queue");
}

#[test]
fn listing_has_one_line_for_each_song() {
    assert_eq!(listing(&Vec::new()), "**Song queue:**\n");
    assert_eq!(
        listing(&vec![sandstorm(), other()]),
        "**Song queue:**\n*Darude - Sandstorm* [3:45] requested by **dave**\n*Él* [0:07] requested by **eve**\n"
    );
}

#[test]
fn empty_fields_leave_the_frame_of_the_text() {
    let blank = Song::new(String::new(), String::new(), String::new(), String::new());
    assert_eq!(now_playing(&blank), "Now Playing: ** [] requested by ****");
    assert_eq!(enqueued(&blank), "Enqueued: ** []");
    assert_eq!(removed(&blank), "Removed ** from the queue");
}

#[test]
fn fixed_answers_read_as_they_should() {
    assert_eq!(NOT_IN_VOICE_CHANNEL, "You must be in a voice channel");
    assert_eq!(SONG_NOT_FOUND, "Sorry, could not find that song");
    assert_eq!(SKIPPED, "Skipped to the next song");
    assert_eq!(NOTHING_TO_UNDO, "The queue is already empty");
    assert_eq!(NOTHING_PLAYING, "No song is currently playing.");
}

#[test]
fn the_guide_names_every_command_on_a_line_of_its_own() {
    let lines: Vec<&str> = GUIDE.lines().collect();
    assert_eq!(
        lines,
        vec![
            "Quick Sporespawn Guide:",
            "**%join** - *Joins Sporespawn to the voice channel you are currently in*",
            "**%play <url/youtube-id/search string>** - *Plays the selected song*",
            "**%undo** - *Removes the latest queued song from the queue*",
            "**%skip** - *Skips the currently playing song*",
            "**%list** - *Lists the current song queue*",
            "**%now** - *Shows the currently playing song*",
            "**%quit** - *Stops any music playing and makes Sporespawn leave the voice channel*",
        ]
    );
    assert!(!GUIDE.ends_with('\n'));
}
