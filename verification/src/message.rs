//! The words in which the channel is told about its songs.

use crate::song::{Song, SongInfo};
use vstd::prelude::*;

verus! {

/// The answer to a request to join from someone who is in no voice channel.
pub const NOT_IN_VOICE_CHANNEL: &'static str = "You must be in a voice channel";

/// The answer to a request for a song that the resolver did not find.
pub const SONG_NOT_FOUND: &'static str = "Sorry, could not find that song";

/// The confirmation that a skip was asked for.
pub const SKIPPED: &'static str = "Skipped to the next song";

/// The answer to a request to take back a song when none waits.
pub const NOTHING_TO_UNDO: &'static str = "The queue is already empty";

/// The answer to a request for the playing song when the queue is empty.
pub const NOTHING_PLAYING: &'static str = "No song is currently playing.";

/// The guide to the commands.
pub const GUIDE: &'static str = "Quick Sporespawn Guide:\n\
**%join** - *Joins Sporespawn to the voice channel you are currently in*\n\
**%play <url/youtube-id/search string>** - *Plays the selected song*\n\
**%undo** - *Removes the latest queued song from the queue*\n\
**%skip** - *Skips the currently playing song*\n\
**%list** - *Lists the current song queue*\n\
**%now** - *Shows the currently playing song*\n\
**%quit** - *Stops any music playing and makes Sporespawn leave the voice channel*";

/// How a song is shown: its title, its duration and who asked for it.
pub open spec fn entry_text(song: SongInfo) -> Seq<char> {
    "*"@ + song.title + "* ["@ + song.duration + "] requested by **"@ + song.user + "**"@
}

/// The announcement of the song that begins to play.
pub open spec fn now_playing_text(song: SongInfo) -> Seq<char> {
    "Now Playing: "@ + entry_text(song)
}

/// The confirmation that a song was queued.
pub open spec fn enqueued_text(song: SongInfo) -> Seq<char> {
    "Enqueued: *"@ + song.title + "* ["@ + song.duration + "]"@
}

/// The confirmation that a song was taken back.
pub open spec fn removed_text(song: SongInfo) -> Seq<char> {
    "Removed *"@ + song.title + "* from the queue"@
}

/// One line for each of `songs`, in order.
pub open spec fn entry_lines(songs: Seq<Song>) -> Seq<char>
    decreases songs.len(),
{
    if songs.len() == 0 {
        Seq::empty()
    } else {
        entry_lines(songs.drop_last()) + entry_text(songs.last()@) + "\n"@
    }
}

/// The list of the songs that wait: a heading, then one line for each.
pub open spec fn listing_text(songs: Seq<Song>) -> Seq<char> {
    "**Song queue:**\n"@ + entry_lines(songs)
}

/// Adds to `text` how `song` is shown.
fn append_entry(text: &mut String, song: &Song)
    ensures
        final(text)@ == old(text)@ + entry_text(song@),
{
    text.append("*");
    text.append(song.title());
    text.append("* [");
    text.append(song.duration());
    text.append("] requested by **");
    text.append(song.user());
    text.append("**");
    proof {
        assert(text@ =~= old(text)@ + entry_text(song@));
    }
}

/// The announcement of the song that begins to play.
pub fn now_playing(song: &Song) -> (text: String)
    ensures
        text@ == now_playing_text(song@),
{
    let mut text = String::from_str("Now Playing: ");
    append_entry(&mut text, song);
    text
}

/// The confirmation that `song` was queued.
pub fn enqueued(song: &Song) -> (text: String)
    ensures
        text@ == enqueued_text(song@),
{
    let mut text = String::from_str("Enqueued: *");
    text.append(song.title());
    text.append("* [");
    text.append(song.duration());
    text.append("]");
    text
}

/// The confirmation that `song` was taken back.
pub fn removed(song: &Song) -> (text: String)
    ensures
        text@ == removed_text(song@),
{
    let mut text = String::from_str("Removed *");
    text.append(song.title());
    text.append("* from the queue");
    text
}

/// The list of the songs that wait, in queue order.
pub fn listing(songs: &Vec<Song>) -> (text: String)
    ensures
        text@ == listing_text(songs@),
{
    let mut text = String::from_str("**Song queue:**\n");
    let mut index: usize = 0;
    while index < songs.len()
        invariant
            index <= songs@.len(),
            text@ == listing_text(songs@.take(index as int)),
        decreases songs@.len() - index,
    {
        let ghost before = text@;
        append_entry(&mut text, &songs[index]);
        text.append("\n");
        proof {
            let shown = songs@.take(index + 1);
            assert(shown.drop_last() =~= songs@.take(index as int));
            assert(shown.last() == songs@[index as int]);
            assert(text@ =~= listing_text(shown));
        }
        index = index + 1;
    }
    proof {
        assert(songs@.take(songs@.len() as int) =~= songs@);
    }
    text
}

} // verus!
