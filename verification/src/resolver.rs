//! Looking a track up: how the resolver is asked, and what its answer says.
//!
//! The resolver is `youtube-dl`. The program that embeds the crate runs it
//! with the arguments given here and hands over what it printed: the title
//! on the first line and the duration on the second.

use crate::song::{Song, SongInfo};
use crate::text::{chars_of, length_until, position_of};
use vstd::prelude::*;

verus! {

/// The resolver's arguments for a locator: print the title and the duration
/// of one track, download nothing, and search for a locator that is no URL.
pub open spec fn youtube_dl_argument_text(link: Seq<char>) -> Seq<Seq<char>> {
    seq![
        "--no-warnings"@,
        "-e"@,
        "--get-duration"@,
        "--no-playlist"@,
        "--skip-download"@,
        "--default-search=ytsearch"@,
        link,
    ]
}

/// The arguments with which `youtube-dl` looks a locator up.
pub fn youtube_dl_arguments(link: &str) -> (arguments: Vec<String>)
    ensures
        arguments.deep_view() == youtube_dl_argument_text(link@),
{
    let mut arguments: Vec<String> = Vec::new();
    arguments.push(String::from_str("--no-warnings"));
    arguments.push(String::from_str("-e"));
    arguments.push(String::from_str("--get-duration"));
    arguments.push(String::from_str("--no-playlist"));
    arguments.push(String::from_str("--skip-download"));
    arguments.push(String::from_str("--default-search=ytsearch"));
    arguments.push(String::from_str(link));
    proof {
        assert(arguments.deep_view() =~= youtube_dl_argument_text(link@));
    }
    arguments
}

/// How many characters stand before the first line feed of `text`, or in
/// all of it when it has none.
pub open spec fn line_length(text: Seq<char>) -> nat {
    length_until(text, '\n')
}

/// The first line of `text`, without its line ending. A line ends at a line
/// feed, or at a carriage return and a line feed; the last line may end with
/// the text. A text with no characters has an empty first line.
pub open spec fn first_line(text: Seq<char>) -> Seq<char> {
    let length = line_length(text) as int;
    if 0 < length < text.len() && text[length - 1] == '\r' {
        text.subrange(0, length - 1)
    } else {
        text.subrange(0, length)
    }
}

/// What follows the first line of `text` and its line ending.
pub open spec fn after_first_line(text: Seq<char>) -> Seq<char> {
    let length = line_length(text) as int;
    if length < text.len() {
        text.subrange(length + 1, text.len() as int)
    } else {
        Seq::empty()
    }
}

/// The song that the resolver's answer describes: its title is the first
/// line of the answer and its duration the second; a line that is missing
/// counts as empty.
pub open spec fn song_info_of(link: Seq<char>, user: Seq<char>, output: Seq<char>) -> SongInfo {
    SongInfo {
        link,
        title: first_line(output),
        user,
        duration: first_line(after_first_line(output)),
    }
}

/// The line of `text` that begins at `from` and ends before `end`, where a
/// line feed stands unless the text ends there.
fn line_text(text: &str, chars: &Vec<char>, from: usize, end: usize) -> (line: String)
    requires
        chars@ == text@,
        from <= end <= chars@.len(),
        end == from + line_length(chars@.skip(from as int)),
    ensures
        line@ == first_line(text@.skip(from as int)),
{
    let ghost rest = text@.skip(from as int);
    let stop: usize = if from < end && end < chars.len() && chars[end - 1] == '\r' {
        end - 1
    } else {
        end
    };
    proof {
        if from < end {
            assert(rest[end - from - 1] == chars@[end - 1]);
        }
        assert(text@.subrange(from as int, stop as int) =~= rest.subrange(0, stop - from));
    }
    String::from_str(text.substring_char(from, stop))
}

/// Makes the song that the resolver's answer describes. `link` is the
/// locator that was looked up, `user` the one who asked, and `output` what
/// the resolver printed.
pub fn parse_song_info(link: String, user: String, output: &str) -> (song: Song)
    ensures
        song@ == song_info_of(link@, user@, output@),
{
    let chars = chars_of(output);
    let first_end = position_of(&chars, 0, '\n');
    proof {
        assert(chars@.skip(0) =~= output@);
    }
    let title = line_text(output, &chars, 0, first_end);
    let duration = if first_end < chars.len() {
        let second = first_end + 1;
        let second_end = position_of(&chars, second, '\n');
        proof {
            assert(output@.skip(second as int) =~= after_first_line(output@));
        }
        line_text(output, &chars, second, second_end)
    } else {
        proof {
            assert(first_line(Seq::<char>::empty()) =~= Seq::<char>::empty());
        }
        String::new()
    };
    Song::new(link, title, user, duration)
}

} // verus!
