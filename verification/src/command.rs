//! Reading a chat message as a command.
//!
//! A message is a command word, and after the first space an argument. The
//! command word is read without regard to the case of its ASCII letters.

use crate::text::{chars_of, length_until, position_of};
use vstd::prelude::*;

verus! {

/// What a message asks for.
#[derive(Debug, PartialEq, Eq, Clone, Copy, Structural)]
pub enum Command {
    /// `%stop`: stop what plays on the channel.
    Stop,
    /// `%quit`: leave the voice channel.
    Quit,
    /// `%join`: join the sender's voice channel.
    Join,
    /// `%play`: queue the track that the argument names.
    Play,
    /// `%skip`: abandon the track that plays.
    Skip,
    /// `%undo`: take back the newest queued track.
    Undo,
    /// `%list`: show the tracks that wait.
    List,
    /// `%now`: show the track that plays.
    Now,
    /// `%help`: show the guide.
    Help,
    /// Anything else: no command.
    Other,
}

/// The number that stands for a character when case is not to count: that
/// of the lower-case letter for an ASCII capital, the character's own
/// otherwise.
pub open spec fn folded(c: char) -> int {
    if 'A' <= c <= 'Z' {
        c as int + 32
    } else {
        c as int
    }
}

/// Whether two texts are the same but for the case of their ASCII letters.
pub open spec fn same_ignoring_case(left: Seq<char>, right: Seq<char>) -> bool {
    &&& left.len() == right.len()
    &&& forall|i: int| 0 <= i < left.len() ==> folded(#[trigger] left[i]) == folded(right[i])
}

/// The command word of a message: what stands before its first space.
pub open spec fn command_word(content: Seq<char>) -> Seq<char> {
    content.take(length_until(content, ' ') as int)
}

/// The argument of a message: all that follows its first space.
pub open spec fn argument_of(content: Seq<char>) -> Seq<char> {
    let length = length_until(content, ' ') as int;
    if length < content.len() {
        content.skip(length + 1)
    } else {
        Seq::empty()
    }
}

/// The command that a command word names.
pub open spec fn command_named(word: Seq<char>) -> Command {
    if same_ignoring_case(word, "%stop"@) {
        Command::Stop
    } else if same_ignoring_case(word, "%quit"@) {
        Command::Quit
    } else if same_ignoring_case(word, "%join"@) {
        Command::Join
    } else if same_ignoring_case(word, "%play"@) {
        Command::Play
    } else if same_ignoring_case(word, "%skip"@) {
        Command::Skip
    } else if same_ignoring_case(word, "%undo"@) {
        Command::Undo
    } else if same_ignoring_case(word, "%list"@) {
        Command::List
    } else if same_ignoring_case(word, "%now"@) {
        Command::Now
    } else if same_ignoring_case(word, "%help"@) {
        Command::Help
    } else {
        Command::Other
    }
}

/// The number that stands for a character when case is not to count.
fn fold(c: char) -> (code: u32)
    ensures
        code == folded(c),
{
    if 'A' <= c && c <= 'Z' {
        c as u32 + 32
    } else {
        c as u32
    }
}

/// Whether the first `length` characters of `chars` are `name` but for the
/// case of their ASCII letters.
fn names(chars: &Vec<char>, length: usize, name: &str) -> (same: bool)
    requires
        length <= chars@.len(),
    ensures
        same == same_ignoring_case(chars@.take(length as int), name@),
{
    let name_chars = chars_of(name);
    if name_chars.len() != length {
        return false;
    }
    let ghost word = chars@.take(length as int);
    let mut index: usize = 0;
    while index < length
        invariant
            length <= chars@.len(),
            name_chars@.len() == length,
            name_chars@ == name@,
            word == chars@.take(length as int),
            index <= length,
            forall|i: int| 0 <= i < index ==> folded(#[trigger] word[i]) == folded(name@[i]),
        decreases length - index,
    {
        if fold(chars[index]) != fold(name_chars[index]) {
            proof {
                assert(word[index as int] == chars@[index as int]);
            }
            return false;
        }
        proof {
            assert(word[index as int] == chars@[index as int]);
        }
        index = index + 1;
    }
    true
}

/// Reads a message: the command that its first word names, and its
/// argument.
pub fn parse_command(content: &str) -> (parsed: (Command, String))
    ensures
        parsed.0 == command_named(command_word(content@)),
        parsed.1@ == argument_of(content@),
{
    let chars = chars_of(content);
    let length = position_of(&chars, 0, ' ');
    proof {
        assert(chars@.skip(0) =~= content@);
    }
    let argument = if length < chars.len() {
        proof {
            assert(content@.subrange(length + 1, content@.len() as int) =~= content@.skip(
                length + 1,
            ));
        }
        String::from_str(content.substring_char(length + 1, chars.len()))
    } else {
        String::new()
    };
    let command = if names(&chars, length, "%stop") {
        Command::Stop
    } else if names(&chars, length, "%quit") {
        Command::Quit
    } else if names(&chars, length, "%join") {
        Command::Join
    } else if names(&chars, length, "%play") {
        Command::Play
    } else if names(&chars, length, "%skip") {
        Command::Skip
    } else if names(&chars, length, "%undo") {
        Command::Undo
    } else if names(&chars, length, "%list") {
        Command::List
    } else if names(&chars, length, "%now") {
        Command::Now
    } else if names(&chars, length, "%help") {
        Command::Help
    } else {
        Command::Other
    };
    (command, argument)
}

} // verus!
