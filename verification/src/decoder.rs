//! The decoder process: how it is to be started, and what its output means.
//!
//! The decoder is `mpv`, told to write signed 16-bit samples, low byte
//! first, at 48 kHz in stereo, to its standard output. The program that owns
//! the process starts it with the arguments given here, reads its output and
//! hands the bytes over; this module says what a read amounts to and fills
//! the frame.

use crate::text::{begins_with, chars_of, starts_with};
use byteorder::{ByteOrder, LittleEndian};
use vstd::prelude::*;

verus! {

/// How an attempt to fill a frame ended.
#[derive(Debug, PartialEq, Eq, Clone, Copy)]
pub enum ReadOutcome {
    /// The frame is full; the number is how many samples were written.
    Filled(usize),
    /// The stream ended before the frame was full.
    EndOfStream,
    /// The stream failed before the frame was full.
    Error,
}

/// The sample that two bytes stand for, low byte first, in two's complement:
/// a number from -32768 to 32767.
pub open spec fn sample_of(low: u8, high: u8) -> int {
    let unsigned = low as int + 256 * (high as int);
    if unsigned >= 32768 {
        unsigned - 65536
    } else {
        unsigned
    }
}

/// The first `count` samples that `data` holds.
pub open spec fn samples_of(data: Seq<u8>, count: nat) -> Seq<i16> {
    Seq::new(count, |i: int| sample_of(data[2 * i], data[2 * i + 1]) as i16)
}

/// Whether `data` holds enough bytes for `count` samples.
pub open spec fn fills(data: Seq<u8>, count: nat) -> bool {
    data.len() >= 2 * count
}

/// How a read ends that brought `data` for a frame of `count` samples;
/// `failed` says that the stream reported an error and not its end.
pub open spec fn outcome_of(data: Seq<u8>, failed: bool, count: nat) -> ReadOutcome {
    if fills(data, count) {
        ReadOutcome::Filled(count as usize)
    } else if failed {
        ReadOutcome::Error
    } else {
        ReadOutcome::EndOfStream
    }
}

/// Calls `byteorder::LittleEndian::read_i16`, which reads the first two
/// bytes of `pair` as a signed 16-bit number, low byte first. It panics on
/// fewer than two bytes, so two are required.
#[verifier::external_body]
fn read_sample(pair: &[u8]) -> (sample: i16)
    requires
        pair@.len() >= 2,
    ensures
        sample as int == sample_of(pair@[0], pair@[1]),
{
    LittleEndian::read_i16(pair)
}

/// Fills `buffer` from the bytes that one read of the decoder's output
/// brought.
///
/// With two bytes for every sample of the frame, the frame is decoded from
/// the front of `data` and the outcome is `Filled` with the frame's length.
/// With fewer, the buffer is left as it was and the outcome says whether the
/// stream ended or failed.
pub fn read_samples(data: &[u8], failed: bool, buffer: &mut [i16]) -> (outcome: ReadOutcome)
    ensures
        outcome == outcome_of(data@, failed, old(buffer)@.len()),
        final(buffer)@ == (if fills(data@, old(buffer)@.len()) {
            samples_of(data@, old(buffer)@.len())
        } else {
            old(buffer)@
        }),
{
    let count: usize = buffer.len();
    let available: usize = data.len();
    if available / 2 < count {
        return if failed {
            ReadOutcome::Error
        } else {
            ReadOutcome::EndOfStream
        };
    }
    let mut index: usize = 0;
    while index < count
        invariant
            count == buffer@.len(),
            count == old(buffer)@.len(),
            available == data@.len(),
            available >= 2 * count,
            index <= count,
            forall|i: int| 0 <= i < index ==> buffer@[i] == samples_of(data@, count as nat)[i],
        decreases count - index,
    {
        let pair = vstd::slice::slice_subrange(data, 2 * index, 2 * index + 2);
        let sample = read_sample(pair);
        buffer[index] = sample;
        index = index + 1;
    }
    proof {
        assert(buffer@ =~= samples_of(data@, count as nat));
    }
    ReadOutcome::Filled(count)
}

/// Whether a locator is a URL: it begins with `http://` or with `https://`.
/// Words that merely begin with the letters `http` are words to search for.
pub open spec fn is_url(link: Seq<char>) -> bool {
    begins_with(link, "http://"@) || begins_with(link, "https://"@)
}

/// What the decoder is asked to open for a locator: a URL as it is, anything
/// else as words to search for.
pub open spec fn locator_text(link: Seq<char>) -> Seq<char> {
    if is_url(link) {
        link
    } else {
        "ytdl://"@ + link
    }
}

/// The decoder's arguments for a locator: what to open, then the settings
/// that make it write raw little-endian 16-bit stereo samples at 48 kHz to
/// its standard output, without video.
pub open spec fn mpv_argument_text(link: Seq<char>) -> Seq<Seq<char>> {
    seq![
        locator_text(link),
        "--really-quiet"@,
        "--ytdl-raw-options=default-search=ytsearch:format=bestaudio/best"@,
        "--no-video"@,
        "--o=-"@,
        "--of=s16le"@,
        "--audio-samplerate=48000"@,
        "--af=lavrresample"@,
        "--audio-channels=stereo"@,
        "--audio-stream-silence=yes"@,
        "--audio-wait-open=1"@,
        "--volume=75"@,
        "--cache=yes"@,
        "--cache-secs=2"@,
    ]
}

/// What the decoder is asked to open for a locator.
pub fn stream_locator(link: &str) -> (locator: String)
    ensures
        locator@ == locator_text(link@),
{
    let chars = chars_of(link);
    if starts_with(&chars, "http://") || starts_with(&chars, "https://") {
        String::from_str(link)
    } else {
        String::from_str("ytdl://").concat(link)
    }
}

/// The arguments with which `mpv` decodes a locator.
pub fn mpv_arguments(link: &str) -> (arguments: Vec<String>)
    ensures
        arguments.deep_view() == mpv_argument_text(link@),
{
    let mut arguments: Vec<String> = Vec::new();
    arguments.push(stream_locator(link));
    arguments.push(String::from_str("--really-quiet"));
    arguments.push(String::from_str("--ytdl-raw-options=default-search=ytsearch:format=bestaudio/best"));
    arguments.push(String::from_str("--no-video"));
    arguments.push(String::from_str("--o=-"));
    arguments.push(String::from_str("--of=s16le"));
    arguments.push(String::from_str("--audio-samplerate=48000"));
    arguments.push(String::from_str("--af=lavrresample"));
    arguments.push(String::from_str("--audio-channels=stereo"));
    arguments.push(String::from_str("--audio-stream-silence=yes"));
    arguments.push(String::from_str("--audio-wait-open=1"));
    arguments.push(String::from_str("--volume=75"));
    arguments.push(String::from_str("--cache=yes"));
    arguments.push(String::from_str("--cache-secs=2"));
    proof {
        assert(arguments.deep_view() =~= mpv_argument_text(link@));
    }
    arguments
}

} // verus!
