//! Queued audio playback for a voice channel that is polled once per tick.
//!
//! The crate holds what decides what a voice channel plays:
//!
//! - [`Song`], the descriptor of a track;
//! - [`PlaybackQueue`], the songs of a channel in playing order;
//! - [`SkipSignal`], the request to abandon the track that plays;
//! - [`decoder`], the arguments of the decoder process and the meaning of
//!   the bytes it writes;
//! - [`QueuedSource`], the state machine that is driven once per tick, and
//!   [`ticks`], what it does over any number of ticks;
//! - [`resolver`], [`command`] and [`message`]: how a track is looked up,
//!   how a chat message is read, and the words of the answers.
//!
//! Starting the decoder process, reading its output, locking what two
//! threads share and talking to the chat service are left to the program
//! that embeds the crate: it hands plain values in and acts on the plain
//! values that it gets back.

pub mod command;
pub mod decoder;
pub mod message;
pub mod queue;
pub mod resolver;
pub mod skip;
pub mod song;
pub mod source;
pub mod text;
pub mod ticks;

pub use command::{parse_command, Command};
pub use decoder::{mpv_arguments, read_samples, stream_locator, ReadOutcome};
pub use queue::{PlaybackQueue, QueueError};
pub use resolver::{parse_song_info, youtube_dl_arguments};
pub use skip::SkipSignal;
pub use song::{Song, SongInfo};
pub use source::{create_queued_source, FrameStep, PlayingState, QueuedSource};
