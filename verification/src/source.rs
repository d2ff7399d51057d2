//! The audio source of one voice channel, driven once per tick.
//!
//! A tick is made of at most two calls. `begin_frame` looks at the queue and
//! the skip signal and says what the tick needs from outside: nothing, a new
//! decoder for the front song, or the next bytes of the running decoder. The
//! owner does that work and reports it with `decoder_started` or
//! `read_frame`. The source never waits: what takes time happens between
//! the calls, with neither the queue nor the signal borrowed.
//!
//! The source owns the decoder of the track that streams, and nothing else
//! does. To the source a decoder is a value of any type `D`: it keeps the one
//! it is given while it streams and drops it when the track ends, fails or
//! is skipped, and when the source itself is dropped.

use crate::decoder::{fills, outcome_of, read_samples, samples_of, ReadOutcome};
use crate::queue::{without_front, PlaybackQueue};
use crate::skip::SkipSignal;
use crate::song::Song;
use vstd::prelude::*;

verus! {

/// Where the source stands between two ticks.
#[derive(Debug, PartialEq, Eq, Clone, Copy, Structural)]
pub enum PlayingState {
    /// No tick has happened yet.
    Fresh,
    /// No track is streaming.
    Idle,
    /// A decoder is running for the front song.
    Streaming,
}

/// What a tick needs from outside before it can end.
#[derive(Debug, PartialEq, Eq)]
pub enum FrameStep {
    /// Nothing: the frame is silent and the tick is over.
    Silence,
    /// A decoder for this song, the front of the queue. The tick ends with
    /// `decoder_started`; its frame is silent either way.
    StartDecoder(Song),
    /// The bytes of one frame from the running decoder. The tick ends with
    /// `read_frame`.
    ReadSamples,
}

/// All that a tick reads and changes, as mathematical values.
pub struct Session {
    /// Where the source stands.
    pub state: PlayingState,
    /// The channel's queue, front first.
    pub queue: Seq<Song>,
    /// Whether a skip is pending.
    pub skip: bool,
}

/// The first half of a tick: the session it leaves and what it asks for.
///
/// A fresh source becomes idle. An idle source asks for a decoder when a
/// song is queued, and changes nothing. A streaming source with a skip
/// pending takes the skip, drops the front song and becomes idle; with none
/// pending it asks for the next frame.
pub open spec fn begun(session: Session) -> (Session, FrameStep) {
    match session.state {
        PlayingState::Fresh => (
            Session { state: PlayingState::Idle, ..session },
            FrameStep::Silence,
        ),
        PlayingState::Idle => if session.queue.len() == 0 {
            (session, FrameStep::Silence)
        } else {
            (session, FrameStep::StartDecoder(session.queue[0]))
        },
        PlayingState::Streaming => if session.skip {
            (
                Session {
                    state: PlayingState::Idle,
                    queue: without_front(session.queue),
                    skip: SkipSignal::consumed(session.skip).1,
                },
                FrameStep::Silence,
            )
        } else {
            (session, FrameStep::ReadSamples)
        },
    }
}

/// The state after an attempt to start a decoder: an idle source whose
/// decoder started is streaming; anything else leaves the state alone.
pub open spec fn started(state: PlayingState, success: bool) -> PlayingState {
    if state is Idle && success {
        PlayingState::Streaming
    } else {
        state
    }
}

/// The state and the queue after a read, and the number of samples in the
/// frame.
///
/// A streaming source with a full frame goes on streaming and emits it.
/// When the stream ended or failed instead, the front song is dropped, the
/// source becomes idle and the frame is silent. A source that is not
/// streaming has asked for no read: nothing changes.
pub open spec fn read_done(state: PlayingState, queue: Seq<Song>, outcome: ReadOutcome) -> (
    PlayingState,
    Seq<Song>,
    usize,
) {
    if state is Streaming {
        match outcome {
            ReadOutcome::Filled(count) => (state, queue, count),
            _ => (PlayingState::Idle, without_front(queue), 0usize),
        }
    } else {
        (state, queue, 0usize)
    }
}

/// The decoder that a source holds once a call has left it in `state`, when
/// it held `held` before: the same one while it streams, none otherwise.
pub open spec fn kept<D>(state: PlayingState, held: Option<D>) -> Option<D> {
    if state is Streaming {
        held
    } else {
        None
    }
}

/// Where playback stands, with the decoder of the track that streams.
#[derive(Debug)]
enum Playback<D> {
    Fresh,
    Idle,
    Streaming(D),
}

/// The source of one channel: it remembers where playback stands and
/// whether the channel is stereo, and owns the running decoder.
#[derive(Debug)]
pub struct QueuedSource<D> {
    stereo: bool,
    playback: Playback<D>,
}

impl<D> QueuedSource<D> {
    /// Where the source stands.
    pub closed spec fn state(&self) -> PlayingState {
        match self.playback {
            Playback::Fresh => PlayingState::Fresh,
            Playback::Idle => PlayingState::Idle,
            Playback::Streaming(_) => PlayingState::Streaming,
        }
    }

    /// The decoder that the source holds.
    pub closed spec fn decoder(&self) -> Option<D> {
        match self.playback {
            Playback::Streaming(decoder) => Some(decoder),
            _ => None,
        }
    }

    /// Whether the channel is stereo.
    pub closed spec fn stereo(&self) -> bool {
        self.stereo
    }

    /// The session that the source forms with a queue and a signal.
    pub open spec fn session(&self, queue: &PlaybackQueue, skip: &SkipSignal) -> Session {
        Session { state: self.state(), queue: queue@, skip: skip.pending() }
    }

    /// A source holds a decoder exactly while it streams.
    pub proof fn lemma_decoder_while_streaming(&self)
        ensures
            self.decoder() is Some <==> self.state() is Streaming,
    {
    }

    /// A source that has seen no tick, for a stereo channel.
    pub fn new() -> (source: QueuedSource<D>)
        ensures
            source.state() is Fresh,
            source.decoder() is None,
            source.stereo(),
    {
        QueuedSource { stereo: true, playback: Playback::Fresh }
    }

    /// Whether frames hold two interleaved channels, left first.
    pub fn is_stereo(&self) -> (stereo: bool)
        ensures
            stereo == self.stereo(),
    {
        self.stereo
    }

    /// Where the source stands.
    pub fn playing_state(&self) -> (state: PlayingState)
        ensures
            state == self.state(),
    {
        match self.playback {
            Playback::Fresh => PlayingState::Fresh,
            Playback::Idle => PlayingState::Idle,
            Playback::Streaming(_) => PlayingState::Streaming,
        }
    }

    /// Whether a decoder is running for the front song.
    pub fn is_streaming(&self) -> (streaming: bool)
        ensures
            streaming == (self.state() is Streaming),
    {
        match self.playback {
            Playback::Streaming(_) => true,
            _ => false,
        }
    }

    /// The running decoder, for the owner to read its output from. The
    /// source holds whatever the decoder has become when the borrow ends.
    pub fn decoder_mut(&mut self) -> (decoder: Option<&mut D>)
        ensures
            final(self).state() == old(self).state(),
            final(self).stereo() == old(self).stereo(),
            match decoder {
                Some(running) => old(self).decoder() == Some(*running) && final(self).decoder()
                    == Some(*final(running)),
                None => old(self).decoder() is None && final(self).decoder() is None,
            },
    {
        match &mut self.playback {
            Playback::Streaming(running) => Some(running),
            _ => None,
        }
    }

    /// Begins a tick and says what it needs from outside. The decoder is
    /// dropped when the tick takes a skip.
    pub fn begin_frame(&mut self, queue: &mut PlaybackQueue, skip: &mut SkipSignal) -> (step:
        FrameStep)
        ensures
            (final(self).session(final(queue), final(skip)), step) == begun(
                old(self).session(old(queue), old(skip)),
            ),
            final(self).decoder() == kept(final(self).state(), old(self).decoder()),
            final(self).stereo() == old(self).stereo(),
    {
        match self.playback {
            Playback::Fresh => {
                self.playback = Playback::Idle;
                FrameStep::Silence
            },
            Playback::Idle => {
                match queue.peek_front() {
                    Some(song) => FrameStep::StartDecoder(song.clone()),
                    None => FrameStep::Silence,
                }
            },
            Playback::Streaming(_) => {
                if skip.is_pending() {
                    let _ = skip.consume_if_set();
                    let _ = queue.pop_front();
                    self.playback = Playback::Idle;
                    FrameStep::Silence
                } else {
                    FrameStep::ReadSamples
                }
            },
        }
    }

    /// Ends a tick that asked for a decoder. `decoder` is the one that was
    /// started, if one was. The answer says whether the source keeps it: it
    /// does when it was idle, and the song is then announced as now playing.
    /// A decoder that is not kept is dropped. After a failed start the queue
    /// still holds the song, and the next tick asks again.
    pub fn decoder_started(&mut self, decoder: Option<D>) -> (retained: bool)
        ensures
            final(self).state() == started(old(self).state(), decoder is Some),
            retained == (old(self).state() is Idle && decoder is Some),
            final(self).decoder() == (if old(self).state() is Idle {
                decoder
            } else {
                old(self).decoder()
            }),
            final(self).stereo() == old(self).stereo(),
    {
        match self.playback {
            Playback::Idle => {
                match decoder {
                    Some(running) => {
                        self.playback = Playback::Streaming(running);
                        true
                    },
                    None => false,
                }
            },
            _ => false,
        }
    }

    /// Ends a tick that asked for a frame. `data` holds the bytes that the
    /// read brought and `failed` says that the stream reported an error.
    /// The answer is the number of samples written to `buffer`: all of it
    /// when `data` fills the frame, and none otherwise. With none, the
    /// buffer is as it was, the front song and the decoder are dropped and
    /// the source is idle.
    pub fn read_frame(
        &mut self,
        queue: &mut PlaybackQueue,
        data: &[u8],
        failed: bool,
        buffer: &mut [i16],
    ) -> (written: usize)
        ensures
            (final(self).state(), final(queue)@, written) == read_done(
                old(self).state(),
                old(queue)@,
                outcome_of(data@, failed, old(buffer)@.len()),
            ),
            final(buffer)@ == (if old(self).state() is Streaming && fills(
                data@,
                old(buffer)@.len(),
            ) {
                samples_of(data@, old(buffer)@.len())
            } else {
                old(buffer)@
            }),
            final(self).decoder() == kept(final(self).state(), old(self).decoder()),
            final(self).stereo() == old(self).stereo(),
    {
        match self.playback {
            Playback::Streaming(_) => {
                match read_samples(data, failed, buffer) {
                    ReadOutcome::Filled(count) => count,
                    _ => {
                        let _ = queue.pop_front();
                        self.playback = Playback::Idle;
                        0
                    },
                }
            },
            _ => 0,
        }
    }
}

/// Makes the source of a channel that begins playback: it has seen no
/// tick, holds no decoder, and its frames are stereo. The queue and the
/// skip signal of the channel stay with the caller, who lends them to every
/// tick.
pub fn create_queued_source<D>() -> (source: QueuedSource<D>)
    ensures
        source.state() is Fresh,
        source.decoder() is None,
        source.stereo(),
{
    QueuedSource::new()
}

} // verus!
