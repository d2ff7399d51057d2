//! What the source does over many ticks, whatever the outside answers.
//!
//! A tick is `begin_frame` followed by the call that reports the work it
//! asked for. The functions here put the two halves together and state what
//! runs of ticks amount to.

use crate::decoder::ReadOutcome;
use crate::queue::without_front;
use crate::skip::SkipSignal;
use crate::song::Song;
use crate::source::{begun, read_done, started, FrameStep, PlayingState, Session};
use vstd::prelude::*;

verus! {

/// What the outside would answer during one tick: whether a decoder starts
/// if one is asked for, and how a read ends if one is asked for.
pub struct Answer {
    /// Whether an attempt to start a decoder succeeds.
    pub starts: bool,
    /// How an attempt to read a frame ends.
    pub read: ReadOutcome,
}

/// What one tick gave.
pub struct Frame {
    /// What the tick asked for.
    pub step: FrameStep,
    /// How many samples the frame holds; none means silence.
    pub samples: usize,
    /// The song that was announced as now playing, if one was.
    pub announced: Option<Song>,
}

/// One whole tick: the session it leaves and the frame it gives.
pub open spec fn tick(session: Session, answer: Answer) -> (Session, Frame) {
    let (next, step) = begun(session);
    match step {
        FrameStep::Silence => (next, Frame { step, samples: 0, announced: None }),
        FrameStep::StartDecoder(song) => (
            Session { state: started(next.state, answer.starts), ..next },
            Frame {
                step,
                samples: 0,
                announced: if answer.starts {
                    Some(song)
                } else {
                    None
                },
            },
        ),
        FrameStep::ReadSamples => {
            let (state, queue, samples) = read_done(next.state, next.queue, answer.read);
            (Session { state, queue, ..next }, Frame { step, samples, announced: None })
        },
    }
}

/// The session after one tick for each of `answers`, in order.
pub open spec fn run(session: Session, answers: Seq<Answer>) -> Session
    decreases answers.len(),
{
    if answers.len() == 0 {
        session
    } else {
        tick(run(session, answers.drop_last()), answers.last()).0
    }
}

/// The frame that tick number `index` of a run gives, counting from zero.
pub open spec fn frame_at(session: Session, answers: Seq<Answer>, index: int) -> Frame {
    tick(run(session, answers.take(index)), answers[index]).1
}

/// Whether a frame is silent and announces nothing.
pub open spec fn is_quiet(frame: Frame) -> bool {
    frame.samples == 0 && frame.announced is None
}

/// A run up to tick `index` is the same whether or not the last tick of
/// `answers` is counted, as long as `index` stands before it; up to the
/// length of `answers` it is the whole run.
proof fn lemma_prefix_of_longer_run(session: Session, answers: Seq<Answer>, index: int)
    requires
        0 <= index <= answers.len(),
    ensures
        index < answers.len() ==> run(session, answers.take(index)) == run(
            session,
            answers.drop_last().take(index),
        ),
        index == answers.len() ==> run(session, answers.take(index)) == run(session, answers),
{
    if index < answers.len() {
        assert(answers.take(index) == answers.drop_last().take(index));
    } else {
        assert(answers.take(index) == answers);
    }
}

/// A frame of a run is the frame of the run without its last tick, and the
/// last frame is the one that the last tick gives after the shorter run.
proof fn lemma_frame_of_longer_run(session: Session, answers: Seq<Answer>, index: int)
    requires
        0 <= index < answers.len(),
    ensures
        index < answers.len() - 1 ==> frame_at(session, answers, index) == frame_at(
            session,
            answers.drop_last(),
            index,
        ),
        index == answers.len() - 1 ==> frame_at(session, answers, index) == tick(
            run(session, answers.drop_last()),
            answers.last(),
        ).1,
{
    if index < answers.len() - 1 {
        assert(answers.take(index) == answers.drop_last().take(index));
        assert(answers[index] == answers.drop_last()[index]);
    } else {
        assert(answers.take(index) == answers.drop_last());
    }
}

/// With nothing queued, a source that is not streaming stays silent for
/// ever and never streams: after any number of ticks it is idle (or still
/// fresh, before the first one), the queue is empty, and every frame was
/// silent, with no decoder asked for.
pub proof fn lemma_empty_queue_is_silent(session: Session, answers: Seq<Answer>)
    requires
        !(session.state is Streaming),
        session.queue.len() == 0,
    ensures
        run(session, answers).state == (if answers.len() == 0 {
            session.state
        } else {
            PlayingState::Idle
        }),
        run(session, answers).queue == session.queue,
        run(session, answers).skip == session.skip,
        forall|i: int|
            0 <= i <= answers.len() ==> !(#[trigger] run(session, answers.take(i)).state
                is Streaming),
        forall|i: int|
            0 <= i < answers.len() ==> {
                &&& is_quiet(#[trigger] frame_at(session, answers, i))
                &&& frame_at(session, answers, i).step == FrameStep::Silence
            },
    decreases answers.len(),
{
    if answers.len() > 0 {
        lemma_empty_queue_is_silent(session, answers.drop_last());
    }
    assert forall|i: int| 0 <= i <= answers.len() implies !(#[trigger] run(
        session,
        answers.take(i),
    ).state is Streaming) by {
        lemma_prefix_of_longer_run(session, answers, i);
    }
    assert forall|i: int| 0 <= i < answers.len() implies {
        &&& is_quiet(#[trigger] frame_at(session, answers, i))
        &&& frame_at(session, answers, i).step == FrameStep::Silence
    } by {
        lemma_frame_of_longer_run(session, answers, i);
    }
}

/// A skip that is asked for while the source streams makes the next tick
/// silent: the skip is taken, the front song leaves the queue and the source
/// is idle, whatever the decoder still had to give.
pub proof fn lemma_skip_ends_streaming(queue: Seq<Song>, pending: bool, answer: Answer)
    ensures
        tick(
            Session {
                state: PlayingState::Streaming,
                queue,
                skip: SkipSignal::requested(pending),
            },
            answer,
        ) == (
            Session { state: PlayingState::Idle, queue: without_front(queue), skip: false },
            Frame { step: FrameStep::Silence, samples: 0, announced: None },
        ),
{
}

/// While no decoder can be started, an idle source with a song queued stays
/// idle for ever: every tick asks for a decoder for the same front song, is
/// silent and announces nothing, and the queue and the signal stay as they
/// were.
pub proof fn lemma_failed_starts_retry(session: Session, answers: Seq<Answer>)
    requires
        session.state is Idle,
        session.queue.len() > 0,
        forall|i: int| 0 <= i < answers.len() ==> !(#[trigger] answers[i]).starts,
    ensures
        run(session, answers) == session,
        forall|i: int| 0 <= i <= answers.len() ==> #[trigger] run(session, answers.take(i))
            == session,
        forall|i: int|
            0 <= i < answers.len() ==> {
                &&& is_quiet(#[trigger] frame_at(session, answers, i))
                &&& frame_at(session, answers, i).step == FrameStep::StartDecoder(
                    session.queue[0],
                )
            },
    decreases answers.len(),
{
    if answers.len() > 0 {
        lemma_failed_starts_retry(session, answers.drop_last());
        assert(!answers[answers.len() - 1].starts);
    }
    assert forall|i: int| 0 <= i <= answers.len() implies #[trigger] run(
        session,
        answers.take(i),
    ) == session by {
        lemma_prefix_of_longer_run(session, answers, i);
    }
    assert forall|i: int| 0 <= i < answers.len() implies {
        &&& is_quiet(#[trigger] frame_at(session, answers, i))
        &&& frame_at(session, answers, i).step == FrameStep::StartDecoder(session.queue[0])
    } by {
        lemma_frame_of_longer_run(session, answers, i);
    }
}

/// While every read fills its frame and no skip is asked for, a streaming
/// source goes on streaming: each tick emits the frame that was read, and
/// the queue stays as it was.
pub proof fn lemma_full_reads_stream(session: Session, answers: Seq<Answer>)
    requires
        session.state is Streaming,
        !session.skip,
        forall|i: int| 0 <= i < answers.len() ==> (#[trigger] answers[i]).read is Filled,
    ensures
        run(session, answers) == session,
        forall|i: int|
            0 <= i < answers.len() ==> (#[trigger] frame_at(session, answers, i)) == (Frame {
                step: FrameStep::ReadSamples,
                samples: answers[i].read->Filled_0,
                announced: None,
            }),
    decreases answers.len(),
{
    if answers.len() > 0 {
        lemma_full_reads_stream(session, answers.drop_last());
        assert(answers[answers.len() - 1].read is Filled);
    }
    assert forall|i: int| 0 <= i < answers.len() implies (#[trigger] frame_at(
        session,
        answers,
        i,
    )) == (Frame {
        step: FrameStep::ReadSamples,
        samples: answers[i].read->Filled_0,
        announced: None,
    }) by {
        lemma_frame_of_longer_run(session, answers, i);
    }
}

/// The life of a single track. An idle source with one song queued and no
/// skip pending, whose decoder starts, gives: a silent tick that announces
/// the song; then one full frame for every read that fills; then, when a
/// read ends or fails, a silent tick that leaves the source idle and the
/// queue empty.
///
/// `answers` holds the tick that starts the decoder, the `answers.len() - 2`
/// ticks that read a full frame, and the tick whose read comes short.
pub proof fn lemma_single_track(song: Song, answers: Seq<Answer>)
    requires
        answers.len() >= 2,
        answers[0].starts,
        forall|i: int| 1 <= i < answers.len() - 1 ==> (#[trigger] answers[i]).read is Filled,
        !(answers[answers.len() - 1].read is Filled),
    ensures
        ({
            let session = Session { state: PlayingState::Idle, queue: seq![song], skip: false };
            &&& frame_at(session, answers, 0) == (Frame {
                step: FrameStep::StartDecoder(song),
                samples: 0,
                announced: Some(song),
            })
            &&& forall|i: int|
                1 <= i < answers.len() - 1 ==> (#[trigger] frame_at(session, answers, i)) == (
                Frame {
                    step: FrameStep::ReadSamples,
                    samples: answers[i].read->Filled_0,
                    announced: None,
                })
            &&& frame_at(session, answers, answers.len() - 1) == (Frame {
                step: FrameStep::ReadSamples,
                samples: 0,
                announced: None,
            })
            &&& run(session, answers) == (Session {
                state: PlayingState::Idle,
                queue: Seq::<Song>::empty(),
                skip: false,
            })
        }),
{
    let session = Session { state: PlayingState::Idle, queue: seq![song], skip: false };
    let streaming = Session { state: PlayingState::Streaming, ..session };
    let last = answers.len() - 1;
    let reads = answers.subrange(1, last);

    // The first tick starts the decoder.
    assert(answers.take(0) == Seq::<Answer>::empty());
    assert(answers.take(1).drop_last() == Seq::<Answer>::empty());
    assert(answers.take(1).last() == answers[0]);
    assert(run(session, answers.take(1)) == streaming);

    // The ticks that follow read full frames.
    lemma_full_reads_stream(streaming, reads);
    assert forall|i: int| 1 <= i <= last implies #[trigger] run(session, answers.take(i)) == run(
        streaming,
        reads.take(i - 1),
    ) by {
        lemma_run_split(session, answers.take(i), 1);
        assert(answers.take(i).take(1) == answers.take(1));
        assert(answers.take(i).skip(1) == reads.take(i - 1));
    }
    assert forall|i: int| 1 <= i <= last implies #[trigger] run(session, answers.take(i))
        == streaming by {
        lemma_full_reads_stream(streaming, reads.take(i - 1));
    }
    assert forall|i: int| 1 <= i < last implies (#[trigger] frame_at(session, answers, i)) == (
    Frame { step: FrameStep::ReadSamples, samples: answers[i].read->Filled_0, announced: None })
    by {
        assert(run(session, answers.take(i)) == streaming);
        assert(answers[i].read is Filled);
    }

    // The last tick finds the stream at its end.
    assert(run(session, answers.take(last)) == streaming);
    assert(answers.drop_last() == answers.take(last));
    assert(without_front(seq![song]) == Seq::<Song>::empty());
}

/// A run can be cut in two: the ticks before `middle`, then the others from
/// where those left the session.
pub proof fn lemma_run_split(session: Session, answers: Seq<Answer>, middle: int)
    requires
        0 <= middle <= answers.len(),
    ensures
        run(session, answers) == run(run(session, answers.take(middle)), answers.skip(middle)),
    decreases answers.len(),
{
    if middle == answers.len() {
        assert(answers.take(middle) == answers);
        assert(answers.skip(middle) == Seq::<Answer>::empty());
    } else {
        let before = answers.drop_last();
        lemma_run_split(session, before, middle);
        assert(before.take(middle) == answers.take(middle));
        assert(before.skip(middle) == answers.skip(middle).drop_last());
        assert(answers.skip(middle).last() == answers.last());
    }
}

} // verus!
