//! The songs of one voice channel, in the order in which they play.

use crate::song::Song;
use std::collections::VecDeque;
use vstd::prelude::*;

verus! {

/// Why the latest song could not be taken back.
#[derive(Debug, PartialEq, Eq, Clone, Copy)]
pub enum QueueError {
    /// Nothing waits behind the song that is playing.
    NothingToUndo,
}

/// The songs of a channel. The front one is playing, or about to; the others
/// wait behind it in the order in which they were queued.
///
/// The front leaves only through `pop_front`. `remove_last_if_not_only_entry`
/// takes back the newest song and never the front one.
#[derive(Debug)]
pub struct PlaybackQueue {
    songs: VecDeque<Song>,
}

impl View for PlaybackQueue {
    type V = Seq<Song>;

    closed spec fn view(&self) -> Seq<Song> {
        self.songs@
    }
}

/// The queue without its front song; an empty queue stays empty.
pub open spec fn without_front(songs: Seq<Song>) -> Seq<Song> {
    if songs.len() > 0 {
        songs.drop_first()
    } else {
        songs
    }
}

/// The songs that wait behind the front one.
pub open spec fn pending_of(songs: Seq<Song>) -> Seq<Song> {
    without_front(songs)
}

/// The queue after an attempt to take back the newest song: it goes unless
/// it is the front one.
pub open spec fn without_newest(songs: Seq<Song>) -> Seq<Song> {
    if songs.len() > 1 {
        songs.drop_last()
    } else {
        songs
    }
}

impl PlaybackQueue {
    /// A queue with no songs.
    pub fn new() -> (queue: PlaybackQueue)
        ensures
            queue@ == Seq::<Song>::empty(),
    {
        PlaybackQueue { songs: VecDeque::new() }
    }

    /// How many songs the queue holds, the front one included.
    pub fn len(&self) -> (count: usize)
        ensures
            count == self@.len(),
    {
        self.songs.len()
    }

    /// Whether the queue holds no song.
    pub fn is_empty(&self) -> (empty: bool)
        ensures
            empty == (self@.len() == 0),
    {
        self.songs.len() == 0
    }

    /// Puts a song behind all the others.
    pub fn enqueue(&mut self, song: Song)
        ensures
            final(self)@ == old(self)@.push(song),
    {
        self.songs.push_back(song);
    }

    /// The front song, if the queue has one.
    pub fn peek_front(&self) -> (front: Option<&Song>)
        ensures
            front == (if self@.len() > 0 {
                Some(&self@[0])
            } else {
                None
            }),
    {
        if self.songs.len() > 0 {
            Some(&self.songs[0])
        } else {
            None
        }
    }

    /// Removes the front song and hands it out; an empty queue stays empty.
    pub fn pop_front(&mut self) -> (front: Option<Song>)
        ensures
            final(self)@ == without_front(old(self)@),
            front == (if old(self)@.len() > 0 {
                Some(old(self)@[0])
            } else {
                None
            }),
    {
        let front = self.songs.pop_front();
        proof {
            if old(self)@.len() > 0 {
                assert(self.songs@ =~= old(self)@.drop_first());
            }
        }
        front
    }

    /// Takes back the newest song and hands it out, unless it is the front
    /// one: with one song or none the queue stays as it is.
    pub fn remove_last_if_not_only_entry(&mut self) -> (removed: Result<Song, QueueError>)
        ensures
            final(self)@ == without_newest(old(self)@),
            removed == (if old(self)@.len() > 1 {
                Ok::<Song, QueueError>(old(self)@.last())
            } else {
                Err::<Song, QueueError>(QueueError::NothingToUndo)
            }),
    {
        if self.songs.len() > 1 {
            match self.songs.pop_back() {
                Some(song) => {
                    proof {
                        assert(self.songs@ =~= old(self)@.drop_last());
                    }
                    Ok(song)
                },
                None => Err(QueueError::NothingToUndo),
            }
        } else {
            Err(QueueError::NothingToUndo)
        }
    }

    /// A copy of the songs that wait behind the front one, in queue order.
    pub fn snapshot_pending(&self) -> (pending: Vec<Song>)
        ensures
            pending@ == pending_of(self@),
    {
        let mut pending: Vec<Song> = Vec::new();
        let count: usize = self.songs.len();
        let mut index: usize = 1;
        while index < count
            invariant
                count == self.songs@.len(),
                1 <= index,
                index <= count || count == 0,
                count > 0 ==> pending@ == self.songs@.subrange(1, index as int),
                count == 0 ==> pending@ == Seq::<Song>::empty(),
            decreases count - index,
        {
            let copy = self.songs[index].clone();
            pending.push(copy);
            proof {
                assert(pending@ =~= self.songs@.subrange(1, index + 1));
            }
            index = index + 1;
        }
        proof {
            if count > 0 {
                assert(self.songs@.subrange(1, count as int) =~= self.songs@.drop_first());
            } else {
                assert(pending@ =~= self@);
            }
        }
        pending
    }
}

/// One change to a queue.
pub enum QueueOp {
    /// `enqueue` with this song.
    Enqueue(Song),
    /// `pop_front`.
    PopFront,
    /// `remove_last_if_not_only_entry`.
    UndoLast,
}

/// The queue after one change.
pub open spec fn after(songs: Seq<Song>, op: QueueOp) -> Seq<Song> {
    match op {
        QueueOp::Enqueue(song) => songs.push(song),
        QueueOp::PopFront => without_front(songs),
        QueueOp::UndoLast => without_newest(songs),
    }
}

/// The queue after the changes `ops`, made in order.
pub open spec fn after_all(songs: Seq<Song>, ops: Seq<QueueOp>) -> Seq<Song>
    decreases ops.len(),
{
    if ops.len() == 0 {
        songs
    } else {
        after(after_all(songs, ops.drop_last()), ops.last())
    }
}

/// The songs that `ops` put into the queue, in order.
pub open spec fn enqueued_by(ops: Seq<QueueOp>) -> Seq<Song>
    decreases ops.len(),
{
    if ops.len() == 0 {
        Seq::empty()
    } else {
        match ops.last() {
            QueueOp::Enqueue(song) => enqueued_by(ops.drop_last()).push(song),
            _ => enqueued_by(ops.drop_last()),
        }
    }
}

/// The songs that left through the front while `ops` were made, in order.
pub open spec fn popped_by(songs: Seq<Song>, ops: Seq<QueueOp>) -> Seq<Song>
    decreases ops.len(),
{
    if ops.len() == 0 {
        Seq::empty()
    } else {
        let before = after_all(songs, ops.drop_last());
        if ops.last() is PopFront && before.len() > 0 {
            popped_by(songs, ops.drop_last()).push(before[0])
        } else {
            popped_by(songs, ops.drop_last())
        }
    }
}

/// First in, first out: while songs are only queued and popped, those that
/// left through the front, followed by those still queued, are the songs
/// that were there at first followed by those that were queued, in the
/// order in which they came.
pub proof fn lemma_fifo(songs: Seq<Song>, ops: Seq<QueueOp>)
    requires
        forall|i: int| 0 <= i < ops.len() ==> !(#[trigger] ops[i] is UndoLast),
    ensures
        popped_by(songs, ops) + after_all(songs, ops) == songs + enqueued_by(ops),
    decreases ops.len(),
{
    if ops.len() == 0 {
        assert(popped_by(songs, ops) + after_all(songs, ops) =~= songs + enqueued_by(ops));
    } else {
        let earlier = ops.drop_last();
        let before = after_all(songs, earlier);
        assert forall|i: int| 0 <= i < earlier.len() implies !(#[trigger] earlier[i]
            is UndoLast) by {
            assert(earlier[i] == ops[i]);
        }
        lemma_fifo(songs, earlier);
        assert(!(ops[ops.len() - 1] is UndoLast));
        match ops.last() {
            QueueOp::Enqueue(song) => {
                assert(popped_by(songs, earlier) + before.push(song) =~= (popped_by(
                    songs,
                    earlier,
                ) + before).push(song));
                assert(songs + enqueued_by(earlier).push(song) =~= (songs + enqueued_by(
                    earlier,
                )).push(song));
            },
            QueueOp::PopFront => {
                if before.len() > 0 {
                    assert(popped_by(songs, earlier).push(before[0]) + before.drop_first()
                        =~= popped_by(songs, earlier) + before);
                }
            },
            QueueOp::UndoLast => {},
        }
    }
}

/// The front song leaves only through `pop_front`: while songs are queued
/// and taken back but none is popped, a queue that holds a song keeps its
/// front song, and so never runs empty.
pub proof fn lemma_front_stays(songs: Seq<Song>, ops: Seq<QueueOp>)
    requires
        songs.len() > 0,
        forall|i: int| 0 <= i < ops.len() ==> !(#[trigger] ops[i] is PopFront),
    ensures
        after_all(songs, ops).len() > 0,
        after_all(songs, ops)[0] == songs[0],
    decreases ops.len(),
{
    if ops.len() > 0 {
        let earlier = ops.drop_last();
        assert forall|i: int| 0 <= i < earlier.len() implies !(#[trigger] earlier[i]
            is PopFront) by {
            assert(earlier[i] == ops[i]);
        }
        lemma_front_stays(songs, earlier);
        assert(!(ops[ops.len() - 1] is PopFront));
    }
}

/// Taking back the newest song never removes the front one: a queue with a
/// single song is left as it is, and a longer one loses only its last song.
pub proof fn lemma_undo_keeps_front(songs: Seq<Song>)
    ensures
        songs.len() <= 1 ==> without_newest(songs) == songs,
        songs.len() > 1 ==> without_newest(songs) == songs.drop_last(),
        songs.len() > 0 ==> without_newest(songs).len() > 0 && without_newest(songs)[0]
            == songs[0],
{
}

} // verus!
