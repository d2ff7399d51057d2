//! The request to abandon the track that is playing.

use vstd::prelude::*;

verus! {

/// A flag that one side raises and the other side takes down.
///
/// It is a signal, not a counter: raising it while it is up changes nothing,
/// and taking it down answers once for all the requests made before.
/// Every operation that changes it takes `&mut self`, so each one is
/// indivisible; how the flag is shared between threads is left to the owner.
#[derive(Debug)]
pub struct SkipSignal {
    pending: bool,
}

impl SkipSignal {
    /// Whether a skip was asked for and has not been taken yet.
    pub closed spec fn pending(&self) -> bool {
        self.pending
    }

    /// What `request` leaves of a signal that stood at `pending`: a skip is
    /// pending, whether or not one was before.
    pub open spec fn requested(pending: bool) -> bool {
        true
    }

    /// What `consume_if_set` answers and what it leaves, for a signal that
    /// stood at `pending`.
    pub open spec fn consumed(pending: bool) -> (bool, bool) {
        (pending, false)
    }

    /// The flag after `count` requests in a row.
    pub open spec fn after_requests(pending: bool, count: nat) -> bool
        decreases count,
    {
        if count == 0 {
            pending
        } else {
            Self::after_requests(Self::requested(pending), (count - 1) as nat)
        }
    }

    /// A signal with no skip pending.
    pub fn new() -> (signal: SkipSignal)
        ensures
            !signal.pending(),
    {
        SkipSignal { pending: false }
    }

    /// Asks for a skip. Asking again before the skip is taken changes nothing.
    pub fn request(&mut self)
        ensures
            final(self).pending() == Self::requested(old(self).pending()),
    {
        self.pending = true;
    }

    /// Says whether a skip is pending, and leaves the signal as it is.
    pub fn is_pending(&self) -> (pending: bool)
        ensures
            pending == self.pending(),
    {
        self.pending
    }

    /// Takes the pending skip, if there is one: answers whether there was,
    /// and leaves none pending.
    pub fn consume_if_set(&mut self) -> (was_pending: bool)
        ensures
            (was_pending, final(self).pending()) == Self::consumed(old(self).pending()),
    {
        let was_pending = self.pending;
        self.pending = false;
        was_pending
    }

    /// One or more requests in a row are seen as exactly one skip: the next
    /// `consume_if_set` answers `true`, and the one after it answers `false`.
    pub proof fn lemma_requests_collapse(pending: bool, count: nat)
        requires
            count >= 1,
        ensures
            Self::after_requests(pending, count) == true,
            Self::consumed(Self::after_requests(pending, count)) == (true, false),
            Self::consumed(Self::consumed(Self::after_requests(pending, count)).1) == (
                false,
                false,
            ),
        decreases count,
    {
        if count > 1 {
            Self::lemma_requests_collapse(Self::requested(pending), (count - 1) as nat);
        } else {
            assert(Self::after_requests(Self::requested(pending), 0) == true);
        }
    }

    /// Two takes in a row with no request between them: the second one always
    /// answers `false`, and the first answers `true` exactly when a skip was
    /// pending.
    pub proof fn lemma_consume_twice(pending: bool)
        ensures
            Self::consumed(pending).0 == pending,
            Self::consumed(Self::consumed(pending).1) == (false, false),
    {
    }
}

} // verus!
