//! The descriptor of a queued track.

use vstd::prelude::*;

verus! {

/// What a [`Song`] says, as mathematical text.
pub struct SongInfo {
    /// Where the track is found: a URL, or words to search for.
    pub link: Seq<char>,
    /// The track's title.
    pub title: Seq<char>,
    /// Who asked for the track.
    pub user: Seq<char>,
    /// The track's length, as text for display.
    pub duration: Seq<char>,
}

/// A queued track. Nothing changes it once it is made.
#[derive(Debug, PartialEq, Eq)]
pub struct Song {
    link: String,
    title: String,
    user: String,
    duration: String,
}

impl View for Song {
    type V = SongInfo;

    closed spec fn view(&self) -> SongInfo {
        SongInfo {
            link: self.link@,
            title: self.title@,
            user: self.user@,
            duration: self.duration@,
        }
    }
}

impl Clone for Song {
    /// The copy is the same song, field for field.
    fn clone(&self) -> (copy: Self)
        ensures
            copy == *self,
    {
        Song {
            link: self.link.clone(),
            title: self.title.clone(),
            user: self.user.clone(),
            duration: self.duration.clone(),
        }
    }
}

impl Song {
    /// Makes the descriptor of a track.
    pub fn new(link: String, title: String, user: String, duration: String) -> (song: Song)
        ensures
            song@ == (SongInfo { link: link@, title: title@, user: user@, duration: duration@ }),
    {
        Song { link, title, user, duration }
    }

    /// Where the track is found.
    pub fn link(&self) -> (text: &str)
        ensures
            text@ == self@.link,
    {
        self.link.as_str()
    }

    /// The track's title.
    pub fn title(&self) -> (text: &str)
        ensures
            text@ == self@.title,
    {
        self.title.as_str()
    }

    /// Who asked for the track.
    pub fn user(&self) -> (text: &str)
        ensures
            text@ == self@.user,
    {
        self.user.as_str()
    }

    /// The track's length, as text for display.
    pub fn duration(&self) -> (text: &str)
        ensures
            text@ == self@.duration,
    {
        self.duration.as_str()
    }
}

} // verus!
