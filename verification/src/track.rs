//! The record of one playable track.

use vstd::prelude::*;

verus! {

/// What a track holds, as plain values.
pub ghost struct TrackView {
    pub id: u64,
    pub track: u8,
    pub title: Seq<char>,
    pub artist: Seq<char>,
    pub album: Seq<char>,
    pub file: Seq<char>,
}

/// One playable track: its identifier, its number on the album, its title,
/// artist and album, and the URI from which it is played.
#[derive(Debug)]
pub struct Track {
    id: u64,
    track: u8,
    title: String,
    artist: String,
    album: String,
    file: String,
}

impl View for Track {
    type V = TrackView;

    closed spec fn view(&self) -> TrackView {
        TrackView {
            id: self.id,
            track: self.track,
            title: self.title@,
            artist: self.artist@,
            album: self.album@,
            file: self.file@,
        }
    }
}

impl Track {
    /// A track with the given fields.
    pub fn new(
        id: u64,
        track: u8,
        title: String,
        artist: String,
        album: String,
        file: String,
    ) -> (t: Track)
        ensures
            t@ == (TrackView {
                id,
                track,
                title: title@,
                artist: artist@,
                album: album@,
                file: file@,
            }),
    {
        Track { id, track, title, artist, album, file }
    }

    /// The track's identifier.
    pub fn id(&self) -> (r: u64)
        ensures
            r == self@.id,
    {
        self.id
    }

    /// The track's number on its album.
    pub fn track(&self) -> (r: u8)
        ensures
            r == self@.track,
    {
        self.track
    }

    /// The track's title.
    pub fn title(&self) -> (r: &str)
        ensures
            r@ == self@.title,
    {
        self.title.as_str()
    }

    /// The track's artist.
    pub fn artist(&self) -> (r: &str)
        ensures
            r@ == self@.artist,
    {
        self.artist.as_str()
    }

    /// The album that the track belongs to.
    pub fn album(&self) -> (r: &str)
        ensures
            r@ == self@.album,
    {
        self.album.as_str()
    }

    /// The URI from which the track is played.
    pub fn file(&self) -> (r: &str)
        ensures
            r@ == self@.file,
    {
        self.file.as_str()
    }
}

impl Clone for Track {
    /// A track with the same fields.
    fn clone(&self) -> (t: Track)
        ensures
            t@ == self@,
    {
        Track {
            id: self.id,
            track: self.track,
            title: self.title.clone(),
            artist: self.artist.clone(),
            album: self.album.clone(),
            file: self.file.clone(),
        }
    }
}

impl PartialEq for Track {
    /// Two tracks are equal when all their fields are.
    fn eq(&self, other: &Track) -> (r: bool) {
        self.id == other.id && self.track == other.track && self.title == other.title
            && self.artist == other.artist && self.album == other.album && self.file
            == other.file
    }
}

impl vstd::std_specs::cmp::PartialEqSpecImpl for Track {
    open spec fn obeys_eq_spec() -> bool {
        true
    }

    open spec fn eq_spec(&self, other: &Track) -> bool {
        self@ == other@
    }
}

} // verus!
