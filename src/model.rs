//! Track and playlist records, and their rows in the store.
use vstd::prelude::*;
use crate::decimal::{decimal, decimal_value, is_decimal, lemma_decimal_round_trip, parse_u32, render_u32};

verus! {

/// One piece of music. Absent metadata is unknown, which differs from empty text.
#[derive(Clone, Debug)]
pub struct Track {
    pub title: Option<String>,
    pub album: Option<String>,
    pub interpret: Option<String>,
    pub conductor: Option<String>,
    pub composer: Option<String>,
    pub fingerprint: String,
    pub key: String,
    /// Length of the recording, in milliseconds.
    pub duration_ms: u32,
    pub favs_count: u32,
    pub channels: u32,
}

/// A track as plain values.
pub struct TrackView {
    pub title: Option<Seq<char>>,
    pub album: Option<Seq<char>>,
    pub interpret: Option<Seq<char>>,
    pub conductor: Option<Seq<char>>,
    pub composer: Option<Seq<char>>,
    pub fingerprint: Seq<char>,
    pub key: Seq<char>,
    pub duration_ms: u32,
    pub favs_count: u32,
    pub channels: u32,
}

impl View for Track {
    type V = TrackView;

    open spec fn view(&self) -> TrackView {
        TrackView {
            title: self.title.deep_view(),
            album: self.album.deep_view(),
            interpret: self.interpret.deep_view(),
            conductor: self.conductor.deep_view(),
            composer: self.composer.deep_view(),
            fingerprint: self.fingerprint@,
            key: self.key@,
            duration_ms: self.duration_ms,
            favs_count: self.favs_count,
            channels: self.channels,
        }
    }
}

/// A user-made list of tracks.
#[derive(Clone, Debug)]
pub struct Playlist {
    pub key: String,
    pub title: String,
    pub desc: Option<String>,
    pub count: u32,
}

/// A playlist as plain values.
pub struct PlaylistView {
    pub key: Seq<char>,
    pub title: Seq<char>,
    pub desc: Option<Seq<char>>,
    pub count: u32,
}

impl View for Playlist {
    type V = PlaylistView;

    open spec fn view(&self) -> PlaylistView {
        PlaylistView { key: self.key@, title: self.title@, desc: self.desc.deep_view(), count: self.count }
    }
}

/// A row of the store: one optional text cell per column.
pub type Row = Seq<Option<Seq<char>>>;

/// Number of columns of a track row.
pub const TRACK_COLUMNS: usize = 10;

/// Number of columns of a playlist row.
pub const PLAYLIST_COLUMNS: usize = 4;

/// The row that stores a track, in the column order
/// Title, Album, Interpret, Conductor, Composer, Key, Fingerprint, DurationMs, FavsCount, Channels.
pub open spec fn track_row(t: TrackView) -> Row {
    seq![
        t.title,
        t.album,
        t.interpret,
        t.conductor,
        t.composer,
        Some(t.key),
        Some(t.fingerprint),
        Some(decimal(t.duration_ms as nat)),
        Some(decimal(t.favs_count as nat)),
        Some(decimal(t.channels as nat)),
    ]
}

/// The cell holds a decimal number that fits in `u32`.
pub open spec fn is_u32_cell(c: Option<Seq<char>>) -> bool {
    c matches Some(s) && is_decimal(s) && decimal_value(s) <= u32::MAX
}

/// The number that a numeric cell holds.
pub open spec fn cell_u32(c: Option<Seq<char>>) -> u32 {
    decimal_value(c.unwrap()) as u32
}

/// The track that a row stores, if it is a well-formed track row.
pub open spec fn track_of_row(row: Row) -> Option<TrackView> {
    if row.len() == TRACK_COLUMNS && row[5] is Some && row[6] is Some && is_u32_cell(row[7])
        && is_u32_cell(row[8]) && is_u32_cell(row[9]) {
        Some(
            TrackView {
                title: row[0],
                album: row[1],
                interpret: row[2],
                conductor: row[3],
                composer: row[4],
                key: row[5].unwrap(),
                fingerprint: row[6].unwrap(),
                duration_ms: cell_u32(row[7]),
                favs_count: cell_u32(row[8]),
                channels: cell_u32(row[9]),
            },
        )
    } else {
        None
    }
}

/// The playlist that a row stores, in the column order Key, Title, Desc, Count.
pub open spec fn playlist_of_row(row: Row) -> Option<PlaylistView> {
    if row.len() >= PLAYLIST_COLUMNS && row[0] is Some && row[1] is Some && is_u32_cell(row[3]) {
        Some(
            PlaylistView {
                key: row[0].unwrap(),
                title: row[1].unwrap(),
                desc: row[2],
                count: cell_u32(row[3]),
            },
        )
    } else {
        None
    }
}

/// Every track is read back exactly from the row that stores it.
pub proof fn lemma_track_row_round_trip(t: TrackView)
    ensures
        track_of_row(track_row(t)) == Some(t),
{
    lemma_decimal_round_trip(t.duration_ms as nat);
    lemma_decimal_round_trip(t.favs_count as nat);
    lemma_decimal_round_trip(t.channels as nat);
}

/// A copy of an optional text.
pub fn clone_text(o: &Option<String>) -> (r: Option<String>)
    ensures
        r.deep_view() == o.deep_view(),
{
    match o {
        Some(s) => Some(s.clone()),
        None => None,
    }
}

/// The number that a numeric cell holds; `None` where it holds no such number.
fn read_u32(c: &Option<String>) -> (r: Option<u32>)
    ensures
        r is Some <==> is_u32_cell(c.deep_view()),
        r matches Some(v) ==> v == cell_u32(c.deep_view()),
{
    match c {
        Some(s) => parse_u32(s.as_str()),
        None => None,
    }
}

impl Track {
    /// A freshly imported track: metadata unknown, no favourites, stereo.
    pub fn empty(key: &str, fingerprint: &str, duration_ms: u32) -> (r: Track)
        ensures
            r@.key == key@,
            r@.fingerprint == fingerprint@,
            r.duration_ms == duration_ms,
            r.title is None,
            r.album is None,
            r.interpret is None,
            r.conductor is None,
            r.composer is None,
            r.favs_count == 0,
            r.channels == 2,
    {
        Track {
            key: key.to_owned(),
            fingerprint: fingerprint.to_owned(),
            duration_ms,
            title: None,
            album: None,
            interpret: None,
            conductor: None,
            composer: None,
            favs_count: 0,
            channels: 2,
        }
    }

    /// A track with every field given.
    pub fn new(
        key: &str,
        fingerprint: &str,
        duration_ms: u32,
        title: Option<String>,
        album: Option<String>,
        interpret: Option<String>,
        conductor: Option<String>,
        composer: Option<String>,
        favs_count: u32,
        channels: u32,
    ) -> (r: Track)
        ensures
            r@.key == key@,
            r@.fingerprint == fingerprint@,
            r.duration_ms == duration_ms,
            r.title == title,
            r.album == album,
            r.interpret == interpret,
            r.conductor == conductor,
            r.composer == composer,
            r.favs_count == favs_count,
            r.channels == channels,
    {
        Track {
            key: key.to_owned(),
            fingerprint: fingerprint.to_owned(),
            duration_ms,
            title,
            album,
            interpret,
            conductor,
            composer,
            favs_count,
            channels,
        }
    }

    /// The row that stores this track.
    pub fn to_row(&self) -> (r: Vec<Option<String>>)
        ensures
            r.deep_view() == track_row(self@),
    {
        let mut r: Vec<Option<String>> = Vec::new();
        r.push(clone_text(&self.title));
        r.push(clone_text(&self.album));
        r.push(clone_text(&self.interpret));
        r.push(clone_text(&self.conductor));
        r.push(clone_text(&self.composer));
        r.push(Some(self.key.clone()));
        r.push(Some(self.fingerprint.clone()));
        r.push(Some(render_u32(self.duration_ms)));
        r.push(Some(render_u32(self.favs_count)));
        r.push(Some(render_u32(self.channels)));
        assert(r.deep_view() =~= track_row(self@));
        r
    }

    /// The track that a row stores; `None` where the row is not a track row.
    pub fn from_row(row: &Vec<Option<String>>) -> (r: Option<Track>)
        ensures
            r is Some <==> track_of_row(row.deep_view()) is Some,
            r matches Some(t) ==> track_of_row(row.deep_view()) == Some(t@),
    {
        if row.len() != TRACK_COLUMNS {
            return None;
        }
        let key = match &row[5] {
            Some(k) => k.clone(),
            None => return None,
        };
        let fingerprint = match &row[6] {
            Some(f) => f.clone(),
            None => return None,
        };
        let duration_ms = match read_u32(&row[7]) {
            Some(v) => v,
            None => return None,
        };
        let favs_count = match read_u32(&row[8]) {
            Some(v) => v,
            None => return None,
        };
        let channels = match read_u32(&row[9]) {
            Some(v) => v,
            None => return None,
        };
        let t = Track {
            title: clone_text(&row[0]),
            album: clone_text(&row[1]),
            interpret: clone_text(&row[2]),
            conductor: clone_text(&row[3]),
            composer: clone_text(&row[4]),
            fingerprint,
            key,
            duration_ms,
            favs_count,
            channels,
        };
        Some(t)
    }

    /// What the metadata resolver is asked about this track: its fingerprint
    /// and its length in whole seconds, rounded to the nearest.
    pub fn suggestion_request(&self) -> (r: (String, u32))
        ensures
            r.0@ == self.fingerprint@,
            r.1 == (self.duration_ms as int + 500) / 1000,
    {
        (self.fingerprint.clone(), ((self.duration_ms as u64 + 500) / 1000) as u32)
    }
}

impl Playlist {
    /// The playlist that a row stores; `None` where the row is not a playlist row.
    pub fn from_row(row: &Vec<Option<String>>) -> (r: Option<Playlist>)
        ensures
            r is Some <==> playlist_of_row(row.deep_view()) is Some,
            r matches Some(p) ==> playlist_of_row(row.deep_view()) == Some(p@),
    {
        if row.len() < PLAYLIST_COLUMNS {
            return None;
        }
        let key = match &row[0] {
            Some(k) => k.clone(),
            None => return None,
        };
        let title = match &row[1] {
            Some(t) => t.clone(),
            None => return None,
        };
        let count = match read_u32(&row[3]) {
            Some(v) => v,
            None => return None,
        };
        Some(Playlist { key, title, desc: clone_text(&row[2]), count })
    }
}

} // verus!
