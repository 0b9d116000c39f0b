//! Choosing records among the rows that the store returned.
use vstd::prelude::*;
use crate::membership::{contains_key, is_member, is_member_spec, member_keys, same_text};
use crate::model::{playlist_of_row, track_of_row, Playlist, PlaylistView, Row, Track, TrackView};
use crate::query::{Field, SearchQuery, Term};

verus! {

/// The records that `decode` reads from `rows` and `keep` accepts, in row
/// order; rows that `decode` cannot read are passed over.
pub open spec fn select_rows<A>(
    rows: Seq<Row>,
    decode: spec_fn(Row) -> Option<A>,
    keep: spec_fn(Row) -> bool,
) -> Seq<A>
    decreases rows.len(),
{
    if rows.len() == 0 {
        Seq::empty()
    } else {
        let prev = select_rows(rows.drop_last(), decode, keep);
        match decode(rows.last()) {
            Some(a) => if keep(rows.last()) { prev.push(a) } else { prev },
            None => prev,
        }
    }
}

/// The tracks stored in `rows` that `keep` accepts, in row order; rows that
/// are not track rows are passed over.
pub open spec fn track_select(rows: Seq<Row>, keep: spec_fn(TrackView) -> bool) -> Seq<TrackView> {
    select_rows(rows, |row: Row| track_of_row(row), |row: Row| keep(track_of_row(row).unwrap()))
}

/// The playlists stored in `rows` that `keep` accepts, in row order.
pub open spec fn playlist_select(rows: Seq<Row>, keep: spec_fn(Row) -> bool) -> Seq<PlaylistView> {
    select_rows(rows, |row: Row| playlist_of_row(row), keep)
}

/// A record is selected exactly when some row decodes to it and is accepted.
pub proof fn lemma_select_rows_contains<A>(
    rows: Seq<Row>,
    decode: spec_fn(Row) -> Option<A>,
    keep: spec_fn(Row) -> bool,
    a: A,
)
    ensures
        select_rows(rows, decode, keep).contains(a) <==> exists|i: int|
            0 <= i < rows.len() && decode(#[trigger] rows[i]) == Some(a) && keep(rows[i]),
    decreases rows.len(),
{
    if rows.len() > 0 {
        let prev = rows.drop_last();
        lemma_select_rows_contains(prev, decode, keep, a);
        if select_rows(rows, decode, keep).contains(a) {
            if !select_rows(prev, decode, keep).contains(a) {
                let last = rows.len() - 1;
                assert(select_rows(rows, decode, keep).last() == a);
                assert(decode(rows[last]) == Some(a));
            } else {
                let i = choose|i: int| 0 <= i < prev.len() && decode(#[trigger] prev[i]) == Some(a) && keep(prev[i]);
                assert(rows[i] == prev[i]);
            }
        }
        if exists|i: int| 0 <= i < rows.len() && decode(#[trigger] rows[i]) == Some(a) && keep(rows[i]) {
            let i = choose|i: int| 0 <= i < rows.len() && decode(#[trigger] rows[i]) == Some(a) && keep(rows[i]);
            if i < rows.len() - 1 {
                assert(prev[i] == rows[i]);
                let s = select_rows(prev, decode, keep);
                let k = choose|k: int| 0 <= k < s.len() && s[k] == a;
                match decode(rows.last()) {
                    Some(u) => if keep(rows.last()) { assert(s.push(u)[k] == a); },
                    None => {},
                }
            } else {
                assert(select_rows(rows, decode, keep).last() == a);
            }
        }
    }
}

/// A track is selected exactly when some row stores it and it is accepted.
pub proof fn lemma_track_select_contains(rows: Seq<Row>, keep: spec_fn(TrackView) -> bool, t: TrackView)
    ensures
        track_select(rows, keep).contains(t) <==> exists|i: int|
            0 <= i < rows.len() && track_of_row(#[trigger] rows[i]) == Some(t) && keep(t),
{
    let decode = |row: Row| track_of_row(row);
    let accept = |row: Row| keep(track_of_row(row).unwrap());
    lemma_select_rows_contains(rows, decode, accept, t);
    assert forall|i: int| 0 <= i < rows.len() implies (decode(#[trigger] rows[i]) == Some(t) && accept(rows[i]))
        == (track_of_row(rows[i]) == Some(t) && keep(t)) by {}
}

/// A playlist row is selected exactly when it stores a playlist and is accepted.
pub proof fn lemma_playlist_select_contains(rows: Seq<Row>, keep: spec_fn(Row) -> bool, p: PlaylistView)
    ensures
        playlist_select(rows, keep).contains(p) <==> exists|i: int|
            0 <= i < rows.len() && playlist_of_row(#[trigger] rows[i]) == Some(p) && keep(rows[i]),
{
    let decode = |row: Row| playlist_of_row(row);
    lemma_select_rows_contains(rows, decode, keep, p);
    assert forall|i: int| 0 <= i < rows.len() implies decode(#[trigger] rows[i]) == playlist_of_row(rows[i]) by {}
}

/// The tracks as plain values.
pub open spec fn track_views(ts: Seq<Track>) -> Seq<TrackView> {
    ts.map_values(|t: Track| t@)
}

/// The playlists as plain values.
pub open spec fn playlist_views(ps: Seq<Playlist>) -> Seq<PlaylistView> {
    ps.map_values(|p: Playlist| p@)
}

/// The text of a field of a track.
pub open spec fn field_of(t: TrackView, f: Field) -> Option<Seq<char>> {
    match f {
        Field::Title => t.title,
        Field::Album => t.album,
        Field::Interpret => t.interpret,
        Field::Conductor => t.conductor,
        Field::Composer => t.composer,
        Field::Key => Some(t.key),
    }
}

/// The constraints of a query as plain values.
pub open spec fn terms_of(q: SearchQuery) -> Seq<(Field, Seq<char>)> {
    q.terms@.map_values(|x: Term| (x.field, x.value@))
}

/// The track meets every constraint.
pub open spec fn track_matches(t: TrackView, terms: Seq<(Field, Seq<char>)>) -> bool {
    forall|i: int| 0 <= i < terms.len() ==> field_of(t, (#[trigger] terms[i]).0) == Some(terms[i].1)
}

/// Accepts the tracks that meet every constraint.
pub open spec fn matcher(terms: Seq<(Field, Seq<char>)>) -> spec_fn(TrackView) -> bool {
    |t: TrackView| track_matches(t, terms)
}

/// Accepts the tracks whose key is a member of the list.
pub open spec fn in_list(list: Option<Seq<char>>) -> spec_fn(TrackView) -> bool {
    |t: TrackView| is_member_spec(list, t.key)
}

/// Accepts every playlist row.
pub open spec fn any_row() -> spec_fn(Row) -> bool {
    |row: Row| true
}

/// Accepts the playlist rows whose membership list, the fifth cell, holds `key`.
pub open spec fn has_member(key: Seq<char>) -> spec_fn(Row) -> bool {
    |row: Row| row.len() > 4 && is_member_spec(row[4], key)
}

/// The text of a field of a track, where it has one.
fn field_text(t: &Track, f: Field) -> (r: Option<&String>)
    ensures
        match r {
            Some(s) => field_of(t@, f) == Some(s@),
            None => field_of(t@, f) is None,
        },
{
    match f {
        Field::Title => t.title.as_ref(),
        Field::Album => t.album.as_ref(),
        Field::Interpret => t.interpret.as_ref(),
        Field::Conductor => t.conductor.as_ref(),
        Field::Composer => t.composer.as_ref(),
        Field::Key => Some(&t.key),
    }
}

/// The track meets every constraint of the query.
pub fn matches_query(t: &Track, q: &SearchQuery) -> (r: bool)
    ensures
        r == track_matches(t@, terms_of(*q)),
{
    let mut i: usize = 0;
    while i < q.terms.len()
        invariant
            i <= q.terms.len(),
            forall|k: int| 0 <= k < i ==> field_of(t@, (#[trigger] terms_of(*q)[k]).0) == Some(terms_of(*q)[k].1),
        decreases q.terms.len() - i,
    {
        let term = &q.terms[i];
        let ok = match field_text(t, term.field) {
            Some(s) => same_text(s.as_str(), term.value.as_str()),
            None => false,
        };
        if !ok {
            assert(terms_of(*q)[i as int] == (term.field, term.value@));
            return false;
        }
        i = i + 1;
    }
    true
}

proof fn lemma_take_step<T>(s: Seq<T>, i: int)
    requires
        0 <= i < s.len(),
    ensures
        s.take(i + 1).drop_last() == s.take(i),
        s.take(i + 1).last() == s[i],
{
    assert(s.take(i + 1).drop_last() =~= s.take(i));
}

/// The tracks stored in `rows` that meet every constraint of `q`, in row order.
pub fn select_tracks(rows: &Vec<Vec<Option<String>>>, q: &SearchQuery) -> (r: Vec<Track>)
    ensures
        track_views(r@) == track_select(rows.deep_view(), matcher(terms_of(*q))),
{
    let ghost keep = matcher(terms_of(*q));
    let mut out: Vec<Track> = Vec::new();
    let mut i: usize = 0;
    while i < rows.len()
        invariant
            i <= rows.len(),
            keep == matcher(terms_of(*q)),
            track_views(out@) == track_select(rows.deep_view().take(i as int), keep),
        decreases rows.len() - i,
    {
        proof {
            lemma_take_step(rows.deep_view(), i as int);
        }
        match Track::from_row(&rows[i]) {
            Some(t) => {
                if matches_query(&t, q) {
                    out.push(t);
                    assert(track_views(out@) =~= track_views(out@).drop_last().push(t@));
                }
            },
            None => {},
        }
        i = i + 1;
    }
    assert(rows.deep_view().take(rows.len() as int) =~= rows.deep_view());
    out
}

/// The tracks stored in `rows` whose key is an exact member of `list`, in row order.
pub fn select_listed_tracks(rows: &Vec<Vec<Option<String>>>, list: &Option<String>) -> (r: Vec<Track>)
    ensures
        track_views(r@) == track_select(rows.deep_view(), in_list(list.deep_view())),
{
    let ghost keep = in_list(list.deep_view());
    let keys = crate::membership::member_keys_of(list);
    let mut out: Vec<Track> = Vec::new();
    let mut i: usize = 0;
    while i < rows.len()
        invariant
            i <= rows.len(),
            keys.deep_view() == member_keys(list.deep_view()),
            keep == in_list(list.deep_view()),
            track_views(out@) == track_select(rows.deep_view().take(i as int), keep),
        decreases rows.len() - i,
    {
        proof {
            lemma_take_step(rows.deep_view(), i as int);
        }
        match Track::from_row(&rows[i]) {
            Some(t) => {
                if contains_key(&keys, t.key.as_str()) {
                    out.push(t);
                    assert(track_views(out@) =~= track_views(out@).drop_last().push(t@));
                }
            },
            None => {},
        }
        i = i + 1;
    }
    assert(rows.deep_view().take(rows.len() as int) =~= rows.deep_view());
    out
}

/// The playlists stored in `rows`, in row order; with `member` given, only
/// those whose membership list holds it as an exact member.
pub fn select_playlists(rows: &Vec<Vec<Option<String>>>, member: Option<&str>) -> (r: Vec<Playlist>)
    ensures
        playlist_views(r@) == playlist_select(
            rows.deep_view(),
            match member {
                Some(k) => has_member(k@),
                None => any_row(),
            },
        ),
{
    let ghost keep = match member {
        Some(k) => has_member(k@),
        None => any_row(),
    };
    let mut out: Vec<Playlist> = Vec::new();
    let mut i: usize = 0;
    while i < rows.len()
        invariant
            i <= rows.len(),
            keep == match member {
                Some(k) => has_member(k@),
                None => any_row(),
            },
            playlist_views(out@) == playlist_select(rows.deep_view().take(i as int), keep),
        decreases rows.len() - i,
    {
        proof {
            lemma_take_step(rows.deep_view(), i as int);
        }
        let row = &rows[i];
        match Playlist::from_row(row) {
            Some(p) => {
                let wanted = match member {
                    Some(k) => row.len() > 4 && is_member(&row[4], k),
                    None => true,
                };
                if wanted {
                    out.push(p);
                    assert(playlist_views(out@) =~= playlist_views(out@).drop_last().push(p@));
                }
            },
            None => {},
        }
        i = i + 1;
    }
    assert(rows.deep_view().take(rows.len() as int) =~= rows.deep_view());
    out
}

} // verus!
