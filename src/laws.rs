//! What holds of the library across its functions.
use vstd::prelude::*;
use crate::decimal::{decimal, lemma_decimal_round_trip};
use crate::membership::{is_member_spec, member_keys};
use crate::model::{playlist_of_row, track_of_row, PlaylistView, Row, TrackView};
use crate::query::{list_select_spec, search_sql_spec, update_fields, update_sql_spec, update_values, Field};
use crate::select::{
    has_member, in_list, lemma_playlist_select_contains, lemma_track_select_contains, matcher,
    playlist_select, track_select,
};

verus! {

/// An update that gives only a title writes the title column and no other,
/// for the track with the given key.
pub proof fn lemma_update_title_only(title: Seq<char>, key: Seq<char>)
    ensures
        update_fields(Some(title), None, None, None, None) == seq![Field::Title],
        update_values(Some(title), None, None, None, None).push(Some(key)) == seq![Some(title), Some(key)],
        update_sql_spec(seq![Field::Title]) == "UPDATE music SET "@ + "Title"@ + " = ?"@ + " WHERE Key = ?"@,
{
    let fs = update_fields(Some(title), None, None, None, None);
    assert(fs =~= seq![Field::Title]);
    assert(update_values(Some(title), None, None, None, None) =~= seq![Some(title)]);
    assert(update_values(Some(title), None, None, None, None).push(Some(key)) =~= seq![Some(title), Some(key)]);
    let one = seq![Field::Title];
    assert(one.drop_last() =~= Seq::<Field>::empty());
    assert(one.last() == Field::Title);
    assert(crate::query::placeholders(one.drop_last(), ", "@) == Seq::<char>::empty());
    assert(Seq::<char>::empty() + "Title"@ =~= "Title"@);
    assert(crate::query::placeholders(one, ", "@) == "Title"@ + " = ?"@);
}

/// A query without constraints reads every track row, with no filter, and
/// keeps every track that a row stores.
pub proof fn lemma_empty_query_lists_all(rows: Seq<Row>, t: TrackView)
    ensures
        search_sql_spec(Seq::empty()) == list_select_spec(),
        track_select(rows, matcher(Seq::empty())).contains(t) <==> exists|i: int|
            0 <= i < rows.len() && track_of_row(#[trigger] rows[i]) == Some(t),
{
    lemma_track_select_contains(rows, matcher(Seq::empty()), t);
}

/// The tracks of a playlist are exactly the stored tracks whose key is a whole
/// member of its membership list: a key that only contains a member, or is
/// contained in one, is not taken.
pub proof fn lemma_listed_tracks_exact(rows: Seq<Row>, list: Option<Seq<char>>, t: TrackView)
    ensures
        track_select(rows, in_list(list)).contains(t) <==> (exists|i: int|
            0 <= i < rows.len() && track_of_row(#[trigger] rows[i]) == Some(t))
            && member_keys(list).contains(t.key),
{
    lemma_track_select_contains(rows, in_list(list), t);
}

/// A playlist is among the playlists of a track exactly when some row stores
/// it with a membership list that holds the track's key as a whole member.
pub proof fn lemma_playlists_of_track_exact(rows: Seq<Row>, key: Seq<char>, p: PlaylistView)
    ensures
        playlist_select(rows, has_member(key)).contains(p) <==> exists|i: int|
            0 <= i < rows.len() && playlist_of_row(#[trigger] rows[i]) == Some(p) && rows[i].len() > 4
                && is_member_spec(rows[i][4], key),
{
    lemma_playlist_select_contains(rows, has_member(key), p);
}

/// The row that a new playlist is stored as (its key, its title, no
/// description, the count zero and no membership list) reads back as the
/// playlist that `add_playlist` returns, with no members.
pub proof fn lemma_new_playlist_reads_back(key: Seq<char>, title: Seq<char>)
    ensures
        playlist_of_row(seq![Some(key), Some(title), None, Some(decimal(0)), None]) == Some(
            PlaylistView { key, title, desc: None, count: 0 },
        ),
        member_keys(None) == Seq::<Seq<char>>::empty(),
{
    lemma_decimal_round_trip(0);
}

} // verus!
