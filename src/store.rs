//! The store: one SQLite database holding the `music` and `playlists` tables.
use vstd::prelude::*;
use crate::error::{ErrorKind, MyError};
use crate::membership::{member_keys, member_keys_of, same_text};
use crate::decimal::{decimal, render_u32};
use crate::model::{clone_text, playlist_of_row, Playlist, Track, PLAYLIST_COLUMNS, TRACK_COLUMNS};
use crate::query::{
    full_select, full_select_spec, placeholders, render_placeholders, search_sql, search_sql_spec, update_sql, Field, SearchQuery, Term,
};
use crate::select::{
    lemma_track_select_contains, matcher, select_listed_tracks, select_playlists, select_tracks,
    terms_of, track_matches, track_views,
};
use crate::sqlite::{error_text, execute, fresh_key, open_socket, query_rows};

verus! {

/// A storage failure, with the store's own account of it as the cause.
fn database_error(e: &rusqlite::Error) -> (r: MyError)
    ensures
        r.inner == ErrorKind::Database,
        r.cause is Some,
{
    MyError::with_cause(ErrorKind::Database, error_text(e))
}

/// The table of tracks; a second track with a taken key is refused.
pub open spec fn music_table_spec() -> Seq<char> {
    "CREATE TABLE IF NOT EXISTS music (Title TEXT, Album TEXT, Interpret TEXT, Conductor TEXT, Composer TEXT, Key TEXT NOT NULL UNIQUE, Fingerprint TEXT NOT NULL, DurationMs INTEGER NOT NULL, FavsCount INTEGER NOT NULL, Channels INTEGER NOT NULL)"@
}

/// The table of playlists; a second playlist with a taken key is refused.
pub open spec fn playlists_table_spec() -> Seq<char> {
    "CREATE TABLE IF NOT EXISTS playlists (Key TEXT NOT NULL UNIQUE, Title TEXT NOT NULL, Desc TEXT, Count INTEGER NOT NULL, Tracks TEXT)"@
}

/// The statements that create the two tables where they do not exist yet.
pub fn schema() -> (r: Vec<&'static str>)
    ensures
        r@.len() == 2,
        r@[0]@ == music_table_spec(),
        r@[1]@ == playlists_table_spec(),
{
    let mut r: Vec<&'static str> = Vec::new();
    r.push(
        "CREATE TABLE IF NOT EXISTS music (Title TEXT, Album TEXT, Interpret TEXT, Conductor TEXT, Composer TEXT, Key TEXT NOT NULL UNIQUE, Fingerprint TEXT NOT NULL, DurationMs INTEGER NOT NULL, FavsCount INTEGER NOT NULL, Channels INTEGER NOT NULL)",
    );
    r.push(
        "CREATE TABLE IF NOT EXISTS playlists (Key TEXT NOT NULL UNIQUE, Title TEXT NOT NULL, Desc TEXT, Count INTEGER NOT NULL, Tracks TEXT)",
    );
    r
}

/// The statement that stores a track row, its ten cells bound in row order.
pub open spec fn insert_track_spec() -> Seq<char> {
    "INSERT INTO music (Title, Album, Interpret, Conductor, Composer, Key, Fingerprint, DurationMs, FavsCount, Channels) VALUES (?1, ?2, ?3, ?4, ?5, ?6, ?7, ?8, ?9, ?10)"@
}

/// Renders `insert_track_spec()`.
pub fn insert_track_sql() -> (r: &'static str)
    ensures
        r@ == insert_track_spec(),
{
    "INSERT INTO music (Title, Album, Interpret, Conductor, Composer, Key, Fingerprint, DurationMs, FavsCount, Channels) VALUES (?1, ?2, ?3, ?4, ?5, ?6, ?7, ?8, ?9, ?10)"
}

/// Every playlist row, with its membership list in the fifth cell.
pub open spec fn playlist_select_spec() -> Seq<char> {
    "SELECT Key, Title, Desc, CAST(Count AS TEXT), Tracks FROM playlists"@
}

/// Renders `playlist_select_spec()`.
pub fn playlist_select_sql() -> (r: &'static str)
    ensures
        r@ == playlist_select_spec(),
{
    "SELECT Key, Title, Desc, CAST(Count AS TEXT), Tracks FROM playlists"
}

/// The statement that stores a new playlist: key, title and a count of zero,
/// with no description and no members.
pub open spec fn insert_playlist_spec() -> Seq<char> {
    "INSERT INTO playlists (Key, Title, Count) VALUES (?1, ?2, ?3)"@
}

/// The statement and values that store an empty playlist under `key`.
pub fn insert_playlist_sql(key: &str, title: &str) -> (r: (&'static str, Vec<Option<String>>))
    ensures
        r.0@ == insert_playlist_spec(),
        r.1.deep_view() == seq![Some(key@), Some(title@), Some(decimal(0))],
{
    let mut params: Vec<Option<String>> = Vec::new();
    params.push(Some(key.to_owned()));
    params.push(Some(title.to_owned()));
    params.push(Some(render_u32(0)));
    assert(params.deep_view() =~= seq![Some(key@), Some(title@), Some(decimal(0))]);
    ("INSERT INTO playlists (Key, Title, Count) VALUES (?1, ?2, ?3)", params)
}

/// The statement and value that read the playlist rows with `key`.
pub fn playlist_lookup_sql(key: &str) -> (r: (String, Vec<Option<String>>))
    ensures
        r.0@ == playlist_select_spec() + " WHERE Key = ?"@,
        r.1.deep_view() == seq![Some(key@)],
{
    let mut sql = String::from_str(playlist_select_sql());
    sql.append(" WHERE Key = ?");
    let mut params: Vec<Option<String>> = Vec::new();
    params.push(Some(key.to_owned()));
    assert(params.deep_view() =~= seq![Some(key@)]);
    (sql, params)
}

/// One key field for each of `n` members.
pub open spec fn key_fields(n: nat) -> Seq<Field> {
    Seq::new(n, |i: int| Field::Key)
}

/// The statement and values that read the tracks whose key is one of `keys`.
pub fn member_tracks_sql(keys: &Vec<String>) -> (r: (String, Vec<Option<String>>))
    ensures
        r.0@ == full_select_spec() + " WHERE "@ + placeholders(key_fields(keys@.len()), " OR "@),
        r.1.deep_view() == keys.deep_view().map_values(|k: Seq<char>| Some(k)),
{
    let mut fields: Vec<Field> = Vec::new();
    let mut params: Vec<Option<String>> = Vec::new();
    let mut i: usize = 0;
    while i < keys.len()
        invariant
            i <= keys.len(),
            fields@ == key_fields(i as nat),
            params@.len() == i,
            params.deep_view() == keys.deep_view().take(i as int).map_values(|k: Seq<char>| Some(k)),
        decreases keys.len() - i,
    {
        fields.push(Field::Key);
        let k = keys[i].clone();
        let ghost before = params.deep_view();
        params.push(Some(k));
        proof {
            assert(fields@ =~= key_fields((i + 1) as nat));
            assert(params@[i as int] == Some(k));
            assert(keys.deep_view()[i as int] == k@);
            assert(params.deep_view() =~= before.push(Some(k@)));
            assert(params.deep_view() =~= keys.deep_view().take(i + 1).map_values(|k: Seq<char>| Some(k)));
        }
        i = i + 1;
    }
    assert(keys.deep_view().take(keys.len() as int) =~= keys.deep_view());
    let mut sql = String::from_str(full_select());
    sql.append(" WHERE ");
    let conds = render_placeholders(&fields, " OR ");
    sql.append(conds.as_str());
    (sql, params)
}

/// The first of the found tracks; `NotFound` where there is none.
pub fn pick_first(ts: Vec<Track>) -> (r: Result<Track, MyError>)
    ensures
        r is Err <==> ts@.len() == 0,
        r matches Err(e) ==> e.inner == ErrorKind::NotFound,
        r matches Ok(t) ==> t == ts@[0],
{
    let mut ts = ts;
    if ts.len() == 0 {
        return Err(MyError::from_kind(ErrorKind::NotFound));
    }
    Ok(ts.swap_remove(0))
}

/// The first playlist stored in `rows` whose key is `key`, with the
/// membership list stored beside it.
pub fn find_playlist(rows: &Vec<Vec<Option<String>>>, key: &str) -> (r: Option<(Playlist, Option<String>)>)
    ensures
        r is None <==> forall|i: int|
            0 <= i < rows@.len() ==> !(playlist_of_row(#[trigger] rows.deep_view()[i])
                matches Some(p) && p.key == key@),
        r matches Some(found) ==> found.0@.key == key@ && exists|i: int|
            0 <= i < rows@.len() && playlist_of_row(#[trigger] rows.deep_view()[i])
                == Some(found.0@) && (if rows@[i]@.len() > PLAYLIST_COLUMNS {
                found.1.deep_view() == rows.deep_view()[i][PLAYLIST_COLUMNS as int]
            } else {
                found.1 is None
            }),
{
    let mut i: usize = 0;
    while i < rows.len()
        invariant
            i <= rows.len(),
            forall|k: int|
                0 <= k < i ==> !(playlist_of_row(#[trigger] rows.deep_view()[k])
                    matches Some(p) && p.key == key@),
        decreases rows.len() - i,
    {
        let row = &rows[i];
        match Playlist::from_row(row) {
            Some(p) => {
                if same_text(p.key.as_str(), key) {
                    let list = if row.len() > PLAYLIST_COLUMNS {
                        clone_text(&row[PLAYLIST_COLUMNS])
                    } else {
                        None
                    };
                    proof {
                        assert(rows.deep_view()[i as int] == row.deep_view());
                        assert(playlist_of_row(rows.deep_view()[i as int]) == Some(p@));
                    }
                    return Some((p, list));
                }
            },
            None => {},
        }
        i = i + 1;
    }
    None
}

/// The playlist with `key` among the rows that a lookup returned, the
/// membership list stored with it, and the member keys that list encodes;
/// `NotFound` where no row stores a playlist with that key.
pub fn open_playlist(rows: &Vec<Vec<Option<String>>>, key: &str) -> (r: Result<
    (Playlist, Option<String>, Vec<String>),
    MyError,
>)
    ensures
        r is Err <==> forall|i: int|
            0 <= i < rows@.len() ==> !(playlist_of_row(#[trigger] rows.deep_view()[i])
                matches Some(p) && p.key == key@),
        r matches Err(e) ==> e.inner == ErrorKind::NotFound,
        r matches Ok(found) ==> found.0@.key == key@ && found.2.deep_view() == member_keys(
            found.1.deep_view(),
        ) && exists|i: int|
            0 <= i < rows@.len() && playlist_of_row(#[trigger] rows.deep_view()[i])
                == Some(found.0@) && (if rows@[i]@.len() > PLAYLIST_COLUMNS {
                found.1.deep_view() == rows.deep_view()[i][PLAYLIST_COLUMNS as int]
            } else {
                found.1 is None
            }),
{
    match find_playlist(rows, key) {
        Some((p, list)) => {
            let keys = member_keys_of(&list);
            Ok((p, list, keys))
        },
        None => Err(MyError::from_kind(ErrorKind::NotFound)),
    }
}

/// An open store.
pub struct Store {
    socket: rusqlite::Connection,
}

impl Store {
    /// Opens the store in the database file at `path`.
    pub fn new(path: &str) -> (r: Result<Store, MyError>)
        ensures
            r matches Err(e) ==> e.inner == ErrorKind::Database && e.cause is Some,
    {
        match open_socket(path) {
            Ok(socket) => Ok(Store { socket }),
            Err(e) => Err(database_error(&e)),
        }
    }

    /// Creates the two tables of `schema()` where they do not exist yet.
    pub fn create_tables(&self) -> (r: Result<(), MyError>)
        ensures
            r matches Err(e) ==> e.inner == ErrorKind::Database && e.cause is Some,
    {
        let stmts = schema();
        let none: Vec<Option<String>> = Vec::new();
        let mut i: usize = 0;
        while i < stmts.len()
            invariant
                i <= stmts.len(),
            decreases stmts.len() - i,
        {
            if let Err(e) = execute(&self.socket, stmts[i], &none) {
                return Err(database_error(&e));
            }
            i = i + 1;
        }
        Ok(())
    }

    /// The SQL text of a search and the values bound to it.
    pub fn search_prep(&self, query: &SearchQuery) -> (r: (String, Vec<Option<String>>))
        ensures
            r.0@ == search_sql_spec(query.fields()),
            r.1.deep_view() == query.values(),
    {
        search_sql(query)
    }

    /// The stored tracks that meet every constraint of the query, in storage
    /// order; the fingerprint is left empty where the query has no constraint.
    /// Runs `search_prep(query)` and keeps what `select_tracks` keeps.
    pub fn search(&self, query: &SearchQuery) -> (r: Result<Vec<Track>, MyError>)
        ensures
            r matches Ok(ts) ==> forall|i: int|
                0 <= i < ts@.len() ==> track_matches((#[trigger] ts@[i])@, terms_of(*query)),
            r matches Err(e) ==> e.inner == ErrorKind::Database && e.cause is Some,
    {
        let (sql, params) = self.search_prep(query);
        match query_rows(&self.socket, sql.as_str(), &params, TRACK_COLUMNS) {
            Ok(rows) => {
                let ts = select_tracks(&rows, query);
                proof {
                    assert forall|i: int| 0 <= i < ts@.len() implies track_matches(
                        (#[trigger] ts@[i])@,
                        terms_of(*query),
                    ) by {
                        lemma_track_select_contains(rows.deep_view(), matcher(terms_of(*query)), ts@[i]@);
                        assert(track_views(ts@)[i] == ts@[i]@);
                    }
                }
                Ok(ts)
            },
            Err(e) => Err(database_error(&e)),
        }
    }

    /// Every stored playlist: runs `playlist_select_sql()` and keeps every
    /// playlist row, as `select_playlists(rows, None)` does.
    pub fn get_playlists(&self) -> (r: Result<Vec<Playlist>, MyError>)
        ensures
            r matches Err(e) ==> e.inner == ErrorKind::Database && e.cause is Some,
    {
        let none: Vec<Option<String>> = Vec::new();
        match query_rows(&self.socket, playlist_select_sql(), &none, PLAYLIST_COLUMNS + 1) {
            Ok(rows) => Ok(select_playlists(&rows, None)),
            Err(e) => Err(database_error(&e)),
        }
    }

    /// The playlist with `key` and its member tracks. Reads the rows of
    /// `playlist_lookup_sql(key)`, decides by `open_playlist`, and where the
    /// list has members reads the rows of `member_tracks_sql` and keeps the
    /// tracks whose key is an exact member, as `select_listed_tracks` does.
    pub fn get_playlist(&self, key: &str) -> (r: Result<(Playlist, Vec<Track>), MyError>)
        ensures
            r matches Ok(found) ==> found.0@.key == key@,
            r matches Err(e) ==> e.inner == ErrorKind::NotFound || (e.inner == ErrorKind::Database
                && e.cause is Some),
    {
        let (sql, params) = playlist_lookup_sql(key);
        let rows = match query_rows(&self.socket, sql.as_str(), &params, PLAYLIST_COLUMNS + 1) {
            Ok(rows) => rows,
            Err(e) => return Err(database_error(&e)),
        };
        let (playlist, list, keys) = match open_playlist(&rows, key) {
            Ok(found) => found,
            Err(e) => return Err(e),
        };
        if keys.len() == 0 {
            return Ok((playlist, Vec::new()));
        }
        let (track_sql, key_params) = member_tracks_sql(&keys);
        match query_rows(&self.socket, track_sql.as_str(), &key_params, TRACK_COLUMNS) {
            Ok(track_rows) => Ok((playlist, select_listed_tracks(&track_rows, &list))),
            Err(e) => Err(database_error(&e)),
        }
    }

    /// The playlists whose membership list holds `key` as an exact member:
    /// runs `playlist_select_sql()` and keeps what `select_playlists(rows, Some(key))` keeps.
    pub fn get_playlists_of_track(&self, key: &str) -> (r: Result<Vec<Playlist>, MyError>)
        ensures
            r matches Err(e) ==> e.inner == ErrorKind::Database && e.cause is Some,
    {
        let none: Vec<Option<String>> = Vec::new();
        match query_rows(&self.socket, playlist_select_sql(), &none, PLAYLIST_COLUMNS + 1) {
            Ok(rows) => Ok(select_playlists(&rows, Some(key))),
            Err(e) => Err(database_error(&e)),
        }
    }

    /// Creates an empty playlist under a fresh random key, by the statement
    /// and values of `insert_playlist_sql`.
    pub fn add_playlist(&self, title: &str) -> (r: Result<Playlist, MyError>)
        ensures
            r matches Ok(p) ==> p@.title == title@ && p.desc is None && p.count == 0
                && p@.key.len() == 32,
            r matches Err(e) ==> e.inner == ErrorKind::Database && e.cause is Some,
    {
        let key = fresh_key();
        let (sql, params) = insert_playlist_sql(key.as_str(), title);
        match execute(&self.socket, sql, &params) {
            Ok(_) => Ok(Playlist { key, title: title.to_owned(), desc: None, count: 0 }),
            Err(e) => Err(database_error(&e)),
        }
    }

    /// Stores a new track by `insert_track_sql()` with the cells of
    /// `track.to_row()`; fails where its key is already taken.
    pub fn insert_track(&self, track: Track) -> (r: Result<(), MyError>)
        ensures
            r matches Err(e) ==> e.inner == ErrorKind::Database && e.cause is Some,
    {
        let row = track.to_row();
        match execute(&self.socket, insert_track_sql(), &row) {
            Ok(_) => Ok(()),
            Err(e) => Err(database_error(&e)),
        }
    }

    /// The stored track with `key`: searches on the key and takes the first
    /// track found, as `pick_first` does.
    pub fn get_track(&self, key: &str) -> (r: Result<Track, MyError>)
        ensures
            r matches Ok(t) ==> t@.key == key@,
            r matches Err(e) ==> e.inner == ErrorKind::NotFound || (e.inner == ErrorKind::Database
                && e.cause is Some),
    {
        let mut terms: Vec<Term> = Vec::new();
        terms.push(Term { field: Field::Key, value: key.to_owned() });
        let query = SearchQuery { terms };
        let found = match self.search(&query) {
            Ok(ts) => ts,
            Err(e) => return Err(e),
        };
        proof {
            assert(terms_of(query)[0] == (Field::Key, key@));
        }
        pick_first(found)
    }

    /// Sets the given fields of the track with `key`, in one statement built
    /// by `update_sql`, and leaves the others as they are. With no field
    /// given nothing is written and the key comes back.
    pub fn update_track(
        &self,
        key: &str,
        title: Option<String>,
        album: Option<String>,
        interpret: Option<String>,
        conductor: Option<String>,
        composer: Option<String>,
    ) -> (r: Result<String, MyError>)
        ensures
            r matches Ok(k) ==> k@ == key@,
            title is None && album is None && interpret is None && conductor is None
                && composer is None ==> (r matches Ok(k) && k@ == key@),
            r matches Err(e) ==> e.inner == ErrorKind::Database && e.cause is Some,
    {
        match update_sql(key, &title, &album, &interpret, &conductor, &composer) {
            Some((sql, params)) => {
                if let Err(e) = execute(&self.socket, sql.as_str(), &params) {
                    return Err(database_error(&e));
                }
            },
            None => {},
        }
        Ok(key.to_owned())
    }
}

} // verus!
