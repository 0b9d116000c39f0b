use music::decimal::{parse_u32, render_u32};
use music::error::{ErrorKind, MyError};
use music::membership::{is_member, member_keys_of, split_keys};
use music::model::{Playlist, Track};
use music::query::{search_sql, update_sql, Field, SearchQuery, Term};
use music::select::{select_listed_tracks, select_playlists, select_tracks};
use music::store::{
    insert_playlist_sql, member_tracks_sql, open_playlist, pick_first, playlist_lookup_sql,
    playlist_select_sql, Store,
};

fn open_store() -> Store {
    let store = Store::new(":memory:").expect("in-memory store opens");
    store.create_tables().expect("tables are created");
    store
}

fn s(x: &str) -> Option<String> {
    Some(x.to_string())
}

fn full_track(key: &str) -> Track {
    Track::new(
        key,
        "AQADtMmybfGO",
        215_480,
        s("Clair de lune"),
        None,
        s(""),
        s("Karajan"),
        s("Debussy"),
        7,
        1,
    )
}

fn same_track(a: &Track, b: &Track) -> bool {
    a.title == b.title
        && a.album == b.album
        && a.interpret == b.interpret
        && a.conductor == b.conductor
        && a.composer == b.composer
        && a.fingerprint == b.fingerprint
        && a.key == b.key
        && a.duration_ms == b.duration_ms
        && a.favs_count == b.favs_count
        && a.channels == b.channels
}

fn track_row(key: &str) -> Vec<Option<String>> {
    Track::empty(key, "fp", 1000).to_row()
}

fn playlist_row(key: &str, title: &str, tracks: Option<&str>) -> Vec<Option<String>> {
    vec![s(key), s(title), None, s("0"), tracks.map(|t| t.to_string())]
}

fn keys_of(ts: &[Track]) -> Vec<String> {
    let mut ks: Vec<String> = ts.iter().map(|t| t.key.clone()).collect();
    ks.sort();
    ks
}

#[test]
fn inserted_track_round_trips() {
    let store = open_store();
    let t = full_track("k1");
    store.insert_track(t.clone()).unwrap();
    let e = Track::empty("k2", "fp2", 0);
    store.insert_track(e.clone()).unwrap();
    assert!(same_track(&store.get_track("k1").unwrap(), &t));
    let got = store.get_track("k2").unwrap();
    assert!(same_track(&got, &e));
    assert_eq!(got.title, None);
    assert_eq!(got.channels, 2);
}

#[test]
fn largest_numbers_round_trip() {
    let store = open_store();
    let t = Track::new("big", "fp", u32::MAX, None, None, None, None, None, u32::MAX, u32::MAX);
    store.insert_track(t.clone()).unwrap();
    assert!(same_track(&store.get_track("big").unwrap(), &t));
}

#[test]
fn update_title_changes_only_title() {
    let store = open_store();
    store.insert_track(full_track("k1")).unwrap();
    let before = store.get_track("k1").unwrap();
    let k = store.update_track("k1", s("X"), None, None, None, None).unwrap();
    assert_eq!(k, "k1");
    let after = store.get_track("k1").unwrap();
    assert_eq!(after.title, s("X"));
    let mut expected = before.clone();
    expected.title = s("X");
    assert!(same_track(&after, &expected));
}

#[test]
fn update_with_no_field_changes_nothing() {
    let store = open_store();
    store.insert_track(full_track("k1")).unwrap();
    assert_eq!(store.update_track("k1", None, None, None, None, None).unwrap(), "k1");
    assert!(same_track(&store.get_track("k1").unwrap(), &full_track("k1")));
}

#[test]
fn update_several_fields() {
    let store = open_store();
    store.insert_track(full_track("k1")).unwrap();
    store.update_track("k1", None, s("Suite"), None, None, s("Ravel")).unwrap();
    let t = store.get_track("k1").unwrap();
    assert_eq!(t.album, s("Suite"));
    assert_eq!(t.composer, s("Ravel"));
    assert_eq!(t.title, s("Clair de lune"));
    assert_eq!(t.conductor, s("Karajan"));
}

#[test]
fn empty_search_lists_every_track() {
    let store = open_store();
    for k in ["c", "a", "b"] {
        store.insert_track(Track::empty(k, "fp", 1)).unwrap();
    }
    let all = store.search(&SearchQuery { terms: vec![] }).unwrap();
    assert_eq!(keys_of(&all), vec!["a", "b", "c"]);
    assert!(all.iter().all(|t| t.fingerprint.is_empty()));
}

#[test]
fn search_with_constraints() {
    let store = open_store();
    store.insert_track(full_track("k1")).unwrap();
    store.insert_track(Track::empty("k2", "fp", 1)).unwrap();
    let q = SearchQuery { terms: vec![Term { field: Field::Composer, value: "Debussy".to_string() }] };
    let found = store.search(&q).unwrap();
    assert_eq!(keys_of(&found), vec!["k1"]);
    assert_eq!(found[0].fingerprint, "AQADtMmybfGO");
    let q2 = SearchQuery {
        terms: vec![
            Term { field: Field::Composer, value: "Debussy".to_string() },
            Term { field: Field::Title, value: "Other".to_string() },
        ],
    };
    assert!(store.search(&q2).unwrap().is_empty());
}

#[test]
fn search_values_are_bound_not_spliced() {
    let store = open_store();
    store.insert_track(full_track("k1")).unwrap();
    let q = SearchQuery { terms: vec![Term { field: Field::Key, value: "x' OR '1'='1".to_string() }] };
    assert!(store.search(&q).unwrap().is_empty());
}

#[test]
fn add_playlist_starts_empty() {
    let store = open_store();
    let p = store.add_playlist("Favorites").unwrap();
    assert_eq!(p.title, "Favorites");
    assert_eq!(p.count, 0);
    assert_eq!(p.desc, None);
    assert_eq!(p.key.len(), 32);
    assert!(p.key.chars().all(|c| c.is_ascii_hexdigit() && !c.is_ascii_uppercase()));
    let q = store.add_playlist("Favorites").unwrap();
    assert_ne!(p.key, q.key);
    let (got, tracks) = store.get_playlist(&p.key).unwrap();
    assert_eq!(got.key, p.key);
    assert_eq!(got.count, 0);
    assert!(tracks.is_empty());
    assert_eq!(store.get_playlists().unwrap().len(), 2);
}

#[test]
fn missing_playlist_is_not_found() {
    let store = open_store();
    assert_eq!(store.get_playlist("none").unwrap_err().kind(), ErrorKind::NotFound);
}

#[test]
fn playlist_members_are_exact() {
    let rows = vec![track_row("a"), track_row("ab"), track_row("b"), track_row("abc"), track_row("c")];
    let list = s("a,b,c");
    let ts = select_listed_tracks(&rows, &list);
    assert_eq!(keys_of(&ts), vec!["a", "b", "c"]);
    assert!(select_listed_tracks(&rows, &None).is_empty());
    assert!(select_listed_tracks(&rows, &s("")).is_empty());
}

#[test]
fn playlists_of_track_are_exact() {
    let rows = vec![
        playlist_row("p1", "One", Some("ab,c")),
        playlist_row("p2", "Two", Some("x,a,b")),
        playlist_row("p3", "Three", None),
        playlist_row("p4", "Four", Some("a")),
    ];
    let ps = select_playlists(&rows, Some("a"));
    let keys: Vec<String> = ps.iter().map(|p| p.key.clone()).collect();
    assert_eq!(keys, vec!["p2", "p4"]);
    assert!(select_playlists(&rows, Some("c,")).is_empty());
    assert_eq!(select_playlists(&rows, None).len(), 4);
    let store = open_store();
    store.add_playlist("Empty").unwrap();
    assert!(store.get_playlists_of_track("a").unwrap().is_empty());
}

#[test]
fn missing_track_is_not_found() {
    let store = open_store();
    store.insert_track(full_track("k1")).unwrap();
    let e = store.get_track("k").unwrap_err();
    assert_eq!(e.kind(), ErrorKind::NotFound);
}

#[test]
fn duplicate_key_is_a_database_error() {
    let store = open_store();
    store.insert_track(full_track("k1")).unwrap();
    let e = store.insert_track(full_track("k1")).unwrap_err();
    assert_eq!(e.kind(), ErrorKind::Database);
    assert!(e.cause.map(|c| !c.is_empty()).unwrap_or(false));
}

#[test]
fn store_without_tables_fails() {
    let store = Store::new(":memory:").unwrap();
    assert_eq!(store.get_track("k").unwrap_err().kind(), ErrorKind::Database);
    assert_eq!(store.get_playlists().unwrap_err().kind(), ErrorKind::Database);
}

#[test]
fn decimal_rendering_and_reading() {
    assert_eq!(render_u32(0), "0");
    assert_eq!(render_u32(1205), "1205");
    assert_eq!(render_u32(u32::MAX), "4294967295");
    assert_eq!(parse_u32("4294967295"), Some(u32::MAX));
    assert_eq!(parse_u32("007"), Some(7));
    assert_eq!(parse_u32("4294967296"), None);
    assert_eq!(parse_u32(""), None);
    assert_eq!(parse_u32("1a"), None);
    assert_eq!(parse_u32("-1"), None);
}

#[test]
fn membership_lists_split_on_commas() {
    assert_eq!(split_keys("a,,b"), vec!["a", "", "b"]);
    assert_eq!(split_keys("abc"), vec!["abc"]);
    assert_eq!(split_keys("a,"), vec!["a", ""]);
    assert!(member_keys_of(&None).is_empty());
    assert!(member_keys_of(&s("")).is_empty());
    assert!(is_member(&s("a,b,c"), "b"));
    assert!(!is_member(&s("a,b,c"), "ab"));
    assert!(!is_member(&s("ab,c"), "a"));
    assert!(!is_member(&None, "a"));
}

#[test]
fn search_sql_text() {
    let (sql, params) = search_sql(&SearchQuery { terms: vec![] });
    assert_eq!(sql, "SELECT Title, Album, Interpret, Conductor, Composer, Key, '', CAST(DurationMs AS TEXT), CAST(FavsCount AS TEXT), CAST(Channels AS TEXT) FROM music");
    assert!(params.is_empty());
    let q = SearchQuery {
        terms: vec![
            Term { field: Field::Title, value: "T".to_string() },
            Term { field: Field::Album, value: "A".to_string() },
        ],
    };
    let (sql, params) = search_sql(&q);
    assert!(sql.ends_with(" FROM music WHERE Title = ? AND Album = ?"));
    assert!(sql.contains("Fingerprint"));
    assert_eq!(params, vec![s("T"), s("A")]);
}

#[test]
fn update_sql_text() {
    assert!(update_sql("k", &None, &None, &None, &None, &None).is_none());
    let (sql, params) = update_sql("k", &s("T"), &None, &None, &None, &s("C")).unwrap();
    assert_eq!(sql, "UPDATE music SET Title = ?, Composer = ? WHERE Key = ?");
    assert_eq!(params, vec![s("T"), s("C"), s("k")]);
}

#[test]
fn track_rows_decode() {
    let t = full_track("k1");
    let row = t.to_row();
    assert_eq!(row[7], s("215480"));
    assert!(same_track(&Track::from_row(&row).unwrap(), &t));
    let mut bad = row.clone();
    bad[8] = s("x");
    assert!(Track::from_row(&bad).is_none());
    assert!(Track::from_row(&row[..9].to_vec()).is_none());
    let rows = vec![bad, row];
    assert_eq!(select_tracks(&rows, &SearchQuery { terms: vec![] }).len(), 1);
    assert!(Playlist::from_row(&playlist_row("p", "T", None)).is_some());
    assert!(Playlist::from_row(&vec![None, s("T"), None, s("0")]).is_none());
}

#[test]
fn suggestion_request_rounds_duration() {
    let t = Track::empty("k", "fp", 1499);
    assert_eq!(t.suggestion_request(), ("fp".to_string(), 1));
    assert_eq!(Track::empty("k", "fp", 1500).suggestion_request().1, 2);
    assert_eq!(Track::empty("k", "fp", u32::MAX).suggestion_request().1, 4294967);
}

#[test]
fn errors_carry_kind_and_cause() {
    let e = MyError::from_kind(ErrorKind::Conversion);
    assert_eq!(e.kind(), ErrorKind::Conversion);
    assert!(e.cause.is_none());
    let c = MyError::with_cause(ErrorKind::AcousticIDMetadata, "down".to_string());
    assert_eq!(c.kind(), ErrorKind::AcousticIDMetadata);
    assert_eq!(c.cause, s("down"));
}

#[test]
fn playlist_statements() {
    let (sql, params) = insert_playlist_sql("k", "T");
    assert_eq!(sql, "INSERT INTO playlists (Key, Title, Count) VALUES (?1, ?2, ?3)");
    assert_eq!(params, vec![s("k"), s("T"), s("0")]);
    let (sql, params) = playlist_lookup_sql("k");
    assert_eq!(sql, format!("{} WHERE Key = ?", playlist_select_sql()));
    assert_eq!(params, vec![s("k")]);
    let (sql, params) = member_tracks_sql(&vec!["a".to_string(), "b".to_string()]);
    assert!(sql.ends_with(" FROM music WHERE Key = ? OR Key = ?"));
    assert_eq!(params, vec![s("a"), s("b")]);
}

#[test]
fn schema_refuses_taken_keys() {
    let stmts = music::store::schema();
    assert_eq!(stmts.len(), 2);
    assert!(stmts[0].contains("Key TEXT NOT NULL UNIQUE"));
    assert!(stmts[1].contains("Key TEXT NOT NULL UNIQUE"));
    assert!(music::store::insert_track_sql().starts_with("INSERT INTO music"));
}

#[test]
fn pick_first_decides() {
    assert_eq!(pick_first(vec![]).unwrap_err().kind(), ErrorKind::NotFound);
    let t = pick_first(vec![Track::empty("x", "f", 1), Track::empty("y", "f", 1)]).unwrap();
    assert_eq!(t.key, "x");
}

#[test]
fn open_playlist_decides() {
    let rows = vec![playlist_row("p1", "One", Some("a,b")), playlist_row("p2", "Two", None)];
    let (p, list, keys) = open_playlist(&rows, "p1").unwrap();
    assert_eq!(p.title, "One");
    assert_eq!(list, s("a,b"));
    assert_eq!(keys, vec!["a", "b"]);
    let (_, list, keys) = open_playlist(&rows, "p2").unwrap();
    assert_eq!(list, None);
    assert!(keys.is_empty());
    assert_eq!(open_playlist(&rows, "p").unwrap_err().kind(), ErrorKind::NotFound);
}

#[test]
fn added_playlist_is_listed() {
    let store = open_store();
    let p = store.add_playlist("Mix").unwrap();
    let all = store.get_playlists().unwrap();
    assert_eq!(all.len(), 1);
    assert_eq!(all[0].key, p.key);
    assert_eq!(all[0].title, "Mix");
    assert_eq!(all[0].desc, None);
    assert_eq!(all[0].count, 0);
}
