//! Structured search queries and the SQL text they compile to. Values are
//! never written into the text: each stands behind a `?` and is bound.
use vstd::prelude::*;
use crate::model::clone_text;

verus! {

/// A text column of a track that a query or an update can name.
#[derive(Copy, Clone, Eq, PartialEq, Debug, Structural)]
pub enum Field {
    Title,
    Album,
    Interpret,
    Conductor,
    Composer,
    Key,
}

/// One constraint: the field equals the value exactly.
#[derive(Clone, Debug)]
pub struct Term {
    pub field: Field,
    pub value: String,
}

/// A conjunction of constraints; with none, every track matches.
#[derive(Clone, Debug)]
pub struct SearchQuery {
    pub terms: Vec<Term>,
}

/// The column that stores a field.
pub open spec fn column_spec(f: Field) -> Seq<char> {
    match f {
        Field::Title => "Title"@,
        Field::Album => "Album"@,
        Field::Interpret => "Interpret"@,
        Field::Conductor => "Conductor"@,
        Field::Composer => "Composer"@,
        Field::Key => "Key"@,
    }
}

/// The column of a field.
pub fn column_name(f: Field) -> (r: &'static str)
    ensures
        r@ == column_spec(f),
{
    match f {
        Field::Title => "Title",
        Field::Album => "Album",
        Field::Interpret => "Interpret",
        Field::Conductor => "Conductor",
        Field::Composer => "Composer",
        Field::Key => "Key",
    }
}

/// `col1 = ?<sep>col2 = ?...`, one placeholder per field.
pub open spec fn placeholders(fs: Seq<Field>, sep: Seq<char>) -> Seq<char>
    decreases fs.len(),
{
    if fs.len() == 0 {
        Seq::empty()
    } else {
        let head = placeholders(fs.drop_last(), sep);
        (if fs.len() == 1 { head } else { head + sep }) + column_spec(fs.last()) + " = ?"@
    }
}

/// Renders `placeholders(fs, sep)`.
pub fn render_placeholders(fs: &Vec<Field>, sep: &str) -> (r: String)
    ensures
        r@ == placeholders(fs@, sep@),
{
    let mut r = String::new();
    let mut i: usize = 0;
    while i < fs.len()
        invariant
            i <= fs.len(),
            r@ == placeholders(fs@.take(i as int), sep@),
        decreases fs.len() - i,
    {
        proof {
            assert(fs@.take(i + 1).drop_last() =~= fs@.take(i as int));
        }
        if i > 0 {
            r.append(sep);
        }
        r.append(column_name(fs[i]));
        r.append(" = ?");
        i = i + 1;
    }
    assert(fs@.take(fs.len() as int) =~= fs@);
    r
}

/// The columns of a track row, for a query that needs the fingerprint.
pub open spec fn full_select_spec() -> Seq<char> {
    "SELECT Title, Album, Interpret, Conductor, Composer, Key, Fingerprint, CAST(DurationMs AS TEXT), CAST(FavsCount AS TEXT), CAST(Channels AS TEXT) FROM music"@
}

/// The columns of a track row with an empty fingerprint, for plain listing.
pub open spec fn list_select_spec() -> Seq<char> {
    "SELECT Title, Album, Interpret, Conductor, Composer, Key, '', CAST(DurationMs AS TEXT), CAST(FavsCount AS TEXT), CAST(Channels AS TEXT) FROM music"@
}

/// Renders `full_select_spec()`.
pub fn full_select() -> (r: &'static str)
    ensures
        r@ == full_select_spec(),
{
    "SELECT Title, Album, Interpret, Conductor, Composer, Key, Fingerprint, CAST(DurationMs AS TEXT), CAST(FavsCount AS TEXT), CAST(Channels AS TEXT) FROM music"
}

/// Renders `list_select_spec()`.
pub fn list_select() -> (r: &'static str)
    ensures
        r@ == list_select_spec(),
{
    "SELECT Title, Album, Interpret, Conductor, Composer, Key, '', CAST(DurationMs AS TEXT), CAST(FavsCount AS TEXT), CAST(Channels AS TEXT) FROM music"
}

impl SearchQuery {
    /// The constrained fields, in order.
    pub open spec fn fields(&self) -> Seq<Field> {
        self.terms@.map_values(|t: Term| t.field)
    }

    /// The values that the constraints require, in order.
    pub open spec fn values(&self) -> Seq<Option<Seq<char>>> {
        self.terms@.map_values(|t: Term| Some(t.value@))
    }

    /// The query has no constraint.
    pub fn is_empty(&self) -> (r: bool)
        ensures
            r == (self.terms@.len() == 0),
    {
        self.terms.len() == 0
    }
}

/// The SQL text of a search: every row and no fingerprint for an empty query,
/// else the rows that meet every constraint, fingerprint included.
pub open spec fn search_sql_spec(fs: Seq<Field>) -> Seq<char> {
    if fs.len() == 0 {
        list_select_spec()
    } else {
        full_select_spec() + " WHERE "@ + placeholders(fs, " AND "@)
    }
}

/// Compiles a query into SQL text and the values bound to its placeholders, in order.
pub fn search_sql(q: &SearchQuery) -> (r: (String, Vec<Option<String>>))
    ensures
        r.0@ == search_sql_spec(q.fields()),
        r.1.deep_view() == q.values(),
{
    let mut fs: Vec<Field> = Vec::new();
    let mut params: Vec<Option<String>> = Vec::new();
    let mut i: usize = 0;
    while i < q.terms.len()
        invariant
            i <= q.terms.len(),
            fs@ == q.fields().take(i as int),
            params@.len() == i,
            params.deep_view() == q.values().take(i as int),
        decreases q.terms.len() - i,
    {
        fs.push(q.terms[i].field);
        let v = q.terms[i].value.clone();
        assert(v@ == q.terms@[i as int].value@);
        params.push(Some(v));
        proof {
            assert(params@[i as int] == Some(v));
            assert(q.values()[i as int] == Some(q.terms@[i as int].value@));
            assert(fs@ =~= q.fields().take(i + 1));
            assert(params.deep_view() =~= q.values().take(i + 1));
        }
        i = i + 1;
    }
    proof {
        assert(fs@ =~= q.fields());
        assert(params.deep_view() =~= q.values());
    }
    if fs.len() == 0 {
        (String::from_str(list_select()), params)
    } else {
        let mut sql = String::from_str(full_select());
        sql.append(" WHERE ");
        let conds = render_placeholders(&fs, " AND ");
        sql.append(conds.as_str());
        (sql, params)
    }
}

/// The field, where a new value for it is given.
pub open spec fn present_field(f: Field, v: Option<Seq<char>>) -> Seq<Field> {
    if v is Some { seq![f] } else { Seq::empty() }
}

/// The new value, where one is given.
pub open spec fn present_value(v: Option<Seq<char>>) -> Seq<Option<Seq<char>>> {
    if v is Some { seq![v] } else { Seq::empty() }
}

/// The fields that an update sets, in column order.
pub open spec fn update_fields(
    title: Option<Seq<char>>,
    album: Option<Seq<char>>,
    interpret: Option<Seq<char>>,
    conductor: Option<Seq<char>>,
    composer: Option<Seq<char>>,
) -> Seq<Field> {
    present_field(Field::Title, title) + present_field(Field::Album, album) + present_field(
        Field::Interpret,
        interpret,
    ) + present_field(Field::Conductor, conductor) + present_field(Field::Composer, composer)
}

/// The values that an update sets, in column order.
pub open spec fn update_values(
    title: Option<Seq<char>>,
    album: Option<Seq<char>>,
    interpret: Option<Seq<char>>,
    conductor: Option<Seq<char>>,
    composer: Option<Seq<char>>,
) -> Seq<Option<Seq<char>>> {
    present_value(title) + present_value(album) + present_value(interpret) + present_value(
        conductor,
    ) + present_value(composer)
}

/// The one statement that sets the given fields of the track with a key.
pub open spec fn update_sql_spec(fs: Seq<Field>) -> Seq<char> {
    "UPDATE music SET "@ + placeholders(fs, ", "@) + " WHERE Key = ?"@
}

fn push_present(fs: &mut Vec<Field>, vs: &mut Vec<Option<String>>, f: Field, v: &Option<String>)
    requires
        old(fs)@.len() == old(vs)@.len(),
    ensures
        final(fs)@ == old(fs)@ + present_field(f, v.deep_view()),
        final(vs).deep_view() == old(vs).deep_view() + present_value(v.deep_view()),
        final(fs)@.len() == final(vs)@.len(),
{
    if v.is_some() {
        fs.push(f);
        vs.push(clone_text(v));
        assert(final(fs)@ =~= old(fs)@ + present_field(f, v.deep_view()));
        assert(final(vs).deep_view() =~= old(vs).deep_view() + present_value(v.deep_view()));
    } else {
        assert(final(fs)@ =~= old(fs)@ + present_field(f, v.deep_view()));
        assert(final(vs).deep_view() =~= old(vs).deep_view() + present_value(v.deep_view()));
    }
}

/// Compiles a partial update of the track with `key` into one statement and
/// its bound values: the given fields in column order, then the key. `None`
/// where no field is given, as there is nothing to write.
pub fn update_sql(
    key: &str,
    title: &Option<String>,
    album: &Option<String>,
    interpret: &Option<String>,
    conductor: &Option<String>,
    composer: &Option<String>,
) -> (r: Option<(String, Vec<Option<String>>)>)
    ensures
        ({
            let fs = update_fields(
                title.deep_view(),
                album.deep_view(),
                interpret.deep_view(),
                conductor.deep_view(),
                composer.deep_view(),
            );
            let vs = update_values(
                title.deep_view(),
                album.deep_view(),
                interpret.deep_view(),
                conductor.deep_view(),
                composer.deep_view(),
            );
            &&& r is None <==> fs.len() == 0
            &&& r matches Some(p) ==> p.0@ == update_sql_spec(fs) && p.1.deep_view() == vs.push(
                Some(key@),
            )
        }),
{
    let mut fs: Vec<Field> = Vec::new();
    let mut vs: Vec<Option<String>> = Vec::new();
    push_present(&mut fs, &mut vs, Field::Title, title);
    push_present(&mut fs, &mut vs, Field::Album, album);
    push_present(&mut fs, &mut vs, Field::Interpret, interpret);
    push_present(&mut fs, &mut vs, Field::Conductor, conductor);
    push_present(&mut fs, &mut vs, Field::Composer, composer);
    assert(fs@ =~= update_fields(
        title.deep_view(),
        album.deep_view(),
        interpret.deep_view(),
        conductor.deep_view(),
        composer.deep_view(),
    ));
    assert(vs.deep_view() =~= update_values(
        title.deep_view(),
        album.deep_view(),
        interpret.deep_view(),
        conductor.deep_view(),
        composer.deep_view(),
    ));
    if fs.len() == 0 {
        return None;
    }
    let mut sql = String::from_str("UPDATE music SET ");
    let assigns = render_placeholders(&fs, ", ");
    sql.append(assigns.as_str());
    sql.append(" WHERE Key = ?");
    let ghost before = vs.deep_view();
    vs.push(Some(key.to_owned()));
    assert(vs.deep_view() =~= before.push(Some(key@)));
    Some((sql, vs))
}

} // verus!
