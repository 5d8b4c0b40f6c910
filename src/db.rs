//! The store of posts already seen: one table in an SQLite file.

use crate::post::{opt_text, ForumPost, ForumPostMeta, PostView};
use crate::timestamp::{format_datetime, formatted_datetime, parse_datetime, parsed_datetime, Timestamp};
use vstd::prelude::*;

verus! {

#[verifier::external_type_specification]
#[verifier::external_body]
pub struct ExConnection(sqlite::Connection);

#[verifier::external_type_specification]
#[verifier::external_body]
pub struct ExError(sqlite::Error);

/// Creates the table of posts unless it is there already.
pub const CREATE_TABLE: &'static str =
    "CREATE TABLE IF NOT EXISTS posts (id INTEGER PRIMARY KEY AUTOINCREMENT, url TEXT, title TEXT, poster TEXT, date TEXT);";

/// Appends one row; its four parameters are url, title, poster and date.
pub const INSERT_POST: &'static str = "INSERT INTO posts (url, title, poster, date) VALUES (?, ?, ?, ?)";

/// All rows, the most recently inserted first.
pub const SELECT_POSTS: &'static str = "SELECT url, title, poster, date FROM posts ORDER BY id DESC";

/// The format of the stored date text, as in `2024-01-05 15:45:00`.
pub const STORE_DATE_FORMAT: &'static str = "%Y-%m-%d %H:%M:%S";

/// Why a store operation failed, with SQLite's own error.
pub enum StoreError {
    Open(sqlite::Error),
    Schema(sqlite::Error),
    Write(sqlite::Error),
    Read(sqlite::Error),
}

/// Relies on `sqlite::Connection::open`: opens, or creates, the database
/// file at `path`.
#[verifier::external_body]
fn open_connection(path: &str) -> (r: Result<sqlite::Connection, sqlite::Error>) {
    sqlite::Connection::open(path)
}

/// Relies on `sqlite::Connection::execute`: runs `sql` and drops any rows.
#[verifier::external_body]
fn execute(conn: &sqlite::Connection, sql: &str) -> (r: Result<(), sqlite::Error>) {
    conn.execute(sql)
}

/// Relies on `sqlite::Connection::prepare`, `Statement::bind` and
/// `Statement::next`: runs the statement `sql` once, with `values` bound to
/// its parameters 1, 2, ... in order.
#[verifier::external_body]
fn execute_with_texts(conn: &sqlite::Connection, sql: &str, values: &Vec<String>) -> (r: Result<
    (),
    sqlite::Error,
>) {
    let mut stmt = conn.prepare(sql)?;
    stmt.bind(&values.iter().map(|v| v.as_str()).collect::<Vec<&str>>()[..])?;
    stmt.next()?;
    Ok(())
}

/// Relies on `sqlite::Connection::prepare`, the rows of its cursor and
/// `Row::try_read`: runs the query `sql` and gives, for each row in the order
/// the query yields them, the text in each of `columns`, in order (`None`
/// where the value there is not text).
#[verifier::external_body]
fn query_texts(conn: &sqlite::Connection, sql: &str, columns: &Vec<String>) -> (r: Result<
    Vec<Vec<Option<String>>>,
    sqlite::Error,
>)
    ensures
        r matches Ok(rows) ==> forall|i: int| 0 <= i < rows.len() ==> #[trigger] rows@[i].len() == columns.len(),
{
    conn.prepare(sql)?.into_iter().map(|row| {
        row.map(|row| columns.iter().map(|c| row.try_read::<&str, &str>(c.as_str()).ok().map(str::to_owned)).collect())
    }).collect()
}

/// The stored text of a date: written under [`STORE_DATE_FORMAT`], empty
/// when there is no date.
pub open spec fn stored_date(date: Option<Timestamp>) -> Seq<char> {
    match date {
        Some(t) => match formatted_datetime(t, STORE_DATE_FORMAT@) {
            Some(s) => s,
            None => Seq::empty(),
        },
        None => Seq::empty(),
    }
}

pub open spec fn text_or_empty(o: Option<Seq<char>>) -> Seq<char> {
    match o {
        Some(s) => s,
        None => Seq::empty(),
    }
}

/// The four texts stored for a post: url, title, poster and date, each
/// empty where the post lacks it.
pub open spec fn row_of(p: PostView) -> Seq<Seq<char>> {
    seq![text_or_empty(p.url), text_or_empty(p.title), text_or_empty(p.poster), stored_date(p.date)]
}

fn text_or_default(o: &Option<String>) -> (r: String)
    ensures
        r@ == text_or_empty(opt_text(*o)),
{
    match o {
        Some(s) => s.clone(),
        None => String::new(),
    }
}

/// The texts that a row of the store holds for `post`.
pub fn row_values(post: &ForumPost) -> (r: Vec<String>)
    ensures
        r@.map_values(|s: String| s@) == row_of(post@),
{
    let date = match &post.meta.date {
        Some(t) => match format_datetime(t, STORE_DATE_FORMAT) {
            Some(s) => s,
            None => String::new(),
        },
        None => String::new(),
    };
    let r = vec![
        text_or_default(&post.url),
        text_or_default(&post.title),
        text_or_default(&post.meta.poster),
        date,
    ];
    assert(r@.map_values(|s: String| s@) =~= row_of(post@));
    r
}

/// The record read back from a stored row of url, title, poster and date
/// texts; a date text that does not parse under [`STORE_DATE_FORMAT`]
/// gives no date.
pub open spec fn post_of_row(row: Seq<Option<Seq<char>>>) -> PostView {
    PostView {
        url: row[0],
        title: row[1],
        poster: row[2],
        date: match row[3] {
            Some(d) => parsed_datetime(d, STORE_DATE_FORMAT@),
            None => None,
        },
    }
}

/// A row read back as it was written gives the post's url, title and poster
/// again, an absent one as empty text: a stored post is known by its url on
/// the next pass.
pub proof fn lemma_row_reads_back(p: PostView)
    ensures
        post_of_row(row_of(p).map_values(|t: Seq<char>| Some(t))).url == Some(text_or_empty(p.url)),
        post_of_row(row_of(p).map_values(|t: Seq<char>| Some(t))).title == Some(text_or_empty(p.title)),
        post_of_row(row_of(p).map_values(|t: Seq<char>| Some(t))).poster == Some(
            text_or_empty(p.poster),
        ),
{
}

pub open spec fn row_view(row: Seq<Option<String>>) -> Seq<Option<Seq<char>>> {
    row.map_values(|o: Option<String>| opt_text(o))
}

/// Builds the record of one stored row of url, title, poster and date.
pub fn post_from_row(row: &Vec<Option<String>>) -> (r: ForumPost)
    requires
        row.len() == 4,
    ensures
        r@ == post_of_row(row_view(row@)),
        r@.date matches Some(t) ==> t.wf(),
{
    let date = match &row[3] {
        Some(d) => parse_datetime(d.as_str(), STORE_DATE_FORMAT),
        None => None,
    };
    ForumPost {
        url: crate::post::clone_text(&row[0]),
        title: crate::post::clone_text(&row[1]),
        meta: ForumPostMeta { poster: crate::post::clone_text(&row[2]), date },
    }
}

/// Builds the records of stored rows, in the same order.
pub fn posts_from_rows(rows: &Vec<Vec<Option<String>>>) -> (r: Vec<ForumPost>)
    requires
        forall|i: int| 0 <= i < rows.len() ==> #[trigger] rows@[i].len() == 4,
    ensures
        r.len() == rows.len(),
        forall|i: int| 0 <= i < r.len() ==> #[trigger] r@[i]@ == post_of_row(row_view(rows@[i]@)),
        forall|i: int| 0 <= i < r.len() ==> ((#[trigger] r@[i]@).date matches Some(t) ==> t.wf()),
{
    let mut posts: Vec<ForumPost> = Vec::new();
    let mut i: usize = 0;
    while i < rows.len()
        invariant
            forall|k: int| 0 <= k < rows.len() ==> #[trigger] rows@[k].len() == 4,
            i <= rows.len(),
            posts.len() == i,
            forall|k: int| 0 <= k < i ==> #[trigger] posts@[k]@ == post_of_row(row_view(rows@[k]@)),
            forall|k: int| 0 <= k < i ==> ((#[trigger] posts@[k]@).date matches Some(t) ==> t.wf()),
        decreases rows.len() - i,
    {
        posts.push(post_from_row(&rows[i]));
        i = i + 1;
    }
    posts
}

/// A handle on the store file.
pub struct Database {
    conn: sqlite::Connection,
}

impl Database {
    /// Opens the store at `path` and makes sure its table exists.
    pub fn new(path: &str) -> (r: Result<Database, StoreError>)
        ensures
            r matches Err(e) ==> e is Open || e is Schema,
    {
        let conn = match open_connection(path) {
            Ok(c) => c,
            Err(e) => return Err(StoreError::Open(e)),
        };
        let db = Database { conn };
        match db.init() {
            Ok(()) => Ok(db),
            Err(e) => Err(e),
        }
    }

    /// Creates the table of posts if it is missing; harmless to repeat.
    fn init(&self) -> (r: Result<(), StoreError>)
        ensures
            r matches Err(e) ==> e is Schema,
    {
        match execute(&self.conn, CREATE_TABLE) {
            Ok(()) => Ok(()),
            Err(e) => Err(StoreError::Schema(e)),
        }
    }

    /// Appends one row for `post`, holding [`row_values`] of it. Does not
    /// look for an earlier row with the same url.
    pub fn insert_post(&self, post: &ForumPost) -> (r: Result<(), StoreError>)
        ensures
            r matches Err(e) ==> e is Write,
    {
        let values = row_values(post);
        match execute_with_texts(&self.conn, INSERT_POST, &values) {
            Ok(()) => Ok(()),
            Err(e) => Err(StoreError::Write(e)),
        }
    }

    /// Reads every stored post, the most recently inserted first.
    pub fn get_posts(&self) -> (r: Result<Vec<ForumPost>, StoreError>)
        ensures
            r matches Err(e) ==> e is Read,
            r matches Ok(posts) ==> forall|i: int|
                0 <= i < posts.len() ==> ((#[trigger] posts@[i]@).date matches Some(t) ==> t.wf()),
    {
        let columns = vec![
            String::from_str("url"),
            String::from_str("title"),
            String::from_str("poster"),
            String::from_str("date"),
        ];
        match query_texts(&self.conn, SELECT_POSTS, &columns) {
            Ok(rows) => {
                let posts = posts_from_rows(&rows);
                Ok(posts)
            },
            Err(e) => Err(StoreError::Read(e)),
        }
    }
}

} // verus!
