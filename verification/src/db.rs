//! The storage layer: a file-based SQLite database holding the
//! `articles` and `users` tables.
//!
//! Everything this module decides — which statements are run, which
//! columns they touch, and in which order the values are bound to the
//! placeholders — is built and verified here. Only the calls into the
//! database library itself are taken on trust, and nothing is promised
//! of their outcomes: what a statement does to the file on disk is the
//! database's affair.

use vstd::prelude::*;
use crate::article::{now_timestamp, Article};

verus! {

#[verifier::external_type_specification]
#[verifier::external_body]
pub struct ExConnection(rusqlite::Connection);

#[verifier::external_type_specification]
#[verifier::external_body]
pub struct ExRusqliteError(rusqlite::Error);

/// A storage failure, carrying the underlying database error.
#[derive(Debug)]
pub struct DbError {
    pub cause: rusqlite::Error,
}

/// A value bound to one placeholder of an SQL statement.
pub enum SqlValue {
    Int(i64),
    Text(String),
    Null,
}

/// The mathematical value of a [`SqlValue`].
pub enum SqlValueView {
    Int(int),
    Text(Seq<char>),
    Null,
}

impl View for SqlValue {
    type V = SqlValueView;

    open spec fn view(&self) -> SqlValueView {
        match self {
            SqlValue::Int(i) => SqlValueView::Int(*i as int),
            SqlValue::Text(s) => SqlValueView::Text(s@),
            SqlValue::Null => SqlValueView::Null,
        }
    }
}

/// One row of the `articles` table, as the plain column values the
/// database handed back.
pub struct ArticleRow {
    pub id: i64,
    pub title: String,
    pub content: String,
    pub created_by: String,
    pub time_created: i64,
    pub last_edited_by: Option<String>,
    pub last_edit_time: Option<i64>,
}

// ---------------------------------------------------------------------
// Statement texts
// ---------------------------------------------------------------------

/// The path of the database file, relative to the working directory.
pub open spec fn db_path_spec() -> Seq<char> {
    "./data.db"@
}

pub fn db_path() -> (r: &'static str)
    ensures
        r@ == db_path_spec(),
{
    "./data.db"
}

pub open spec fn articles_table_sql_spec() -> Seq<char> {
    "CREATE TABLE IF NOT EXISTS articles (id INTEGER PRIMARY KEY, title TEXT NOT NULL, content TEXT NOT NULL, created_by TEXT NOT NULL, time_created BIGINT, last_edited_by TEXT, last_edit_time BIGINT)"@
}

/// The schema statement for `articles`. `IF NOT EXISTS` makes a second
/// run against the same file leave the table as it stands.
pub fn articles_table_sql() -> (r: &'static str)
    ensures
        r@ == articles_table_sql_spec(),
{
    "CREATE TABLE IF NOT EXISTS articles (id INTEGER PRIMARY KEY, title TEXT NOT NULL, content TEXT NOT NULL, created_by TEXT NOT NULL, time_created BIGINT, last_edited_by TEXT, last_edit_time BIGINT)"
}

pub open spec fn users_table_sql_spec() -> Seq<char> {
    "CREATE TABLE IF NOT EXISTS users (id INTEGER PRIMARY KEY, name TEXT NOT NULL, password TEXT NOT NULL)"@
}

/// The schema statement for `users`, equally guarded by `IF NOT EXISTS`.
pub fn users_table_sql() -> (r: &'static str)
    ensures
        r@ == users_table_sql_spec(),
{
    "CREATE TABLE IF NOT EXISTS users (id INTEGER PRIMARY KEY, name TEXT NOT NULL, password TEXT NOT NULL)"
}

pub open spec fn insert_article_sql_spec() -> Seq<char> {
    "INSERT INTO articles (title, content, created_by, time_created) VALUES (?1, ?2, ?3, ?4)"@
}

/// The insert statement. The `content` column is `NOT NULL` in the
/// schema, so the insert must supply it along with title, creator and
/// creation time.
pub fn insert_article_sql() -> (r: &'static str)
    ensures
        r@ == insert_article_sql_spec(),
{
    "INSERT INTO articles (title, content, created_by, time_created) VALUES (?1, ?2, ?3, ?4)"
}

pub open spec fn update_article_sql_spec() -> Seq<char> {
    "UPDATE articles SET title=?1, content=?2, last_edited_by=?3, last_edit_time=?4 WHERE id=?5"@
}

/// The update statement: it rewrites title and content and stamps the
/// two edit-mark columns, keyed by the row identifier. Each placeholder
/// appears exactly once, so each bound value reaches exactly the column
/// named beside it.
pub fn update_article_sql() -> (r: &'static str)
    ensures
        r@ == update_article_sql_spec(),
{
    "UPDATE articles SET title=?1, content=?2, last_edited_by=?3, last_edit_time=?4 WHERE id=?5"
}

pub open spec fn select_articles_sql_spec() -> Seq<char> {
    "SELECT id, title, content, created_by, time_created, last_edited_by, last_edit_time FROM articles"@
}

/// The listing statement. No ordering clause: rows come in storage
/// order, which is not guaranteed stable.
pub fn select_articles_sql() -> (r: &'static str)
    ensures
        r@ == select_articles_sql_spec(),
{
    "SELECT id, title, content, created_by, time_created, last_edited_by, last_edit_time FROM articles"
}

// ---------------------------------------------------------------------
// Parameter bindings
// ---------------------------------------------------------------------

/// The values bound to the insert placeholders, in placeholder order:
/// title, content, creator, creation time.
pub fn insert_article_params(article: &Article) -> (r: Vec<SqlValue>)
    ensures
        r@.len() == 4,
        r@[0]@ == SqlValueView::Text(article.title@),
        r@[1]@ == SqlValueView::Text(article.content@),
        r@[2]@ == SqlValueView::Text(article.created_by@),
        r@[3]@ == SqlValueView::Int(article.time_created as int),
{
    let mut v: Vec<SqlValue> = Vec::new();
    v.push(SqlValue::Text(article.title.clone()));
    v.push(SqlValue::Text(article.content.clone()));
    v.push(SqlValue::Text(article.created_by.clone()));
    v.push(SqlValue::Int(article.time_created));
    v
}

/// The values bound to the update placeholders, in placeholder order:
/// title, content, editor, edit time, row identifier. Bound one-to-one
/// against [`update_article_sql`], this puts the edited content in the
/// content column and the editor mark in the editor column.
pub fn update_article_params(id: i64, title: &str, content: &str, by: &str, now: i64) -> (r:
    Vec<SqlValue>)
    ensures
        r@.len() == 5,
        r@[0]@ == SqlValueView::Text(title@),
        r@[1]@ == SqlValueView::Text(content@),
        r@[2]@ == SqlValueView::Text(by@),
        r@[3]@ == SqlValueView::Int(now as int),
        r@[4]@ == SqlValueView::Int(id as int),
{
    let mut v: Vec<SqlValue> = Vec::new();
    v.push(SqlValue::Text(String::from_str(title)));
    v.push(SqlValue::Text(String::from_str(content)));
    v.push(SqlValue::Text(String::from_str(by)));
    v.push(SqlValue::Int(now));
    v.push(SqlValue::Int(id));
    v
}

// ---------------------------------------------------------------------
// Trusted calls into the database library
// ---------------------------------------------------------------------

/// Relies on `rusqlite::Connection::open`: opens (or creates) the
/// database file at `path`. Success depends on the filesystem, so
/// nothing is promised of the outcome.
#[verifier::external_body]
fn open_connection(path: &str) -> Result<rusqlite::Connection, rusqlite::Error> {
    rusqlite::Connection::open(path)
}

/// Relies on `rusqlite::Connection::execute` (with
/// `rusqlite::params_from_iter`): runs one SQL statement with the given
/// values bound to its placeholders in order. What the statement does to
/// the database file is the database's affair, so nothing is promised of
/// the outcome.
#[verifier::external_body]
fn execute_sql(conn: &rusqlite::Connection, sql: &str, params: &Vec<SqlValue>) -> Result<
    usize,
    rusqlite::Error,
> {
    let vals = params.iter().map(|p| match p {
        SqlValue::Int(i) => rusqlite::types::Value::Integer(*i),
        SqlValue::Text(s) => rusqlite::types::Value::Text(s.clone()),
        SqlValue::Null => rusqlite::types::Value::Null,
    });
    conn.execute(sql, rusqlite::params_from_iter(vals))
}

/// Relies on `rusqlite::Connection::prepare`, `Statement::query_map` and
/// `Row::get` (by column name): runs the given SELECT and hands back
/// every row, as plain column values, in the order the database yields
/// them. What comes back depends on the database file, so nothing is
/// promised of the outcome.
#[verifier::external_body]
fn fetch_article_rows(conn: &rusqlite::Connection, sql: &str) -> Result<
    Vec<ArticleRow>,
    rusqlite::Error,
> {
    let mut stmt = conn.prepare(sql)?;
    let rows = stmt.query_map([], |row| {
        Ok(ArticleRow {
            id: row.get("id")?,
            title: row.get("title")?,
            content: row.get("content")?,
            created_by: row.get("created_by")?,
            time_created: row.get("time_created")?,
            last_edited_by: row.get("last_edited_by")?,
            last_edit_time: row.get("last_edit_time")?,
        })
    })?;
    rows.collect()
}

// ---------------------------------------------------------------------
// The storage operations
// ---------------------------------------------------------------------

/// Opens (or creates) the database file at [`db_path`]. Fails when the
/// filesystem location is inaccessible; the database decides.
pub fn open_db() -> (r: Result<rusqlite::Connection, DbError>) {
    match open_connection(db_path()) {
        Ok(c) => Ok(c),
        Err(e) => Err(DbError { cause: e }),
    }
}

/// Creates the `articles` and `users` tables where absent. Both
/// statements are guarded by `IF NOT EXISTS`, so running this twice
/// against the same file changes nothing the second time. Fails only
/// when storage is unavailable; the database decides.
pub fn create_tables(conn: &rusqlite::Connection) -> (r: Result<(), DbError>) {
    let no_params: Vec<SqlValue> = Vec::new();
    match execute_sql(conn, articles_table_sql(), &no_params) {
        Ok(_) => {}
        Err(e) => {
            return Err(DbError { cause: e });
        }
    }
    match execute_sql(conn, users_table_sql(), &no_params) {
        Ok(_) => {}
        Err(e) => {
            return Err(DbError { cause: e });
        }
    }
    Ok(())
}

/// The article a stored row denotes: every column value carried over
/// into its field.
pub open spec fn article_of_row_spec(row: ArticleRow) -> Article {
    Article {
        id: row.id,
        title: row.title,
        content: row.content,
        created_by: row.created_by,
        time_created: row.time_created,
        last_edited_by: row.last_edited_by,
        last_edit_time: row.last_edit_time,
    }
}

/// Rebuilds the article a stored row denotes.
pub fn article_of_row(row: &ArticleRow) -> (a: Article)
    ensures
        a == article_of_row_spec(*row),
{
    Article {
        id: row.id,
        title: row.title.clone(),
        content: row.content.clone(),
        created_by: row.created_by.clone(),
        time_created: row.time_created,
        last_edited_by: clone_edit_mark(&row.last_edited_by),
        last_edit_time: row.last_edit_time,
    }
}

/// Copies an optional editor mark.
fn clone_edit_mark(o: &Option<String>) -> (r: Option<String>)
    ensures
        r == *o,
{
    match o {
        Some(s) => Some(s.clone()),
        None => None,
    }
}

/// Rebuilds the article each fetched row denotes, keeping the rows'
/// order.
pub fn articles_of_rows(rows: &Vec<ArticleRow>) -> (r: Vec<Article>)
    ensures
        r@ == rows@.map_values(|row: ArticleRow| article_of_row_spec(row)),
{
    let mut out: Vec<Article> = Vec::new();
    let mut i: usize = 0;
    while i < rows.len()
        invariant
            i <= rows@.len(),
            out@ =~= rows@.take(i as int).map_values(|row: ArticleRow| article_of_row_spec(row)),
        decreases rows@.len() - i,
    {
        out.push(article_of_row(&rows[i]));
        proof {
            assert(out@ =~= rows@.take(i as int + 1).map_values(
                |row: ArticleRow| article_of_row_spec(row),
            ));
        }
        i = i + 1;
    }
    proof {
        assert(rows@.take(rows@.len() as int) =~= rows@);
        assert(out@ =~= rows@.map_values(|row: ArticleRow| article_of_row_spec(row)));
    }
    out
}

/// Returns every stored article, in storage order. Which rows come back
/// the database decides; each one is carried over by
/// [`article_of_row_spec`].
pub fn get_all_articles(conn: &rusqlite::Connection) -> (r: Result<Vec<Article>, DbError>) {
    match fetch_article_rows(conn, select_articles_sql()) {
        Ok(rows) => Ok(articles_of_rows(&rows)),
        Err(e) => Err(DbError { cause: e }),
    }
}

/// Inserts an article: title, content, creator and creation time, bound
/// in placeholder order by [`insert_article_params`]. The stored row's
/// identifier is assigned by the database; the `id` field of `article`
/// is not written. Fails only when storage refuses the insert; the
/// database decides.
pub fn add_article(conn: &rusqlite::Connection, article: &Article) -> (r: Result<(), DbError>) {
    let params = insert_article_params(article);
    match execute_sql(conn, insert_article_sql(), &params) {
        Ok(_) => Ok(()),
        Err(e) => Err(DbError { cause: e }),
    }
}

/// Rewrites title and content of the row with the given identifier and
/// stamps editor and edit time, the values bound in placeholder order by
/// [`update_article_params`]. Fails only when storage refuses the
/// update; the database decides.
pub fn update_article_at(
    conn: &rusqlite::Connection,
    id: i64,
    title: &str,
    content: &str,
    by: &str,
    now: i64,
) -> (r: Result<(), DbError>) {
    let params = update_article_params(id, title, content, by, now);
    match execute_sql(conn, update_article_sql(), &params) {
        Ok(_) => Ok(()),
        Err(e) => Err(DbError { cause: e }),
    }
}

/// As [`update_article_at`], with the edit stamped at the current
/// wall-clock time.
pub fn update_article(
    conn: &rusqlite::Connection,
    id: i64,
    title: &str,
    content: &str,
    by: &str,
) -> (r: Result<(), DbError>) {
    let now = now_timestamp();
    update_article_at(conn, id, title, content, by, now)
}

} // verus!
