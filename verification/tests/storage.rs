use article_server::article::Article;
use article_server::db::{
    add_article, article_of_row, articles_table_sql, create_tables, get_all_articles,
    insert_article_sql, select_articles_sql, update_article_at, update_article_sql,
    users_table_sql, ArticleRow,
};
use rusqlite::Connection;

fn table_count(conn: &Connection, name: &str) -> i64 {
    conn.query_row(
        "SELECT count(*) FROM sqlite_master WHERE type='table' AND name=?1",
        [name],
        |row| row.get(0),
    )
    .unwrap()
}

#[test]
fn create_tables_twice_is_idempotent() {
    let conn = Connection::open_in_memory().unwrap();
    assert!(create_tables(&conn).is_ok());
    assert!(create_tables(&conn).is_ok());
    assert_eq!(table_count(&conn, "articles"), 1);
    assert_eq!(table_count(&conn, "users"), 1);
}

#[test]
fn add_then_list_round_trips_every_field() {
    let conn = Connection::open_in_memory().unwrap();
    create_tables(&conn).unwrap();
    let a = Article::new_at("First", "Hello there", "alice", 1_700_000_000);
    add_article(&conn, &a).unwrap();
    let all = get_all_articles(&conn).unwrap();
    assert_eq!(all.len(), 1);
    assert_eq!(all[0].id, 1);
    assert_eq!(all[0].title, "First");
    assert_eq!(all[0].content, "Hello there");
    assert_eq!(all[0].created_by, "alice");
    assert_eq!(all[0].time_created, 1_700_000_000);
    assert_eq!(all[0].last_edited_by, None);
    assert_eq!(all[0].last_edit_time, None);
}

#[test]
fn update_round_trips_content_and_stamps_the_editor() {
    let conn = Connection::open_in_memory().unwrap();
    create_tables(&conn).unwrap();
    let a = Article::new_at("First", "Hello there", "alice", 1_700_000_000);
    add_article(&conn, &a).unwrap();
    let id = get_all_articles(&conn).unwrap()[0].id;

    update_article_at(&conn, id, "Second", "Edited text", "bob", 1_700_000_500).unwrap();

    let all = get_all_articles(&conn).unwrap();
    assert_eq!(all.len(), 1);
    assert_eq!(all[0].id, id);
    assert_eq!(all[0].title, "Second");
    assert_eq!(all[0].content, "Edited text");
    assert_eq!(all[0].created_by, "alice");
    assert_eq!(all[0].time_created, 1_700_000_000);
    assert_eq!(all[0].last_edited_by, Some(String::from("bob")));
    assert_eq!(all[0].last_edit_time, Some(1_700_000_500));
}

#[test]
fn update_leaves_other_rows_alone() {
    let conn = Connection::open_in_memory().unwrap();
    create_tables(&conn).unwrap();
    add_article(&conn, &Article::new_at("A", "a", "alice", 1)).unwrap();
    add_article(&conn, &Article::new_at("B", "b", "bob", 2)).unwrap();
    let all = get_all_articles(&conn).unwrap();
    let first = all.iter().find(|x| x.title == "A").unwrap().id;

    update_article_at(&conn, first, "A2", "a2", "carol", 3).unwrap();

    let all = get_all_articles(&conn).unwrap();
    assert_eq!(all.len(), 2);
    let edited = all.iter().find(|x| x.id == first).unwrap();
    assert_eq!(edited.title, "A2");
    assert_eq!(edited.content, "a2");
    let other = all.iter().find(|x| x.id != first).unwrap();
    assert_eq!(other.title, "B");
    assert_eq!(other.content, "b");
    assert_eq!(other.last_edited_by, None);
}

#[test]
fn add_without_schema_reports_a_storage_error() {
    let conn = Connection::open_in_memory().unwrap();
    let a = Article::new_at("First", "Hello", "alice", 1);
    let r = add_article(&conn, &a);
    assert!(r.is_err());
}

#[test]
fn list_without_schema_reports_a_storage_error() {
    let conn = Connection::open_in_memory().unwrap();
    assert!(get_all_articles(&conn).is_err());
}

#[test]
fn new_article_carries_its_inputs_and_no_edit_marks() {
    let a = Article::new_at("T", "C", "me", 99);
    assert_eq!(a.id, 0);
    assert_eq!(a.title, "T");
    assert_eq!(a.content, "C");
    assert_eq!(a.created_by, "me");
    assert_eq!(a.time_created, 99);
    assert_eq!(a.last_edited_by, None);
    assert_eq!(a.last_edit_time, None);
}

#[test]
fn new_article_with_clock_pins_everything_but_the_time() {
    let a = Article::new("T", "C", "me");
    assert_eq!(a.id, 0);
    assert_eq!(a.title, "T");
    assert_eq!(a.content, "C");
    assert_eq!(a.created_by, "me");
    assert_eq!(a.last_edited_by, None);
    assert_eq!(a.last_edit_time, None);
}

#[test]
fn article_of_row_carries_every_column() {
    let row = ArticleRow {
        id: 7,
        title: String::from("T"),
        content: String::from("C"),
        created_by: String::from("alice"),
        time_created: 11,
        last_edited_by: Some(String::from("bob")),
        last_edit_time: Some(12),
    };
    let a = article_of_row(&row);
    assert_eq!(a.id, 7);
    assert_eq!(a.title, "T");
    assert_eq!(a.content, "C");
    assert_eq!(a.created_by, "alice");
    assert_eq!(a.time_created, 11);
    assert_eq!(a.last_edited_by, Some(String::from("bob")));
    assert_eq!(a.last_edit_time, Some(12));
}

#[test]
fn statement_texts_are_the_fixed_ones() {
    assert!(articles_table_sql().starts_with("CREATE TABLE IF NOT EXISTS articles"));
    assert!(users_table_sql().starts_with("CREATE TABLE IF NOT EXISTS users"));
    assert_eq!(
        insert_article_sql(),
        "INSERT INTO articles (title, content, created_by, time_created) VALUES (?1, ?2, ?3, ?4)"
    );
    assert_eq!(
        update_article_sql(),
        "UPDATE articles SET title=?1, content=?2, last_edited_by=?3, last_edit_time=?4 WHERE id=?5"
    );
    assert_eq!(
        select_articles_sql(),
        "SELECT id, title, content, created_by, time_created, last_edited_by, last_edit_time FROM articles"
    );
}
