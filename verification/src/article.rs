//! The data model: articles and the (not yet used) user records.

use vstd::prelude::*;

verus! {

/// The primary content entity: a stored piece of writing.
///
/// The identifier is assigned by storage on insert; a freshly built
/// article carries `0` there. Once stored, identifier and creator are
/// meant to stay fixed, and an edit is meant to stamp the two
/// `last_edit` fields.
pub struct Article {
    pub id: i64,
    pub title: String,
    pub content: String,
    pub created_by: String,
    pub time_created: i64,
    pub last_edited_by: Option<String>,
    pub last_edit_time: Option<i64>,
}

/// A stored user account.
///
/// Not yet used: the table is created, but no handler reads or writes
/// it, and no authentication consults it. It is kept visible here rather
/// than silently dropped.
pub struct User {
    pub id: i64,
    pub name: String,
    pub password: String,
}

impl Article {
    /// Builds a fresh article created at the given instant (Unix seconds):
    /// no identifier yet, no edit marks.
    pub fn new_at(title: &str, content: &str, created_by: &str, now: i64) -> (a: Article)
        ensures
            a.id == 0,
            a.title@ == title@,
            a.content@ == content@,
            a.created_by@ == created_by@,
            a.time_created == now,
            a.last_edited_by is None,
            a.last_edit_time is None,
    {
        Article {
            id: 0,
            title: String::from_str(title),
            content: String::from_str(content),
            created_by: String::from_str(created_by),
            time_created: now,
            last_edited_by: None,
            last_edit_time: None,
        }
    }

    /// Builds a fresh article stamped with the current wall-clock time.
    /// The clock decides `time_created`; everything else is pinned.
    pub fn new(title: &str, content: &str, created_by: &str) -> (a: Article)
        ensures
            a.id == 0,
            a.title@ == title@,
            a.content@ == content@,
            a.created_by@ == created_by@,
            a.last_edited_by is None,
            a.last_edit_time is None,
    {
        let now = now_timestamp();
        Article::new_at(title, content, created_by, now)
    }
}

/// Relies on `std::time::SystemTime::now`, chrono's `From<SystemTime>`
/// conversion and `chrono::DateTime::timestamp`: the current wall-clock
/// time as Unix seconds. The conversion absorbs a clock that stands
/// before the Unix epoch (it yields a negative count) rather than
/// failing on it. The clock may hand back any value, so nothing is
/// promised of the result.
#[verifier::external_body]
pub(crate) fn now_timestamp() -> i64 {
    chrono::DateTime::<chrono::Utc>::from(std::time::SystemTime::now()).timestamp()
}

} // verus!
