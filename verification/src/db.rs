//! The bookmark store's side of the chrome: what is asked of the database,
//! and what is made of its rows.
//!
//! The database keeps one table, `bookmarks`, with one row per bookmark: an
//! identifier that the database assigns, the address and the title.  This
//! module writes the statements and reads the rows; running a statement
//! against the database file is the embedder's part.

use vstd::prelude::*;
use vstd::string::*;
use crate::bookmarks::{
    bookmarks_view, count_url, has_url, law_add_then_remove_round_trip, law_remove_then_list,
    with_bookmark, without_url, Bookmark, BookmarkView, StoreRequest, StoreRequestView,
};
use crate::state::ChromeState;

verus! {

/// The name of the database file inside the configuration directory.
pub open spec fn database_file() -> Seq<char> {
    "bookmarks.sqlite"@
}

/// The statement that creates the table.
pub open spec fn create_sql() -> Seq<char> {
    "CREATE TABLE bookmarks (id INTEGER PRIMARY KEY, url TEXT, title TEXT)"@
}

/// The statement that lists the table.
pub open spec fn select_sql() -> Seq<char> {
    "SELECT * FROM bookmarks"@
}

/// The statement that records a bookmark; its parameters are the address and
/// the title.
pub open spec fn insert_sql() -> Seq<char> {
    "INSERT INTO bookmarks (url, title) VALUES (?1, ?2)"@
}

/// The statement that deletes the bookmarks of an address; its parameter is
/// the address.
pub open spec fn delete_sql() -> Seq<char> {
    "DELETE FROM bookmarks WHERE url = ?1"@
}

/// A statement for the database, with the texts that fill its placeholders
/// `?1`, `?2`, ... in this order.
#[derive(Clone, Debug, PartialEq, Eq)]
pub struct Statement {
    pub sql: String,
    pub params: Vec<String>,
}

/// The mathematical content of a [`Statement`].
pub struct StatementView {
    pub sql: Seq<char>,
    pub params: Seq<Seq<char>>,
}

impl View for Statement {
    type V = StatementView;

    open spec fn view(&self) -> StatementView {
        StatementView { sql: self.sql@, params: self.params@.map_values(|p: String| p@) }
    }
}

/// One row of the table.
#[derive(Clone, Debug, PartialEq, Eq)]
pub struct BookmarkRow {
    /// The identifier that the database has assigned.
    pub id: i64,
    pub url: String,
    pub title: String,
}

/// The bookmark that a row records.
pub open spec fn row_bookmark(row: BookmarkRow) -> BookmarkView {
    BookmarkView { url: row.url@, title: row.title@ }
}

/// The bookmarks that the rows of the table record, in the order of the
/// rows.
pub open spec fn listed(rows: Seq<BookmarkRow>) -> Seq<BookmarkView> {
    rows.map_values(|row: BookmarkRow| row_bookmark(row))
}

/// The rows of a table that has taken in one more row.
pub open spec fn rows_after_insert(rows: Seq<BookmarkRow>, row: BookmarkRow) -> Seq<BookmarkRow> {
    rows.push(row)
}

/// The rows of a table from which the rows of an address have been deleted.
pub open spec fn rows_after_delete(rows: Seq<BookmarkRow>, url: Seq<char>) -> Seq<BookmarkRow> {
    rows.filter(|row: BookmarkRow| row.url@ != url)
}

/// Listing a table that has taken in a row for an address that it did not
/// hold shows the address exactly once, under the row's title and behind
/// the bookmarks that were listed before.
pub proof fn law_insert_then_list(rows: Seq<BookmarkRow>, row: BookmarkRow)
    requires
        !has_url(listed(rows), row.url@),
    ensures
        listed(rows_after_insert(rows, row)) == with_bookmark(listed(rows), row.url@, row.title@),
        count_url(listed(rows_after_insert(rows, row)), row.url@) == 1,
        listed(rows_after_insert(rows, row)).last() == row_bookmark(row),
{
    assert(listed(rows.push(row)) =~= listed(rows).push(row_bookmark(row)));
    law_add_then_remove_round_trip(listed(rows), row.url@, row.title@);
}

/// Listing a table from which an address has been deleted does not show the
/// address, and shows the bookmarks of every other address as before and in
/// their old order.
pub proof fn law_delete_then_list(rows: Seq<BookmarkRow>, url: Seq<char>)
    ensures
        listed(rows_after_delete(rows, url)) == without_url(listed(rows), url),
        !has_url(listed(rows_after_delete(rows, url)), url),
        count_url(listed(rows_after_delete(rows, url)), url) == 0,
    decreases rows.len(),
{
    reveal(Seq::filter);
    if rows.len() > 0 {
        let front = rows.drop_last();
        law_delete_then_list(front, url);
        assert(listed(rows).drop_last() =~= listed(front));
        assert(listed(rows).last() == row_bookmark(rows.last()));
        if rows.last().url@ != url {
            assert(listed(rows_after_delete(front, url).push(rows.last())) =~= listed(
                rows_after_delete(front, url),
            ).push(row_bookmark(rows.last())));
        }
    } else {
        assert(listed(rows_after_delete(rows, url)) =~= without_url(listed(rows), url));
    }
    law_remove_then_list(listed(rows), url);
}

/// The rows of a table after a request has been carried out.  `row` is the
/// row that an addition leaves in the table.
pub open spec fn rows_after(
    rows: Seq<BookmarkRow>,
    request: StoreRequestView,
    row: BookmarkRow,
) -> Seq<BookmarkRow> {
    match request {
        StoreRequestView::Add { .. } => rows_after_insert(rows, row),
        StoreRequestView::Remove { url } => rows_after_delete(rows, url),
    }
}

/// The bookmarks in memory follow the table: if they are what the table
/// lists before a request, then after the store has carried the request out
/// they are what the table lists again.
pub proof fn law_memory_follows_table(
    state: ChromeState,
    rows: Seq<BookmarkRow>,
    request: StoreRequestView,
    row: BookmarkRow,
)
    requires
        state.bookmarks == listed(rows),
        request matches StoreRequestView::Add { url, title } ==> row.url@ == url && row.title@
            == title,
    ensures
        state.store_answered(request, true).bookmarks == listed(rows_after(rows, request, row)),
        state.store_answered(request, false).bookmarks == listed(rows),
{
    match request {
        StoreRequestView::Add { url, title } => {
            assert(listed(rows.push(row)) =~= listed(rows).push(row_bookmark(row)));
        },
        StoreRequestView::Remove { url } => {
            law_delete_then_list(rows, url);
        },
    }
}

/// The statement that carries out a request to the store.
pub open spec fn request_statement(request: StoreRequestView) -> StatementView {
    match request {
        StoreRequestView::Add { url, title } => StatementView {
            sql: insert_sql(),
            params: seq![url, title],
        },
        StoreRequestView::Remove { url } => StatementView { sql: delete_sql(), params: seq![url] },
    }
}

/// A step of setting up the store when the browser starts.
#[derive(Clone, Copy, Debug, PartialEq, Eq, Structural)]
pub enum SetupStep {
    /// Create the configuration directory, with the directories above it.
    CreateDirectory,
    /// Create the database file and its table.
    CreateDatabase,
}

/// What has to be done before the store can be read: whatever is missing of
/// the configuration directory and the database in it is created, in this
/// order.  Without a configuration directory nothing is set up.
pub open spec fn setup_plan(
    config_dir: Seq<char>,
    directory_exists: bool,
    database_exists: bool,
) -> Seq<SetupStep> {
    if config_dir.len() == 0 {
        Seq::empty()
    } else {
        (if directory_exists {
            Seq::<SetupStep>::empty()
        } else {
            seq![SetupStep::CreateDirectory]
        }) + (if database_exists {
            Seq::<SetupStep>::empty()
        } else {
            seq![SetupStep::CreateDatabase]
        })
    }
}

/// What has to be done before the store can be read, given whether the
/// configuration directory and the database file in it are there.
pub fn setup_steps(config_dir: &str, directory_exists: bool, database_exists: bool) -> (steps: Vec<
    SetupStep,
>)
    ensures
        steps@ == setup_plan(config_dir@, directory_exists, database_exists),
{
    let mut steps: Vec<SetupStep> = Vec::new();
    if !config_dir.is_empty() {
        if !directory_exists {
            steps.push(SetupStep::CreateDirectory);
        }
        if !database_exists {
            steps.push(SetupStep::CreateDatabase);
        }
    }
    assert(steps@ =~= setup_plan(config_dir@, directory_exists, database_exists));
    steps
}

/// The name of the database file inside the configuration directory.
pub fn database_file_name() -> (name: String)
    ensures
        name@ == database_file(),
{
    String::from_str("bookmarks.sqlite")
}

/// The statement that sets up an empty store.
pub fn create_bookmarks_db() -> (statement: Statement)
    ensures
        statement@ == (StatementView { sql: create_sql(), params: Seq::empty() }),
{
    let statement = Statement {
        sql: String::from_str(
            "CREATE TABLE bookmarks (id INTEGER PRIMARY KEY, url TEXT, title TEXT)",
        ),
        params: Vec::new(),
    };
    assert(statement@.params =~= Seq::empty());
    statement
}

/// The statement that lists the store.
pub fn select_bookmarks() -> (statement: Statement)
    ensures
        statement@ == (StatementView { sql: select_sql(), params: Seq::empty() }),
{
    let statement = Statement {
        sql: String::from_str("SELECT * FROM bookmarks"),
        params: Vec::new(),
    };
    assert(statement@.params =~= Seq::empty());
    statement
}

/// The bookmarks that the rows of the table record, in the order of the
/// rows.
pub fn get_bookmarks(rows: &Vec<BookmarkRow>) -> (bookmarks: Vec<Bookmark>)
    ensures
        bookmarks_view(bookmarks@) == listed(rows@),
{
    let mut bookmarks: Vec<Bookmark> = Vec::new();
    let mut i: usize = 0;
    while i < rows.len()
        invariant
            i <= rows.len(),
            bookmarks@.len() == i,
            forall|j: int| 0 <= j < i ==> (#[trigger] bookmarks@[j])@ == row_bookmark(rows@[j]),
        decreases rows.len() - i,
    {
        bookmarks.push(Bookmark { url: rows[i].url.clone(), title: rows[i].title.clone() });
        i += 1;
    }
    assert(bookmarks_view(bookmarks@) =~= listed(rows@));
    bookmarks
}

/// The statement that records a bookmark.
pub fn add_bookmark(url: &str, title: &str) -> (statement: Statement)
    ensures
        statement@ == (StatementView { sql: insert_sql(), params: seq![url@, title@] }),
{
    let mut params: Vec<String> = Vec::new();
    params.push(String::from_str(url));
    params.push(String::from_str(title));
    let statement = Statement {
        sql: String::from_str("INSERT INTO bookmarks (url, title) VALUES (?1, ?2)"),
        params,
    };
    assert(statement@.params =~= seq![url@, title@]);
    statement
}

/// The statement that deletes the bookmarks of an address.
pub fn remove_bookmark(url: &str) -> (statement: Statement)
    ensures
        statement@ == (StatementView { sql: delete_sql(), params: seq![url@] }),
{
    let mut params: Vec<String> = Vec::new();
    params.push(String::from_str(url));
    let statement = Statement {
        sql: String::from_str("DELETE FROM bookmarks WHERE url = ?1"),
        params,
    };
    assert(statement@.params =~= seq![url@]);
    statement
}

impl StoreRequest {
    /// The statement that carries the request out.
    pub fn statement(&self) -> (statement: Statement)
        ensures
            statement@ == request_statement(self@),
    {
        match self {
            StoreRequest::Add { url, title } => add_bookmark(url.as_str(), title.as_str()),
            StoreRequest::Remove { url } => remove_bookmark(url.as_str()),
        }
    }
}

} // verus!
