use vstd::prelude::*;

use crate::api::LinkItemResponse;
use crate::SyncError;

verus! {

/// The local link store's connection handle.
#[verifier::external_type_specification]
#[verifier::external_body]
pub struct ExConnection(sqlite::Connection);

/// The local link store's error value.
#[verifier::external_type_specification]
#[verifier::external_body]
pub struct ExSqliteError(sqlite::Error);

/// A point on the process clock.
#[verifier::external_type_specification]
#[verifier::external_body]
pub struct ExInstant(std::time::Instant);

/// Relies on sqlite::open: opens a read-write connection to a new or existing
/// database file; whether it succeeds depends on the machine.
#[verifier::external_body]
fn open_store(path: &str) -> Result<sqlite::Connection, sqlite::Error> {
    sqlite::open(path)
}

/// Relies on sqlite::Connection::execute: runs one statement against the
/// store; whether it succeeds depends on the statement and on what is on disk.
#[verifier::external_body]
fn exec_statement(connection: &sqlite::Connection, statement: &str) -> Result<(), sqlite::Error> {
    connection.execute(statement)
}

/// Relies on std::time::Instant::now: the current point on the process clock.
#[verifier::external_body]
fn instant_now() -> std::time::Instant {
    std::time::Instant::now()
}

/// Relies on std::time::Instant::elapsed: the time since the instant.
#[verifier::external_body]
fn instant_elapsed(start: &std::time::Instant) -> core::time::Duration {
    start.elapsed()
}

/// Relies on core::time::Duration::as_millis: the duration in milliseconds.
#[verifier::external_body]
fn duration_millis(d: &core::time::Duration) -> u128 {
    d.as_millis()
}

/// How one character is written inside a single-quoted SQL data literal:
/// single quotes and backslashes are doubled, everything else stands as
/// itself.
pub open spec fn sql_escape_char(c: char) -> Seq<char> {
    if c == '\'' {
        seq!['\'', '\'']
    } else if c == '\\' {
        seq!['\\', '\\']
    } else {
        seq![c]
    }
}

/// A character sequence written as the body of a single-quoted SQL data
/// literal.
pub open spec fn sql_escaped(s: Seq<char>) -> Seq<char>
    decreases s.len(),
{
    if s.len() == 0 {
        Seq::empty()
    } else {
        sql_escape_char(s[0]) + sql_escaped(s.drop_first())
    }
}

/// A SQL data literal: the escaped characters wrapped in single quotes.
pub open spec fn sql_quoted(s: Seq<char>) -> Seq<char> {
    seq!['\''] + sql_escaped(s) + seq!['\'']
}

/// Relies on format_sql_query::QuotedData: wraps the string in single quotes,
/// doubling embedded single quotes and backslashes.
#[verifier::external_body]
fn sql_quote(data: &str) -> (r: String)
    ensures
        r@ == sql_quoted(data@),
{
    format!("{}", format_sql_query::QuotedData(data))
}

/// True of characters that a SQL object name may hold without any escaping.
pub open spec fn plain_object_char(c: char) -> bool {
    c != '\'' && c != '\\' && c != ' ' && c != '"'
}

/// Relies on format_sql_query::Table: a table name without quotes, spaces,
/// backslashes or apostrophes is written as it stands.
#[verifier::external_body]
fn sql_table(name: &str) -> (r: String)
    requires
        forall|i: int| 0 <= i < name@.len() ==> plain_object_char(name@[i]),
    ensures
        r@ == name@,
{
    format!("{}", format_sql_query::Table(name.into()))
}

/// Ephemeral per-run aggregate of one reconcile pass.
pub struct DbStorageReport {
    /// Candidate records considered.
    pub total: usize,
    /// Rows successfully inserted.
    pub inserted: u32,
    /// Elapsed wall-clock time, in hundreds of milliseconds.
    pub time: u128,
}

impl Default for DbStorageReport {
    /// An empty report: nothing considered, nothing inserted, no time spent.
    fn default() -> (r: DbStorageReport)
        ensures
            r.total == 0 && r.inserted == 0 && r.time == 0,
    {
        DbStorageReport { total: 0, inserted: 0, time: 0 }
    }
}

/// The resolved title a record is stored under: a record whose URL the
/// service could not resolve is kept, under an empty title.
pub open spec fn stored_title(resolved_title: Option<Seq<char>>) -> Seq<char> {
    match resolved_title {
        Option::Some(t) => t,
        Option::None => Seq::empty(),
    }
}

/// The statement that creates the link table when it is absent.
pub open spec fn schema_statement_spec() -> Seq<char> {
    "CREATE TABLE IF NOT EXISTS links (id INTEGER NOT NULL PRIMARY KEY, resolved_title TEXT, item_id INTEGER, time_added TEXT, url TEXT);"@
}

/// The statement that inserts one fetched record into the link table.
pub open spec fn insert_statement_spec(
    resolved_title: Option<Seq<char>>,
    item_id: Seq<char>,
    time_added: Seq<char>,
    url: Seq<char>,
) -> Seq<char> {
    "INSERT INTO "@ + "links"@ + " (resolved_title, item_id, time_added, url) VALUES ("@
        + sql_quoted(stored_title(resolved_title)) + ", "@ + sql_quoted(item_id) + ", "@
        + sql_quoted(time_added) + ", "@ + sql_quoted(url) + ");"@
}

/// Builds the insert statement for one record. A missing resolved title is
/// tolerated: the record is written under an empty title, never rejected.
pub fn insert_statement(link: &LinkItemResponse) -> (r: String)
    ensures
        r@ == insert_statement_spec(
            link.resolved_title.deep_view(),
            link.item_id@,
            link.time_added@,
            link.given_url@,
        ),
{
    let table = sql_table_links();
    let mut r = String::new();
    r.append("INSERT INTO ");
    r.append(table.as_str());
    r.append(" (resolved_title, item_id, time_added, url) VALUES (");
    let title_quoted = match &link.resolved_title {
        Option::Some(title) => sql_quote(title.as_str()),
        Option::None => sql_quote(""),
    };
    proof {
        reveal_strlit("");
        assert(""@ =~= Seq::<char>::empty());
    }
    r.append(title_quoted.as_str());
    r.append(", ");
    let item_id_quoted = sql_quote(link.item_id.as_str());
    r.append(item_id_quoted.as_str());
    r.append(", ");
    let time_added_quoted = sql_quote(link.time_added.as_str());
    r.append(time_added_quoted.as_str());
    r.append(", ");
    let url_quoted = sql_quote(link.given_url.as_str());
    r.append(url_quoted.as_str());
    r.append(");");
    proof {
        assert(r@ =~= insert_statement_spec(
            link.resolved_title.deep_view(),
            link.item_id@,
            link.time_added@,
            link.given_url@,
        ));
    }
    r
}

/// The link table's name, as the store writes it.
fn sql_table_links() -> (r: String)
    ensures
        r@ == "links"@,
{
    proof {
        reveal_strlit("links");
    }
    sql_table("links")
}

/// How many inserts of a batch succeeded.
pub open spec fn count_inserted(outcomes: Seq<bool>) -> int
    decreases outcomes.len(),
{
    if outcomes.len() == 0 {
        0
    } else {
        count_inserted(outcomes.drop_last()) + if outcomes.last() {
            1int
        } else {
            0int
        }
    }
}

pub proof fn lemma_count_inserted_bounds(outcomes: Seq<bool>)
    ensures
        0 <= count_inserted(outcomes) <= outcomes.len(),
    decreases outcomes.len(),
{
    if outcomes.len() > 0 {
        lemma_count_inserted_bounds(outcomes.drop_last());
    }
}

/// Attempts to insert every record of the batch, one statement each, and
/// reports each record's outcome. No record is skipped for a missing title,
/// and a failed insert never aborts the batch.
pub fn insert_links(connection: &sqlite::Connection, links: &Vec<LinkItemResponse>) -> (outcomes:
    Vec<bool>)
    ensures
        outcomes@.len() == links@.len(),
{
    let mut outcomes: Vec<bool> = Vec::new();
    let mut i: usize = 0;
    while i < links.len()
        invariant
            i <= links@.len(),
            outcomes@.len() == i,
        decreases links@.len() - i,
    {
        let statement = insert_statement(&links[i]);
        let ok = match exec_statement(connection, statement.as_str()) {
            Result::Ok(()) => true,
            Result::Err(_) => false,
        };
        outcomes.push(ok);
        i = i + 1;
    }
    outcomes
}

/// The report for a reconcile pass: every candidate is counted, and the
/// inserted count is exactly the number of inserts that succeeded.
pub fn reconcile_report(total: usize, outcomes: &Vec<bool>) -> (report: DbStorageReport)
    requires
        outcomes@.len() == total,
        total <= u32::MAX,
    ensures
        report.total == total,
        report.inserted == count_inserted(outcomes@),
        report.time == 0,
{
    let mut inserted: u32 = 0;
    let mut i: usize = 0;
    while i < outcomes.len()
        invariant
            outcomes@.len() == total <= u32::MAX,
            i <= total,
            inserted == count_inserted(outcomes@.take(i as int)),
            inserted <= i,
        decreases outcomes@.len() - i,
    {
        proof {
            assert(outcomes@.take(i + 1).drop_last() =~= outcomes@.take(i as int));
            assert(outcomes@.take(i + 1).last() == outcomes@[i as int]);
        }
        if outcomes[i] {
            inserted = inserted + 1;
        }
        i = i + 1;
    }
    proof {
        assert(outcomes@.take(total as int) =~= outcomes@);
    }
    DbStorageReport { total, inserted, time: 0 }
}

/// Reconciles a fetched batch into the local link store: ensures the schema,
/// then inserts the records one by one, best effort per record. The report
/// counts every candidate and exactly the successful inserts; only a failure
/// to open the store or to ensure the schema fails the batch as a whole.
pub fn store_db(path: &str, links: &Vec<LinkItemResponse>) -> (r: Result<
    DbStorageReport,
    SyncError,
>)
    requires
        links@.len() <= u32::MAX,
    ensures
        r matches Ok(report) ==> report.total == links@.len() && report.inserted
            <= links@.len(),
        r matches Err(e) ==> e == SyncError::Persistence,
{
    let start = instant_now();
    let connection = match open_store(path) {
        Result::Ok(c) => c,
        Result::Err(_) => {
            return Result::Err(SyncError::Persistence);
        },
    };
    let schema = schema_statement();
    match exec_statement(&connection, schema.as_str()) {
        Result::Ok(()) => {},
        Result::Err(_) => {
            return Result::Err(SyncError::Persistence);
        },
    }
    let outcomes = insert_links(&connection, links);
    let mut report = reconcile_report(links.len(), &outcomes);
    proof {
        lemma_count_inserted_bounds(outcomes@);
    }
    let elapsed = instant_elapsed(&start);
    report.time = duration_millis(&elapsed) / 100;
    Result::Ok(report)
}

/// Reconciles a decoded link-listing response into the local store at the
/// given path.
pub fn sync_links(path: &str, response: &crate::api::LinkListResponse) -> (r: Result<
    DbStorageReport,
    SyncError,
>)
    requires
        response.list@.len() <= u32::MAX,
    ensures
        r matches Ok(report) ==> report.total == response.list@.len() && report.inserted
            <= response.list@.len(),
        r matches Err(e) ==> e == SyncError::Persistence,
{
    store_db(path, &response.list)
}

/// The schema statement as the store runs it.
pub fn schema_statement() -> (r: String)
    ensures
        r@ == schema_statement_spec(),
{
    let mut r = String::new();
    r.append(
        "CREATE TABLE IF NOT EXISTS links (id INTEGER NOT NULL PRIMARY KEY, resolved_title TEXT, item_id INTEGER, time_added TEXT, url TEXT);",
    );
    proof {
        assert(r@ =~= schema_statement_spec());
    }
    r
}

} // verus!
