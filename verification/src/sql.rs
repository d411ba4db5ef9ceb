//! The durable backend: the directory as one table of an SQLite database,
//! reached through parameterized statements.

use vstd::prelude::*;
use vstd::string::StringExecFns;
use crate::backend::{
    duplicate_error, duplicate_message, missing_error, missing_message, StorageBackend,
};
use crate::contact_error::{reports, ContactsError, Failure};
use crate::domain::{Contact, ContactModel};

verus! {

/// `rusqlite::Connection`, an open database. Nothing inside it is visible
/// here.
#[verifier::external_type_specification]
#[verifier::external_body]
pub struct ExConnection(rusqlite::Connection);

/// The database file that `SqlBackend::new` opens.
pub const DEFAULT_DATABASE: &'static str = "../contacts.db";

/// One table: a surrogate key, the name, the email and the phone number as a
/// 64-bit integer.
pub const CREATE_TABLE_QUERY: &'static str =
    "CREATE TABLE IF NOT EXISTS contacts (id INTEGER PRIMARY KEY, name TEXT NOT NULL, email TEXT NOT NULL, phone_number BIGINT NOT NULL)";

/// Inserts only where the name is new, so that the count of rows tells a
/// stored contact from a refused one.
pub const INSERT_CONTACT_QUERY: &'static str =
    "INSERT INTO contacts (name, email, phone_number) SELECT ?1, ?2, ?3 WHERE NOT EXISTS (SELECT 1 FROM contacts WHERE name = ?1)";

pub const UPDATE_EMAIL_QUERY: &'static str = "UPDATE contacts SET email = ?2 WHERE name = ?1";

pub const UPDATE_PHONE_QUERY: &'static str =
    "UPDATE contacts SET phone_number = ?2 WHERE name = ?1";

pub const DELETE_CONTACT_QUERY: &'static str = "DELETE FROM contacts WHERE name = ?1";

pub const GET_BY_NAME_QUERY: &'static str =
    "SELECT name, email, phone_number FROM contacts WHERE name = ?1 ORDER BY id LIMIT 1";

pub const GET_ALL_QUERY: &'static str =
    "SELECT name, email, phone_number FROM contacts ORDER BY name LIMIT ?1 OFFSET ?2";

/// A statement and what is bound to its parameters: the texts to the first
/// parameters in their order, the numbers to those after them.
#[derive(Debug)]
pub struct BoundStatement {
    pub sql: &'static str,
    pub texts: Vec<String>,
    pub numbers: Vec<i64>,
}

/// A bound statement as plain values.
pub struct BoundStatementModel {
    pub sql: Seq<char>,
    pub texts: Seq<Seq<char>>,
    pub numbers: Seq<i64>,
}

impl View for BoundStatement {
    type V = BoundStatementModel;

    open spec fn view(&self) -> BoundStatementModel {
        BoundStatementModel {
            sql: self.sql@,
            texts: self.texts@.map_values(|t: String| t@),
            numbers: self.numbers@,
        }
    }
}

/// Whether the engine and this machine can count as far as the first row of
/// page `page_num`.
pub open spec fn page_in_reach(page_num: usize, page_size: usize) -> bool {
    page_num * page_size <= i64::MAX && page_num * page_size <= usize::MAX
}

/// The most rows that a query for one page asks for.
pub open spec fn page_limit(page_size: usize) -> i64 {
    if page_size <= i64::MAX {
        page_size as i64
    } else {
        i64::MAX
    }
}

/// The statement that creates the table where it is absent.
pub fn create_table_statement() -> (statement: BoundStatement)
    ensures
        statement@ == (BoundStatementModel {
            sql: CREATE_TABLE_QUERY@,
            texts: Seq::empty(),
            numbers: Seq::empty(),
        }),
{
    let statement = BoundStatement {
        sql: CREATE_TABLE_QUERY,
        texts: Vec::new(),
        numbers: Vec::new(),
    };
    assert(statement@.texts =~= Seq::<Seq<char>>::empty());
    statement
}

/// The statement that stores `contact` where its name is new: name, email,
/// phone number.
pub fn insert_statement(contact: &Contact) -> (statement: BoundStatement)
    ensures
        statement@ == (BoundStatementModel {
            sql: INSERT_CONTACT_QUERY@,
            texts: seq![contact.name@, contact.email@],
            numbers: seq![contact.phone_number],
        }),
{
    let mut texts: Vec<String> = Vec::new();
    let mut numbers: Vec<i64> = Vec::new();
    texts.push(contact.name.clone());
    texts.push(contact.email.clone());
    numbers.push(contact.phone_number);
    let statement = BoundStatement { sql: INSERT_CONTACT_QUERY, texts, numbers };
    assert(statement@.texts =~= seq![contact.name@, contact.email@]);
    assert(statement@.numbers =~= seq![contact.phone_number]);
    statement
}

/// The statement that replaces the email of the contact called `name`: name,
/// then email.
pub fn update_email_statement(name: &str, email: &str) -> (statement: BoundStatement)
    ensures
        statement@ == (BoundStatementModel {
            sql: UPDATE_EMAIL_QUERY@,
            texts: seq![name@, email@],
            numbers: Seq::empty(),
        }),
{
    let mut texts: Vec<String> = Vec::new();
    texts.push(String::from_str(name));
    texts.push(String::from_str(email));
    let statement = BoundStatement { sql: UPDATE_EMAIL_QUERY, texts, numbers: Vec::new() };
    assert(statement@.texts =~= seq![name@, email@]);
    statement
}

/// The statement that replaces the phone number of the contact called
/// `name`: name, then number.
pub fn update_phone_statement(name: &str, phone_number: i64) -> (statement: BoundStatement)
    ensures
        statement@ == (BoundStatementModel {
            sql: UPDATE_PHONE_QUERY@,
            texts: seq![name@],
            numbers: seq![phone_number],
        }),
{
    let mut texts: Vec<String> = Vec::new();
    let mut numbers: Vec<i64> = Vec::new();
    texts.push(String::from_str(name));
    numbers.push(phone_number);
    let statement = BoundStatement { sql: UPDATE_PHONE_QUERY, texts, numbers };
    assert(statement@.texts =~= seq![name@]);
    assert(statement@.numbers =~= seq![phone_number]);
    statement
}

/// The statement `sql` with `name` as its only parameter.
fn name_statement(sql: &'static str, name: &str) -> (statement: BoundStatement)
    ensures
        statement@ == (BoundStatementModel {
            sql: sql@,
            texts: seq![name@],
            numbers: Seq::empty(),
        }),
{
    let mut texts: Vec<String> = Vec::new();
    texts.push(String::from_str(name));
    let statement = BoundStatement { sql, texts, numbers: Vec::new() };
    assert(statement@.texts =~= seq![name@]);
    statement
}

/// The statement that removes the contact called `name`.
pub fn delete_statement(name: &str) -> (statement: BoundStatement)
    ensures
        statement@ == (BoundStatementModel {
            sql: DELETE_CONTACT_QUERY@,
            texts: seq![name@],
            numbers: Seq::empty(),
        }),
{
    name_statement(DELETE_CONTACT_QUERY, name)
}

/// The query for the contact called `name`.
pub fn get_by_name_statement(name: &str) -> (statement: BoundStatement)
    ensures
        statement@ == (BoundStatementModel {
            sql: GET_BY_NAME_QUERY@,
            texts: seq![name@],
            numbers: Seq::empty(),
        }),
{
    name_statement(GET_BY_NAME_QUERY, name)
}

/// The query for page `page_num`: at most `page_size` rows, after the
/// `page_num * page_size` rows before them. There is none where the first
/// row of the page is out of reach.
pub fn page_statement(page_num: usize, page_size: usize) -> (statement: Option<BoundStatement>)
    ensures
        statement is Some <==> page_in_reach(page_num, page_size),
        statement matches Some(s) ==> s@ == (BoundStatementModel {
            sql: GET_ALL_QUERY@,
            texts: Seq::empty(),
            numbers: seq![page_limit(page_size), (page_num * page_size) as i64],
        }),
{
    let offset = match page_offset(page_num, page_size) {
        Some(offset) => offset,
        None => {
            return None;
        },
    };
    let limit: i64 = if page_size as u64 <= i64::MAX as u64 {
        page_size as i64
    } else {
        i64::MAX
    };
    let mut numbers: Vec<i64> = Vec::new();
    numbers.push(limit);
    numbers.push(offset);
    let statement = BoundStatement { sql: GET_ALL_QUERY, texts: Vec::new(), numbers };
    assert(statement@.texts =~= Seq::<Seq<char>>::empty());
    assert(statement@.numbers =~= seq![page_limit(page_size), (page_num * page_size) as i64]);
    Some(statement)
}

/// Opens the database at `path` with `rusqlite::Connection::open`. Whether
/// that succeeds is the file system's and the engine's to say.
#[verifier::external_body]
fn open_connection(path: &str) -> Result<rusqlite::Connection, rusqlite::Error> {
    rusqlite::Connection::open(path)
}

/// Runs one statement with `rusqlite::Connection::execute`, binding its
/// texts to the first parameters and its numbers to those after them, and
/// returns the number of rows that the engine reports as changed. Nothing is
/// claimed of that number: it depends on what the database holds.
#[verifier::external_body]
fn execute(conn: &rusqlite::Connection, statement: &BoundStatement) -> Result<
    usize,
    rusqlite::Error,
> {
    let texts = statement.texts.iter().map(|t| rusqlite::types::Value::Text(t.clone()));
    let numbers = statement.numbers.iter().map(|n| rusqlite::types::Value::Integer(*n));
    conn.execute(statement.sql, rusqlite::params_from_iter(texts.chain(numbers)))
}

/// Runs one query with `rusqlite::Connection::prepare` and
/// `Statement::query_map`, binding the parameters as `execute` does, and
/// reads each row's first three columns with `Row::get` as a contact's name,
/// email and phone number. Nothing is claimed of the rows: they depend on
/// what the database holds.
#[verifier::external_body]
fn query_contacts(conn: &rusqlite::Connection, statement: &BoundStatement) -> Result<
    Vec<Contact>,
    rusqlite::Error,
> {
    let texts = statement.texts.iter().map(|t| rusqlite::types::Value::Text(t.clone()));
    let numbers = statement.numbers.iter().map(|n| rusqlite::types::Value::Integer(*n));
    let mut prepared = conn.prepare(statement.sql)?;
    let rows = prepared.query_map(rusqlite::params_from_iter(texts.chain(numbers)), |row| {
        Ok(Contact { name: row.get(0)?, email: row.get(1)?, phone_number: row.get(2)? })
    })?;
    rows.collect()
}

/// What running a statement comes to: the number of rows changed, or the
/// engine's failure wrapped with its cause.
pub fn rows_changed(executed: Result<usize, rusqlite::Error>) -> (r: Result<usize, ContactsError>)
    ensures
        match executed {
            Ok(rows) => r == Ok::<usize, ContactsError>(rows),
            Err(cause) => r == Err::<usize, ContactsError>(ContactsError::SqliteError(cause)),
        },
{
    match executed {
        Ok(rows) => Ok(rows),
        Err(cause) => Err(ContactsError::from(cause)),
    }
}

/// What running a query comes to: the rows read, or the engine's failure
/// wrapped with its cause.
pub fn rows_read(queried: Result<Vec<Contact>, rusqlite::Error>) -> (r: Result<
    Vec<Contact>,
    ContactsError,
>)
    ensures
        match queried {
            Ok(rows) => r == Ok::<Vec<Contact>, ContactsError>(rows),
            Err(cause) => r == Err::<Vec<Contact>, ContactsError>(
                ContactsError::SqliteError(cause),
            ),
        },
{
    match queried {
        Ok(rows) => Ok(rows),
        Err(cause) => Err(ContactsError::from(cause)),
    }
}

/// What an insertion comes to when the engine reports `rows` rows changed:
/// none means that the name was already stored.
pub fn insert_outcome(name: &str, rows: usize) -> (r: Result<(), ContactsError>)
    ensures
        reports(
            r,
            if rows == 0 {
                Some(Failure::Duplicate(duplicate_message(name@)))
            } else {
                None
            },
        ),
{
    if rows == 0 {
        Err(duplicate_error(name))
    } else {
        Ok(())
    }
}

/// What a lookup comes to when the engine returns `rows`: the first row, or
/// the failure that says there is none.
pub fn first_contact(rows: Vec<Contact>) -> (r: Result<Contact, ContactsError>)
    ensures
        match r {
            Ok(c) => rows.len() > 0 && c == rows[0],
            Err(e) => rows.len() == 0 && e@ == Failure::NotFound(missing_message()),
        },
{
    let mut rows = rows;
    if rows.len() == 0 {
        Err(missing_error())
    } else {
        Ok(rows.swap_remove(0))
    }
}

/// The number of rows to skip before page `page_num`, where both this
/// machine and the engine can count that far.
pub fn page_offset(page_num: usize, page_size: usize) -> (offset: Option<i64>)
    ensures
        offset is Some <==> page_in_reach(page_num, page_size),
        offset matches Some(n) ==> n == page_num * page_size,
{
    match page_num.checked_mul(page_size) {
        Some(n) => if n as u64 <= i64::MAX as u64 {
            Some(n as i64)
        } else {
            None
        },
        None => None,
    }
}

/// The first `page_size` of `rows`, in their order.
pub fn first_rows(rows: Vec<Contact>, page_size: usize) -> (page: Vec<Contact>)
    ensures
        page@ == rows@.take(if page_size <= rows.len() {
            page_size as int
        } else {
            rows.len() as int
        }),
{
    let mut page = rows;
    page.truncate(page_size);
    page
}

/// A directory kept in an SQLite database.
///
/// The database may be shared with other connections and other processes, so
/// this backend is not `reliable`: each answer is the engine's, and no
/// contract says what it is. What the contracts do say is which database the
/// backend is on, which failures an operation can report, and that no
/// operation moves the backend to another database.
pub struct SqlBackend {
    conn: rusqlite::Connection,
    path: String,
}

impl SqlBackend {
    /// The path of the database that this backend was opened on.
    pub closed spec fn database(&self) -> Seq<char> {
        self.path@
    }

    /// The path of the database that this backend was opened on.
    pub fn path(&self) -> (path: &str)
        ensures
            path@ == self.database(),
    {
        self.path.as_str()
    }

    /// Opens the default database file and creates the table if it is absent.
    pub fn new() -> (r: Result<SqlBackend, rusqlite::Error>)
        ensures
            r matches Ok(backend) ==> backend.database() == DEFAULT_DATABASE@,
    {
        SqlBackend::open(DEFAULT_DATABASE)
    }

    /// Opens the database at `path` and creates the table if it is absent.
    pub fn open(path: &str) -> (r: Result<SqlBackend, rusqlite::Error>)
        ensures
            r matches Ok(backend) ==> backend.database() == path@,
    {
        let conn = match open_connection(path) {
            Ok(conn) => conn,
            Err(e) => {
                return Err(e);
            },
        };
        match execute(&conn, &create_table_statement()) {
            Ok(_) => Ok(SqlBackend { conn, path: String::from_str(path) }),
            Err(e) => Err(e),
        }
    }
}

impl StorageBackend for SqlBackend {
    open spec fn reliable(&self) -> bool {
        false
    }

    open spec fn listing(&self) -> Seq<ContactModel> {
        Seq::empty()
    }

    proof fn listing_in_order(&self) {
    }

    fn insert(&mut self, contact: Contact) -> (r: Result<(), ContactsError>)
        ensures
            final(self).database() == old(self).database(),
            r matches Err(e) ==> e is SqliteError || e@ == Failure::Duplicate(
                duplicate_message(contact.name@),
            ),
    {
        let statement = insert_statement(&contact);
        match rows_changed(execute(&self.conn, &statement)) {
            Ok(rows) => insert_outcome(contact.name.as_str(), rows),
            Err(e) => Err(e),
        }
    }

    fn update_email(&mut self, name: &str, email: &str) -> (r: Result<usize, ContactsError>)
        ensures
            final(self).database() == old(self).database(),
            r matches Err(e) ==> e is SqliteError,
    {
        let statement = update_email_statement(name, email);
        rows_changed(execute(&self.conn, &statement))
    }

    fn update_phone(&mut self, name: &str, phone_number: i64) -> (r: Result<usize, ContactsError>)
        ensures
            final(self).database() == old(self).database(),
            r matches Err(e) ==> e is SqliteError,
    {
        let statement = update_phone_statement(name, phone_number);
        rows_changed(execute(&self.conn, &statement))
    }

    fn delete(&mut self, name: &str) -> (r: Result<(), ContactsError>)
        ensures
            final(self).database() == old(self).database(),
            r matches Err(e) ==> e is SqliteError,
    {
        let statement = delete_statement(name);
        match rows_changed(execute(&self.conn, &statement)) {
            Ok(_) => Ok(()),
            Err(e) => Err(e),
        }
    }

    fn get_by_name(&self, name: &str) -> (r: Result<Contact, ContactsError>)
        ensures
            r matches Err(e) ==> e is SqliteError || e@ == Failure::NotFound(missing_message()),
    {
        let statement = get_by_name_statement(name);
        match rows_read(query_contacts(&self.conn, &statement)) {
            Ok(rows) => first_contact(rows),
            Err(e) => Err(e),
        }
    }

    fn get_page(&self, page_num: usize, page_size: usize) -> (r: Result<
        Vec<Contact>,
        ContactsError,
    >)
        ensures
            !page_in_reach(page_num, page_size) ==> r is Ok && r->Ok_0@.len() == 0,
            r matches Err(e) ==> e is SqliteError,
    {
        let statement = match page_statement(page_num, page_size) {
            Some(statement) => statement,
            None => {
                return Ok(Vec::new());
            },
        };
        match rows_read(query_contacts(&self.conn, &statement)) {
            Ok(rows) => Ok(first_rows(rows, page_size)),
            Err(e) => Err(e),
        }
    }
}

} // verus!
