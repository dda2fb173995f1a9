//! Preparing the database: the user, the database and the table that the
//! authorization service needs, each made only where it is not there yet.
//!
//! A migration is a list of steps. What each step sends is decided here;
//! the caller holds the connection and says what the database has.

use crate::server::{Statement, StatementView};
use crate::text::{decimal, decimal_view, text_views};
use vstd::prelude::*;
use vstd::string::*;

verus! {

/// The database failed.
#[derive(Clone, Copy, Debug, PartialEq, Eq, Structural)]
pub struct DBError;

/// One database and the user that is to have it.
#[derive(Debug, PartialEq, Eq)]
pub struct DBData {
    pub database: String,
    pub user: String,
}

pub struct DBDataView {
    pub database: Seq<char>,
    pub user: Seq<char>,
}

impl View for DBData {
    type V = DBDataView;

    open spec fn view(&self) -> DBDataView {
        DBDataView { database: self.database@, user: self.user@ }
    }
}

/// What is to be prepared, and on which server.
#[derive(Debug, PartialEq, Eq)]
pub struct FileData {
    pub host: String,
    pub port: u16,
    pub data: Vec<DBData>,
}

pub struct FileDataView {
    pub host: Seq<char>,
    pub port: u16,
    pub data: Seq<DBDataView>,
}

impl View for FileData {
    type V = FileDataView;

    open spec fn view(&self) -> FileDataView {
        FileDataView {
            host: self.host@,
            port: self.port,
            data: self.data@.map_values(|entry: DBData| entry@),
        }
    }
}

/// One step of a migration.
#[derive(Debug, PartialEq, Eq)]
pub enum Step {
    /// Open a connection to this address.
    Connect { url: String },
    /// Close the connection.
    Disconnect,
    /// Create the user unless the server has it.
    EnsureUser { user: String },
    /// Create the database unless the server has it.
    EnsureDatabase { database: String },
    /// Give the user every right on the database.
    Grant { database: String, user: String },
    /// Create the table unless the database has it.
    CreateTable { table: String },
}

pub enum StepView {
    Connect { url: Seq<char> },
    Disconnect,
    EnsureUser { user: Seq<char> },
    EnsureDatabase { database: Seq<char> },
    Grant { database: Seq<char>, user: Seq<char> },
    CreateTable { table: Seq<char> },
}

impl View for Step {
    type V = StepView;

    open spec fn view(&self) -> StepView {
        match self {
            Step::Connect { url } => StepView::Connect { url: url@ },
            Step::Disconnect => StepView::Disconnect,
            Step::EnsureUser { user } => StepView::EnsureUser { user: user@ },
            Step::EnsureDatabase { database } => StepView::EnsureDatabase {
                database: database@,
            },
            Step::Grant { database, user } => StepView::Grant {
                database: database@,
                user: user@,
            },
            Step::CreateTable { table } => StepView::CreateTable { table: table@ },
        }
    }
}

/// The contents of a list of steps, in order.
pub open spec fn step_views(steps: Seq<Step>) -> Seq<StepView> {
    steps.map_values(|step: Step| step@)
}

/// The address of a server as a user, and of one of its databases where
/// one is named.
pub open spec fn connection_url_view(
    user: Seq<char>,
    hostname: Seq<char>,
    port: u16,
    database: Option<Seq<char>>,
) -> Seq<char> {
    let server = "postgresql://"@ + user + "@"@ + hostname + ":"@ + decimal_view(port as nat);
    match database {
        Some(name) => server + "/"@ + name,
        None => server,
    }
}

/// The address of a server as a user, and of one of its databases where
/// one is named.
pub fn connection_url(user: &str, hostname: &str, port: u16, database: Option<&str>) -> (r:
    String)
    ensures
        r@ == connection_url_view(
            user@,
            hostname@,
            port,
            match database {
                Some(name) => Some(name@),
                None => None,
            },
        ),
{
    let mut url = "postgresql://".to_owned();
    url.append(user);
    url.append("@");
    url.append(hostname);
    url.append(":");
    url.append(decimal(port as u64).as_str());
    match database {
        Some(name) => {
            url.append("/");
            url.append(name);
        },
        None => {},
    }
    url
}

/// The address of a server, or of one of its databases, as the
/// administrator.
pub fn connect_to_db(hostname: &str, port: u16, database: Option<&str>) -> (r: String)
    ensures
        r@ == connection_url_view(
            "root"@,
            hostname@,
            port,
            match database {
                Some(name) => Some(name@),
                None => None,
            },
        ),
{
    connection_url("root", hostname, port, database)
}

/// The steps that prepare one database for the authorization service: as
/// the administrator, on the server's own database, the user and the
/// database are made and the rights given; then, on the new database, the
/// table of users is made.
pub open spec fn run_view(
    user: Seq<char>,
    database: Seq<char>,
    hostname: Seq<char>,
    port: u16,
) -> Seq<StepView> {
    seq![
        StepView::Connect {
            url: connection_url_view("root"@, hostname, port, Some("postgres"@)),
        },
        StepView::EnsureUser { user },
        StepView::EnsureDatabase { database },
        StepView::Grant { database, user },
        StepView::Disconnect,
        StepView::Connect { url: connection_url_view("root"@, hostname, port, Some(database)) },
        StepView::CreateTable { table: "users"@ },
    ]
}

/// The steps that prepare one database for the authorization service.
pub fn run(user: &str, database: &str, hostname: &str, port: u16) -> (r: Vec<Step>)
    ensures
        step_views(r@) == run_view(user@, database@, hostname@, port),
{
    let mut steps: Vec<Step> = Vec::new();
    steps.push(Step::Connect { url: connect_to_db(hostname, port, Some("postgres")) });
    steps.push(Step::EnsureUser { user: user.to_owned() });
    steps.push(Step::EnsureDatabase { database: database.to_owned() });
    steps.push(Step::Grant { database: database.to_owned(), user: user.to_owned() });
    steps.push(Step::Disconnect);
    steps.push(Step::Connect { url: connect_to_db(hostname, port, Some(database)) });
    steps.push(Step::CreateTable { table: "users".to_owned() });
    assert(step_views(steps@) =~= run_view(user@, database@, hostname@, port));
    steps
}

/// The steps for a list of databases: for each, in order, its user, the
/// database itself, and the user's rights on it.
pub open spec fn data_steps_view(data: Seq<DBDataView>) -> Seq<StepView>
    decreases data.len(),
{
    if data.len() == 0 {
        seq![]
    } else {
        data_steps_view(data.drop_last()) + seq![
            StepView::EnsureUser { user: data.last().user },
            StepView::EnsureDatabase { database: data.last().database },
            StepView::Grant { database: data.last().database, user: data.last().user },
        ]
    }
}

/// The steps that prepare every database of a configuration: one
/// connection to the server as the administrator, then the steps for each
/// database.
pub open spec fn migrate_view(conf: FileDataView) -> Seq<StepView> {
    seq![StepView::Connect { url: connection_url_view("root"@, conf.host, conf.port, None) }]
        + data_steps_view(conf.data)
}

/// The steps that prepare every database of a configuration.
pub fn migrate(conf: &FileData) -> (r: Vec<Step>)
    ensures
        step_views(r@) == migrate_view(conf@),
{
    let mut steps: Vec<Step> = Vec::new();
    steps.push(Step::Connect { url: connect_to_db(conf.host.as_str(), conf.port, None) });
    let ghost connect = seq![
        StepView::Connect { url: connection_url_view("root"@, conf@.host, conf@.port, None) },
    ];
    assert(step_views(steps@) =~= connect + data_steps_view(conf@.data.take(0)));
    let mut i: usize = 0;
    while i < conf.data.len()
        invariant
            i <= conf.data.len(),
            connect == seq![
                StepView::Connect {
                    url: connection_url_view("root"@, conf@.host, conf@.port, None),
                },
            ],
            step_views(steps@) == connect + data_steps_view(conf@.data.take(i as int)),
        decreases conf.data.len() - i,
    {
        let entry = &conf.data[i];
        let ghost before = step_views(steps@);
        steps.push(Step::EnsureUser { user: entry.user.clone() });
        steps.push(Step::EnsureDatabase { database: entry.database.clone() });
        steps.push(Step::Grant { database: entry.database.clone(), user: entry.user.clone() });
        proof {
            let taken = conf@.data.take(i + 1);
            assert(taken.drop_last() =~= conf@.data.take(i as int));
            assert(taken.last() == entry@);
            assert(step_views(steps@) =~= before + seq![
                StepView::EnsureUser { user: entry@.user },
                StepView::EnsureDatabase { database: entry@.database },
                StepView::Grant { database: entry@.database, user: entry@.user },
            ]);
            assert(step_views(steps@) =~= connect + data_steps_view(taken));
        }
        i = i + 1;
    }
    assert(conf@.data.take(conf.data.len() as int) =~= conf@.data);
    steps
}

/// What is asked of the server to learn what it has: the statement, and
/// the column of its answer that holds the names.
#[derive(Debug, PartialEq, Eq)]
pub struct Listing {
    pub sql: String,
    pub column: String,
}

/// How the users of the server are listed.
pub fn users_listing() -> (r: Listing)
    ensures
        r.sql@ == "SHOW USERS"@,
        r.column@ == "username"@,
{
    Listing { sql: "SHOW USERS".to_owned(), column: "username".to_owned() }
}

/// How the databases of the server are listed.
pub fn databases_listing() -> (r: Listing)
    ensures
        r.sql@ == "SELECT datname FROM pg_database"@,
        r.column@ == "datname"@,
{
    Listing { sql: "SELECT datname FROM pg_database".to_owned(), column: "datname".to_owned() }
}

/// How the tables of a database are listed.
pub fn get_tables() -> (r: Listing)
    ensures
        r.sql@ == "SHOW TABLES"@,
        r.column@ == "table_name"@,
{
    Listing { sql: "SHOW TABLES".to_owned(), column: "table_name".to_owned() }
}

/// Whether the name is among the names.
pub fn contains(names: &Vec<String>, name: &str) -> (r: bool)
    ensures
        r == text_views(names@).contains(name@),
{
    let wanted = name.to_owned();
    let mut i: usize = 0;
    while i < names.len()
        invariant
            i <= names.len(),
            wanted@ == name@,
            forall|j: int| 0 <= j < i ==> text_views(names@)[j] != name@,
        decreases names.len() - i,
    {
        if names[i] == wanted {
            assert(text_views(names@)[i as int] == name@);
            return true;
        }
        i = i + 1;
    }
    false
}

/// The statement that creates the user, unless the server has one of that
/// name: `existing` are the names of the users that it has.
pub fn create_user(existing: &Vec<String>, user: &str) -> (r: Option<Statement>)
    ensures
        match r {
            Some(statement) => !text_views(existing@).contains(user@) && statement@ == (
            StatementView { sql: "CREATE USER $1"@, params: seq![user@] }),
            None => text_views(existing@).contains(user@),
        },
{
    if contains(existing, user) {
        None
    } else {
        Some(Statement::with_one("CREATE USER $1", user))
    }
}

/// The statement that creates the database, unless the server has one of
/// that name: `existing` are the names of the databases that it has. The
/// name is written into the statement as it is.
pub fn create_database(existing: &Vec<String>, database: &str) -> (r: Option<Statement>)
    ensures
        match r {
            Some(statement) => !text_views(existing@).contains(database@) && statement@ == (
            StatementView { sql: "CREATE DATABASE "@ + database@, params: seq![] }),
            None => text_views(existing@).contains(database@),
        },
{
    if contains(existing, database) {
        None
    } else {
        let mut sql = "CREATE DATABASE ".to_owned();
        sql.append(database);
        Some(Statement::plain(sql))
    }
}

/// The statement that gives the user every right on the database. Both
/// names are written into the statement as they are.
pub fn grant_permissions(database: &str, user: &str) -> (r: Statement)
    ensures
        r@ == (StatementView {
            sql: "GRANT ALL ON DATABASE "@ + database@ + " TO "@ + user@,
            params: seq![],
        }),
{
    let mut sql = "GRANT ALL ON DATABASE ".to_owned();
    sql.append(database);
    sql.append(" TO ");
    sql.append(user);
    Statement::plain(sql)
}

/// The statement that creates the table unless the database has it.
pub fn create_table(table: &str) -> (r: Statement)
    ensures
        r@ == (StatementView { sql: "CREATE TABLE IF NOT EXISTS $1"@, params: seq![table@] }),
{
    Statement::with_one("CREATE TABLE IF NOT EXISTS $1", table)
}

} // verus!
