use auth_controller::api::{Body, Method, Request};
use auth_controller::migrations::{
    connect_to_db, connection_url, contains, create_database, create_table, create_user,
    databases_listing, get_tables, grant_permissions, migrate, run, users_listing, DBData,
    DBError, FileData, Step,
};
use auth_controller::mock::{PostResponse, User as MockUser, UserDb};
use auth_controller::operator::{from_crd, snapshot, AuthClient, AuthUserSpec, User};
use auth_controller::server::Statement;
use auth_controller::text::{decimal, join};

fn strings(values: &[&str]) -> Vec<String> {
    values.iter().map(|v| v.to_string()).collect()
}

fn declared(name: &str) -> AuthUserSpec {
    AuthUserSpec {
        name: name.to_string(),
        email: format!("{}@example.org", name),
        password: "pw".to_string(),
    }
}

fn mock_user(name: &str) -> MockUser {
    MockUser {
        id: "given".to_string(),
        name: name.to_string(),
        email: format!("{}@example.org", name),
        password: "pw".to_string(),
        verified: false,
    }
}

#[test]
fn numbers_in_decimal() {
    assert_eq!(decimal(0), "0");
    assert_eq!(decimal(7), "7");
    assert_eq!(decimal(9), "9");
    assert_eq!(decimal(10), "10");
    assert_eq!(decimal(26257), "26257");
    assert_eq!(decimal(100), "100");
    assert_eq!(decimal(1234567890), "1234567890");
    assert_eq!(decimal(u64::MAX), "18446744073709551615");
}

#[test]
fn lists_joined_by_a_separator() {
    assert_eq!(join(&vec![], ", "), "");
    assert_eq!(join(&strings(&["a"]), ", "), "a");
    assert_eq!(join(&strings(&["a", "b", "c"]), ", "), "a, b, c");
    assert_eq!(join(&strings(&["", ""]), "-"), "-");
    assert_eq!(join(&strings(&["a", "b"]), ""), "ab");
}

#[test]
fn declared_user_becomes_a_user() {
    assert_eq!(
        from_crd(&declared("ada")),
        User {
            name: "ada".to_string(),
            email: "ada@example.org".to_string(),
            password: "pw".to_string(),
        }
    );
    assert_eq!(declared("ada").clone(), declared("ada"));
}

#[test]
fn snapshot_keeps_every_user_in_order() {
    assert_eq!(snapshot(&vec![]), vec![]);
    let users = snapshot(&vec![declared("ada"), declared("bob"), declared("ada")]);
    assert_eq!(users.len(), 3);
    assert_eq!(users[0].name, "ada");
    assert_eq!(users[1], from_crd(&declared("bob")));
    assert_eq!(users[2], users[0].clone());
}

#[test]
fn client_lists_the_users_below_its_address() {
    let client = AuthClient::new("http://auth".to_string());
    assert_eq!(client.url(), "http://auth");
    assert_eq!(
        client.get_users(),
        Request { method: Method::Get, url: "http://auth/users".to_string(), body: Body::Empty }
    );
    assert_eq!(client.clone(), client);
    assert_eq!(AuthClient::new(String::new()).get_users().url, "/users");
}

#[test]
fn stand_in_lists_what_was_posted() {
    let mut db = UserDb::new();
    assert_eq!(db.list(), vec![]);
    let first = db.insert(mock_user("ada"), "id-1".to_string());
    assert_eq!(first, PostResponse { id: "id-1".to_string() });
    db.insert(mock_user("bob"), "id-2".to_string());
    let listed = db.list();
    assert_eq!(listed.len(), 2);
    assert_eq!(listed[0], MockUser { id: "id-1".to_string(), ..mock_user("ada") });
    assert_eq!(listed[1], MockUser { id: "id-2".to_string(), ..mock_user("bob") });
    assert_eq!(db.list(), listed);
}

#[test]
fn posted_user_gets_a_new_identifier() {
    let mut db = UserDb::new();
    let first = db.post(mock_user("ada"));
    let second = db.post(mock_user("ada"));
    assert_eq!(first.id.chars().count(), 36);
    assert_eq!(second.id.chars().count(), 36);
    assert_ne!(first.id, "given");
    assert_ne!(first.id, second.id);
    assert_eq!(first.id.chars().filter(|c| *c == '-').count(), 4);
    let listed = db.list();
    assert_eq!(listed[0], MockUser { id: first.id, ..mock_user("ada") });
    assert_eq!(listed[1].id, second.id);
}

#[test]
fn addresses_of_the_database() {
    assert_eq!(
        connection_url("authserver", "db.local", 26257, Some("auth")),
        "postgresql://authserver@db.local:26257/auth"
    );
    assert_eq!(connect_to_db("db.local", 5432, None), "postgresql://root@db.local:5432");
    assert_eq!(connect_to_db("h", 0, Some("postgres")), "postgresql://root@h:0/postgres");
    assert_eq!(connect_to_db("h", 65535, Some("")), "postgresql://root@h:65535/");
}

#[test]
fn steps_that_prepare_one_database() {
    assert_eq!(
        run("authserver", "auth", "db.local", 26257),
        vec![
            Step::Connect { url: "postgresql://root@db.local:26257/postgres".to_string() },
            Step::EnsureUser { user: "authserver".to_string() },
            Step::EnsureDatabase { database: "auth".to_string() },
            Step::Grant { database: "auth".to_string(), user: "authserver".to_string() },
            Step::Disconnect,
            Step::Connect { url: "postgresql://root@db.local:26257/auth".to_string() },
            Step::CreateTable { table: "users".to_string() },
        ]
    );
}

#[test]
fn steps_that_prepare_every_configured_database() {
    let empty = FileData { host: "db".to_string(), port: 26257, data: vec![] };
    assert_eq!(
        migrate(&empty),
        vec![Step::Connect { url: "postgresql://root@db:26257".to_string() }]
    );
    let conf = FileData {
        host: "db".to_string(),
        port: 26257,
        data: vec![
            DBData { database: "auth".to_string(), user: "authserver".to_string() },
            DBData { database: "shop".to_string(), user: "shopkeeper".to_string() },
        ],
    };
    assert_eq!(
        migrate(&conf),
        vec![
            Step::Connect { url: "postgresql://root@db:26257".to_string() },
            Step::EnsureUser { user: "authserver".to_string() },
            Step::EnsureDatabase { database: "auth".to_string() },
            Step::Grant { database: "auth".to_string(), user: "authserver".to_string() },
            Step::EnsureUser { user: "shopkeeper".to_string() },
            Step::EnsureDatabase { database: "shop".to_string() },
            Step::Grant { database: "shop".to_string(), user: "shopkeeper".to_string() },
        ]
    );
}

#[test]
fn what_is_there_is_not_made_again() {
    let existing = strings(&["root", "authserver"]);
    assert!(contains(&existing, "root"));
    assert!(contains(&existing, "authserver"));
    assert!(!contains(&existing, "auth"));
    assert!(!contains(&existing, "Root"));
    assert!(!contains(&vec![], ""));
    assert_eq!(create_user(&existing, "authserver"), None);
    assert_eq!(
        create_user(&existing, "shopkeeper"),
        Some(Statement { sql: "CREATE USER $1".to_string(), params: strings(&["shopkeeper"]) })
    );
    assert_eq!(create_database(&strings(&["postgres", "auth"]), "auth"), None);
    assert_eq!(
        create_database(&strings(&["postgres"]), "auth"),
        Some(Statement { sql: "CREATE DATABASE auth".to_string(), params: vec![] })
    );
}

#[test]
fn statements_of_a_migration() {
    assert_eq!(
        grant_permissions("auth", "authserver"),
        Statement { sql: "GRANT ALL ON DATABASE auth TO authserver".to_string(), params: vec![] }
    );
    assert_eq!(
        create_table("users"),
        Statement {
            sql: "CREATE TABLE IF NOT EXISTS $1".to_string(),
            params: strings(&["users"]),
        }
    );
    assert_eq!(users_listing().sql, "SHOW USERS");
    assert_eq!(users_listing().column, "username");
    assert_eq!(databases_listing().sql, "SELECT datname FROM pg_database");
    assert_eq!(databases_listing().column, "datname");
    assert_eq!(get_tables().sql, "SHOW TABLES");
    assert_eq!(get_tables().column, "table_name");
    assert_eq!(DBError, DBError.clone());
}
