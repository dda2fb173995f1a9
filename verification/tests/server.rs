use auth_controller::server::clients::{
    delete_client, get_client, insert_client, post_client, put_client, remove_client,
    select_client, update_client, Client, PostData, PutData as ClientPutData,
};
use auth_controller::server::kafka::{notice, record_key, topic, Change, KafkaMessage, QUEUE_CAPACITY};
use auth_controller::server::users::{
    delete_user, get_user, get_users, insert_user, post_user, put_user, remove_user, select_user,
    select_users, update_user, PutData, User, UserSeed,
};
use auth_controller::server::{Answer, DbFailure, Statement, Status};

fn strings(values: &[&str]) -> Vec<String> {
    values.iter().map(|v| v.to_string()).collect()
}

fn row(name: &str) -> Client {
    Client {
        id: "7f1e".to_string(),
        name: name.to_string(),
        display_name: "Acme".to_string(),
        callback_url: "cb".to_string(),
    }
}

fn user(name: &str) -> User {
    User { id: "9a2b".to_string(), name: name.to_string(), email: "e@example.org".to_string() }
}

fn refused(status: Status) -> Answer {
    Answer { status, notice: None }
}

#[test]
fn status_codes() {
    assert_eq!(Status::Success.code(), 200);
    assert_eq!(Status::Found.code(), 302);
    assert_eq!(Status::Unauthorized.code(), 401);
    assert_eq!(Status::NotFound.code(), 404);
    assert_eq!(Status::Conflict.code(), 409);
    assert_eq!(Status::InternalServerError.code(), 500);
}

#[test]
fn statements_for_clients() {
    assert_eq!(
        select_client("acme"),
        Statement {
            sql: "SELECT * FROM clients WHERE name = $1".to_string(),
            params: strings(&["acme"]),
        }
    );
    let data = PostData {
        name: "acme".to_string(),
        display_name: "Acme".to_string(),
        callback_url: "cb".to_string(),
    };
    assert_eq!(
        insert_client(&data),
        Statement {
            sql: "INSERT INTO clients (name, display_name, callback_url) VALUES ($1, $2, $3)"
                .to_string(),
            params: strings(&["acme", "Acme", "cb"]),
        }
    );
    let put = ClientPutData { display_name: "New".to_string(), callback_url: "cb2".to_string() };
    assert_eq!(
        update_client("acme", &put),
        Statement {
            sql: "UPDATE clients SET display_name = $2, callback_url = $3 WHERE name = $1"
                .to_string(),
            params: strings(&["acme", "New", "cb2"]),
        }
    );
    assert_eq!(
        remove_client("acme"),
        Statement {
            sql: "DELETE FROM clients WHERE name = $1".to_string(),
            params: strings(&["acme"]),
        }
    );
}

#[test]
fn read_of_a_client_wants_exactly_one_row() {
    assert_eq!(get_client(Ok(vec![row("acme")])), Ok(row("acme")));
    assert_eq!(get_client(Ok(vec![])), Err(Status::NotFound));
    assert_eq!(get_client(Ok(vec![row("a"), row("b")])), Err(Status::NotFound));
    assert_eq!(get_client(Err(DbFailure::Other)), Err(Status::InternalServerError));
    assert_eq!(get_client(Err(DbFailure::UniqueViolation)), Err(Status::InternalServerError));
}

#[test]
fn changes_of_clients_are_announced() {
    let data = PostData {
        name: "acme".to_string(),
        display_name: "Acme".to_string(),
        callback_url: "cb".to_string(),
    };
    assert_eq!(
        post_client(&data, Ok(())),
        Answer {
            status: Status::Success,
            notice: Some(KafkaMessage {
                topic: "ponglehub.auth.create-user".to_string(),
                message: "Created user: acme".to_string(),
            }),
        }
    );
    assert_eq!(post_client(&data, Err(DbFailure::Other)), refused(Status::InternalServerError));
    assert_eq!(
        post_client(&data, Err(DbFailure::UniqueViolation)),
        refused(Status::InternalServerError)
    );
    assert_eq!(
        put_client("acme", Ok(())),
        Answer {
            status: Status::Success,
            notice: Some(KafkaMessage {
                topic: "ponglehub.auth.update-user".to_string(),
                message: "Updated user: acme".to_string(),
            }),
        }
    );
    assert_eq!(put_client("acme", Err(DbFailure::Other)), refused(Status::InternalServerError));
    assert_eq!(
        delete_client("acme", Ok(())),
        Answer {
            status: Status::Success,
            notice: Some(KafkaMessage {
                topic: "ponglehub.auth.delete-user".to_string(),
                message: "Deleted user: acme".to_string(),
            }),
        }
    );
    assert_eq!(delete_client("acme", Err(DbFailure::Other)), refused(Status::InternalServerError));
}

#[test]
fn statements_for_users() {
    assert_eq!(
        select_users(),
        Statement { sql: "SELECT * FROM users".to_string(), params: vec![] }
    );
    assert_eq!(
        select_user("ada"),
        Statement {
            sql: "SELECT * FROM users WHERE name = $1".to_string(),
            params: strings(&["ada"]),
        }
    );
    let seed = UserSeed { name: "ada".to_string(), email: "ada@example.org".to_string() };
    assert_eq!(
        insert_user(&seed),
        Statement {
            sql: "INSERT INTO users (name, email, verified) VALUES ($1, $2, false)".to_string(),
            params: strings(&["ada", "ada@example.org"]),
        }
    );
    assert_eq!(
        remove_user("ada"),
        Statement {
            sql: "DELETE FROM users WHERE name = $1".to_string(),
            params: strings(&["ada"]),
        }
    );
}

#[test]
fn update_of_a_user_sets_the_fields_that_are_given() {
    assert_eq!(
        update_user("ada", &PutData { email: None, password: None }),
        Statement {
            sql: "UPDATE USERS SET  verified = false WHERE name = $1".to_string(),
            params: strings(&["ada"]),
        }
    );
    assert_eq!(
        update_user("ada", &PutData { email: Some("a@example.org".to_string()), password: None }),
        Statement {
            sql: "UPDATE USERS SET email = $2, verified = false WHERE name = $1".to_string(),
            params: strings(&["ada", "a@example.org"]),
        }
    );
    assert_eq!(
        update_user("ada", &PutData { email: None, password: Some("s3cret".to_string()) }),
        Statement {
            sql: "UPDATE USERS SET password = $2, verified = false WHERE name = $1".to_string(),
            params: strings(&["ada", "s3cret"]),
        }
    );
    assert_eq!(
        update_user(
            "ada",
            &PutData {
                email: Some("a@example.org".to_string()),
                password: Some("s3cret".to_string()),
            }
        ),
        Statement {
            sql: "UPDATE USERS SET email = $2, password = $3, verified = false WHERE name = $1"
                .to_string(),
            params: strings(&["ada", "a@example.org", "s3cret"]),
        }
    );
}

#[test]
fn reads_of_users() {
    assert_eq!(get_users(Ok(vec![user("a"), user("b")])), Ok(vec![user("a"), user("b")]));
    assert_eq!(get_users(Ok(vec![])), Ok(vec![]));
    assert_eq!(get_users(Err(DbFailure::Other)), Err(Status::InternalServerError));
    assert_eq!(get_user(Ok(vec![user("ada")])), Ok(user("ada")));
    assert_eq!(get_user(Ok(vec![])), Err(Status::NotFound));
    assert_eq!(get_user(Ok(vec![user("a"), user("a")])), Err(Status::NotFound));
    assert_eq!(get_user(Err(DbFailure::Other)), Err(Status::InternalServerError));
}

#[test]
fn creation_of_a_user_that_is_there_already_is_a_conflict() {
    let seed = UserSeed { name: "ada".to_string(), email: "ada@example.org".to_string() };
    assert_eq!(post_user(&seed, Err(DbFailure::UniqueViolation)), refused(Status::Conflict));
    assert_eq!(post_user(&seed, Err(DbFailure::Other)), refused(Status::InternalServerError));
    assert_eq!(
        post_user(&seed, Ok(())),
        Answer {
            status: Status::Success,
            notice: Some(KafkaMessage {
                topic: "ponglehub.auth.create-user".to_string(),
                message: "Added user: ada".to_string(),
            }),
        }
    );
}

#[test]
fn update_and_removal_of_a_user() {
    assert_eq!(
        put_user("ada", Ok(())),
        Answer {
            status: Status::Success,
            notice: Some(KafkaMessage {
                topic: "ponglehub.auth.update-user".to_string(),
                message: "Updated user: ada".to_string(),
            }),
        }
    );
    assert_eq!(put_user("ada", Err(DbFailure::Other)), refused(Status::InternalServerError));
    assert_eq!(
        delete_user("ada", Ok(1)),
        Answer {
            status: Status::Success,
            notice: Some(KafkaMessage {
                topic: "ponglehub.auth.delete-user".to_string(),
                message: "Deleted user: ada".to_string(),
            }),
        }
    );
    assert_eq!(delete_user("ada", Ok(0)), refused(Status::NotFound));
    assert_eq!(delete_user("ada", Ok(2)), refused(Status::InternalServerError));
    assert_eq!(delete_user("ada", Ok(u64::MAX)), refused(Status::InternalServerError));
    assert_eq!(delete_user("ada", Err(DbFailure::Other)), refused(Status::InternalServerError));
}

#[test]
fn announcements() {
    assert_eq!(topic(Change::Created), "ponglehub.auth.create-user");
    assert_eq!(topic(Change::Updated), "ponglehub.auth.update-user");
    assert_eq!(topic(Change::Deleted), "ponglehub.auth.delete-user");
    assert_eq!(record_key(), "Key: 1");
    assert_eq!(QUEUE_CAPACITY, 100);
    assert_eq!(
        notice(Change::Deleted, "Gone: ", ""),
        KafkaMessage {
            topic: "ponglehub.auth.delete-user".to_string(),
            message: "Gone: ".to_string(),
        }
    );
}

#[test]
fn plain_statements_have_no_values() {
    assert_eq!(
        Statement::plain("SELECT 1".to_string()),
        Statement { sql: "SELECT 1".to_string(), params: vec![] }
    );
    assert_eq!(
        Statement::with_one("SELECT $1", "x"),
        Statement { sql: "SELECT $1".to_string(), params: strings(&["x"]) }
    );
}
