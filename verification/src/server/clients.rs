//! The endpoints for clients.

use crate::server::kafka::{notice, notice_view, Change};
use crate::server::{changed_view, Answer, DbFailure, Statement, StatementView, Status};
use crate::text::text_views;
use vstd::prelude::*;

verus! {

/// A client as the store holds it.
#[derive(Debug, PartialEq, Eq)]
pub struct Client {
    pub id: String,
    pub name: String,
    pub display_name: String,
    pub callback_url: String,
}

pub struct ClientView {
    pub id: Seq<char>,
    pub name: Seq<char>,
    pub display_name: Seq<char>,
    pub callback_url: Seq<char>,
}

impl View for Client {
    type V = ClientView;

    open spec fn view(&self) -> ClientView {
        ClientView {
            id: self.id@,
            name: self.name@,
            display_name: self.display_name@,
            callback_url: self.callback_url@,
        }
    }
}

/// What is sent to create a client.
#[derive(Debug, PartialEq, Eq)]
pub struct PostData {
    pub name: String,
    pub display_name: String,
    pub callback_url: String,
}

/// What is sent to update a client.
#[derive(Debug, PartialEq, Eq)]
pub struct PutData {
    pub display_name: String,
    pub callback_url: String,
}

/// The statement that reads the client of that name.
pub fn select_client(name: &str) -> (r: Statement)
    ensures
        r@ == (StatementView {
            sql: "SELECT * FROM clients WHERE name = $1"@,
            params: seq![name@],
        }),
{
    Statement::with_one("SELECT * FROM clients WHERE name = $1", name)
}

/// The statement that stores a new client.
pub fn insert_client(data: &PostData) -> (r: Statement)
    ensures
        r@ == (StatementView {
            sql: "INSERT INTO clients (name, display_name, callback_url) VALUES ($1, $2, $3)"@,
            params: seq![data.name@, data.display_name@, data.callback_url@],
        }),
{
    let mut params: Vec<String> = Vec::new();
    params.push(data.name.clone());
    params.push(data.display_name.clone());
    params.push(data.callback_url.clone());
    assert(text_views(params@) =~= seq![data.name@, data.display_name@, data.callback_url@]);
    Statement {
        sql: "INSERT INTO clients (name, display_name, callback_url) VALUES ($1, $2, $3)"
            .to_owned(),
        params,
    }
}

/// The statement that replaces the fields of the client of that name.
pub fn update_client(name: &str, data: &PutData) -> (r: Statement)
    ensures
        r@ == (StatementView {
            sql: "UPDATE clients SET display_name = $2, callback_url = $3 WHERE name = $1"@,
            params: seq![name@, data.display_name@, data.callback_url@],
        }),
{
    let mut params: Vec<String> = Vec::new();
    params.push(name.to_owned());
    params.push(data.display_name.clone());
    params.push(data.callback_url.clone());
    assert(text_views(params@) =~= seq![name@, data.display_name@, data.callback_url@]);
    Statement {
        sql: "UPDATE clients SET display_name = $2, callback_url = $3 WHERE name = $1".to_owned(),
        params,
    }
}

/// The statement that removes the client of that name.
pub fn remove_client(name: &str) -> (r: Statement)
    ensures
        r@ == (StatementView { sql: "DELETE FROM clients WHERE name = $1"@, params: seq![name@] }),
{
    Statement::with_one("DELETE FROM clients WHERE name = $1", name)
}

/// The answer to the read of a client, for the rows that the store gave:
/// the client where there is exactly one row; 404 for none or several; 500
/// where the store failed.
pub fn get_client(rows: Result<Vec<Client>, DbFailure>) -> (r: Result<Client, Status>)
    ensures
        match rows {
            Err(_) => r == Err::<Client, Status>(Status::InternalServerError),
            Ok(list) => if list.len() == 1 {
                r is Ok && r->Ok_0@ == list[0]@
            } else {
                r == Err::<Client, Status>(Status::NotFound)
            },
        },
{
    match rows {
        Err(_) => Err(Status::InternalServerError),
        Ok(mut list) => {
            if list.len() != 1 {
                Err(Status::NotFound)
            } else {
                match list.pop() {
                    Some(client) => Ok(client),
                    None => Err(Status::NotFound),
                }
            }
        },
    }
}

/// The answer to the creation of a client: 200 and the announcement where
/// the store took it, 500 where it did not.
pub fn post_client(data: &PostData, outcome: Result<(), DbFailure>) -> (r: Answer)
    ensures
        r@ == changed_view(
            outcome is Ok,
            notice_view(Change::Created, "Created user: "@, data.name@),
        ),
{
    match outcome {
        Ok(_) => Answer {
            status: Status::Success,
            notice: Some(notice(Change::Created, "Created user: ", data.name.as_str())),
        },
        Err(_) => Answer { status: Status::InternalServerError, notice: None },
    }
}

/// The answer to the update of a client.
pub fn put_client(name: &str, outcome: Result<(), DbFailure>) -> (r: Answer)
    ensures
        r@ == changed_view(outcome is Ok, notice_view(Change::Updated, "Updated user: "@, name@)),
{
    match outcome {
        Ok(_) => Answer {
            status: Status::Success,
            notice: Some(notice(Change::Updated, "Updated user: ", name)),
        },
        Err(_) => Answer { status: Status::InternalServerError, notice: None },
    }
}

/// The answer to the removal of a client.
pub fn delete_client(name: &str, outcome: Result<(), DbFailure>) -> (r: Answer)
    ensures
        r@ == changed_view(outcome is Ok, notice_view(Change::Deleted, "Deleted user: "@, name@)),
{
    match outcome {
        Ok(_) => Answer {
            status: Status::Success,
            notice: Some(notice(Change::Deleted, "Deleted user: ", name)),
        },
        Err(_) => Answer { status: Status::InternalServerError, notice: None },
    }
}

} // verus!
