//! The endpoints for users.

use crate::server::kafka::{notice, notice_view, Change};
use crate::server::{
    changed_view, refused_view, Answer, DbFailure, Statement, StatementView, Status,
};
use crate::text::{decimal, decimal_view, join, join_view, text_views};
use vstd::prelude::*;
use vstd::string::*;

verus! {

/// A user as the store holds it.
#[derive(Debug, PartialEq, Eq)]
pub struct User {
    pub id: String,
    pub name: String,
    pub email: String,
}

pub struct UserView {
    pub id: Seq<char>,
    pub name: Seq<char>,
    pub email: Seq<char>,
}

impl View for User {
    type V = UserView;

    open spec fn view(&self) -> UserView {
        UserView { id: self.id@, name: self.name@, email: self.email@ }
    }
}

/// What is sent to create a user.
#[derive(Debug, PartialEq, Eq)]
pub struct UserSeed {
    pub name: String,
    pub email: String,
}

/// What is sent to update a user: each field is replaced only where it is
/// given.
#[derive(Debug, PartialEq, Eq)]
pub struct PutData {
    pub email: Option<String>,
    pub password: Option<String>,
}

pub struct PutDataView {
    pub email: Option<Seq<char>>,
    pub password: Option<Seq<char>>,
}

impl View for PutData {
    type V = PutDataView;

    open spec fn view(&self) -> PutDataView {
        PutDataView {
            email: match self.email {
                Some(email) => Some(email@),
                None => None,
            },
            password: match self.password {
                Some(password) => Some(password@),
                None => None,
            },
        }
    }
}

/// The statement that reads every user.
pub fn select_users() -> (r: Statement)
    ensures
        r@ == (StatementView { sql: "SELECT * FROM users"@, params: seq![] }),
{
    Statement::plain("SELECT * FROM users".to_owned())
}

/// The statement that reads the user of that name.
pub fn select_user(name: &str) -> (r: Statement)
    ensures
        r@ == (StatementView { sql: "SELECT * FROM users WHERE name = $1"@, params: seq![name@] }),
{
    Statement::with_one("SELECT * FROM users WHERE name = $1", name)
}

/// The statement that stores a new user, not yet verified.
pub fn insert_user(seed: &UserSeed) -> (r: Statement)
    ensures
        r@ == (StatementView {
            sql: "INSERT INTO users (name, email, verified) VALUES ($1, $2, false)"@,
            params: seq![seed.name@, seed.email@],
        }),
{
    let mut params: Vec<String> = Vec::new();
    params.push(seed.name.clone());
    params.push(seed.email.clone());
    assert(text_views(params@) =~= seq![seed.name@, seed.email@]);
    Statement {
        sql: "INSERT INTO users (name, email, verified) VALUES ($1, $2, false)".to_owned(),
        params,
    }
}

/// The statement that removes the user of that name.
pub fn remove_user(name: &str) -> (r: Statement)
    ensures
        r@ == (StatementView { sql: "DELETE FROM users WHERE name = $1"@, params: seq![name@] }),
{
    Statement::with_one("DELETE FROM users WHERE name = $1", name)
}

/// One assignment of an update: the column, set to the placeholder of that
/// number, with a comma behind.
pub open spec fn assignment_view(column: Seq<char>, index: nat) -> Seq<char> {
    column + " = $"@ + decimal_view(index) + ","@
}

/// The assignments of an update of a user: the email first, where one is
/// given, then the password, where one is given. The placeholders are
/// numbered from 2 on, in that order.
pub open spec fn assignments_view(data: PutDataView) -> Seq<Seq<char>> {
    match (data.email, data.password) {
        (Some(_), Some(_)) => seq![
            assignment_view("email"@, 2),
            assignment_view("password"@, 3),
        ],
        (Some(_), None) => seq![assignment_view("email"@, 2)],
        (None, Some(_)) => seq![assignment_view("password"@, 2)],
        (None, None) => seq![],
    }
}

/// The values of an update of a user: the name, then the fields that are
/// given.
pub open spec fn update_params_view(name: Seq<char>, data: PutDataView) -> Seq<Seq<char>> {
    match (data.email, data.password) {
        (Some(email), Some(password)) => seq![name, email, password],
        (Some(email), None) => seq![name, email],
        (None, Some(password)) => seq![name, password],
        (None, None) => seq![name],
    }
}

/// The statement that updates the user of that name: it sets the fields
/// that are given, and in any case marks the user as not verified.
pub open spec fn update_user_view(name: Seq<char>, data: PutDataView) -> StatementView {
    StatementView {
        sql: "UPDATE USERS SET "@ + join_view(assignments_view(data), " "@)
            + " verified = false WHERE name = $1"@,
        params: update_params_view(name, data),
    }
}

/// The four texts that the update of a user can have, written out: with
/// neither field, with the email, with the password, and with both.
pub proof fn update_user_texts(name: Seq<char>, email: Seq<char>, password: Seq<char>)
    ensures
        update_user_view(name, PutDataView { email: None, password: None }).sql
            == "UPDATE USERS SET  verified = false WHERE name = $1"@,
        update_user_view(name, PutDataView { email: Some(email), password: None }).sql
            == "UPDATE USERS SET email = $2, verified = false WHERE name = $1"@,
        update_user_view(name, PutDataView { email: None, password: Some(password) }).sql
            == "UPDATE USERS SET password = $2, verified = false WHERE name = $1"@,
        update_user_view(name, PutDataView { email: Some(email), password: Some(password) }).sql
            == "UPDATE USERS SET email = $2, password = $3, verified = false WHERE name = $1"@,
{
    reveal_strlit("UPDATE USERS SET ");
    reveal_strlit(" verified = false WHERE name = $1");
    reveal_strlit(" ");
    reveal_strlit("email");
    reveal_strlit("password");
    reveal_strlit(" = $");
    reveal_strlit(",");
    reveal_strlit("UPDATE USERS SET  verified = false WHERE name = $1");
    reveal_strlit("UPDATE USERS SET email = $2, verified = false WHERE name = $1");
    reveal_strlit("UPDATE USERS SET password = $2, verified = false WHERE name = $1");
    reveal_strlit("UPDATE USERS SET email = $2, password = $3, verified = false WHERE name = $1");
    reveal_with_fuel(join_view, 3);
    let email_part = assignment_view("email"@, 2);
    let password_part = assignment_view("password"@, 2);
    let second_part = assignment_view("password"@, 3);
    assert(decimal_view(2) =~= seq!['2']);
    assert(decimal_view(3) =~= seq!['3']);
    assert(email_part =~= seq!['e', 'm', 'a', 'i', 'l', ' ', '=', ' ', '$', '2', ',']);
    assert(password_part =~= seq![
        'p', 'a', 's', 's', 'w', 'o', 'r', 'd', ' ', '=', ' ', '$', '2', ',',
    ]);
    assert(second_part =~= seq![
        'p', 'a', 's', 's', 'w', 'o', 'r', 'd', ' ', '=', ' ', '$', '3', ',',
    ]);
    assert(join_view(seq![email_part, second_part], " "@) =~= email_part + " "@ + second_part)
        by {
        assert(seq![email_part, second_part].drop_last() =~= seq![email_part]);
    }
    assert(update_user_view(name, PutDataView { email: None, password: None }).sql
        =~= "UPDATE USERS SET  verified = false WHERE name = $1"@);
    assert(update_user_view(name, PutDataView { email: Some(email), password: None }).sql
        =~= "UPDATE USERS SET email = $2, verified = false WHERE name = $1"@);
    assert(update_user_view(name, PutDataView { email: None, password: Some(password) }).sql
        =~= "UPDATE USERS SET password = $2, verified = false WHERE name = $1"@);
    assert(update_user_view(name, PutDataView { email: Some(email), password: Some(password) }).sql
        =~= "UPDATE USERS SET email = $2, password = $3, verified = false WHERE name = $1"@);
}

/// One assignment of an update.
fn assignment(column: &str, index: u64) -> (r: String)
    ensures
        r@ == assignment_view(column@, index as nat),
{
    let mut text = column.to_owned();
    text.append(" = $");
    text.append(decimal(index).as_str());
    text.append(",");
    text
}

/// The statement that updates the user of that name.
pub fn update_user(name: &str, data: &PutData) -> (r: Statement)
    ensures
        r@ == update_user_view(name@, data@),
{
    let mut parts: Vec<String> = Vec::new();
    let mut params: Vec<String> = Vec::new();
    params.push(name.to_owned());
    let mut index: u64 = 2;
    match &data.email {
        Some(email) => {
            parts.push(assignment("email", index));
            params.push(email.clone());
            index = index + 1;
        },
        None => {},
    }
    match &data.password {
        Some(password) => {
            parts.push(assignment("password", index));
            params.push(password.clone());
        },
        None => {},
    }
    assert(text_views(parts@) =~= assignments_view(data@));
    assert(text_views(params@) =~= update_params_view(name@, data@));
    let mut sql = "UPDATE USERS SET ".to_owned();
    sql.append(join(&parts, " ").as_str());
    sql.append(" verified = false WHERE name = $1");
    Statement { sql, params }
}

/// The answer to the read of every user: the rows, or 500 where the store
/// failed.
pub fn get_users(rows: Result<Vec<User>, DbFailure>) -> (r: Result<Vec<User>, Status>)
    ensures
        match rows {
            Err(_) => r == Err::<Vec<User>, Status>(Status::InternalServerError),
            Ok(list) => r == Ok::<Vec<User>, Status>(list),
        },
{
    match rows {
        Err(_) => Err(Status::InternalServerError),
        Ok(list) => Ok(list),
    }
}

/// The answer to the read of a user, for the rows that the store gave: the
/// user where there is exactly one row; 404 for none or several; 500 where
/// the store failed.
pub fn get_user(rows: Result<Vec<User>, DbFailure>) -> (r: Result<User, Status>)
    ensures
        match rows {
            Err(_) => r == Err::<User, Status>(Status::InternalServerError),
            Ok(list) => if list.len() == 1 {
                r is Ok && r->Ok_0@ == list[0]@
            } else {
                r == Err::<User, Status>(Status::NotFound)
            },
        },
{
    match rows {
        Err(_) => Err(Status::InternalServerError),
        Ok(mut list) => {
            if list.len() != 1 {
                Err(Status::NotFound)
            } else {
                match list.pop() {
                    Some(user) => Ok(user),
                    None => Err(Status::NotFound),
                }
            }
        },
    }
}

/// The answer to the creation of a user: 200 and the announcement where
/// the store took it; 409 where a user of that name is there already; 500
/// for any other failure.
pub fn post_user(seed: &UserSeed, outcome: Result<(), DbFailure>) -> (r: Answer)
    ensures
        r@ == match outcome {
            Ok(_) => changed_view(true, notice_view(Change::Created, "Added user: "@, seed.name@)),
            Err(DbFailure::UniqueViolation) => refused_view(Status::Conflict),
            Err(DbFailure::Other) => refused_view(Status::InternalServerError),
        },
{
    match outcome {
        Ok(_) => Answer {
            status: Status::Success,
            notice: Some(notice(Change::Created, "Added user: ", seed.name.as_str())),
        },
        Err(DbFailure::UniqueViolation) => Answer { status: Status::Conflict, notice: None },
        Err(DbFailure::Other) => Answer { status: Status::InternalServerError, notice: None },
    }
}

/// The answer to the update of a user.
pub fn put_user(name: &str, outcome: Result<(), DbFailure>) -> (r: Answer)
    ensures
        r@ == changed_view(outcome is Ok, notice_view(Change::Updated, "Updated user: "@, name@)),
{
    match outcome {
        Ok(_) => Answer {
            status: Status::Success,
            notice: Some(notice(Change::Updated, "Updated user: ", name)),
        },
        Err(_) => Answer { status: Status::InternalServerError, notice: None },
    }
}

/// The answer to the removal of a user, for the number of rows that the
/// store removed: 200 and the announcement for exactly one; 404 for none;
/// 500 for more than one, and where the store failed.
pub fn delete_user(name: &str, outcome: Result<u64, DbFailure>) -> (r: Answer)
    ensures
        r@ == match outcome {
            Ok(removed) => if removed == 1 {
                changed_view(true, notice_view(Change::Deleted, "Deleted user: "@, name@))
            } else if removed == 0 {
                refused_view(Status::NotFound)
            } else {
                refused_view(Status::InternalServerError)
            },
            Err(_) => refused_view(Status::InternalServerError),
        },
{
    match outcome {
        Err(_) => Answer { status: Status::InternalServerError, notice: None },
        Ok(removed) => {
            if removed < 1 {
                Answer { status: Status::NotFound, notice: None }
            } else if removed > 1 {
                Answer { status: Status::InternalServerError, notice: None }
            } else {
                Answer {
                    status: Status::Success,
                    notice: Some(notice(Change::Deleted, "Deleted user: ", name)),
                }
            }
        },
    }
}

} // verus!
