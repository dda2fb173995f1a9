//! The front of the token store: login tokens are kept for a minute, and
//! session tokens until they are deleted.

pub mod logger;

use crate::server::Status;
use crate::text::text_views;
use vstd::prelude::*;

verus! {

/// The answer that carries a newly issued login token.
#[derive(Debug, PartialEq, Eq)]
pub struct TokenResponse {
    pub token: String,
}

/// Why the store refused a command.
#[derive(Clone, Copy, Debug, PartialEq, Eq, Structural)]
pub enum StoreFailure {
    /// What the store holds under the key is not of the type asked for; for
    /// a token this is so where the store holds nothing under it.
    TypeError,
    Other,
}

/// The password of the store is not configured.
#[derive(Clone, Copy, Debug, PartialEq, Eq, Structural)]
pub struct MissingPassword;

/// A command for the store: its name and its arguments.
#[derive(Debug, PartialEq, Eq)]
pub struct Command {
    pub name: String,
    pub args: Vec<String>,
}

pub struct CommandView {
    pub name: Seq<char>,
    pub args: Seq<Seq<char>>,
}

impl View for Command {
    type V = CommandView;

    open spec fn view(&self) -> CommandView {
        CommandView { name: self.name@, args: text_views(self.args@) }
    }
}

/// A command with one argument.
fn unary(name: &str, argument: &str) -> (r: Command)
    ensures
        r@ == (CommandView { name: name@, args: seq![argument@] }),
{
    let mut args: Vec<String> = Vec::new();
    args.push(argument.to_owned());
    assert(text_views(args@) =~= seq![argument@]);
    Command { name: name.to_owned(), args }
}

/// For how many seconds a login token is kept.
pub fn login_expiry_seconds() -> (r: &'static str)
    ensures
        r@ == "60"@,
{
    "60"
}

/// The login token that is issued.
pub fn new_token() -> (r: &'static str)
    ensures
        r@ == "test-token"@,
{
    "test-token"
}

/// The command that logs in to the store with the configured password;
/// none where no password is configured.
pub fn authenticate(password: Option<String>) -> (r: Result<Command, MissingPassword>)
    ensures
        match password {
            Some(secret) => r is Ok && r->Ok_0@ == (CommandView {
                name: "AUTH"@,
                args: seq![secret@],
            }),
            None => r is Err,
        },
{
    match password {
        Some(secret) => Ok(unary("AUTH", secret.as_str())),
        None => Err(MissingPassword),
    }
}

/// The command that looks a login token up.
pub fn lookup(token: &str) -> (r: Command)
    ensures
        r@ == (CommandView { name: "GET"@, args: seq![token@] }),
{
    unary("GET", token)
}

/// The command that keeps a login token for a minute.
pub fn keep(token: &str) -> (r: Command)
    ensures
        r@ == (CommandView { name: "SET"@, args: seq![token@, "value"@, "EX"@, "60"@] }),
{
    let mut args: Vec<String> = Vec::new();
    args.push(token.to_owned());
    args.push("value".to_owned());
    args.push("EX".to_owned());
    args.push(login_expiry_seconds().to_owned());
    assert(text_views(args@) =~= seq![token@, "value"@, "EX"@, "60"@]);
    Command { name: "SET".to_owned(), args }
}

/// The command that deletes a session token.
pub fn forget(token: &str) -> (r: Command)
    ensures
        r@ == (CommandView { name: "DEL"@, args: seq![token@] }),
{
    unary("DEL", token)
}

/// The answer to the check of a login token, for what the lookup gave: 200
/// where the store holds it, 404 where it holds nothing under it, 500 for
/// any other failure.
pub fn get_login(found: Result<String, StoreFailure>) -> (r: Status)
    ensures
        r == match found {
            Ok(_) => Status::Success,
            Err(StoreFailure::TypeError) => Status::NotFound,
            Err(StoreFailure::Other) => Status::InternalServerError,
        },
{
    match found {
        Ok(_) => Status::Success,
        Err(StoreFailure::TypeError) => Status::NotFound,
        Err(StoreFailure::Other) => Status::InternalServerError,
    }
}

/// The answer to the request for a login token, for what keeping it gave:
/// the token where the store took it, else 500.
pub fn post_login(outcome: Result<(), StoreFailure>) -> (r: Result<TokenResponse, Status>)
    ensures
        match outcome {
            Ok(_) => r is Ok && r->Ok_0.token@ == "test-token"@,
            Err(_) => r == Err::<TokenResponse, Status>(Status::InternalServerError),
        },
{
    match outcome {
        Ok(_) => Ok(TokenResponse { token: new_token().to_owned() }),
        Err(_) => Err(Status::InternalServerError),
    }
}

/// The answer to the deletion of a session token, for what the store said:
/// 200 where it took the command, however many tokens it deleted, else 500.
pub fn delete_session(outcome: Result<i32, StoreFailure>) -> (r: Status)
    ensures
        r == if outcome is Ok {
            Status::Success
        } else {
            Status::InternalServerError
        },
{
    match outcome {
        Ok(_) => Status::Success,
        Err(_) => Status::InternalServerError,
    }
}

/// The answer to the question whether the browser is logged in: 200 where
/// the request brought the session cookie, else 401.
pub fn index(cookie: Option<&str>) -> (r: Status)
    ensures
        r == if cookie is Some {
            Status::Success
        } else {
            Status::Unauthorized
        },
{
    match cookie {
        Some(_) => Status::Success,
        None => Status::Unauthorized,
    }
}

} // verus!
