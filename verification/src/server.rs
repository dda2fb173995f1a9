//! The authorization service's own side: what its endpoints ask of the
//! database, and what they answer for each thing the database may say.
//!
//! The endpoints keep clients and users in a relational store and announce
//! each change on a message bus. Here are their rules; the connections are
//! the caller's.

pub mod clients;
pub mod kafka;
pub mod users;

use crate::server::kafka::{KafkaMessage, KafkaMessageView};
use crate::text::text_views;
use vstd::prelude::*;

verus! {

/// The statuses with which the services answer.
#[derive(Clone, Copy, Debug, PartialEq, Eq, Structural)]
pub enum Status {
    Success,
    Found,
    Unauthorized,
    NotFound,
    Conflict,
    InternalServerError,
}

impl Status {
    /// The status code.
    pub open spec fn code_view(self) -> u16 {
        match self {
            Status::Success => 200,
            Status::Found => 302,
            Status::Unauthorized => 401,
            Status::NotFound => 404,
            Status::Conflict => 409,
            Status::InternalServerError => 500,
        }
    }

    /// The status code.
    pub fn code(self) -> (r: u16)
        ensures
            r == self.code_view(),
    {
        match self {
            Status::Success => 200,
            Status::Found => 302,
            Status::Unauthorized => 401,
            Status::NotFound => 404,
            Status::Conflict => 409,
            Status::InternalServerError => 500,
        }
    }
}

/// Why the database refused a statement.
#[derive(Clone, Copy, Debug, PartialEq, Eq, Structural)]
pub enum DbFailure {
    /// A row with that key is already there.
    UniqueViolation,
    Other,
}

/// A statement for the database: its text, and the values of its
/// placeholders `$1`, `$2` and so on, in that order.
#[derive(Debug, PartialEq, Eq)]
pub struct Statement {
    pub sql: String,
    pub params: Vec<String>,
}

pub struct StatementView {
    pub sql: Seq<char>,
    pub params: Seq<Seq<char>>,
}

impl View for Statement {
    type V = StatementView;

    open spec fn view(&self) -> StatementView {
        StatementView { sql: self.sql@, params: text_views(self.params@) }
    }
}

impl Statement {
    /// The statement with that text and no placeholder.
    pub fn plain(sql: String) -> (r: Statement)
        ensures
            r@ == (StatementView { sql: sql@, params: seq![] }),
    {
        let statement = Statement { sql, params: Vec::new() };
        assert(statement@.params =~= seq![]);
        statement
    }

    /// The statement with that text and one placeholder.
    pub fn with_one(sql: &str, first: &str) -> (r: Statement)
        ensures
            r@ == (StatementView { sql: sql@, params: seq![first@] }),
    {
        let mut params: Vec<String> = Vec::new();
        params.push(first.to_owned());
        let statement = Statement { sql: sql.to_owned(), params };
        assert(statement@.params =~= seq![first@]);
        statement
    }
}

/// What an endpoint that changes something answers: the status, and the
/// announcement for the message bus where the change took effect.
#[derive(Debug, PartialEq, Eq)]
pub struct Answer {
    pub status: Status,
    pub notice: Option<KafkaMessage>,
}

pub struct AnswerView {
    pub status: Status,
    pub notice: Option<KafkaMessageView>,
}

impl View for Answer {
    type V = AnswerView;

    open spec fn view(&self) -> AnswerView {
        AnswerView {
            status: self.status,
            notice: match self.notice {
                Some(message) => Some(message@),
                None => None,
            },
        }
    }
}

/// What a change answers for what the database said to it: on success 200
/// and the announcement, else 500 and none.
pub open spec fn changed_view(done: bool, notice: KafkaMessageView) -> AnswerView {
    if done {
        AnswerView { status: Status::Success, notice: Some(notice) }
    } else {
        AnswerView { status: Status::InternalServerError, notice: None }
    }
}

/// The answer of a change that failed with this status.
pub open spec fn refused_view(status: Status) -> AnswerView {
    AnswerView { status, notice: None }
}

} // verus!
