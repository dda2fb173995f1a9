//! Declared users with credentials, and the client that lists the users
//! which the authorization service has.
//!
//! The declared users are read from the control plane as a whole, at
//! intervals, and handed on as plain users.

use crate::api::{Body, BodyView, Method, Request, RequestView};
use vstd::prelude::*;
use vstd::string::*;

verus! {

/// The desired fields of a declared user.
#[derive(Debug, PartialEq, Eq)]
pub struct AuthUserSpec {
    pub name: String,
    pub email: String,
    pub password: String,
}

/// A user as it is handed on and as the authorization service lists it.
#[derive(Debug, PartialEq, Eq)]
pub struct User {
    pub name: String,
    pub email: String,
    pub password: String,
}

/// The contents of a declared user and of a user alike.
pub struct UserView {
    pub name: Seq<char>,
    pub email: Seq<char>,
    pub password: Seq<char>,
}

impl View for AuthUserSpec {
    type V = UserView;

    open spec fn view(&self) -> UserView {
        UserView { name: self.name@, email: self.email@, password: self.password@ }
    }
}

impl View for User {
    type V = UserView;

    open spec fn view(&self) -> UserView {
        UserView { name: self.name@, email: self.email@, password: self.password@ }
    }
}

impl Clone for AuthUserSpec {
    fn clone(&self) -> (r: Self)
        ensures
            r == *self,
    {
        AuthUserSpec {
            name: self.name.clone(),
            email: self.email.clone(),
            password: self.password.clone(),
        }
    }
}

impl Clone for User {
    fn clone(&self) -> (r: Self)
        ensures
            r == *self,
    {
        User {
            name: self.name.clone(),
            email: self.email.clone(),
            password: self.password.clone(),
        }
    }
}

/// The user that a declared user stands for: the same name, email and
/// password.
pub fn from_crd(user: &AuthUserSpec) -> (r: User)
    ensures
        r@ == user@,
{
    User {
        name: user.name.clone(),
        email: user.email.clone(),
        password: user.password.clone(),
    }
}

/// The users that the declared users stand for, one for each and in the
/// same order.
pub fn snapshot(declared: &Vec<AuthUserSpec>) -> (r: Vec<User>)
    ensures
        r.len() == declared.len(),
        forall|i: int| 0 <= i < r.len() ==> (#[trigger] r[i])@ == declared[i]@,
{
    let mut users: Vec<User> = Vec::new();
    let mut i: usize = 0;
    while i < declared.len()
        invariant
            i <= declared.len(),
            users.len() == i,
            forall|j: int| 0 <= j < i ==> (#[trigger] users[j])@ == declared[j]@,
        decreases declared.len() - i,
    {
        users.push(from_crd(&declared[i]));
        i = i + 1;
    }
    users
}

/// The client of the authorization service's user list.
#[derive(Debug, PartialEq, Eq)]
pub struct AuthClient {
    url: String,
}

impl View for AuthClient {
    type V = Seq<char>;

    /// The address of the service.
    closed spec fn view(&self) -> Seq<char> {
        self.url@
    }
}

impl Clone for AuthClient {
    fn clone(&self) -> (r: Self)
        ensures
            r@ == self@,
    {
        AuthClient { url: self.url.clone() }
    }
}

impl AuthClient {
    /// A client of the service at `url`.
    pub fn new(url: String) -> (r: AuthClient)
        ensures
            r@ == url@,
    {
        AuthClient { url }
    }

    /// The address of the service.
    pub fn url(&self) -> (r: &String)
        ensures
            r@ == self@,
    {
        &self.url
    }

    /// The request that lists the users: a read of `/users` below the
    /// service's address.
    pub fn get_users(&self) -> (r: Request)
        ensures
            r@ == (RequestView {
                method: Method::Get,
                url: self@ + "/users"@,
                body: BodyView::Empty,
            }),
    {
        let mut url = self.url.clone();
        url.append("/users");
        Request { method: Method::Get, url, body: Body::Empty }
    }
}

} // verus!
