//! A stand-in for the authorization service's user list, kept in memory.

use vstd::prelude::*;

verus! {

/// A user as the stand-in keeps it.
#[derive(Debug, PartialEq, Eq)]
pub struct User {
    pub id: String,
    pub name: String,
    pub email: String,
    pub password: String,
    pub verified: bool,
}

pub struct UserView {
    pub id: Seq<char>,
    pub name: Seq<char>,
    pub email: Seq<char>,
    pub password: Seq<char>,
    pub verified: bool,
}

impl View for User {
    type V = UserView;

    open spec fn view(&self) -> UserView {
        UserView {
            id: self.id@,
            name: self.name@,
            email: self.email@,
            password: self.password@,
            verified: self.verified,
        }
    }
}

impl Clone for User {
    fn clone(&self) -> (r: Self)
        ensures
            r == *self,
    {
        User {
            id: self.id.clone(),
            name: self.name.clone(),
            email: self.email.clone(),
            password: self.password.clone(),
            verified: self.verified,
        }
    }
}

/// The answer to the creation of a user: the identifier that it was given.
#[derive(Debug, PartialEq, Eq)]
pub struct PostResponse {
    pub id: String,
}

/// The contents of a list of users, in order.
pub open spec fn user_views(users: Seq<User>) -> Seq<UserView> {
    users.map_values(|user: User| user@)
}

/// The users that the stand-in has, in the order in which they came.
#[derive(Debug)]
pub struct UserDb {
    users: Vec<User>,
}

impl View for UserDb {
    type V = Seq<UserView>;

    closed spec fn view(&self) -> Seq<UserView> {
        user_views(self.users@)
    }
}

/// A new identifier: a random UUID of version 4, from
/// `uuid::Uuid::new_v4`, in the hyphenated form that its `hyphenated`
/// gives, which is 36 characters long. Nothing else is claimed of it: two
/// calls may or may not give the same identifier. `new_v4` panics where the
/// system has no random bytes to give.
#[verifier::external_body]
fn fresh_id() -> (r: String)
    ensures
        r@.len() == 36,
{
    uuid::Uuid::new_v4().hyphenated().to_string()
}

impl UserDb {
    /// A stand-in without users.
    pub fn new() -> (r: UserDb)
        ensures
            r@ == Seq::<UserView>::empty(),
    {
        let db = UserDb { users: Vec::new() };
        assert(db@ =~= Seq::<UserView>::empty());
        db
    }

    /// Every user, in the order in which they came.
    pub fn list(&self) -> (r: Vec<User>)
        ensures
            user_views(r@) == self@,
    {
        let mut copy: Vec<User> = Vec::new();
        let mut i: usize = 0;
        while i < self.users.len()
            invariant
                i <= self.users.len(),
                copy.len() == i,
                forall|j: int| 0 <= j < i ==> #[trigger] copy[j] == self.users[j],
            decreases self.users.len() - i,
        {
            copy.push(self.users[i].clone());
            i = i + 1;
        }
        assert(user_views(copy@) =~= self@);
        copy
    }

    /// Adds the user under the given identifier, whatever identifier it
    /// came with, and answers with that identifier.
    pub fn insert(&mut self, user: User, id: String) -> (r: PostResponse)
        ensures
            r.id@ == id@,
            final(self)@ == old(self)@.push(UserView { id: id@, ..user@ }),
    {
        let stored = User {
            id: id.clone(),
            name: user.name,
            email: user.email,
            password: user.password,
            verified: user.verified,
        };
        self.users.push(stored);
        assert(self@ =~= old(self)@.push(UserView { id: id@, ..user@ }));
        PostResponse { id }
    }

    /// Adds the user under a new identifier and answers with it.
    pub fn post(&mut self, user: User) -> (r: PostResponse)
        ensures
            r.id@.len() == 36,
            final(self)@ == old(self)@.push(UserView { id: r.id@, ..user@ }),
    {
        self.insert(user, fresh_id())
    }
}

} // verus!
