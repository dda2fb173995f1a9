//! The declared resources: what an operator has asked for, as the control
//! plane stores it. The library only ever reads them.

use vstd::prelude::*;

verus! {

/// The two kinds of declared resource that are synchronised.
#[derive(Clone, Copy, Debug, PartialEq, Eq, Structural)]
pub enum ResourceKind {
    Client,
    UserSeed,
}

impl ResourceKind {
    /// Whether resources of this kind carry a status that records a completed
    /// synchronisation. Only user seeds do.
    pub open spec fn carries_status(self) -> bool {
        self == ResourceKind::UserSeed
    }

    /// Whether resources of this kind carry a status that records a completed
    /// synchronisation.
    pub fn has_status(self) -> (r: bool)
        ensures
            r == self.carries_status(),
    {
        match self {
            ResourceKind::Client => false,
            ResourceKind::UserSeed => true,
        }
    }
}

/// The contents of an optional name.
pub open spec fn name_view(name: Option<String>) -> Option<Seq<char>> {
    match name {
        Some(n) => Some(n@),
        None => None,
    }
}

/// A copy of an optional name.
pub fn copy_name(name: &Option<String>) -> (r: Option<String>)
    ensures
        r == *name,
{
    match name {
        Some(n) => Some(n.clone()),
        None => None,
    }
}

/// The desired fields of an OAuth-style client.
#[derive(Debug, PartialEq, Eq)]
pub struct ClientSpec {
    pub display_name: String,
    pub callback_url: String,
}

pub struct ClientSpecView {
    pub display_name: Seq<char>,
    pub callback_url: Seq<char>,
}

impl View for ClientSpec {
    type V = ClientSpecView;

    open spec fn view(&self) -> ClientSpecView {
        ClientSpecView { display_name: self.display_name@, callback_url: self.callback_url@ }
    }
}

impl Clone for ClientSpec {
    fn clone(&self) -> (r: Self)
        ensures
            r == *self,
    {
        ClientSpec {
            display_name: self.display_name.clone(),
            callback_url: self.callback_url.clone(),
        }
    }
}

impl Default for ClientSpec {
    fn default() -> (r: Self)
        ensures
            r@.display_name.len() == 0,
            r@.callback_url.len() == 0,
    {
        ClientSpec { display_name: String::new(), callback_url: String::new() }
    }
}

/// A declared client: its name in the control plane, if it has one, and its
/// desired fields.
#[derive(Debug, PartialEq, Eq)]
pub struct Client {
    pub name: Option<String>,
    pub spec: ClientSpec,
}

pub struct ClientView {
    pub name: Option<Seq<char>>,
    pub spec: ClientSpecView,
}

impl View for Client {
    type V = ClientView;

    open spec fn view(&self) -> ClientView {
        ClientView { name: name_view(self.name), spec: self.spec@ }
    }
}

impl Clone for Client {
    fn clone(&self) -> (r: Self)
        ensures
            r == *self,
    {
        Client { name: copy_name(&self.name), spec: self.spec.clone() }
    }
}

/// The desired fields of a seeded user.
#[derive(Debug, PartialEq, Eq)]
pub struct UserSeedSpec {
    pub email: String,
}

pub struct UserSeedSpecView {
    pub email: Seq<char>,
}

impl View for UserSeedSpec {
    type V = UserSeedSpecView;

    open spec fn view(&self) -> UserSeedSpecView {
        UserSeedSpecView { email: self.email@ }
    }
}

impl Clone for UserSeedSpec {
    fn clone(&self) -> (r: Self)
        ensures
            r == *self,
    {
        UserSeedSpec { email: self.email.clone() }
    }
}

impl Default for UserSeedSpec {
    fn default() -> (r: Self)
        ensures
            r@.email.len() == 0,
    {
        UserSeedSpec { email: String::new() }
    }
}

/// What the control plane has observed of a user seed: whether it has been
/// written to the authorization service.
#[derive(Clone, Copy, Debug, PartialEq, Eq, Structural)]
pub struct UserSeedStatus {
    pub seeded: bool,
}

impl Default for UserSeedStatus {
    fn default() -> (r: Self)
        ensures
            !r.seeded,
    {
        UserSeedStatus { seeded: false }
    }
}

/// A declared user seed: its name in the control plane, if it has one, its
/// desired fields, and its status once one has been recorded.
#[derive(Debug, PartialEq, Eq)]
pub struct UserSeed {
    pub name: Option<String>,
    pub spec: UserSeedSpec,
    pub status: Option<UserSeedStatus>,
}

pub struct UserSeedView {
    pub name: Option<Seq<char>>,
    pub spec: UserSeedSpecView,
    pub status: Option<UserSeedStatus>,
}

impl View for UserSeed {
    type V = UserSeedView;

    open spec fn view(&self) -> UserSeedView {
        UserSeedView { name: name_view(self.name), spec: self.spec@, status: self.status }
    }
}

impl Clone for UserSeed {
    fn clone(&self) -> (r: Self)
        ensures
            r == *self,
    {
        UserSeed { name: copy_name(&self.name), spec: self.spec.clone(), status: self.status }
    }
}

/// One managed object of the control plane, of either kind.
#[derive(Debug, PartialEq, Eq)]
pub enum DeclaredResource {
    Client(Client),
    UserSeed(UserSeed),
}

pub enum DeclaredView {
    Client(ClientView),
    UserSeed(UserSeedView),
}

impl DeclaredView {
    pub open spec fn kind(self) -> ResourceKind {
        match self {
            DeclaredView::Client(_) => ResourceKind::Client,
            DeclaredView::UserSeed(_) => ResourceKind::UserSeed,
        }
    }

    /// The name under which the resource is known, in the control plane and
    /// in the authorization service alike.
    pub open spec fn name(self) -> Option<Seq<char>> {
        match self {
            DeclaredView::Client(c) => c.name,
            DeclaredView::UserSeed(u) => u.name,
        }
    }
}

impl View for DeclaredResource {
    type V = DeclaredView;

    open spec fn view(&self) -> DeclaredView {
        match self {
            DeclaredResource::Client(c) => DeclaredView::Client(c@),
            DeclaredResource::UserSeed(u) => DeclaredView::UserSeed(u@),
        }
    }
}

impl Clone for DeclaredResource {
    fn clone(&self) -> (r: Self)
        ensures
            r == *self,
    {
        match self {
            DeclaredResource::Client(c) => DeclaredResource::Client(c.clone()),
            DeclaredResource::UserSeed(u) => DeclaredResource::UserSeed(u.clone()),
        }
    }
}

impl DeclaredResource {
    pub fn kind(&self) -> (r: ResourceKind)
        ensures
            r == self@.kind(),
    {
        match self {
            DeclaredResource::Client(_) => ResourceKind::Client,
            DeclaredResource::UserSeed(_) => ResourceKind::UserSeed,
        }
    }

    /// The resource's name, if it has one.
    pub fn name(&self) -> (r: &Option<String>)
        ensures
            name_view(*r) == self@.name(),
    {
        match self {
            DeclaredResource::Client(c) => &c.name,
            DeclaredResource::UserSeed(u) => &u.name,
        }
    }
}

/// The contents of a list of declared resources, in order.
pub open spec fn declared_views(list: Seq<DeclaredResource>) -> Seq<DeclaredView> {
    list.map_values(|r: DeclaredResource| r@)
}

} // verus!
