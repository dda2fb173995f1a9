//! The authorization service's resource endpoints: the records it stores, the
//! calls that read and write them, the request each call is sent as, and what
//! each reply means.
//!
//! Nothing here touches the network. A call is turned into a [`Request`]; the
//! caller sends it and hands back an [`HttpReply`]; [`interpret`] says what
//! that reply means for the call.

use crate::resources::{Client, DeclaredResource, DeclaredView, ResourceKind, UserSeed};
use vstd::prelude::*;
use vstd::string::*;

verus! {

/// Where the authorization service and the declared resources are found.
#[derive(Debug, PartialEq, Eq)]
pub struct Config {
    /// The namespace whose resources are watched.
    pub namespace: String,
    /// The address under which the service's resource endpoints lie.
    pub base_url: String,
}

pub struct ConfigView {
    pub namespace: Seq<char>,
    pub base_url: Seq<char>,
}

impl View for Config {
    type V = ConfigView;

    open spec fn view(&self) -> ConfigView {
        ConfigView { namespace: self.namespace@, base_url: self.base_url@ }
    }
}

impl Clone for Config {
    fn clone(&self) -> (r: Self)
        ensures
            r == *self,
    {
        Config { namespace: self.namespace.clone(), base_url: self.base_url.clone() }
    }
}

/// A client as the authorization service stores it.
#[derive(Debug, PartialEq, Eq)]
pub struct ClientPayload {
    pub name: String,
    pub display_name: String,
    pub callback_url: String,
}

pub struct ClientPayloadView {
    pub name: Seq<char>,
    pub display_name: Seq<char>,
    pub callback_url: Seq<char>,
}

impl View for ClientPayload {
    type V = ClientPayloadView;

    open spec fn view(&self) -> ClientPayloadView {
        ClientPayloadView {
            name: self.name@,
            display_name: self.display_name@,
            callback_url: self.callback_url@,
        }
    }
}

impl Clone for ClientPayload {
    fn clone(&self) -> (r: Self)
        ensures
            r == *self,
    {
        ClientPayload {
            name: self.name.clone(),
            display_name: self.display_name.clone(),
            callback_url: self.callback_url.clone(),
        }
    }
}

impl Default for ClientPayload {
    fn default() -> (r: Self)
        ensures
            r@.name.len() == 0,
            r@.display_name.len() == 0,
            r@.callback_url.len() == 0,
    {
        ClientPayload {
            name: String::new(),
            display_name: String::new(),
            callback_url: String::new(),
        }
    }
}

impl ClientPayload {
    /// Whether the stored client has exactly the fields that `client`
    /// declares. The comparison is exact: no trimming, no case folding.
    pub fn same(&self, client: &Client) -> (r: bool)
        ensures
            r == (self@.display_name == client@.spec.display_name && self@.callback_url
                == client@.spec.callback_url),
    {
        self.display_name == client.spec.display_name && self.callback_url
            == client.spec.callback_url
    }
}

/// The fields of a stored client that an update replaces.
#[derive(Debug, PartialEq, Eq)]
pub struct ClientPutPayload {
    pub display_name: String,
    pub callback_url: String,
}

pub struct ClientPutPayloadView {
    pub display_name: Seq<char>,
    pub callback_url: Seq<char>,
}

impl View for ClientPutPayload {
    type V = ClientPutPayloadView;

    open spec fn view(&self) -> ClientPutPayloadView {
        ClientPutPayloadView {
            display_name: self.display_name@,
            callback_url: self.callback_url@,
        }
    }
}

impl Clone for ClientPutPayload {
    fn clone(&self) -> (r: Self)
        ensures
            r == *self,
    {
        ClientPutPayload {
            display_name: self.display_name.clone(),
            callback_url: self.callback_url.clone(),
        }
    }
}

impl Default for ClientPutPayload {
    fn default() -> (r: Self)
        ensures
            r@.display_name.len() == 0,
            r@.callback_url.len() == 0,
    {
        ClientPutPayload { display_name: String::new(), callback_url: String::new() }
    }
}

/// A user as the authorization service stores it.
#[derive(Debug, PartialEq, Eq)]
pub struct UserPayload {
    pub name: String,
    pub email: String,
}

pub struct UserPayloadView {
    pub name: Seq<char>,
    pub email: Seq<char>,
}

impl View for UserPayload {
    type V = UserPayloadView;

    open spec fn view(&self) -> UserPayloadView {
        UserPayloadView { name: self.name@, email: self.email@ }
    }
}

impl Clone for UserPayload {
    fn clone(&self) -> (r: Self)
        ensures
            r == *self,
    {
        UserPayload { name: self.name.clone(), email: self.email.clone() }
    }
}

impl Default for UserPayload {
    fn default() -> (r: Self)
        ensures
            r@.name.len() == 0,
            r@.email.len() == 0,
    {
        UserPayload { name: String::new(), email: String::new() }
    }
}

impl UserPayload {
    /// Whether the stored user has exactly the fields that `seed` declares.
    pub fn same(&self, seed: &UserSeed) -> (r: bool)
        ensures
            r == (self@.email == seed@.spec.email),
    {
        self.email == seed.spec.email
    }
}

/// The fields of a stored user that an update replaces.
#[derive(Debug, PartialEq, Eq)]
pub struct UserSeedPutPayload {
    pub email: String,
}

pub struct UserSeedPutPayloadView {
    pub email: Seq<char>,
}

impl View for UserSeedPutPayload {
    type V = UserSeedPutPayloadView;

    open spec fn view(&self) -> UserSeedPutPayloadView {
        UserSeedPutPayloadView { email: self.email@ }
    }
}

impl Clone for UserSeedPutPayload {
    fn clone(&self) -> (r: Self)
        ensures
            r == *self,
    {
        UserSeedPutPayload { email: self.email.clone() }
    }
}

impl Default for UserSeedPutPayload {
    fn default() -> (r: Self)
        ensures
            r@.email.len() == 0,
    {
        UserSeedPutPayload { email: String::new() }
    }
}

/// A record of the authorization service, of either kind.
#[derive(Debug, PartialEq, Eq)]
pub enum RemoteRecord {
    Client(ClientPayload),
    User(UserPayload),
}

pub enum RemoteRecordView {
    Client(ClientPayloadView),
    User(UserPayloadView),
}

impl RemoteRecordView {
    /// The kind of declared resource that the record stands for.
    pub open spec fn kind(self) -> ResourceKind {
        match self {
            RemoteRecordView::Client(_) => ResourceKind::Client,
            RemoteRecordView::User(_) => ResourceKind::UserSeed,
        }
    }

    pub open spec fn name(self) -> Seq<char> {
        match self {
            RemoteRecordView::Client(p) => p.name,
            RemoteRecordView::User(p) => p.name,
        }
    }

    /// Whether every field that the service owns equals the field that
    /// `declared` asks for. A record of the other kind never matches.
    pub open spec fn matches(self, declared: DeclaredView) -> bool {
        match (self, declared) {
            (RemoteRecordView::Client(p), DeclaredView::Client(c)) => p.display_name
                == c.spec.display_name && p.callback_url == c.spec.callback_url,
            (RemoteRecordView::User(p), DeclaredView::UserSeed(u)) => p.email == u.spec.email,
            _ => false,
        }
    }

    /// The record as it stands once `change` has been applied to it. A change
    /// of the other kind leaves it as it is.
    pub open spec fn changed(self, change: RemoteChangeView) -> RemoteRecordView {
        match (self, change) {
            (RemoteRecordView::Client(p), RemoteChangeView::Client(c)) => RemoteRecordView::Client(
                ClientPayloadView {
                    name: p.name,
                    display_name: c.display_name,
                    callback_url: c.callback_url,
                },
            ),
            (RemoteRecordView::User(p), RemoteChangeView::User(c)) => RemoteRecordView::User(
                UserPayloadView { name: p.name, email: c.email },
            ),
            _ => self,
        }
    }
}

impl View for RemoteRecord {
    type V = RemoteRecordView;

    open spec fn view(&self) -> RemoteRecordView {
        match self {
            RemoteRecord::Client(p) => RemoteRecordView::Client(p@),
            RemoteRecord::User(p) => RemoteRecordView::User(p@),
        }
    }
}

impl Clone for RemoteRecord {
    fn clone(&self) -> (r: Self)
        ensures
            r == *self,
    {
        match self {
            RemoteRecord::Client(p) => RemoteRecord::Client(p.clone()),
            RemoteRecord::User(p) => RemoteRecord::User(p.clone()),
        }
    }
}

impl RemoteRecord {
    pub fn kind(&self) -> (r: ResourceKind)
        ensures
            r == self@.kind(),
    {
        match self {
            RemoteRecord::Client(_) => ResourceKind::Client,
            RemoteRecord::User(_) => ResourceKind::UserSeed,
        }
    }

    /// Whether the record already is what `declared` asks for.
    pub fn matches(&self, declared: &DeclaredResource) -> (r: bool)
        ensures
            r == self@.matches(declared@),
    {
        match self {
            RemoteRecord::Client(p) => match declared {
                DeclaredResource::Client(c) => p.same(c),
                DeclaredResource::UserSeed(_) => false,
            },
            RemoteRecord::User(p) => match declared {
                DeclaredResource::Client(_) => false,
                DeclaredResource::UserSeed(u) => p.same(u),
            },
        }
    }
}

/// The replacement fields of a record, of either kind.
#[derive(Debug, PartialEq, Eq)]
pub enum RemoteChange {
    Client(ClientPutPayload),
    User(UserSeedPutPayload),
}

pub enum RemoteChangeView {
    Client(ClientPutPayloadView),
    User(UserSeedPutPayloadView),
}

impl RemoteChangeView {
    pub open spec fn kind(self) -> ResourceKind {
        match self {
            RemoteChangeView::Client(_) => ResourceKind::Client,
            RemoteChangeView::User(_) => ResourceKind::UserSeed,
        }
    }
}

impl View for RemoteChange {
    type V = RemoteChangeView;

    open spec fn view(&self) -> RemoteChangeView {
        match self {
            RemoteChange::Client(p) => RemoteChangeView::Client(p@),
            RemoteChange::User(p) => RemoteChangeView::User(p@),
        }
    }
}

impl Clone for RemoteChange {
    fn clone(&self) -> (r: Self)
        ensures
            r == *self,
    {
        match self {
            RemoteChange::Client(p) => RemoteChange::Client(p.clone()),
            RemoteChange::User(p) => RemoteChange::User(p.clone()),
        }
    }
}

impl RemoteChange {
    pub fn kind(&self) -> (r: ResourceKind)
        ensures
            r == self@.kind(),
    {
        match self {
            RemoteChange::Client(_) => ResourceKind::Client,
            RemoteChange::User(_) => ResourceKind::UserSeed,
        }
    }
}

/// The record that creating `declared` under `name` stores: the name, and
/// every desired field.
pub open spec fn record_view(name: Seq<char>, declared: DeclaredView) -> RemoteRecordView {
    match declared {
        DeclaredView::Client(c) => RemoteRecordView::Client(
            ClientPayloadView {
                name,
                display_name: c.spec.display_name,
                callback_url: c.spec.callback_url,
            },
        ),
        DeclaredView::UserSeed(u) => RemoteRecordView::User(
            UserPayloadView { name, email: u.spec.email },
        ),
    }
}

/// The fields that updating a record to `declared` replaces: every desired
/// field.
pub open spec fn change_view(declared: DeclaredView) -> RemoteChangeView {
    match declared {
        DeclaredView::Client(c) => RemoteChangeView::Client(
            ClientPutPayloadView {
                display_name: c.spec.display_name,
                callback_url: c.spec.callback_url,
            },
        ),
        DeclaredView::UserSeed(u) => RemoteChangeView::User(
            UserSeedPutPayloadView { email: u.spec.email },
        ),
    }
}

/// The record to create for `declared` under `name`.
pub fn record_for(name: &str, declared: &DeclaredResource) -> (r: RemoteRecord)
    ensures
        r@ == record_view(name@, declared@),
{
    match declared {
        DeclaredResource::Client(c) => RemoteRecord::Client(
            ClientPayload {
                name: name.to_owned(),
                display_name: c.spec.display_name.clone(),
                callback_url: c.spec.callback_url.clone(),
            },
        ),
        DeclaredResource::UserSeed(u) => RemoteRecord::User(
            UserPayload { name: name.to_owned(), email: u.spec.email.clone() },
        ),
    }
}

/// The replacement fields that bring a stored record to `declared`.
pub fn change_for(declared: &DeclaredResource) -> (r: RemoteChange)
    ensures
        r@ == change_view(declared@),
{
    match declared {
        DeclaredResource::Client(c) => RemoteChange::Client(
            ClientPutPayload {
                display_name: c.spec.display_name.clone(),
                callback_url: c.spec.callback_url.clone(),
            },
        ),
        DeclaredResource::UserSeed(u) => RemoteChange::User(
            UserSeedPutPayload { email: u.spec.email.clone() },
        ),
    }
}

/// One call on the authorization service.
#[derive(Debug, PartialEq, Eq)]
pub enum RemoteCall {
    /// Read the record of the given kind and name.
    Get { kind: ResourceKind, name: String },
    /// Store a new record.
    Create(RemoteRecord),
    /// Replace the changeable fields of the record of that name.
    Update { name: String, change: RemoteChange },
    /// Remove the record of the given kind and name.
    Delete { kind: ResourceKind, name: String },
}

pub enum RemoteCallView {
    Get { kind: ResourceKind, name: Seq<char> },
    Create(RemoteRecordView),
    Update { name: Seq<char>, change: RemoteChangeView },
    Delete { kind: ResourceKind, name: Seq<char> },
}

impl RemoteCallView {
    /// Whether the call changes what the service stores.
    pub open spec fn is_write(self) -> bool {
        !(self is Get)
    }

    /// The kind of the record that the call is about.
    pub open spec fn kind(self) -> ResourceKind {
        match self {
            RemoteCallView::Get { kind, .. } => kind,
            RemoteCallView::Create(record) => record.kind(),
            RemoteCallView::Update { change, .. } => change.kind(),
            RemoteCallView::Delete { kind, .. } => kind,
        }
    }

    /// The name of the record that the call is about.
    pub open spec fn name(self) -> Seq<char> {
        match self {
            RemoteCallView::Get { name, .. } => name,
            RemoteCallView::Create(record) => record.name(),
            RemoteCallView::Update { name, .. } => name,
            RemoteCallView::Delete { name, .. } => name,
        }
    }
}

impl View for RemoteCall {
    type V = RemoteCallView;

    open spec fn view(&self) -> RemoteCallView {
        match self {
            RemoteCall::Get { kind, name } => RemoteCallView::Get { kind: *kind, name: name@ },
            RemoteCall::Create(record) => RemoteCallView::Create(record@),
            RemoteCall::Update { name, change } => RemoteCallView::Update {
                name: name@,
                change: change@,
            },
            RemoteCall::Delete { kind, name } => RemoteCallView::Delete {
                kind: *kind,
                name: name@,
            },
        }
    }
}

impl Clone for RemoteCall {
    fn clone(&self) -> (r: Self)
        ensures
            r == *self,
    {
        match self {
            RemoteCall::Get { kind, name } => RemoteCall::Get { kind: *kind, name: name.clone() },
            RemoteCall::Create(record) => RemoteCall::Create(record.clone()),
            RemoteCall::Update { name, change } => RemoteCall::Update {
                name: name.clone(),
                change: change.clone(),
            },
            RemoteCall::Delete { kind, name } => RemoteCall::Delete {
                kind: *kind,
                name: name.clone(),
            },
        }
    }
}

impl RemoteCall {
    /// Whether the call changes what the service stores.
    pub fn is_write(&self) -> (r: bool)
        ensures
            r == self@.is_write(),
    {
        match self {
            RemoteCall::Get { .. } => false,
            _ => true,
        }
    }
}

/// The four request methods that the endpoints take.
#[derive(Clone, Copy, Debug, PartialEq, Eq, Structural)]
pub enum Method {
    Get,
    Post,
    Put,
    Delete,
}

/// What a request carries.
#[derive(Debug, PartialEq, Eq)]
pub enum Body {
    Empty,
    Record(RemoteRecord),
    Change(RemoteChange),
}

pub enum BodyView {
    Empty,
    Record(RemoteRecordView),
    Change(RemoteChangeView),
}

impl View for Body {
    type V = BodyView;

    open spec fn view(&self) -> BodyView {
        match self {
            Body::Empty => BodyView::Empty,
            Body::Record(r) => BodyView::Record(r@),
            Body::Change(c) => BodyView::Change(c@),
        }
    }
}

/// A request to the authorization service, ready to be sent.
#[derive(Debug, PartialEq, Eq)]
pub struct Request {
    pub method: Method,
    pub url: String,
    pub body: Body,
}

pub struct RequestView {
    pub method: Method,
    pub url: Seq<char>,
    pub body: BodyView,
}

impl View for Request {
    type V = RequestView;

    open spec fn view(&self) -> RequestView {
        RequestView { method: self.method, url: self.url@, body: self.body@ }
    }
}

/// The path, below the base address, under which the records of a kind lie.
pub open spec fn collection_path_view(kind: ResourceKind) -> Seq<char> {
    match kind {
        ResourceKind::Client => "/clients"@,
        ResourceKind::UserSeed => "/users"@,
    }
}

/// The address of the collection of a kind: where a record is created.
pub open spec fn collection_url_view(base_url: Seq<char>, kind: ResourceKind) -> Seq<char> {
    base_url + collection_path_view(kind)
}

/// The address of the record of a kind and name: where it is read, updated
/// and deleted. The name is appended as it is.
pub open spec fn item_url_view(base_url: Seq<char>, kind: ResourceKind, name: Seq<char>) -> Seq<
    char,
> {
    base_url + collection_path_view(kind) + "/"@ + name
}

/// The request that a call is sent as.
pub open spec fn request_view(config: ConfigView, call: RemoteCallView) -> RequestView {
    match call {
        RemoteCallView::Get { kind, name } => RequestView {
            method: Method::Get,
            url: item_url_view(config.base_url, kind, name),
            body: BodyView::Empty,
        },
        RemoteCallView::Create(record) => RequestView {
            method: Method::Post,
            url: collection_url_view(config.base_url, record.kind()),
            body: BodyView::Record(record),
        },
        RemoteCallView::Update { name, change } => RequestView {
            method: Method::Put,
            url: item_url_view(config.base_url, change.kind(), name),
            body: BodyView::Change(change),
        },
        RemoteCallView::Delete { kind, name } => RequestView {
            method: Method::Delete,
            url: item_url_view(config.base_url, kind, name),
            body: BodyView::Empty,
        },
    }
}

/// The path, below the base address, under which the records of a kind lie.
pub fn collection_path(kind: ResourceKind) -> (r: &'static str)
    ensures
        r@ == collection_path_view(kind),
{
    match kind {
        ResourceKind::Client => "/clients",
        ResourceKind::UserSeed => "/users",
    }
}

/// The address at which a record of the given kind is created.
pub fn collection_url(config: &Config, kind: ResourceKind) -> (r: String)
    ensures
        r@ == collection_url_view(config@.base_url, kind),
{
    let mut url = config.base_url.clone();
    url.append(collection_path(kind));
    url
}

/// The address of the record of the given kind and name.
pub fn item_url(config: &Config, kind: ResourceKind, name: &str) -> (r: String)
    ensures
        r@ == item_url_view(config@.base_url, kind, name@),
{
    let mut url = config.base_url.clone();
    url.append(collection_path(kind));
    url.append("/");
    url.append(name);
    url
}

/// The request that reads the client of the given name.
pub fn get_client(config: &Config, name: &str) -> (r: Request)
    ensures
        r@ == request_view(
            config@,
            RemoteCallView::Get { kind: ResourceKind::Client, name: name@ },
        ),
{
    Request {
        method: Method::Get,
        url: item_url(config, ResourceKind::Client, name),
        body: Body::Empty,
    }
}

/// The request that stores a new client.
pub fn post_client(config: &Config, payload: ClientPayload) -> (r: Request)
    ensures
        r@ == request_view(config@, RemoteCallView::Create(RemoteRecordView::Client(payload@))),
{
    Request {
        method: Method::Post,
        url: collection_url(config, ResourceKind::Client),
        body: Body::Record(RemoteRecord::Client(payload)),
    }
}

/// The request that replaces the fields of the client of the given name.
pub fn put_client(config: &Config, name: &str, payload: ClientPutPayload) -> (r: Request)
    ensures
        r@ == request_view(
            config@,
            RemoteCallView::Update { name: name@, change: RemoteChangeView::Client(payload@) },
        ),
{
    Request {
        method: Method::Put,
        url: item_url(config, ResourceKind::Client, name),
        body: Body::Change(RemoteChange::Client(payload)),
    }
}

/// The request that removes the client of the given name.
pub fn delete_client(config: &Config, name: &str) -> (r: Request)
    ensures
        r@ == request_view(
            config@,
            RemoteCallView::Delete { kind: ResourceKind::Client, name: name@ },
        ),
{
    Request {
        method: Method::Delete,
        url: item_url(config, ResourceKind::Client, name),
        body: Body::Empty,
    }
}

/// The request that reads the user of the given name.
pub fn get_user(config: &Config, name: &str) -> (r: Request)
    ensures
        r@ == request_view(
            config@,
            RemoteCallView::Get { kind: ResourceKind::UserSeed, name: name@ },
        ),
{
    Request {
        method: Method::Get,
        url: item_url(config, ResourceKind::UserSeed, name),
        body: Body::Empty,
    }
}

/// The request that stores a new user.
pub fn post_user_seed(config: &Config, payload: UserPayload) -> (r: Request)
    ensures
        r@ == request_view(config@, RemoteCallView::Create(RemoteRecordView::User(payload@))),
{
    Request {
        method: Method::Post,
        url: collection_url(config, ResourceKind::UserSeed),
        body: Body::Record(RemoteRecord::User(payload)),
    }
}

/// The request that replaces the fields of the user of the given name.
pub fn put_user_seed(config: &Config, name: &str, payload: UserSeedPutPayload) -> (r: Request)
    ensures
        r@ == request_view(
            config@,
            RemoteCallView::Update { name: name@, change: RemoteChangeView::User(payload@) },
        ),
{
    Request {
        method: Method::Put,
        url: item_url(config, ResourceKind::UserSeed, name),
        body: Body::Change(RemoteChange::User(payload)),
    }
}

/// The request that removes the user of the given name.
pub fn delete_user(config: &Config, name: &str) -> (r: Request)
    ensures
        r@ == request_view(
            config@,
            RemoteCallView::Delete { kind: ResourceKind::UserSeed, name: name@ },
        ),
{
    Request {
        method: Method::Delete,
        url: item_url(config, ResourceKind::UserSeed, name),
        body: Body::Empty,
    }
}

/// The request that a call is sent as.
pub fn request(config: &Config, call: &RemoteCall) -> (r: Request)
    ensures
        r@ == request_view(config@, call@),
{
    match call {
        RemoteCall::Get { kind, name } => match kind {
            ResourceKind::Client => get_client(config, name.as_str()),
            ResourceKind::UserSeed => get_user(config, name.as_str()),
        },
        RemoteCall::Create(record) => match record {
            RemoteRecord::Client(payload) => post_client(config, payload.clone()),
            RemoteRecord::User(payload) => post_user_seed(config, payload.clone()),
        },
        RemoteCall::Update { name, change } => match change {
            RemoteChange::Client(payload) => put_client(config, name.as_str(), payload.clone()),
            RemoteChange::User(payload) => put_user_seed(config, name.as_str(), payload.clone()),
        },
        RemoteCall::Delete { kind, name } => match kind {
            ResourceKind::Client => delete_client(config, name.as_str()),
            ResourceKind::UserSeed => delete_user(config, name.as_str()),
        },
    }
}

} // verus!
