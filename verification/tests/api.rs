use auth_controller::api::{
    change_for, collection_path, collection_url, delete_client, delete_user, get_client, get_user,
    item_url, post_client, post_user_seed, put_client, put_user_seed, record_for, request, Body,
    ClientPayload, ClientPutPayload, Config, Method, RemoteCall, RemoteChange, RemoteRecord,
    Request, UserPayload, UserSeedPutPayload,
};
use auth_controller::reply::{
    delete_result, expects_record, interpret, read_result, write_result, CallResult, Decoded,
    HttpReply, RemoteFailure,
};
use auth_controller::resources::{
    copy_name, Client, ClientSpec, DeclaredResource, ResourceKind, UserSeed, UserSeedSpec,
    UserSeedStatus,
};
use auth_controller::status::{is_synced, mark_synced, set_user_seeded, StatusPatch};

fn config() -> Config {
    Config { namespace: "ponglehub".to_string(), base_url: "http://auth-server/api".to_string() }
}

fn acme() -> Client {
    Client {
        name: Some("acme".to_string()),
        spec: ClientSpec {
            display_name: "Acme Inc".to_string(),
            callback_url: "https://acme.example/cb".to_string(),
        },
    }
}

fn ada() -> UserSeed {
    UserSeed {
        name: Some("ada".to_string()),
        spec: UserSeedSpec { email: "ada@example.org".to_string() },
        status: None,
    }
}

fn answered(status: u16) -> HttpReply {
    HttpReply::Response { status, body: Decoded::NotRead }
}

#[test]
fn paths_of_the_two_kinds() {
    assert_eq!(collection_path(ResourceKind::Client), "/clients");
    assert_eq!(collection_path(ResourceKind::UserSeed), "/users");
    assert_eq!(collection_url(&config(), ResourceKind::Client), "http://auth-server/api/clients");
    assert_eq!(collection_url(&config(), ResourceKind::UserSeed), "http://auth-server/api/users");
    assert_eq!(
        item_url(&config(), ResourceKind::Client, "acme"),
        "http://auth-server/api/clients/acme"
    );
    assert_eq!(item_url(&config(), ResourceKind::UserSeed, ""), "http://auth-server/api/users/");
}

#[test]
fn name_is_appended_to_the_address_as_it_is() {
    assert_eq!(
        item_url(&config(), ResourceKind::UserSeed, "a b/c"),
        "http://auth-server/api/users/a b/c"
    );
}

#[test]
fn requests_for_clients() {
    assert_eq!(
        get_client(&config(), "acme"),
        Request {
            method: Method::Get,
            url: "http://auth-server/api/clients/acme".to_string(),
            body: Body::Empty,
        }
    );
    let payload = ClientPayload {
        name: "acme".to_string(),
        display_name: "Acme Inc".to_string(),
        callback_url: "https://acme.example/cb".to_string(),
    };
    assert_eq!(
        post_client(&config(), payload.clone()),
        Request {
            method: Method::Post,
            url: "http://auth-server/api/clients".to_string(),
            body: Body::Record(RemoteRecord::Client(payload)),
        }
    );
    let put = ClientPutPayload { display_name: "B".to_string(), callback_url: "cb".to_string() };
    assert_eq!(
        put_client(&config(), "acme", put.clone()),
        Request {
            method: Method::Put,
            url: "http://auth-server/api/clients/acme".to_string(),
            body: Body::Change(RemoteChange::Client(put)),
        }
    );
    assert_eq!(
        delete_client(&config(), "acme"),
        Request {
            method: Method::Delete,
            url: "http://auth-server/api/clients/acme".to_string(),
            body: Body::Empty,
        }
    );
}

#[test]
fn requests_for_users() {
    assert_eq!(
        get_user(&config(), "ada"),
        Request {
            method: Method::Get,
            url: "http://auth-server/api/users/ada".to_string(),
            body: Body::Empty,
        }
    );
    let payload = UserPayload { name: "ada".to_string(), email: "ada@example.org".to_string() };
    assert_eq!(
        post_user_seed(&config(), payload.clone()),
        Request {
            method: Method::Post,
            url: "http://auth-server/api/users".to_string(),
            body: Body::Record(RemoteRecord::User(payload)),
        }
    );
    let put = UserSeedPutPayload { email: "new@example.org".to_string() };
    assert_eq!(
        put_user_seed(&config(), "ada", put.clone()),
        Request {
            method: Method::Put,
            url: "http://auth-server/api/users/ada".to_string(),
            body: Body::Change(RemoteChange::User(put)),
        }
    );
    assert_eq!(
        delete_user(&config(), "ada"),
        Request {
            method: Method::Delete,
            url: "http://auth-server/api/users/ada".to_string(),
            body: Body::Empty,
        }
    );
}

#[test]
fn request_of_a_call_is_the_request_of_its_endpoint() {
    let get = RemoteCall::Get { kind: ResourceKind::UserSeed, name: "ada".to_string() };
    assert_eq!(request(&config(), &get), get_user(&config(), "ada"));
    assert!(!get.is_write());
    let delete = RemoteCall::Delete { kind: ResourceKind::Client, name: "acme".to_string() };
    assert_eq!(request(&config(), &delete), delete_client(&config(), "acme"));
    assert!(delete.is_write());
    let record = record_for("acme", &DeclaredResource::Client(acme()));
    let create = RemoteCall::Create(record.clone());
    match record {
        RemoteRecord::Client(payload) => {
            assert_eq!(request(&config(), &create), post_client(&config(), payload))
        }
        RemoteRecord::User(_) => unreachable!(),
    }
    let update = RemoteCall::Update {
        name: "ada".to_string(),
        change: change_for(&DeclaredResource::UserSeed(ada())),
    };
    assert_eq!(
        request(&config(), &update),
        put_user_seed(
            &config(),
            "ada",
            UserSeedPutPayload { email: "ada@example.org".to_string() }
        )
    );
    assert_eq!(update.clone(), update);
}

#[test]
fn record_and_change_carry_every_desired_field() {
    assert_eq!(
        record_for("acme", &DeclaredResource::Client(acme())),
        RemoteRecord::Client(ClientPayload {
            name: "acme".to_string(),
            display_name: "Acme Inc".to_string(),
            callback_url: "https://acme.example/cb".to_string(),
        })
    );
    assert_eq!(
        record_for("someone", &DeclaredResource::UserSeed(ada())),
        RemoteRecord::User(UserPayload {
            name: "someone".to_string(),
            email: "ada@example.org".to_string(),
        })
    );
    assert_eq!(
        change_for(&DeclaredResource::Client(acme())),
        RemoteChange::Client(ClientPutPayload {
            display_name: "Acme Inc".to_string(),
            callback_url: "https://acme.example/cb".to_string(),
        })
    );
    assert_eq!(change_for(&DeclaredResource::UserSeed(ada())).kind(), ResourceKind::UserSeed);
}

#[test]
fn same_compares_the_fields_that_the_service_owns() {
    let stored = ClientPayload {
        name: "another-name".to_string(),
        display_name: "Acme Inc".to_string(),
        callback_url: "https://acme.example/cb".to_string(),
    };
    assert!(stored.same(&acme()));
    let renamed = ClientPayload { display_name: "acme inc".to_string(), ..stored.clone() };
    assert!(!renamed.same(&acme()));
    let moved = ClientPayload { callback_url: "https://acme.example/".to_string(), ..stored };
    assert!(!moved.same(&acme()));
    let user = UserPayload { name: "x".to_string(), email: "ada@example.org".to_string() };
    assert!(user.same(&ada()));
    let other = UserPayload { name: "ada".to_string(), email: "ada@example.com".to_string() };
    assert!(!other.same(&ada()));
}

#[test]
fn record_of_the_other_kind_never_matches() {
    let user = RemoteRecord::User(UserPayload {
        name: "acme".to_string(),
        email: "Acme Inc".to_string(),
    });
    assert!(!user.matches(&DeclaredResource::Client(acme())));
    assert!(user.matches(&DeclaredResource::UserSeed(UserSeed {
        name: None,
        spec: UserSeedSpec { email: "Acme Inc".to_string() },
        status: None,
    })));
    assert_eq!(user.kind(), ResourceKind::UserSeed);
}

#[test]
fn defaults_are_empty() {
    assert_eq!(
        ClientPayload::default(),
        ClientPayload {
            name: String::new(),
            display_name: String::new(),
            callback_url: String::new(),
        }
    );
    assert_eq!(ClientPutPayload::default().display_name, "");
    assert_eq!(UserPayload::default().email, "");
    assert_eq!(UserSeedPutPayload::default().email, "");
    assert_eq!(ClientSpec::default().callback_url, "");
    assert_eq!(UserSeedSpec::default().email, "");
    assert!(!UserSeedStatus::default().seeded);
}

#[test]
fn read_tells_absence_from_failure() {
    let get = RemoteCall::Get { kind: ResourceKind::Client, name: "acme".to_string() };
    assert_eq!(interpret(&get, answered(404)), CallResult::NotFound);
    assert_eq!(interpret(&get, HttpReply::Unreachable), CallResult::Failed(RemoteFailure::Transport));
    assert_eq!(
        interpret(&get, answered(500)),
        CallResult::Failed(RemoteFailure::Status(500))
    );
    assert_eq!(
        interpret(&get, answered(302)),
        CallResult::Failed(RemoteFailure::Status(302))
    );
    assert_eq!(interpret(&get, answered(200)), CallResult::Failed(RemoteFailure::Body));
    let record = RemoteRecord::Client(ClientPayload::default());
    assert_eq!(
        interpret(&get, HttpReply::Response { status: 200, body: Decoded::Record(record.clone()) }),
        CallResult::Found(record.clone())
    );
    assert_eq!(
        interpret(&get, HttpReply::Response { status: 200, body: Decoded::Invalid }),
        CallResult::Failed(RemoteFailure::Body)
    );
    assert_eq!(
        read_result(
            ResourceKind::UserSeed,
            HttpReply::Response { status: 200, body: Decoded::Record(record) }
        ),
        CallResult::Failed(RemoteFailure::Body)
    );
}

#[test]
fn success_is_200_to_299() {
    for status in [200u16, 201, 204, 250, 299] {
        assert_eq!(write_result(&answered(status)), CallResult::Done);
        assert_eq!(delete_result(&answered(status)), CallResult::Done);
    }
    for status in [0u16, 99, 100, 199, 300, 301, 400, 403, 500, 999, 1000, 65535] {
        assert_eq!(
            write_result(&answered(status)),
            CallResult::Failed(RemoteFailure::Status(status))
        );
        assert_eq!(
            delete_result(&answered(status)),
            CallResult::Failed(RemoteFailure::Status(status))
        );
    }
}

#[test]
fn not_found_fails_a_write_and_fulfils_a_delete() {
    assert_eq!(write_result(&answered(404)), CallResult::Failed(RemoteFailure::Status(404)));
    assert_eq!(delete_result(&answered(404)), CallResult::Done);
    let create = RemoteCall::Create(RemoteRecord::User(UserPayload::default()));
    assert_eq!(interpret(&create, answered(404)), CallResult::Failed(RemoteFailure::Status(404)));
    let update = RemoteCall::Update {
        name: "ada".to_string(),
        change: RemoteChange::User(UserSeedPutPayload::default()),
    };
    assert_eq!(interpret(&update, answered(204)), CallResult::Done);
    let delete = RemoteCall::Delete { kind: ResourceKind::UserSeed, name: "ada".to_string() };
    assert_eq!(interpret(&delete, answered(404)), CallResult::Done);
    assert_eq!(
        interpret(&delete, HttpReply::Unreachable),
        CallResult::Failed(RemoteFailure::Transport)
    );
}

#[test]
fn only_a_successful_read_has_a_body_to_decode() {
    let get = RemoteCall::Get { kind: ResourceKind::Client, name: "acme".to_string() };
    assert!(expects_record(&get, 200));
    assert!(expects_record(&get, 299));
    assert!(!expects_record(&get, 404));
    assert!(!expects_record(&get, 500));
    assert!(!expects_record(&get, 199));
    let delete = RemoteCall::Delete { kind: ResourceKind::Client, name: "acme".to_string() };
    assert!(!expects_record(&delete, 200));
    let create = RemoteCall::Create(RemoteRecord::Client(ClientPayload::default()));
    assert!(!expects_record(&create, 201));
}

#[test]
fn declared_resources_know_their_kind_and_name() {
    let declared = DeclaredResource::Client(acme());
    assert_eq!(declared.kind(), ResourceKind::Client);
    assert_eq!(declared.name(), &Some("acme".to_string()));
    assert_eq!(declared.clone(), declared);
    let seed = DeclaredResource::UserSeed(UserSeed { name: None, ..ada() });
    assert_eq!(seed.kind(), ResourceKind::UserSeed);
    assert_eq!(seed.name(), &None);
    assert_eq!(copy_name(&Some("n".to_string())), Some("n".to_string()));
    assert_eq!(copy_name(&None), None);
}

#[test]
fn status_patch_marks_a_user_seed_and_nothing_else() {
    assert_eq!(
        set_user_seeded("ada"),
        StatusPatch {
            kind: ResourceKind::UserSeed,
            name: "ada".to_string(),
            status: UserSeedStatus { seeded: true },
        }
    );
    assert_eq!(mark_synced(ResourceKind::UserSeed, "ada"), Some(set_user_seeded("ada")));
    assert_eq!(mark_synced(ResourceKind::Client, "acme"), None);
    let before = ada();
    assert!(!is_synced(&before));
    assert!(!is_synced(&UserSeed { status: Some(UserSeedStatus { seeded: false }), ..ada() }));
    let after = set_user_seeded("ada").apply(before);
    assert!(is_synced(&after));
    assert_eq!(after.spec, ada().spec);
    assert_eq!(after.name, ada().name);
}
