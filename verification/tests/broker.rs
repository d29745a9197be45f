use auth_broker::handler::{
    after_persist, begin, execute, request_received, respond, send_error, send_string, updates,
    without_store, Failure, Payload, Reply, Step,
};
use auth_broker::resolve::effective_password;
use auth_broker::route::{api_secret, headers_received, route, same_text, Command, Header, Request};
use auth_broker::schema::{schema_action, SchemaAction, SCHEMA_VERSION};
use auth_broker::store::{Membership, Player, Store, StoreError, Tenant};

const PATHS: [&str; 5] = [
    "/v1/get_auth",
    "/v1/create_auth",
    "/v1/set_password",
    "/v1/set_privileges",
    "/v1/record_login",
];

fn two_tenants() -> Store {
    let mut store = Store::new();
    assert!(store.insert_tenant(Tenant {
        id: 1,
        name: String::from("north"),
        api_key: String::from("key-north"),
    }));
    assert!(store.insert_tenant(Tenant {
        id: 2,
        name: String::from("south"),
        api_key: String::from("key-south"),
    }));
    store
}

fn secret_header(value: &[u8]) -> Vec<Header> {
    vec![
        Header { name: String::from("Host"), value: b"localhost".to_vec() },
        Header { name: String::from("X-Minetest-ApiSecret"), value: value.to_vec() },
    ]
}

fn payload_for(command: Command) -> Payload {
    match command {
        Command::GetAuth => Payload::GetAuth { name: String::from("alice") },
        Command::CreateAuth => Payload::CreateAuth {
            name: String::from("alice"),
            password: String::from("p1"),
            privileges: String::from("interact"),
        },
        Command::SetPassword => Payload::SetPassword {
            name: String::from("alice"),
            password: String::from("second"),
        },
        Command::SetPrivileges => Payload::SetPrivileges {
            name: String::from("alice"),
            privileges: String::from("fly"),
        },
        Command::RecordLogin => Payload::RecordLogin {
            name: String::from("alice"),
            last_login: String::from("12345.0"),
        },
    }
}

fn snapshot(store: &Store) -> String {
    format!("{:?} {:?} {:?}", store.tenants(), store.players(), store.memberships())
}

fn failure_of(reply: &Reply) -> Option<Failure> {
    match reply {
        Reply::Failed(failure) => Some(*failure),
        _ => None,
    }
}

fn lookup(store: &Store, tenant: i64, name: &str) -> Option<(String, String, String)> {
    store.get_auth(tenant, name).map(|a| (a.password, a.privileges, a.last_login))
}

fn triple(a: &str, b: &str, c: &str) -> Option<(String, String, String)> {
    Some((String::from(a), String::from(b), String::from(c)))
}

#[test]
fn routes_are_the_five_literals() {
    assert_eq!(route("/v1/get_auth"), Some(Command::GetAuth));
    assert_eq!(route("/v1/create_auth"), Some(Command::CreateAuth));
    assert_eq!(route("/v1/set_password"), Some(Command::SetPassword));
    assert_eq!(route("/v1/set_privileges"), Some(Command::SetPrivileges));
    assert_eq!(route("/v1/record_login"), Some(Command::RecordLogin));
}

#[test]
fn other_paths_have_no_route() {
    for path in ["", "/", "/v1", "/v1/get_auth/", "/v1/get_aut", "/V1/get_auth", "/v1/get_auth?x=1", "v1/get_auth"] {
        assert_eq!(route(path), None, "{}", path);
    }
}

#[test]
fn same_text_compares_whole_strings() {
    assert!(same_text("abc", "abc"));
    assert!(same_text("", ""));
    assert!(!same_text("abc", "abd"));
    assert!(!same_text("abc", "ab"));
}

#[test]
fn api_secret_is_the_first_matching_header() {
    let headers = vec![
        Header { name: String::from("Accept"), value: b"*/*".to_vec() },
        Header { name: String::from("X-Minetest-ApiSecret"), value: b"first".to_vec() },
        Header { name: String::from("X-Minetest-ApiSecret"), value: b"second".to_vec() },
    ];
    assert_eq!(api_secret(&headers), Some(String::from("first")));
}

#[test]
fn api_secret_is_missing_without_the_header() {
    assert_eq!(api_secret(&Vec::new()), None);
    let headers = vec![
        Header { name: String::from("x-minetest-apisecret"), value: b"lower".to_vec() },
        Header { name: String::from("X-Minetest-ApiSecret "), value: b"space".to_vec() },
    ];
    assert_eq!(api_secret(&headers), None);
}

#[test]
fn api_secret_decodes_utf8_values() {
    let headers = secret_header("schl\u{fc}ssel".as_bytes());
    assert_eq!(api_secret(&headers), Some(String::from("schl\u{fc}ssel")));
    assert_eq!(api_secret(&secret_header(b"")), Some(String::new()));
}

#[test]
fn api_secret_of_invalid_utf8_is_no_key() {
    assert_eq!(api_secret(&secret_header(&[0xff, 0xfe, 0x41])), None);
    assert_eq!(api_secret(&secret_header(&[0xff])), None);
    assert_eq!(api_secret(&secret_header(&[0xc3, 0x28])), None);
}

#[test]
fn first_key_header_decides_even_if_malformed() {
    let headers = vec![
        Header { name: String::from("X-Minetest-ApiSecret"), value: vec![0xff, 0xfe] },
        Header { name: String::from("X-Minetest-ApiSecret"), value: b"key-north".to_vec() },
    ];
    assert_eq!(api_secret(&headers), None);
    assert!(matches!(headers_received(&headers, "/v1/get_auth"), Request::Unauthorized));
}

#[test]
fn malformed_key_is_unauthorized_whatever_keys_are_stored() {
    for path in PATHS {
        let command = route(path).unwrap();
        for key in ["invalid-utf8", "", "\u{fffd}", "\u{fffd}\u{fffd}"] {
            let mut store = two_tenants();
            assert!(store.insert_tenant(Tenant {
                id: 3,
                name: String::from("odd"),
                api_key: String::from(key),
            }));
            assert_eq!(store.create_auth(3, "alice", "p1", "interact"), Ok(()));
            let before = snapshot(&store);
            for value in [vec![0xff_u8], vec![0xff, 0xfe]] {
                let request = headers_received(&secret_header(&value), path);
                assert!(matches!(request, Request::Unauthorized));
                assert_eq!(begin(&store, &request), Step::Respond(Failure::Unauthorized));
                let reply = request_received(&mut store, &request, Some(payload_for(command)));
                assert_eq!(failure_of(&reply), Some(Failure::Unauthorized));
                assert_eq!(respond(&reply, None).status, 401);
                assert_eq!(snapshot(&store), before);
            }
        }
    }
}

#[test]
fn without_store_still_judges_path_and_missing_key() {
    assert_eq!(failure_of(&without_store(&Request::PageNotFound)), Some(Failure::RouteNotFound));
    assert_eq!(failure_of(&without_store(&Request::Unauthorized)), Some(Failure::Unauthorized));
    let request = headers_received(&secret_header(b"key-north"), "/v1/get_auth");
    let reply = without_store(&request);
    assert_eq!(failure_of(&reply), Some(Failure::Internal));
    assert_eq!(respond(&reply, None).status, 500);
}

#[test]
fn only_the_empty_success_is_an_update() {
    assert!(updates(&Reply::Empty));
    assert!(!updates(&Reply::Failed(Failure::Internal)));
    assert!(!updates(&Reply::Failed(Failure::NotFound)));
    let mut store = two_tenants();
    assert_eq!(store.create_auth(1, "alice", "p1", "interact"), Ok(()));
    let reply = execute(&mut store, 1, Command::GetAuth, Some(payload_for(Command::GetAuth)));
    assert!(matches!(reply, Reply::Auth(_)));
    assert!(!updates(&reply));
}

#[test]
fn after_persist_keeps_or_fails_the_reply() {
    assert!(matches!(after_persist(Reply::Empty, true), Reply::Empty));
    let reply = after_persist(Reply::Empty, false);
    assert_eq!(failure_of(&reply), Some(Failure::Internal));
    assert_eq!(respond(&reply, None).status, 500);
    let reply = after_persist(Reply::Failed(Failure::NotFound), true);
    assert_eq!(failure_of(&reply), Some(Failure::NotFound));
    let reply = after_persist(Reply::Failed(Failure::NotFound), false);
    assert_eq!(failure_of(&reply), Some(Failure::Internal));
}

#[test]
fn headers_received_builds_each_request() {
    match headers_received(&secret_header(b"key-north"), "/v1/set_password") {
        Request::ValidCommand(key, command) => {
            assert_eq!(key, "key-north");
            assert_eq!(command, Command::SetPassword);
        }
        other => panic!("{:?}", other),
    }
    assert!(matches!(headers_received(&Vec::new(), "/v1/get_auth"), Request::Unauthorized));
    assert!(matches!(headers_received(&Vec::new(), "/nowhere"), Request::PageNotFound));
    assert!(matches!(
        headers_received(&secret_header(b"key-north"), "/nowhere"),
        Request::PageNotFound
    ));
}

#[test]
fn unknown_key_is_unauthorized_on_every_route() {
    for path in PATHS {
        let command = route(path).unwrap();
        for headers in [secret_header(b"nobody"), secret_header(b""), secret_header(&[0xff]), Vec::new()] {
            let mut store = two_tenants();
            assert_eq!(store.create_auth(1, "alice", "p1", "interact"), Ok(()));
            let before = snapshot(&store);
            let request = headers_received(&headers, path);
            let reply = request_received(&mut store, &request, Some(payload_for(command)));
            assert_eq!(failure_of(&reply), Some(Failure::Unauthorized));
            let response = respond(&reply, None);
            assert_eq!(response.status, 401);
            assert_eq!(response.reason, "Unauthorized");
            assert_eq!(response.body, "Unauthorized");
            assert_eq!(snapshot(&store), before);
        }
    }
}

#[test]
fn unknown_path_is_not_found_whatever_the_key() {
    for headers in [secret_header(b"key-north"), secret_header(b"nobody"), Vec::new()] {
        let mut store = two_tenants();
        let before = snapshot(&store);
        let request = headers_received(&headers, "/v1/delete_auth");
        let reply = request_received(&mut store, &request, Some(payload_for(Command::CreateAuth)));
        assert_eq!(failure_of(&reply), Some(Failure::RouteNotFound));
        let response = respond(&reply, None);
        assert_eq!(response.status, 404);
        assert_eq!(response.reason, "Not found");
        assert_eq!(response.body, "Not found");
        assert_eq!(snapshot(&store), before);
    }
}

#[test]
fn begin_resolves_the_tenant() {
    let store = two_tenants();
    let request = headers_received(&secret_header(b"key-south"), "/v1/get_auth");
    assert_eq!(begin(&store, &request), Step::Decode(2, Command::GetAuth));
    let request = headers_received(&secret_header(b"key-north"), "/v1/record_login");
    assert_eq!(begin(&store, &request), Step::Decode(1, Command::RecordLogin));
    let request = headers_received(&secret_header(b"key-east"), "/v1/get_auth");
    assert_eq!(begin(&store, &request), Step::Respond(Failure::Unauthorized));
    assert_eq!(begin(&store, &Request::Unauthorized), Step::Respond(Failure::Unauthorized));
    assert_eq!(begin(&store, &Request::PageNotFound), Step::Respond(Failure::RouteNotFound));
}

#[test]
fn tenant_id_matches_keys_exactly() {
    let store = two_tenants();
    assert_eq!(store.tenant_id("key-north"), Some(1));
    assert_eq!(store.tenant_id("key-south"), Some(2));
    assert_eq!(store.tenant_id("key-nort"), None);
    assert_eq!(store.tenant_id("KEY-NORTH"), None);
    assert_eq!(store.tenant_id(""), None);
    assert_eq!(Store::new().tenant_id("key-north"), None);
}

#[test]
fn get_auth_without_membership_is_not_found_and_empty() {
    let mut store = two_tenants();
    let reply = execute(&mut store, 1, Command::GetAuth, Some(payload_for(Command::GetAuth)));
    assert_eq!(failure_of(&reply), Some(Failure::NotFound));
    let response = respond(&reply, None);
    assert_eq!(response.status, 404);
    assert_eq!(response.body, "");
    assert_eq!(response.content_length(), 0);
    // a player of another tenant only
    assert!(store.create_auth(2, "alice", "p1", "interact").is_ok());
    let reply = execute(&mut store, 1, Command::GetAuth, Some(payload_for(Command::GetAuth)));
    assert_eq!(failure_of(&reply), Some(Failure::NotFound));
    assert_eq!(lookup(&store, 1, "alice"), None);
}

#[test]
fn effective_password_prefers_a_non_empty_override() {
    let global = String::from("G");
    assert_eq!(effective_password(&global, &Some(String::new())), "G");
    assert_eq!(effective_password(&global, &Some(String::from("O"))), "O");
    assert_eq!(effective_password(&global, &None), "G");
    assert_eq!(effective_password(&String::new(), &Some(String::from("O"))), "O");
    assert_eq!(effective_password(&String::new(), &None), "");
}

#[test]
fn get_auth_applies_the_override_of_the_tenant() {
    let mut store = two_tenants();
    assert!(store.insert_player(Player {
        id: 7,
        name: String::from("bob"),
        password: String::from("G"),
        last_login: String::from("99"),
    }));
    assert!(store.insert_membership(Membership {
        tenant: 1,
        player: 7,
        privileges: String::from("shout"),
        pw_override: Some(String::from("O")),
    }));
    assert!(store.insert_membership(Membership {
        tenant: 2,
        player: 7,
        privileges: String::from("fly"),
        pw_override: Some(String::new()),
    }));
    assert_eq!(lookup(&store, 1, "bob"), triple("O", "shout", "99"));
    assert_eq!(lookup(&store, 2, "bob"), triple("G", "fly", "99"));
    store.set_password("bob", "G2");
    assert_eq!(lookup(&store, 1, "bob"), triple("O", "shout", "99"));
    assert_eq!(lookup(&store, 2, "bob"), triple("G2", "fly", "99"));
}

#[test]
fn create_then_get_round_trip() {
    let mut store = two_tenants();
    let request = headers_received(&secret_header(b"key-north"), "/v1/create_auth");
    let reply = request_received(&mut store, &request, Some(payload_for(Command::CreateAuth)));
    assert!(matches!(reply, Reply::Empty));
    let response = respond(&reply, None);
    assert_eq!(response.status, 200);
    assert_eq!(response.reason, "OK");
    assert_eq!(response.body, "");
    let request = headers_received(&secret_header(b"key-north"), "/v1/get_auth");
    match request_received(&mut store, &request, Some(payload_for(Command::GetAuth))) {
        Reply::Auth(answer) => {
            assert_eq!(answer.password, "p1");
            assert_eq!(answer.privileges, "interact");
            assert_eq!(answer.last_login, "");
        }
        other => panic!("{:?}", other),
    }
    assert_eq!(store.memberships().len(), 1);
    assert_eq!(store.memberships()[0].pw_override, None);
    assert_eq!(store.memberships()[0].tenant, 1);
    assert_eq!(store.players()[0].id, store.memberships()[0].player);
}

#[test]
fn create_auth_gives_ids_in_turn() {
    let mut store = two_tenants();
    assert_eq!(store.create_auth(1, "alice", "p1", "interact"), Ok(()));
    assert_eq!(store.create_auth(2, "bob", "second", "fly"), Ok(()));
    assert_eq!(store.players()[0].id, 1);
    assert_eq!(store.players()[1].id, 2);
    assert_eq!(store.memberships()[1].player, 2);
    assert_eq!(store.memberships()[1].tenant, 2);
}

#[test]
fn duplicate_name_is_an_internal_failure() {
    let mut store = two_tenants();
    assert_eq!(store.create_auth(1, "alice", "p1", "interact"), Ok(()));
    let before = snapshot(&store);
    assert_eq!(store.create_auth(2, "alice", "other", "fly"), Err(StoreError::NameTaken));
    assert_eq!(snapshot(&store), before);
    let reply = execute(&mut store, 2, Command::CreateAuth, Some(payload_for(Command::CreateAuth)));
    assert_eq!(failure_of(&reply), Some(Failure::Internal));
    let response = respond(&reply, None);
    assert_eq!(response.status, 500);
    assert_eq!(response.body, "Internal Server error");
    assert_eq!(snapshot(&store), before);
    assert_eq!(lookup(&store, 1, "alice"), triple("p1", "interact", ""));
    assert_eq!(lookup(&store, 2, "alice"), None);
}

#[test]
fn create_auth_fails_when_ids_run_out() {
    let mut store = two_tenants();
    assert!(store.insert_player(Player {
        id: i64::MAX - 1,
        name: String::from("last"),
        password: String::from("x"),
        last_login: String::new(),
    }));
    let before = snapshot(&store);
    assert_eq!(store.create_auth(1, "alice", "p1", "interact"), Err(StoreError::Exhausted));
    assert_eq!(snapshot(&store), before);
}

#[test]
fn set_password_is_seen_by_every_tenant() {
    let mut store = two_tenants();
    assert_eq!(store.create_auth(1, "alice", "p1", "interact"), Ok(()));
    let id = store.players()[0].id;
    assert!(store.insert_membership(Membership {
        tenant: 2,
        player: id,
        privileges: String::from("fly"),
        pw_override: None,
    }));
    let reply = execute(&mut store, 2, Command::SetPassword, Some(payload_for(Command::SetPassword)));
    assert!(matches!(reply, Reply::Empty));
    assert_eq!(lookup(&store, 1, "alice"), triple("second", "interact", ""));
    assert_eq!(lookup(&store, 2, "alice"), triple("second", "fly", ""));
}

#[test]
fn set_password_from_a_tenant_without_membership_still_applies() {
    let mut store = two_tenants();
    assert_eq!(store.create_auth(1, "alice", "p1", "interact"), Ok(()));
    let reply = execute(&mut store, 2, Command::SetPassword, Some(payload_for(Command::SetPassword)));
    assert!(matches!(reply, Reply::Empty));
    assert_eq!(lookup(&store, 1, "alice"), triple("second", "interact", ""));
}

#[test]
fn updates_of_an_unknown_name_succeed_and_change_nothing() {
    let mut store = two_tenants();
    assert_eq!(store.create_auth(1, "bob", "p1", "interact"), Ok(()));
    let before = snapshot(&store);
    for command in [Command::SetPassword, Command::SetPrivileges, Command::RecordLogin] {
        let reply = execute(&mut store, 1, command, Some(payload_for(command)));
        assert!(matches!(reply, Reply::Empty));
        assert_eq!(respond(&reply, None).status, 200);
        assert_eq!(snapshot(&store), before);
    }
}

#[test]
fn set_privileges_touches_one_tenant_only() {
    let mut store = two_tenants();
    assert_eq!(store.create_auth(1, "alice", "p1", "interact"), Ok(()));
    assert_eq!(store.create_auth(1, "bob", "third", "interact"), Ok(()));
    let id = store.players()[0].id;
    assert!(store.insert_membership(Membership {
        tenant: 2,
        player: id,
        privileges: String::from("shout"),
        pw_override: None,
    }));
    let reply = execute(&mut store, 1, Command::SetPrivileges, Some(payload_for(Command::SetPrivileges)));
    assert!(matches!(reply, Reply::Empty));
    assert_eq!(lookup(&store, 1, "alice"), triple("p1", "fly", ""));
    assert_eq!(lookup(&store, 2, "alice"), triple("p1", "shout", ""));
    assert_eq!(lookup(&store, 1, "bob"), triple("third", "interact", ""));
}

#[test]
fn set_privileges_without_membership_changes_nothing() {
    let mut store = two_tenants();
    assert_eq!(store.create_auth(1, "alice", "p1", "interact"), Ok(()));
    let before = snapshot(&store);
    store.set_privileges(2, "alice", "fly");
    assert_eq!(snapshot(&store), before);
}

#[test]
fn record_login_is_seen_by_every_tenant() {
    let mut store = two_tenants();
    assert_eq!(store.create_auth(1, "alice", "p1", "interact"), Ok(()));
    let id = store.players()[0].id;
    assert!(store.insert_membership(Membership {
        tenant: 2,
        player: id,
        privileges: String::from("fly"),
        pw_override: None,
    }));
    let stamp = format!("{:?}", 12345.0_f64);
    assert_eq!(stamp, "12345.0");
    let payload = Payload::RecordLogin { name: String::from("alice"), last_login: stamp };
    let reply = execute(&mut store, 1, Command::RecordLogin, Some(payload));
    assert!(matches!(reply, Reply::Empty));
    assert_eq!(lookup(&store, 1, "alice"), triple("p1", "interact", "12345.0"));
    assert_eq!(lookup(&store, 2, "alice"), triple("p1", "fly", "12345.0"));
}

#[test]
fn undecoded_body_is_an_internal_failure_on_every_route() {
    for path in PATHS {
        let mut store = two_tenants();
        assert_eq!(store.create_auth(1, "alice", "p1", "interact"), Ok(()));
        let before = snapshot(&store);
        let request = headers_received(&secret_header(b"key-north"), path);
        let reply = request_received(&mut store, &request, None);
        assert_eq!(failure_of(&reply), Some(Failure::Internal));
        let response = respond(&reply, None);
        assert_eq!(response.status, 500);
        assert_ne!(response.status, 400);
        assert_eq!(response.reason, "Internal Server error");
        assert_eq!(snapshot(&store), before);
    }
}

#[test]
fn payload_of_another_command_is_an_internal_failure() {
    let mut store = two_tenants();
    assert_eq!(store.create_auth(1, "alice", "p1", "interact"), Ok(()));
    let before = snapshot(&store);
    let reply = execute(&mut store, 1, Command::GetAuth, Some(payload_for(Command::SetPassword)));
    assert_eq!(failure_of(&reply), Some(Failure::Internal));
    let reply = execute(&mut store, 1, Command::SetPassword, Some(payload_for(Command::GetAuth)));
    assert_eq!(failure_of(&reply), Some(Failure::Internal));
    assert_eq!(snapshot(&store), before);
}

#[test]
fn payload_names_its_command() {
    for command in [
        Command::GetAuth,
        Command::CreateAuth,
        Command::SetPassword,
        Command::SetPrivileges,
        Command::RecordLogin,
    ] {
        assert_eq!(payload_for(command).command(), command);
    }
}

#[test]
fn failures_have_their_status_and_message() {
    assert_eq!(Failure::Unauthorized.status(), 401);
    assert_eq!(Failure::Unauthorized.message(), "Unauthorized");
    assert_eq!(Failure::RouteNotFound.status(), 404);
    assert_eq!(Failure::RouteNotFound.message(), "Not found");
    assert_eq!(Failure::NotFound.status(), 404);
    assert_eq!(Failure::NotFound.message(), "");
    assert_eq!(Failure::Internal.status(), 500);
    assert_eq!(Failure::Internal.message(), "Internal Server error");
}

#[test]
fn respond_sends_the_encoded_record() {
    let mut store = two_tenants();
    assert_eq!(store.create_auth(1, "alice", "p1", "interact"), Ok(()));
    let reply = execute(&mut store, 1, Command::GetAuth, Some(payload_for(Command::GetAuth)));
    let encoded = String::from("{\"password\":\"p1\",\"privileges\":\"interact\",\"last_login\":\"\"}");
    let response = respond(&reply, Some(encoded.clone()));
    assert_eq!(response.status, 200);
    assert_eq!(response.reason, "OK");
    assert_eq!(response.body, encoded);
    assert_eq!(response.content_length(), encoded.len());
    let response = respond(&reply, None);
    assert_eq!(response.status, 500);
    assert_eq!(response.body, "Internal Server error");
}

#[test]
fn send_string_and_send_error_fill_the_response() {
    let response = send_string(String::from("h\u{e9}"));
    assert_eq!(response.status, 200);
    assert_eq!(response.reason, "OK");
    assert_eq!(response.body, "h\u{e9}");
    assert_eq!(response.content_length(), 3);
    let response = send_error(404, "Not found");
    assert_eq!(response.status, 404);
    assert_eq!(response.reason, "Not found");
    assert_eq!(response.body, "Not found");
    assert_eq!(response.content_length(), 9);
}

#[test]
fn insert_tenant_keeps_ids_names_and_keys_unique() {
    let mut store = two_tenants();
    let clash = |id: i64, name: &str, key: &str| Tenant {
        id,
        name: String::from(name),
        api_key: String::from(key),
    };
    assert!(!store.insert_tenant(clash(1, "east", "key-east")));
    assert!(!store.insert_tenant(clash(3, "north", "key-east")));
    assert!(!store.insert_tenant(clash(3, "east", "key-south")));
    assert_eq!(store.tenants().len(), 2);
    assert!(store.insert_tenant(clash(3, "east", "key-east")));
    assert_eq!(store.tenant_id("key-east"), Some(3));
}

#[test]
fn insert_player_keeps_ids_and_names_unique() {
    let mut store = two_tenants();
    let row = |id: i64, name: &str| Player {
        id,
        name: String::from(name),
        password: String::from("pw"),
        last_login: String::new(),
    };
    assert!(store.insert_player(row(5, "alice")));
    assert!(!store.insert_player(row(5, "bob")));
    assert!(!store.insert_player(row(6, "alice")));
    assert!(!store.insert_player(row(i64::MAX, "carol")));
    assert!(store.insert_player(row(3, "bob")));
    assert_eq!(store.players().len(), 2);
    assert_eq!(store.create_auth(1, "dave", "pw", "interact"), Ok(()));
    assert_eq!(store.players()[2].id, 6);
}

#[test]
fn insert_membership_needs_its_player_and_a_free_pair() {
    let mut store = two_tenants();
    let row = |tenant: i64, player: i64| Membership {
        tenant,
        player,
        privileges: String::from("interact"),
        pw_override: None,
    };
    assert!(!store.insert_membership(row(1, 1)));
    assert_eq!(store.create_auth(1, "alice", "p1", "interact"), Ok(()));
    assert!(!store.insert_membership(row(1, 1)));
    assert!(store.insert_membership(row(2, 1)));
    assert!(!store.insert_membership(row(2, 1)));
    assert_eq!(store.memberships().len(), 2);
}

#[test]
fn schema_version_decides_the_startup() {
    assert_eq!(SCHEMA_VERSION, 1);
    assert_eq!(schema_action(0), SchemaAction::Create);
    assert_eq!(schema_action(1), SchemaAction::Proceed);
    assert_eq!(schema_action(2), SchemaAction::Refuse);
    assert_eq!(schema_action(-1), SchemaAction::Refuse);
    assert_eq!(schema_action(i32::MAX), SchemaAction::Refuse);
}
