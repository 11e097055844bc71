use mock_keyvault::handlers::authorize;
use mock_keyvault::handlers::secrets::{
    acknowledge, attributes, get_secret_and_interpret, get_secret_test, put_secret_test,
    url_of_written_secret, AuthDecision, Handler, Secret, SecretAttributes, SecretRequest,
};
use mock_keyvault::handlers::{default_host_name, Payload, Reply, UnauthorizedError};
use mock_keyvault::routes::{get, put, Action, Route, RouteMethod, Verb};

const CHALLENGE: &str =
    "Bearer authorization=\"https://localhost:8443/authorize\", resource=\"https://vault.azure.net\"";
const URL: &str = "https://localhost:8443/secrets/test-secret/test-version";

fn sample(value: &str) -> Secret {
    Secret {
        id: None,
        value: value.to_string(),
        content_type: Some("text/plain".to_string()),
        attributes: Some(SecretAttributes { id: "x".to_string(), enabled: false, exp: 7, nbf: 3 }),
        tags: Some(vec![("team".to_string(), "\"red\"".to_string())]),
    }
}

fn request(raw_body: Option<Vec<u8>>) -> SecretRequest {
    SecretRequest { name: "my-secret".to_string(), version: None, raw_body }
}

fn canned() -> Secret {
    Secret {
        id: Some("test-id".to_string()),
        value: "test-secret".to_string(),
        content_type: Some("test.secret/string".to_string()),
        attributes: Some(SecretAttributes { id: "".to_string(), enabled: true, exp: -1, nbf: -1 }),
        tags: Some(vec![]),
    }
}

fn acknowledged() -> Secret {
    Secret {
        id: Some(URL.to_string()),
        value: "test-secret".to_string(),
        content_type: Some("test.secret/string".to_string()),
        attributes: Some(SecretAttributes { id: URL.to_string(), enabled: true, exp: -1, nbf: -1 }),
        tags: Some(vec![]),
    }
}

#[test]
fn canned_secret_has_the_fixed_fields() {
    assert_eq!(get_secret_test(), canned());
}

#[test]
fn interpreted_secret_has_the_value_of_its_name() {
    let secret = get_secret_and_interpret("FooStorageConnectionStringBlob", None);
    assert_eq!(
        secret.value,
        "UseDevelopmentStorage=true;BlobEndpoint=http://azurite-blob.azmocks.cluster.local/devstoreaccount1;"
    );
    assert_eq!(secret.id, Some("test-id".to_string()));
    assert_eq!(secret.content_type, Some("text/string".to_string()));
    assert_eq!(
        secret.attributes,
        Some(SecretAttributes { id: "".to_string(), enabled: true, exp: -1, nbf: -1 })
    );
    assert_eq!(secret.tags, None);
}

#[test]
fn interpreted_secret_of_an_unknown_name_has_the_empty_value() {
    let secret = get_secret_and_interpret("password", Some("v1"));
    assert_eq!(secret.value, "");
    assert_eq!(secret.tags, None);
}

#[test]
fn version_does_not_change_the_answer() {
    assert_eq!(
        get_secret_and_interpret("StorageConnectionStringTable", None),
        get_secret_and_interpret("StorageConnectionStringTable", Some("3"))
    );
    let handler = Handler::new(true);
    assert_eq!(handler.read(Some("a"), Some("1")), handler.read(Some("a"), Some("2")));
}

#[test]
fn attributes_use_minus_one_for_unset_times() {
    let a = attributes("abc".to_string());
    assert_eq!(a, SecretAttributes { id: "abc".to_string(), enabled: true, exp: -1, nbf: -1 });
}

#[test]
fn written_secret_gets_a_versioned_address() {
    assert_eq!(url_of_written_secret("localhost:8443"), URL);
    assert_eq!(
        url_of_written_secret("vault.test"),
        "https://vault.test/secrets/test-secret/test-version"
    );
    assert_eq!(default_host_name(), "localhost:8443");
}

#[test]
fn write_is_acknowledged_without_echo() {
    assert_eq!(put_secret_test(sample("one")), acknowledged());
    assert_eq!(put_secret_test(sample("two")), acknowledged());
    let other = acknowledge(sample("one"), "example.org:1");
    assert_eq!(other.id, Some("https://example.org:1/secrets/test-secret/test-version".to_string()));
    assert_eq!(
        other.attributes.unwrap().id,
        "https://example.org:1/secrets/test-secret/test-version"
    );
    assert_eq!(other.value, "test-secret");
}

#[test]
fn request_has_a_body_only_with_bytes_in_it() {
    assert!(!request(None).has_body());
    assert!(!request(Some(vec![])).has_body());
    assert!(request(Some(vec![b'{'])).has_body());
}

#[test]
fn decision_proceeds_only_with_body_and_secret() {
    let body = Some(b"{\"value\":\"one\"}".to_vec());
    assert_eq!(
        AuthDecision::decide(&request(body.clone()), Some(sample("one"))),
        AuthDecision::Proceed(sample("one"))
    );
    assert_eq!(AuthDecision::decide(&request(body), None), AuthDecision::ChallengeRequired);
    assert_eq!(AuthDecision::decide(&request(None), None), AuthDecision::ChallengeRequired);
    assert_eq!(
        AuthDecision::decide(&request(None), Some(sample("one"))),
        AuthDecision::ChallengeRequired
    );
    assert_eq!(
        AuthDecision::decide(&request(Some(vec![])), Some(sample("one"))),
        AuthDecision::ChallengeRequired
    );
}

#[test]
fn from_request_hands_the_secret_on_or_refuses() {
    let body = Some(b"{\"value\":\"one\"}".to_vec());
    assert_eq!(Secret::from_request(&request(body.clone()), Some(sample("one"))), Ok(sample("one")));
    assert_eq!(Secret::from_request(&request(body), None), Err(UnauthorizedError));
    assert_eq!(Secret::from_request(&request(None), None), Err(UnauthorizedError));
    assert_eq!(Secret::from_request(&request(Some(vec![])), None), Err(UnauthorizedError));
}

#[test]
fn refusal_has_status_and_message() {
    assert_eq!(UnauthorizedError.status(), 401);
    assert_eq!(UnauthorizedError.message(), "unauthorized\n");
}

#[test]
fn challenge_header_matches_the_template() {
    assert_eq!(UnauthorizedError.www_authenticate("localhost:8443"), CHALLENGE);
    assert_eq!(
        UnauthorizedError.www_authenticate("kv.local"),
        "Bearer authorization=\"https://kv.local/authorize\", resource=\"https://vault.azure.net\""
    );
}

#[test]
fn put_without_body_is_challenged() {
    let handler = Handler::new(true);
    let expected = Reply {
        status: 401,
        www_authenticate: Some(CHALLENGE.to_string()),
        payload: Payload::Empty,
    };
    assert_eq!(handler.answer_write(&request(None), None, "localhost:8443"), expected);
    assert_eq!(handler.answer_write(&request(Some(vec![])), None, "localhost:8443"), expected);
    assert_eq!(
        handler.answer_write(&request(Some(vec![])), Some(sample("one")), "localhost:8443"),
        expected
    );
}

#[test]
fn put_with_malformed_body_is_challenged() {
    let handler = Handler::new(false);
    let reply = handler.answer_write(&request(Some(b"not json".to_vec())), None, "localhost:8443");
    assert_eq!(reply.status, 401);
    assert_eq!(reply.www_authenticate, Some(CHALLENGE.to_string()));
    assert_eq!(reply.payload, Payload::Empty);
}

#[test]
fn put_with_secret_is_acknowledged() {
    let handler = Handler::new(false);
    let body = Some(b"{\"value\":\"one\"}".to_vec());
    let expected =
        Reply { status: 200, www_authenticate: None, payload: Payload::Json(acknowledged()) };
    assert_eq!(
        handler.answer_write(&request(body.clone()), Some(sample("one")), "localhost:8443"),
        expected
    );
    assert_eq!(
        handler.answer_write(&request(body), Some(sample("another")), "localhost:8443"),
        expected
    );
}

#[test]
fn same_request_twice_gives_the_same_reply() {
    let handler = Handler::new(true);
    assert_eq!(
        handler.answer_read(Some("FooStorageConnectionStringBlob"), None),
        handler.answer_read(Some("FooStorageConnectionStringBlob"), None)
    );
    assert_eq!(
        handler.answer_write(&request(None), None, "localhost:8443"),
        handler.answer_write(&request(None), None, "localhost:8443")
    );
    let body = Some(b"{}".to_vec());
    assert_eq!(
        handler.answer_write(&request(body.clone()), Some(sample("v")), "localhost:8443"),
        handler.answer_write(&request(body), Some(sample("v")), "localhost:8443")
    );
    assert_eq!(authorize::Handler.answer(), authorize::Handler.answer());
}

#[test]
fn read_follows_the_flag() {
    let on = Handler::new(true);
    let off = Handler::new(false);
    assert!(on.interprets_names());
    assert!(!off.interprets_names());
    assert_eq!(
        on.read(Some("FooStorageConnectionStringBlob"), None).value,
        "UseDevelopmentStorage=true;BlobEndpoint=http://azurite-blob.azmocks.cluster.local/devstoreaccount1;"
    );
    assert_eq!(off.read(Some("FooStorageConnectionStringBlob"), None), canned());
    assert_eq!(on.read(None, None), canned());
    assert_eq!(off.read(None, None), canned());
}

#[test]
fn read_reply_is_a_success_with_the_secret() {
    let reply = Handler::new(true).answer_read(Some("FooStorageConnectionStringBlob"), None);
    assert_eq!(reply.status, 200);
    assert_eq!(reply.www_authenticate, None);
    assert_eq!(
        reply.payload,
        Payload::Json(get_secret_and_interpret("FooStorageConnectionStringBlob", None))
    );
}

#[test]
fn token_endpoint_says_ok() {
    assert_eq!(authorize::get_token_test(), "ok");
    let reply = authorize::Handler.answer();
    assert_eq!(reply.status, 200);
    assert_eq!(reply.www_authenticate, None);
    assert_eq!(reply.payload, Payload::Text("ok".to_string()));
}

#[test]
fn replies_are_built_from_their_parts() {
    assert_eq!(
        Reply::text("hello"),
        Reply { status: 200, www_authenticate: None, payload: Payload::Text("hello".to_string()) }
    );
    assert_eq!(
        Reply::json(canned()),
        Reply { status: 200, www_authenticate: None, payload: Payload::Json(canned()) }
    );
    assert_eq!(
        Reply::unauthorized(UnauthorizedError, "h"),
        Reply {
            status: 401,
            www_authenticate: Some(
                "Bearer authorization=\"https://h/authorize\", resource=\"https://vault.azure.net\""
                    .to_string()
            ),
            payload: Payload::Empty,
        }
    );
}

#[test]
fn route_table_grows_at_its_end() {
    let table = Route::new();
    assert!(table.entries.is_empty());
    let table = table.at("/a", get(Action::Token)).at("/b", put(Action::Write));
    assert_eq!(table.entries.len(), 2);
    assert_eq!(table.entries[0].path, "/a");
    assert_eq!(table.entries[0].method, RouteMethod { verb: Verb::Get, action: Action::Token });
    assert_eq!(table.entries[1].path, "/b");
    assert_eq!(table.entries[1].method, RouteMethod { verb: Verb::Put, action: Action::Write });
}

#[test]
fn secrets_handler_installs_its_four_routes() {
    let read = RouteMethod { verb: Verb::Get, action: Action::ReadInterpreted };
    let write = RouteMethod { verb: Verb::Put, action: Action::Write };
    let handler = Handler::new(true);
    assert_eq!(handler.get(), read);
    assert_eq!(handler.put(), write);
    let table = handler.install(Route::new().at("/first", get(Action::Token)));
    let lines: Vec<(&str, RouteMethod)> =
        table.entries.iter().map(|e| (e.path.as_str(), e.method)).collect();
    assert_eq!(
        lines,
        vec![
            ("/first", RouteMethod { verb: Verb::Get, action: Action::Token }),
            ("/secrets", read),
            ("/secrets/:secretname/", read),
            ("/secrets/:secretname/:version", read),
            ("/secrets/:secretname", write),
        ]
    );
    assert_eq!(
        Handler::new(false).get(),
        RouteMethod { verb: Verb::Get, action: Action::ReadCanned }
    );
}

#[test]
fn authorize_handler_installs_its_route() {
    let table = authorize::Handler.install(Route::new());
    assert_eq!(table.entries.len(), 1);
    assert_eq!(table.entries[0].path, "/authorize");
    assert_eq!(table.entries[0].method, RouteMethod { verb: Verb::Get, action: Action::Token });
    assert_eq!(authorize::Handler.get(), RouteMethod { verb: Verb::Get, action: Action::Token });
}
