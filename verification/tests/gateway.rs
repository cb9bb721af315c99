use monitor_core::bus::UpdateBus;
use monitor_core::json::invalid_user_frame;
use monitor_core::json::parse_json_object;
use monitor_core::json::serialize_update_list_item;
use monitor_core::model::Operation;
use monitor_core::model::PermissionLevel;
use monitor_core::model::ResourceTarget;
use monitor_core::model::ResourceTargetVariant;
use monitor_core::model::UpdateListItem;
use monitor_core::model::UpdateStatus;
use monitor_core::model::User;
use monitor_core::model::UserGroup;
use monitor_core::model::UserTarget;
use monitor_core::model::Version;
use monitor_core::store::Store;
use monitor_core::store::StoreError;
use monitor_core::update::add_update;
use monitor_core::update::make_update;
use monitor_core::update::update_list_item;
use monitor_core::update::update_update;
use monitor_core::ws::InboundDecision;
use monitor_core::ws::LoginFlow;
use monitor_core::ws::LoginOutcome;
use monitor_core::ws::Session;
use monitor_core::ws::SessionState;
use monitor_core::ws::StreamAction;
use monitor_core::ws::WsFrame;
use monitor_core::ws::WsLoginMessage;
use monitor_core::ws::parse_ws_login;
use monitor_core::ws::PermFetch;
use monitor_core::ws::UserFetch;

fn user(id: &str, username: &str, admin: bool, enabled: bool) -> User {
    User {
        id: id.to_string(),
        username: username.to_string(),
        admin,
        enabled,
        recently_viewed: Vec::new(),
    }
}

fn server_target(id: &str) -> ResourceTarget {
    ResourceTarget {
        variant: ResourceTargetVariant::Server,
        id: id.to_string(),
    }
}

fn sample_item(target_id: &str) -> UpdateListItem {
    UpdateListItem {
        id: 7,
        operation: Operation::Deploy,
        start_ts: 1700000000123,
        success: true,
        operator: "a".to_string(),
        target: server_target(target_id),
        status: UpdateStatus::InProgress,
        version: Version { major: 1, minor: 2, patch: 3 },
        username: "alice".to_string(),
    }
}

fn streaming_session(account: User) -> Session {
    let mut session = Session::connect();
    let frame = "{\"type\":\"Jwt\",\"jwt\":\"token\"}".to_string();
    let flow = session.handle_login_frame(Some(Ok(WsFrame::Text(frame))));
    assert!(matches!(flow, LoginFlow::NeedAuth(_)));
    let msg = match flow {
        LoginFlow::NeedAuth(m) => m,
        LoginFlow::Reject(_) => unreachable!(),
    };
    let outcome = session.handle_auth(&msg, Ok(account));
    assert!(matches!(outcome, LoginOutcome::Accept(f) if f == "LOGGED_IN"));
    assert_eq!(session.state, SessionState::Streaming);
    session
}

#[test]
fn serializer_produces_the_expected_json() {
    let item = sample_item("s1");
    let text = serialize_update_list_item(&item);
    let expected = "{\"id\":7,\"operation\":\"Deploy\",\"start_ts\":1700000000123,\"success\":true,\"operator\":\"a\",\"target\":{\"type\":\"Server\",\"id\":\"s1\"},\"status\":\"InProgress\",\"version\":\"1.2.3\",\"username\":\"alice\"}";
    assert_eq!(text, expected);
    let value: serde_json::Value = serde_json::from_str(&text).expect("valid JSON");
    assert_eq!(value["id"], serde_json::Value::from(7u64));
    assert_eq!(value["target"]["type"], serde_json::Value::from("Server"));
}

#[test]
fn serializer_escapes_special_characters() {
    let mut item = sample_item("s1");
    item.username = "al\"i\\ce\n".to_string();
    let text = serialize_update_list_item(&item);
    assert!(text.contains("al\\\"i\\\\ce\\n"));
    let value: serde_json::Value = serde_json::from_str(&text).expect("valid JSON");
    assert_eq!(value["username"], serde_json::Value::from("al\"i\\ce\n"));
}

#[test]
fn invalid_user_frame_shape() {
    let frame = invalid_user_frame("user not enabled");
    assert_eq!(frame, "{\"type\":\"INVALID_USER\",\"msg\":\"user not enabled\"}");
}

#[test]
fn json_object_parser_reads_pairs() {
    let pairs = parse_json_object(" { \"a\" : \"1\" , \"b\" : \"x\\ny\" } ").expect("object");
    assert_eq!(pairs.len(), 2);
    assert_eq!(pairs[0].key, "a");
    assert_eq!(pairs[0].value, "1");
    assert_eq!(pairs[1].key, "b");
    assert_eq!(pairs[1].value, "x\ny");
    assert!(parse_json_object("{}").expect("empty object").is_empty());
    assert!(parse_json_object("{\"a\":1}").is_none());
    assert!(parse_json_object("not json").is_none());
    assert!(parse_json_object("{\"a\":\"1\"} trailing").is_none());
}

#[test]
fn login_payloads_parse_by_discriminant() {
    let jwt = parse_ws_login("{\"type\":\"Jwt\",\"jwt\":\"tok\"}").expect("jwt payload");
    assert!(matches!(jwt, WsLoginMessage::Jwt { jwt } if jwt == "tok"));
    let keys =
        parse_ws_login("{\"type\":\"ApiKeys\",\"key\":\"k\",\"secret\":\"s\"}").expect("api keys");
    assert!(matches!(
        keys,
        WsLoginMessage::ApiKeys { key, secret } if key == "k" && secret == "s"
    ));
    assert!(parse_ws_login("{\"type\":\"Other\"}").is_err());
    assert!(parse_ws_login("{\"type\":\"Jwt\"}").is_err());
    assert!(parse_ws_login("{\"jwt\":\"tok\"}").is_err());
}

#[test]
fn subscription_sees_no_items_published_before_it() {
    let mut bus = UpdateBus::new(16);
    bus.publish(sample_item("before"));
    let mut rx = bus.resubscribe();
    assert!(bus.recv(&mut rx).is_none());
    bus.publish(sample_item("after"));
    let got = bus.recv(&mut rx).expect("one item");
    assert_eq!(got.target.id, "after");
    assert!(bus.recv(&mut rx).is_none());
}

#[test]
fn lagging_receiver_loses_only_the_oldest_items() {
    let mut bus = UpdateBus::new(2);
    let mut rx = bus.resubscribe();
    bus.publish(sample_item("one"));
    bus.publish(sample_item("two"));
    bus.publish(sample_item("three"));
    let got = bus.recv(&mut rx).expect("item");
    assert_eq!(got.target.id, "two");
    let got = bus.recv(&mut rx).expect("item");
    assert_eq!(got.target.id, "three");
    assert!(bus.recv(&mut rx).is_none());
}

#[test]
fn make_update_fills_the_record() {
    let a = user("a", "alice", false, true);
    let u = make_update(server_target("s1"), Operation::Deploy, &a, 42);
    assert_eq!(u.id, 0);
    assert_eq!(u.operator, "a");
    assert!(u.success);
    assert_eq!(u.start_ts, 42);
    assert_eq!(u.status, UpdateStatus::Queued);
}

#[test]
fn projection_resolves_the_operator_username() {
    let mut store = Store::new();
    store.users.push(user("a", "alice", false, true));
    let a = user("a", "alice", false, true);
    let update = make_update(server_target("s1"), Operation::Deploy, &a, 1);
    let item = update_list_item(update, false, &store).expect("projection");
    assert_eq!(item.username, "alice");
    assert_eq!(item.operator, "a");
}

#[test]
fn projection_shortcut_for_service_operators() {
    let store = Store::new();
    let svc = user("svc-backup", "ignored", false, true);
    let update = make_update(server_target("s1"), Operation::Deploy, &svc, 1);
    let item = update_list_item(update, true, &store).expect("projection");
    assert_eq!(item.username, "svc-backup");
}

#[test]
fn projection_fails_for_an_unknown_operator() {
    let store = Store::new();
    let a = user("ghost", "ghost", false, true);
    let update = make_update(server_target("s1"), Operation::Deploy, &a, 1);
    assert!(matches!(
        update_list_item(update, false, &store),
        Err(StoreError::NotFound)
    ));
}

#[test]
fn add_update_assigns_ids_and_publishes() {
    let mut store = Store::new();
    store.users.push(user("a", "alice", false, true));
    let mut bus = UpdateBus::new(16);
    let mut rx = bus.resubscribe();
    let a = user("a", "alice", false, true);
    let update = make_update(server_target("s1"), Operation::Deploy, &a, 1);
    let id = add_update(&mut store, &mut bus, update, false).expect("created");
    assert_eq!(id, 1);
    assert_eq!(store.updates.len(), 1);
    assert_eq!(store.updates[0].id, 1);
    let seen = bus.recv(&mut rx).expect("published projection");
    assert_eq!(seen.id, 1);
    assert_eq!(seen.username, "alice");
    let update = make_update(server_target("s2"), Operation::Deploy, &a, 2);
    let id = add_update(&mut store, &mut bus, update, false).expect("created");
    assert_eq!(id, 2);
}

#[test]
fn add_update_stores_the_record_even_when_projection_fails() {
    let mut store = Store::new();
    let mut bus = UpdateBus::new(16);
    let mut rx = bus.resubscribe();
    let ghost_user = user("ghost", "ghost", false, true);
    let update = make_update(server_target("s1"), Operation::Deploy, &ghost_user, 1);
    assert!(matches!(
        add_update(&mut store, &mut bus, update, false),
        Err(StoreError::NotFound)
    ));
    assert_eq!(store.updates.len(), 1);
    assert!(bus.recv(&mut rx).is_none());
}

#[test]
fn update_update_replaces_the_record_and_republishes() {
    let mut store = Store::new();
    store.users.push(user("a", "alice", false, true));
    let mut bus = UpdateBus::new(16);
    let a = user("a", "alice", false, true);
    let update = make_update(server_target("s1"), Operation::Deploy, &a, 1);
    let id = add_update(&mut store, &mut bus, update, false).expect("created");
    let mut rx = bus.resubscribe();
    let mut changed = make_update(server_target("s1"), Operation::Deploy, &a, 1);
    changed.id = id;
    changed.success = false;
    changed.status = UpdateStatus::Complete;
    update_update(&mut store, &mut bus, changed, false).expect("mutated");
    assert_eq!(store.updates.len(), 1);
    assert!(!store.updates[0].success);
    assert_eq!(store.updates[0].status, UpdateStatus::Complete);
    let seen = bus.recv(&mut rx).expect("republished projection");
    assert_eq!(seen.id, id);
    assert_eq!(seen.status, UpdateStatus::Complete);
}

#[test]
fn group_grant_delivers_the_event() {
    let mut store = Store::new();
    store.users.push(user("a", "alice", false, true));
    store.user_groups.push(UserGroup {
        id: "g".to_string(),
        users: vec!["a".to_string()],
    });
    store.permissions.push(monitor_core::model::Permission {
        id: String::new(),
        user_target: UserTarget::UserGroup("g".to_string()),
        resource_target: server_target("s"),
        level: PermissionLevel::Read,
    });
    let mut session = streaming_session(user("a", "alice", false, true));
    let item = sample_item("s");
    let action = session.handle_bus_item_with_store(&store, &item);
    let expected = serialize_update_list_item(&item);
    assert!(matches!(action, StreamAction::Forward(f) if f == expected));
    assert_eq!(session.state, SessionState::Streaming);
}

#[test]
fn ungranted_user_sees_nothing_and_stays_connected() {
    let mut store = Store::new();
    store.users.push(user("b", "bob", false, true));
    let mut session = streaming_session(user("b", "bob", false, true));
    let item = sample_item("s");
    let action = session.handle_bus_item_with_store(&store, &item);
    assert!(matches!(action, StreamAction::Skip));
    assert_eq!(session.state, SessionState::Streaming);
}

#[test]
fn disabling_the_account_closes_the_stream_on_the_next_event() {
    let mut store = Store::new();
    store.users.push(user("a", "alice", true, true));
    let mut session = streaming_session(user("a", "alice", true, true));
    let item = sample_item("s");
    let action = session.handle_bus_item_with_store(&store, &item);
    assert!(matches!(action, StreamAction::Forward(_)));
    store.users[0].enabled = false;
    let action = session.handle_bus_item_with_store(&store, &item);
    let expected = invalid_user_frame("user not enabled");
    assert!(matches!(action, StreamAction::Disconnect(f) if f == expected));
    assert_eq!(session.state, SessionState::Closed);
}

#[test]
fn granting_read_takes_effect_without_reconnecting() {
    let mut store = Store::new();
    store.users.push(user("a", "alice", false, true));
    let mut session = streaming_session(user("a", "alice", false, true));
    let item = sample_item("s");
    let action = session.handle_bus_item_with_store(&store, &item);
    assert!(matches!(action, StreamAction::Skip));
    let account = user("a", "alice", false, true);
    store.create_permission(&account, server_target("s"), PermissionLevel::Read);
    let action = session.handle_bus_item_with_store(&store, &item);
    assert!(matches!(action, StreamAction::Forward(_)));
    assert_eq!(session.state, SessionState::Streaming);
}

#[test]
fn malformed_login_frame_rejects_and_closes() {
    let mut session = Session::connect();
    let flow = session.handle_login_frame(Some(Ok(WsFrame::Text("{not json".to_string()))));
    assert!(matches!(flow, LoginFlow::Reject(msg) if msg == "failed to parse login message"));
    assert_eq!(session.state, SessionState::Closed);
}

#[test]
fn non_text_login_frame_rejects_and_closes() {
    let mut session = Session::connect();
    let flow = session.handle_login_frame(Some(Ok(WsFrame::Binary)));
    assert!(matches!(flow, LoginFlow::Reject(msg) if msg == "invalid login message"));
    assert_eq!(session.state, SessionState::Closed);
}

#[test]
fn failed_verification_names_the_scheme() {
    let mut session = Session::connect();
    let flow = session.handle_login_frame(Some(Ok(WsFrame::Text(
        "{\"type\":\"ApiKeys\",\"key\":\"k\",\"secret\":\"s\"}".to_string(),
    ))));
    let msg = match flow {
        LoginFlow::NeedAuth(m) => m,
        LoginFlow::Reject(_) => unreachable!(),
    };
    let outcome = session.handle_auth(&msg, Err("bad key".to_string()));
    assert!(matches!(
        outcome,
        LoginOutcome::Reject(t) if t == "failed to authenticate user using api keys | bad key"
    ));
    assert_eq!(session.state, SessionState::Closed);
}

#[test]
fn store_failures_deny_the_event_but_keep_identity_failures_fatal() {
    let item = sample_item("s");
    // A failed permission lookup only denies this event.
    let mut session = streaming_session(user("a", "alice", false, true));
    let action = session.handle_bus_item(
        UserFetch::Found(user("a", "alice", false, true)),
        PermFetch::StoreFailed,
        &item,
    );
    assert!(matches!(action, StreamAction::Skip));
    assert_eq!(session.state, SessionState::Streaming);
    // A failed identity recheck closes the connection with the error text.
    let action = session.handle_bus_item(
        UserFetch::StoreFailed("store unreachable".to_string()),
        PermFetch::Level(PermissionLevel::Write),
        &item,
    );
    let expected = invalid_user_frame("store unreachable");
    assert!(matches!(action, StreamAction::Disconnect(f) if f == expected));
    assert_eq!(session.state, SessionState::Closed);
}

#[test]
fn missing_account_closes_the_stream() {
    let store = Store::new();
    let mut session = streaming_session(user("gone", "gone", false, true));
    let item = sample_item("s");
    let action = session.handle_bus_item_with_store(&store, &item);
    let expected = invalid_user_frame("user not found");
    assert!(matches!(action, StreamAction::Disconnect(f) if f == expected));
    assert_eq!(session.state, SessionState::Closed);
}

#[test]
fn peer_close_frame_cancels_the_streaming_loop() {
    let mut session = streaming_session(user("a", "alice", false, true));
    let decision = session.handle_client_frame(&Some(Ok(WsFrame::Close)));
    assert!(matches!(decision, InboundDecision::Cancel));
    assert_eq!(session.state, SessionState::Closed);
    let decision = session.handle_client_frame(&Some(Ok(WsFrame::Ping)));
    assert!(matches!(decision, InboundDecision::Continue));
    let decision = session.handle_client_frame(&None);
    assert!(matches!(decision, InboundDecision::Stop));
}
