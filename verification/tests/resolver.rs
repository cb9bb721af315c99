use monitor_core::helpers::empty_or_only_spaces;
use monitor_core::helpers::get_deployment_state;
use monitor_core::helpers::get_server_with_status;
use monitor_core::helpers::id_or_name_filter;
use monitor_core::helpers::parse_comma_seperated_list;
use monitor_core::helpers::parse_network;
use monitor_core::helpers::parse_process_args;
use monitor_core::helpers::split_comma_nonempty;
use monitor_core::helpers::IdOrNameFilter;
use monitor_core::model::ContainerSummary;
use monitor_core::model::DockerContainerState;
use monitor_core::model::Permission;
use monitor_core::model::PermissionLevel;
use monitor_core::model::ResourceTarget;
use monitor_core::model::ResourceTargetVariant;
use monitor_core::model::ServerStatus;
use monitor_core::model::Tag;
use monitor_core::model::User;
use monitor_core::model::UserGroup;
use monitor_core::model::UserTarget;
use monitor_core::permission::get_resource_ids_for_non_admin;
use monitor_core::permission::get_user_permission_on_resource;
use monitor_core::permission::get_user_user_group_ids;
use monitor_core::permission::user_can_see_update;
use monitor_core::permission::user_target_query;
use monitor_core::store::Store;
use monitor_core::store::StoreError;

fn user(id: &str, username: &str, admin: bool, enabled: bool) -> User {
    User {
        id: id.to_string(),
        username: username.to_string(),
        admin,
        enabled,
        recently_viewed: Vec::new(),
    }
}

fn group(id: &str, members: &[&str]) -> UserGroup {
    UserGroup {
        id: id.to_string(),
        users: members.iter().map(|m| m.to_string()).collect(),
    }
}

fn server_target(id: &str) -> ResourceTarget {
    ResourceTarget {
        variant: ResourceTargetVariant::Server,
        id: id.to_string(),
    }
}

fn row(grantee: UserTarget, target: ResourceTarget, level: PermissionLevel) -> Permission {
    Permission {
        id: String::new(),
        user_target: grantee,
        resource_target: target,
        level,
    }
}

#[test]
fn effective_level_is_maximum_over_grant_paths() {
    let a = user("a", "alice", false, true);
    let groups = vec![group("g", &["a", "b"])];
    let rows = vec![
        row(
            UserTarget::UserGroup("g".to_string()),
            server_target("s1"),
            PermissionLevel::Read,
        ),
        row(
            UserTarget::User("a".to_string()),
            server_target("s1"),
            PermissionLevel::Execute,
        ),
        row(
            UserTarget::User("a".to_string()),
            server_target("s2"),
            PermissionLevel::Write,
        ),
    ];
    let level =
        get_user_permission_on_resource(&a, &groups, &rows, ResourceTargetVariant::Server, "s1");
    assert_eq!(level, PermissionLevel::Execute);
}

#[test]
fn effective_level_defaults_to_no_access() {
    let a = user("a", "alice", false, true);
    let level = get_user_permission_on_resource(
        &a,
        &Vec::new(),
        &Vec::new(),
        ResourceTargetVariant::Server,
        "s1",
    );
    assert_eq!(level, PermissionLevel::NoAccess);
}

#[test]
fn admin_resolves_to_maximal_level_without_rows() {
    let a = user("root", "root", true, true);
    let level = get_user_permission_on_resource(
        &a,
        &Vec::new(),
        &Vec::new(),
        ResourceTargetVariant::Server,
        "s1",
    );
    assert_eq!(level, PermissionLevel::Write);
}

#[test]
fn duplicate_rows_and_memberships_do_not_change_the_maximum() {
    let a = user("a", "alice", false, true);
    let groups_once = vec![group("g", &["a"])];
    let groups_twice = vec![group("g", &["a"]), group("g", &["a"])];
    let one_row = vec![row(
        UserTarget::UserGroup("g".to_string()),
        server_target("s1"),
        PermissionLevel::Read,
    )];
    let mut two_rows = one_row.clone();
    two_rows.push(row(
        UserTarget::UserGroup("g".to_string()),
        server_target("s1"),
        PermissionLevel::Read,
    ));
    let base = get_user_permission_on_resource(
        &a,
        &groups_once,
        &one_row,
        ResourceTargetVariant::Server,
        "s1",
    );
    let dup_rows = get_user_permission_on_resource(
        &a,
        &groups_once,
        &two_rows,
        ResourceTargetVariant::Server,
        "s1",
    );
    let dup_groups = get_user_permission_on_resource(
        &a,
        &groups_twice,
        &one_row,
        ResourceTargetVariant::Server,
        "s1",
    );
    assert_eq!(base, PermissionLevel::Read);
    assert_eq!(dup_rows, PermissionLevel::Read);
    assert_eq!(dup_groups, PermissionLevel::Read);
}

#[test]
fn group_ids_are_deduplicated() {
    let groups = vec![group("g", &["a"]), group("h", &["b"]), group("g", &["a"])];
    let ids = get_user_user_group_ids("a", &groups);
    assert_eq!(ids, vec!["g".to_string()]);
}

#[test]
fn user_target_query_lists_user_then_groups() {
    let gids = vec!["g".to_string(), "h".to_string()];
    let q = user_target_query("a", &gids);
    assert_eq!(q.len(), 3);
    assert!(matches!(&q[0], UserTarget::User(id) if id == "a"));
    assert!(matches!(&q[1], UserTarget::UserGroup(id) if id == "g"));
    assert!(matches!(&q[2], UserTarget::UserGroup(id) if id == "h"));
}

#[test]
fn accessible_ids_form_a_set() {
    let groups = vec![group("g", &["a"])];
    let rows = vec![
        row(
            UserTarget::User("a".to_string()),
            server_target("s1"),
            PermissionLevel::Read,
        ),
        row(
            UserTarget::UserGroup("g".to_string()),
            server_target("s1"),
            PermissionLevel::Execute,
        ),
        row(
            UserTarget::User("a".to_string()),
            server_target("s2"),
            PermissionLevel::NoAccess,
        ),
        row(
            UserTarget::User("a".to_string()),
            server_target("s3"),
            PermissionLevel::Write,
        ),
        row(
            UserTarget::User("b".to_string()),
            server_target("s4"),
            PermissionLevel::Write,
        ),
    ];
    let ids = get_resource_ids_for_non_admin("a", &groups, &rows, ResourceTargetVariant::Server);
    assert_eq!(ids, vec!["s1".to_string(), "s3".to_string()]);
}

#[test]
fn visibility_needs_a_level_above_none() {
    let a = user("a", "alice", false, true);
    let rows = vec![row(
        UserTarget::User("a".to_string()),
        server_target("s1"),
        PermissionLevel::Read,
    )];
    assert!(user_can_see_update(
        &a,
        &server_target("s1"),
        &Vec::new(),
        &rows
    ));
    assert!(!user_can_see_update(
        &a,
        &server_target("s2"),
        &Vec::new(),
        &rows
    ));
}

#[test]
fn empty_or_only_spaces_cases() {
    assert!(empty_or_only_spaces(""));
    assert!(empty_or_only_spaces("   "));
    assert!(!empty_or_only_spaces(" a "));
    assert!(!empty_or_only_spaces("word"));
}

#[test]
fn split_comma_nonempty_drops_empty_segments() {
    let segs = split_comma_nonempty(",a,,bc,");
    assert_eq!(segs, vec!["a".to_string(), "bc".to_string()]);
    assert_eq!(split_comma_nonempty(""), Vec::<String>::new());
}

#[test]
fn parse_comma_seperated_list_parses_each_piece() {
    let parsed: Vec<i64> = parse_comma_seperated_list("1,2,,30").expect("list should parse");
    assert_eq!(parsed, vec![1, 2, 30]);
    let bad: Result<Vec<i64>, String> = parse_comma_seperated_list("1,x");
    assert!(bad.is_err());
}

#[test]
fn docker_argument_helpers() {
    assert_eq!(parse_network("bridge"), " --network bridge");
    assert_eq!(parse_process_args(&String::new()), "");
    assert_eq!(parse_process_args(&"--flag on".to_string()), " --flag on");
}

#[test]
fn id_or_name_filter_recognises_object_ids() {
    let hex = "0123456789abcdef01234567";
    assert!(matches!(id_or_name_filter(hex), IdOrNameFilter::Id(s) if s == hex));
    assert!(matches!(
        id_or_name_filter("my-server"),
        IdOrNameFilter::Name(s) if s == "my-server"
    ));
    assert!(matches!(
        id_or_name_filter("0123456789abcdef0123456z"),
        IdOrNameFilter::Name(_)
    ));
}

#[test]
fn server_status_decision() {
    assert_eq!(get_server_with_status(false, true), ServerStatus::Disabled);
    assert_eq!(get_server_with_status(true, true), ServerStatus::Healthy);
    assert_eq!(get_server_with_status(true, false), ServerStatus::Unhealthy);
}

#[test]
fn deployment_state_decision() {
    let containers = vec![
        ContainerSummary {
            name: "other".to_string(),
            state: DockerContainerState::Exited,
        },
        ContainerSummary {
            name: "app".to_string(),
            state: DockerContainerState::Running,
        },
    ];
    let name = "app".to_string();
    let server = "srv".to_string();
    assert_eq!(
        get_deployment_state(&String::new(), ServerStatus::Healthy, &containers, &name),
        DockerContainerState::NotDeployed
    );
    assert_eq!(
        get_deployment_state(&server, ServerStatus::Unhealthy, &containers, &name),
        DockerContainerState::Unknown
    );
    assert_eq!(
        get_deployment_state(&server, ServerStatus::Healthy, &containers, &name),
        DockerContainerState::Running
    );
    assert_eq!(
        get_deployment_state(&server, ServerStatus::Healthy, &containers, &"gone".to_string()),
        DockerContainerState::NotDeployed
    );
}

#[test]
fn get_user_prefers_the_service_account() {
    let mut store = Store::new();
    store.users.push(user("a", "alice", false, true));
    let svc = user("svc", "svc", true, true);
    let got = store.get_user("svc", Some(svc)).expect("service user");
    assert_eq!(got.username, "svc");
    let got = store.get_user("a", None).expect("stored user");
    assert_eq!(got.username, "alice");
    assert!(matches!(store.get_user("b", None), Err(StoreError::NotFound)));
}

#[test]
fn check_user_valid_demands_existence_and_enabled() {
    let mut store = Store::new();
    store.users.push(user("a", "alice", false, true));
    store.users.push(user("b", "bob", false, false));
    assert!(store.check_user_valid("a").is_ok());
    assert!(matches!(store.check_user_valid("b"), Err(StoreError::NotEnabled)));
    assert!(matches!(store.check_user_valid("c"), Err(StoreError::NotFound)));
}

#[test]
fn create_permission_skips_admins() {
    let mut store = Store::new();
    let admin = user("root", "root", true, true);
    store.create_permission(&admin, server_target("s1"), PermissionLevel::Write);
    assert_eq!(store.permissions.len(), 0);
    let a = user("a", "alice", false, true);
    store.create_permission(&a, server_target("s1"), PermissionLevel::Read);
    assert_eq!(store.permissions.len(), 1);
    assert!(matches!(&store.permissions[0].user_target, UserTarget::User(id) if id == "a"));
    assert_eq!(store.permissions[0].level, PermissionLevel::Read);
}

#[test]
fn remove_from_recently_viewed_touches_every_user() {
    let mut store = Store::new();
    let mut a = user("a", "alice", false, true);
    a.recently_viewed = vec![server_target("s1"), server_target("s2"), server_target("s1")];
    let mut b = user("b", "bob", false, true);
    b.recently_viewed = vec![server_target("s1")];
    store.users.push(a);
    store.users.push(b);
    store.remove_from_recently_viewed(&server_target("s1"));
    assert_eq!(store.users[0].recently_viewed.len(), 1);
    assert_eq!(store.users[0].recently_viewed[0].id, "s2");
    assert_eq!(store.users[1].recently_viewed.len(), 0);
    assert_eq!(store.users[0].username, "alice");
}

#[test]
fn tags_resolve_by_id_shape_or_name() {
    let mut store = Store::new();
    store.tags.push(Tag {
        id: "0123456789abcdef01234567".to_string(),
        name: "prod".to_string(),
        owner: "a".to_string(),
    });
    let by_id = store.get_tag("0123456789abcdef01234567").expect("by id");
    assert_eq!(by_id.name, "prod");
    let by_name = store.get_tag("prod").expect("by name");
    assert_eq!(by_name.owner, "a");
    assert!(matches!(store.get_tag("missing"), Err(StoreError::NotFound)));
}

#[test]
fn tag_ownership_gate() {
    let mut store = Store::new();
    store.tags.push(Tag {
        id: "0123456789abcdef01234567".to_string(),
        name: "prod".to_string(),
        owner: "a".to_string(),
    });
    let owner = user("a", "alice", false, true);
    let admin = user("root", "root", true, true);
    let other = user("b", "bob", false, true);
    assert!(store.get_tag_check_owner("prod", &owner).is_ok());
    assert!(store.get_tag_check_owner("prod", &admin).is_ok());
    assert!(matches!(
        store.get_tag_check_owner("prod", &other),
        Err(StoreError::NotOwner)
    ));
}
