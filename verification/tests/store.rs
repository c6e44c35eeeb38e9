use kaguya::auth::store::{Role, Store};

const REPO: &str = "urc-0194b726b34e72b0b45550b88a967076";
const OTHER: &str = "urc-0192ae48ccf17060bc1ba9d04f6acb2f";

#[test]
fn creator_becomes_owner_and_re_create_keeps_first_owner() {
    let mut s = Store::open_in_memory();
    s.record_owner("alice", REPO, "test");
    assert_eq!(s.role_for("alice", REPO), Some(Role::Owner));
    s.record_owner("mallory", REPO, "test");
    assert_eq!(s.role_for("alice", REPO), Some(Role::Owner));
    assert_eq!(s.role_for("mallory", REPO), None);
}

#[test]
fn no_grant_means_no_access() {
    let mut s = Store::open_in_memory();
    s.record_owner("alice", REPO, "");
    assert_eq!(s.role_for("bob", REPO), None);
    assert_eq!(s.role_for("alice", OTHER), None);
}

#[test]
fn direct_member_grant_gives_access_but_not_ownership() {
    let mut s = Store::open_in_memory();
    s.grant("bob", REPO, Role::Member);
    assert_eq!(s.role_for("bob", REPO), Some(Role::Member));
    assert!(!Role::Member.permissions().contains(&"owner".to_string()));
}

#[test]
fn group_membership_confers_the_group_grant() {
    let mut s = Store::open_in_memory();
    s.grant("group:eng", REPO, Role::Member);
    s.add_group_member("eng", "carol");
    assert_eq!(s.role_for("carol", REPO), Some(Role::Member));
    s.remove_group_member("eng", "carol");
    assert_eq!(s.role_for("carol", REPO), None);
}

#[test]
fn strongest_role_wins_across_paths() {
    let mut s = Store::open_in_memory();
    s.grant("dave", REPO, Role::Member);
    s.grant("group:admins", REPO, Role::Owner);
    s.add_group_member("admins", "dave");
    assert_eq!(s.role_for("dave", REPO), Some(Role::Owner));
}

#[test]
fn accessible_lists_direct_and_group_resources() {
    let mut s = Store::open_in_memory();
    s.record_owner("erin", REPO, "");
    s.grant("group:eng", OTHER, Role::Member);
    s.add_group_member("eng", "erin");
    let mut got = s.accessible("erin");
    got.sort();
    let mut want = vec![REPO.to_string(), OTHER.to_string()];
    want.sort();
    assert_eq!(got, want);
}

#[test]
fn revoke_and_delete_remove_access() {
    let mut s = Store::open_in_memory();
    s.record_owner("alice", REPO, "");
    s.grant("bob", REPO, Role::Member);
    assert_eq!(s.revoke("bob", REPO), 1);
    assert_eq!(s.role_for("bob", REPO), None);
    s.delete_resource(REPO);
    assert_eq!(s.role_for("alice", REPO), None);
    assert!(s.accessible("alice").is_empty());
}

#[test]
fn owner_permissions_carry_privileged_actions() {
    let owner = Role::Owner.permissions();
    for action in ["owner", "admin", "obliterate", "migrate"] {
        assert!(owner.contains(&action.to_string()), "owner needs {action}");
    }
}

#[test]
fn permissions_of_the_roles() {
    assert_eq!(
        Role::Owner.permissions(),
        vec!["owner", "admin", "obliterate", "migrate", "read", "write"]
    );
    assert_eq!(Role::Member.permissions(), vec!["read", "write"]);
}

#[test]
fn role_names() {
    assert_eq!(Role::Owner.as_str(), "owner");
    assert_eq!(Role::Member.as_str(), "member");
    assert_eq!(Role::parse("owner"), Some(Role::Owner));
    assert_eq!(Role::parse("member"), Some(Role::Member));
    assert_eq!(Role::parse("writer"), Some(Role::Member));
    assert_eq!(Role::parse("reader"), Some(Role::Member));
    assert_eq!(Role::parse("Owner"), None);
    assert_eq!(Role::parse(""), None);
    assert!(Role::Owner > Role::Member);
}

#[test]
fn a_creator_with_a_grant_becomes_the_owner() {
    let mut s = Store::open_in_memory();
    s.grant("alice", REPO, Role::Member);
    s.grant("bob", REPO, Role::Member);
    s.record_owner("alice", REPO, "");
    assert_eq!(s.role_for("alice", REPO), Some(Role::Owner));
    assert_eq!(s.role_for("bob", REPO), Some(Role::Member));
}

#[test]
fn a_deleted_resource_can_be_created_by_another() {
    let mut s = Store::open_in_memory();
    s.record_owner("alice", REPO, "");
    s.delete_resource(REPO);
    s.record_owner("mallory", REPO, "");
    assert_eq!(s.role_for("mallory", REPO), Some(Role::Owner));
    assert_eq!(s.role_for("alice", REPO), None);
}

#[test]
fn a_grant_replaces_the_one_before() {
    let mut s = Store::open_in_memory();
    s.grant("bob", REPO, Role::Owner);
    s.grant("bob", REPO, Role::Member);
    assert_eq!(s.role_for("bob", REPO), Some(Role::Member));
    assert_eq!(s.list_grants(REPO), vec![("bob".to_string(), "member".to_string())]);
}

#[test]
fn removing_what_is_not_there_removes_nothing() {
    let mut s = Store::open_in_memory();
    assert_eq!(s.revoke("bob", REPO), 0);
    assert_eq!(s.remove_group_member("eng", "bob"), 0);
    s.add_group_member("eng", "bob");
    s.add_group_member("eng", "bob");
    assert_eq!(s.remove_group_member("eng", "bob"), 1);
}

#[test]
fn grants_are_listed_in_the_order_of_the_subjects() {
    let mut s = Store::open_in_memory();
    s.grant("b", REPO, Role::Member);
    s.grant("group:x", REPO, Role::Owner);
    s.grant("a", REPO, Role::Owner);
    s.grant("B", REPO, Role::Member);
    s.grant("z", OTHER, Role::Member);
    let list = s.list_grants(REPO);
    let subjects: Vec<&str> = list.iter().map(|g| g.0.as_str()).collect();
    assert_eq!(subjects, vec!["B", "a", "b", "group:x"]);
}

#[test]
fn a_group_of_a_group_confers_nothing() {
    let mut s = Store::open_in_memory();
    s.grant("group:all", REPO, Role::Member);
    s.add_group_member("all", "group:eng");
    s.add_group_member("eng", "carol");
    assert_eq!(s.role_for("carol", REPO), None);
    assert_eq!(s.role_for("group:eng", REPO), Some(Role::Member));
}

#[test]
fn a_row_with_an_unknown_role_is_listed_but_gives_no_role() {
    let mut s = Store::open_in_memory();
    s.put_grant_row("bob", REPO, "boss");
    assert_eq!(s.role_for("bob", REPO), None);
    assert_eq!(s.accessible("bob"), vec![REPO.to_string()]);
    assert_eq!(s.list_grants(REPO), vec![("bob".to_string(), "boss".to_string())]);
}

#[test]
fn rows_go_in_and_come_out() {
    let mut s = Store::open_in_memory();
    s.put_resource_row(REPO, "name", 17);
    s.put_grant_row("bob", REPO, "owner");
    s.add_group_member("eng", "carol");
    assert_eq!(s.resource_rows().len(), 1);
    assert_eq!(s.resource_rows()[0].urc_id, REPO);
    assert_eq!(s.resource_rows()[0].name, "name");
    assert_eq!(s.resource_rows()[0].created_at, 17);
    assert_eq!(s.grant_rows()[0].subject, "bob");
    assert_eq!(s.grant_rows()[0].urc_id, REPO);
    assert_eq!(s.grant_rows()[0].role, "owner");
    assert_eq!(s.member_rows()[0].grp, "eng");
    assert_eq!(s.member_rows()[0].subject, "carol");
}
