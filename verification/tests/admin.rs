use kaguya::auth::admin::{run_admin, AdminError, ADMIN_USAGE};
use kaguya::auth::store::{Role, Store};

const REPO: &str = "urc-0194b726b34e72b0b45550b88a967076";

fn run(store: &mut Store, line: &str) -> Result<Vec<String>, AdminError> {
    let args: Vec<String> = line.split(' ').map(String::from).collect();
    run_admin(store, &args)
}

#[test]
fn grants_are_managed_by_commands() {
    let mut s = Store::open_in_memory();
    assert_eq!(
        run(&mut s, "grant alice urc-1 owner").unwrap(),
        vec!["granted owner on urc-1 to alice"]
    );
    assert_eq!(
        run(&mut s, "grant bob urc-1 writer").unwrap(),
        vec!["granted member on urc-1 to bob"]
    );
    assert_eq!(s.role_for("alice", "urc-1"), Some(Role::Owner));
    assert_eq!(s.role_for("bob", "urc-1"), Some(Role::Member));
    assert_eq!(run(&mut s, "ls urc-1").unwrap(), vec!["owner\talice", "member\tbob"]);
    assert_eq!(
        run(&mut s, "revoke bob urc-1").unwrap(),
        vec!["removed 1 grant(s) for bob on urc-1"]
    );
    assert_eq!(
        run(&mut s, "revoke bob urc-1").unwrap(),
        vec!["removed 0 grant(s) for bob on urc-1"]
    );
    assert_eq!(s.role_for("bob", "urc-1"), None);
}

#[test]
fn groups_are_managed_by_commands() {
    let mut s = Store::open_in_memory();
    s.grant("group:eng", REPO, Role::Member);
    assert_eq!(run(&mut s, "group-add eng carol").unwrap(), vec!["added carol to group eng"]);
    assert_eq!(s.role_for("carol", REPO), Some(Role::Member));
    assert_eq!(
        run(&mut s, "group-del eng carol").unwrap(),
        vec!["removed 1 membership(s) of carol in group eng"]
    );
    assert_eq!(
        run(&mut s, "group-del eng carol").unwrap(),
        vec!["removed 0 membership(s) of carol in group eng"]
    );
    assert_eq!(s.role_for("carol", REPO), None);
}

#[test]
fn an_empty_listing_prints_nothing() {
    let mut s = Store::open_in_memory();
    assert!(run(&mut s, "ls urc-1").unwrap().is_empty());
}

#[test]
fn an_unknown_role_is_refused() {
    let mut s = Store::open_in_memory();
    let e = run(&mut s, "grant alice urc-1 boss").unwrap_err();
    assert_eq!(e, AdminError::UnknownRole);
    assert_eq!(e.message(), "role must be 'owner' or 'member'");
    assert!(s.grant_rows().is_empty());
}

#[test]
fn other_commands_are_refused() {
    let mut s = Store::open_in_memory();
    for line in ["", "serve", "grant alice urc-1", "grant a b c d", "ls", "ls a b", "revoke a", "group-add a", "group-del a b c", "Grant a b owner"] {
        let e = run(&mut s, line).unwrap_err();
        assert_eq!(e, AdminError::InvalidCommand, "{line}");
        assert_eq!(e.message(), "invalid admin command");
    }
}

#[test]
fn the_usage_names_every_command() {
    let lines: Vec<&str> = ADMIN_USAGE.lines().collect();
    assert_eq!(lines.len(), 7);
    assert_eq!(lines[0], "usage: kaguya-auth <command>");
    assert_eq!(lines[1], "  grant <subject> <urc-id> <owner|member>   grant a role on a resource");
    assert_eq!(lines[5], "  ls <urc-id>                                list grants on a resource");
}
