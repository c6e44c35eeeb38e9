//! What the calls on the grants and the logins come to, one after another.
use vstd::prelude::*;

use crate::auth::access::{
    creation_concerns_the_creator_only, creator_becomes_owner, deletion_removes_all_access,
    grant_gives_access, grant_gives_exactly_its_role, granting_concerns_one_grant,
    group_grant_counts, joining_concerns_one_membership, names_of_roles, no_other_grant_counts,
    own_grant_counts, owners_are_named_owners, permissions_of_roles, role_names_read_back,
    same_but_one_grant,
};
use crate::auth::admin::{
    grant_command_grants_the_role, grant_command_reads_the_role,
    group_commands_change_the_membership, ls_command_lists_the_grants, other_commands_are_refused,
    revoke_command_takes_the_grant_away, run_admin, AdminError,
};
use crate::auth::store::{
    acts_as, grant_at, grant_key, member_key, resource_at, GrantRow, MemberRow, ResourceRow, Role,
    Store,
};
use crate::clock::is_time;
use crate::text::{text_before, texts};

verus! {

/// Whoever creates a resource that was not there is told to be its owner from then on, and
/// what others are told of other resources stays.
pub proof fn creator_is_told_to_be_the_owner(
    create: &mut Store,
    owner: &str,
    urc_id: &str,
    name: &str,
    created_at: i64,
    after: &Store,
    role: Option<Role>,
    before: &Store,
    subject: &str,
    other: &str,
    was: Option<Role>,
    is: Option<Role>,
)
    requires
        call_ensures(Store::record_owner_at, (create, owner, urc_id, name, created_at), ()),
        call_ensures(Store::role_for, (after, owner, urc_id), role),
        call_ensures(Store::role_for, (before, subject, other), was),
        call_ensures(Store::role_for, (after, subject, other), is),
        before@ == old(create)@,
        after@ == final(create)@,
    ensures
        !before@.resources.contains_key(urc_id@) ==> role == Some(Role::Owner),
        !before@.resources.contains_key(urc_id@) ==> after@.resources.contains_key(urc_id@)
            && after@.resources[urc_id@] == (name@, created_at),
        before@.resources.contains_key(urc_id@) ==> after@ == before@,
        other@ != urc_id@ ==> is == was,
        after@.members == before@.members,
{
    if !before@.resources.contains_key(urc_id@) {
        creator_becomes_owner(before@, owner@, urc_id@, name@, created_at);
    }
    if other@ != urc_id@ {
        creation_concerns_the_creator_only(
            before@,
            owner@,
            urc_id@,
            name@,
            created_at,
            subject@,
            other@,
        );
    }
}

/// A role that was granted is the role that is told, or a stronger one through a group;
/// without a group that has a grant there, it is exactly that role.
pub proof fn granted_role_is_told(
    grant: &mut Store,
    subject: &str,
    urc_id: &str,
    role: Role,
    after: &Store,
    is: Option<Role>,
)
    requires
        call_ensures(Store::grant, (grant, subject, urc_id, role), ()),
        call_ensures(Store::role_for, (after, subject, urc_id), is),
        after@ == final(grant)@,
    ensures
        is == Some(role) || is == Some(Role::Owner),
        (forall|grp: Seq<char>| #[trigger]
            old(grant)@.members.contains((grp, subject@)) ==> !old(grant)@.grants.contains_key(
                ("group:"@ + grp, urc_id@),
            )) ==> is == Some(role),
        same_but_one_grant(old(grant)@, after@, subject@, urc_id@),
        after@.resources == old(grant)@.resources,
        after@.members == old(grant)@.members,
{
    let v = old(grant)@;
    assert(acts_as(v, subject@, subject@));
    grant_gives_access(v, subject@, urc_id@, role, subject@);
    granting_concerns_one_grant(v, subject@, urc_id@, role);
    if forall|grp: Seq<char>| #[trigger]
        v.members.contains((grp, subject@)) ==> !v.grants.contains_key(("group:"@ + grp, urc_id@)) {
        grant_gives_exactly_its_role(v, subject@, urc_id@, role);
    }
}

/// A grant that was revoked is told of no more: one is counted where there was one, and
/// without a group that has a grant there, no role is left. The other grants stay.
pub proof fn revoked_grant_is_told_no_more(
    revoke: &mut Store,
    subject: &str,
    urc_id: &str,
    n: usize,
    after: &Store,
    is: Option<Role>,
)
    requires
        call_ensures(Store::revoke, (revoke, subject, urc_id), n),
        call_ensures(Store::role_for, (after, subject, urc_id), is),
        after@ == final(revoke)@,
    ensures
        n == 1 <==> old(revoke)@.grants.contains_key((subject@, urc_id@)),
        n == 0 || n == 1,
        (forall|grp: Seq<char>| #[trigger]
            old(revoke)@.members.contains((grp, subject@)) ==> !old(revoke)@.grants.contains_key(
                ("group:"@ + grp, urc_id@),
            )) ==> is is None,
        !after@.grants.contains_key((subject@, urc_id@)),
        same_but_one_grant(old(revoke)@, after@, subject@, urc_id@),
        after@.resources == old(revoke)@.resources,
        after@.members == old(revoke)@.members,
{
    let v = old(revoke)@;
    granting_concerns_one_grant(v, subject@, urc_id@, Role::Member);
    if forall|grp: Seq<char>| #[trigger]
        v.members.contains((grp, subject@)) ==> !v.grants.contains_key(("group:"@ + grp, urc_id@)) {
        no_other_grant_counts(after@, subject@, urc_id@);
    }
}

/// A subject that joined a group has the group's role, or a stronger one, on every resource
/// that the group has a grant on.
pub proof fn joined_group_is_told_of(
    join: &mut Store,
    grp: &str,
    subject: &str,
    after: &Store,
    urc_id: &str,
    is: Option<Role>,
    other: (Seq<char>, Seq<char>),
)
    requires
        call_ensures(Store::add_group_member, (join, grp, subject), ()),
        call_ensures(Store::role_for, (after, subject, urc_id), is),
        after@ == final(join)@,
    ensures
        old(join)@.grants.contains_key(("group:"@ + grp@, urc_id@)) ==> {
            let name = old(join)@.grants[("group:"@ + grp@, urc_id@)];
            &&& name == "owner"@ ==> is == Some(Role::Owner)
            &&& name == "member"@ || name == "writer"@ || name == "reader"@ ==> is is Some
        },
        after@.members.contains((grp@, subject@)),
        other != (grp@, subject@) ==> after@.members.contains(other) == old(join)@.members.contains(
            other,
        ),
        after@.grants == old(join)@.grants,
        after@.resources == old(join)@.resources,
{
    joining_concerns_one_membership(old(join)@, grp@, subject@, other);
    if old(join)@.grants.contains_key(("group:"@ + grp@, urc_id@)) {
        names_of_roles(old(join)@.grants[("group:"@ + grp@, urc_id@)]);
        group_grant_counts(after@, grp@, subject@, urc_id@);
    }
}

/// A subject that left a group is counted where it was a member, and has no role where
/// neither it nor another of its groups has a grant.
pub proof fn left_group_is_told_of_no_more(
    leave: &mut Store,
    grp: &str,
    subject: &str,
    n: usize,
    after: &Store,
    urc_id: &str,
    is: Option<Role>,
    other: (Seq<char>, Seq<char>),
)
    requires
        call_ensures(Store::remove_group_member, (leave, grp, subject), n),
        call_ensures(Store::role_for, (after, subject, urc_id), is),
        after@ == final(leave)@,
    ensures
        n == 1 <==> old(leave)@.members.contains((grp@, subject@)),
        n == 0 || n == 1,
        !old(leave)@.grants.contains_key((subject@, urc_id@)) && (forall|g: Seq<char>| #[trigger]
            old(leave)@.members.contains((g, subject@)) && g != grp@
                ==> !old(leave)@.grants.contains_key(("group:"@ + g, urc_id@))) ==> is is None,
        !after@.members.contains((grp@, subject@)),
        other != (grp@, subject@) ==> after@.members.contains(other)
            == old(leave)@.members.contains(other),
        after@.grants == old(leave)@.grants,
        after@.resources == old(leave)@.resources,
{
    let v = old(leave)@;
    joining_concerns_one_membership(v, grp@, subject@, other);
    if !v.grants.contains_key((subject@, urc_id@)) && (forall|g: Seq<char>| #[trigger]
        v.members.contains((g, subject@)) && g != grp@ ==> !v.grants.contains_key(
            ("group:"@ + g, urc_id@),
        )) {
        assert forall|g: Seq<char>| #[trigger] after@.members.contains((g, subject@)) implies
            !after@.grants.contains_key(("group:"@ + g, urc_id@)) by {
            assert(v.members.contains((g, subject@)));
        }
        no_other_grant_counts(after@, subject@, urc_id@);
    }
}

/// Nobody is told of a role on a resource that was deleted, nor finds it among what they can
/// reach; what anybody is told of another resource stays.
pub proof fn deleted_resource_is_told_of_no_more(
    delete: &mut Store,
    urc_id: &str,
    after: &Store,
    subject: &str,
    is: Option<Role>,
    list: Vec<String>,
    before: &Store,
    other: &str,
    was: Option<Role>,
    stays: Option<Role>,
)
    requires
        call_ensures(Store::delete_resource, (delete, urc_id), ()),
        call_ensures(Store::role_for, (after, subject, urc_id), is),
        call_ensures(Store::accessible, (after, subject), list),
        call_ensures(Store::role_for, (before, subject, other), was),
        call_ensures(Store::role_for, (after, subject, other), stays),
        before@ == old(delete)@,
        after@ == final(delete)@,
    ensures
        is is None,
        !texts(list@).contains(urc_id@),
        !after@.resources.contains_key(urc_id@),
        other@ != urc_id@ ==> stays == was,
        after@.members == before@.members,
{
    deletion_removes_all_access(before@, urc_id@, subject@, other@);
}

/// What a subject can reach is listed: a resource that it, or a group that it is a member
/// of, has a grant on, and no other, each once.
pub proof fn reachable_resources_are_listed(
    store: &Store,
    subject: &str,
    list: Vec<String>,
    urc_id: Seq<char>,
    grp: Seq<char>,
)
    requires
        call_ensures(Store::accessible, (store, subject), list),
    ensures
        store@.grants.contains_key((subject@, urc_id)) ==> texts(list@).contains(urc_id),
        store@.members.contains((grp, subject@)) && store@.grants.contains_key(
            ("group:"@ + grp, urc_id),
        ) ==> texts(list@).contains(urc_id),
        !store@.grants.contains_key((subject@, urc_id)) && (forall|g: Seq<char>| #[trigger]
            store@.members.contains((g, subject@)) ==> !store@.grants.contains_key(
                ("group:"@ + g, urc_id),
            )) ==> !texts(list@).contains(urc_id),
        forall|i: int, j: int|
            0 <= i < j < list@.len() ==> (#[trigger] list@[i])@ != (#[trigger] list@[j])@,
{
    let v = store@;
    if v.grants.contains_key((subject@, urc_id)) {
        own_grant_counts(v, subject@, urc_id);
    }
    if v.members.contains((grp, subject@)) && v.grants.contains_key(("group:"@ + grp, urc_id)) {
        group_grant_counts(v, grp, subject@, urc_id);
    }
    if !v.grants.contains_key((subject@, urc_id)) && (forall|g: Seq<char>| #[trigger]
        v.members.contains((g, subject@)) ==> !v.grants.contains_key(("group:"@ + g, urc_id))) {
        no_other_grant_counts(v, subject@, urc_id);
    }
    assert forall|i: int, j: int| 0 <= i < j < list@.len() implies (#[trigger] list@[i])@ != (
    #[trigger] list@[j])@ by {
        assert(texts(list@)[i] == list@[i]@);
        assert(texts(list@)[j] == list@[j]@);
    }
}

/// The role that is told is the stronger of the subject's own grant and those of its
/// groups: an owner is told exactly where one of them says owner.
pub proof fn told_role_is_the_strongest(
    store: &Store,
    subject: &str,
    urc_id: &str,
    is: Option<Role>,
    grp: Seq<char>,
)
    requires
        call_ensures(Store::role_for, (store, subject, urc_id), is),
    ensures
        store@.grants.contains_key((subject@, urc_id@)) && store@.grants[(subject@, urc_id@)]
            == "owner"@ ==> is == Some(Role::Owner),
        store@.members.contains((grp, subject@)) && store@.grants.contains_key(
            ("group:"@ + grp, urc_id@),
        ) && store@.grants[("group:"@ + grp, urc_id@)] == "owner"@ ==> is == Some(Role::Owner),
        store@.grants.contains_key((subject@, urc_id@)) && store@.grants[(subject@, urc_id@)]
            == "member"@ ==> is is Some,
        store@.members.contains((grp, subject@)) && store@.grants.contains_key(
            ("group:"@ + grp, urc_id@),
        ) && store@.grants[("group:"@ + grp, urc_id@)] == "member"@ ==> is is Some,
        is == Some(Role::Owner) ==> (store@.grants.contains_key((subject@, urc_id@))
            && store@.grants[(subject@, urc_id@)] == "owner"@) || exists|g: Seq<char>| #[trigger]
            store@.members.contains((g, subject@)) && store@.grants.contains_key(
                ("group:"@ + g, urc_id@),
            ) && store@.grants[("group:"@ + g, urc_id@)] == "owner"@,
        is is Some ==> store@.grants.contains_key((subject@, urc_id@)) || exists|g: Seq<char>|
            #[trigger]
            store@.members.contains((g, subject@)) && store@.grants.contains_key(
                ("group:"@ + g, urc_id@),
            ),
{
    let v = store@;
    if v.grants.contains_key((subject@, urc_id@)) {
        names_of_roles(v.grants[(subject@, urc_id@)]);
        own_grant_counts(v, subject@, urc_id@);
    }
    if v.members.contains((grp, subject@)) && v.grants.contains_key(("group:"@ + grp, urc_id@)) {
        names_of_roles(v.grants[("group:"@ + grp, urc_id@)]);
        group_grant_counts(v, grp, subject@, urc_id@);
    }
    if is == Some(Role::Owner) && !(v.grants.contains_key((subject@, urc_id@)) && v.grants[(
        subject@,
        urc_id@,
    )] == "owner"@) && !(exists|g: Seq<char>| #[trigger]
        v.members.contains((g, subject@)) && v.grants.contains_key(("group:"@ + g, urc_id@))
            && v.grants[("group:"@ + g, urc_id@)] == "owner"@) {
        owners_are_named_owners(v, subject@, urc_id@);
    }
    if is is Some && !v.grants.contains_key((subject@, urc_id@)) && !(exists|g: Seq<char>|
        #[trigger]
        v.members.contains((g, subject@)) && v.grants.contains_key(("group:"@ + g, urc_id@))) {
        no_other_grant_counts(v, subject@, urc_id@);
    }
}

/// A listing of grants names a subject.
pub open spec fn names_subject(list: Seq<(String, String)>, subject: Seq<char>) -> bool {
    exists|i: int| 0 <= i < list.len() && (#[trigger] list[i]).0@ == subject
}

/// The grants on a resource are listed one by one, with their role, in the order of the
/// subjects.
pub proof fn grants_are_listed_in_order(
    store: &Store,
    urc_id: &str,
    list: Vec<(String, String)>,
    subject: Seq<char>,
)
    requires
        call_ensures(Store::list_grants, (store, urc_id), list),
    ensures
        store@.grants.contains_key((subject, urc_id@)) <==> names_subject(list@, subject),
        forall|i: int|
            0 <= i < list@.len() ==> store@.grants.contains_key(((#[trigger] list@[i]).0@, urc_id@))
                && list@[i].1@ == store@.grants[(list@[i].0@, urc_id@)],
        forall|i: int, j: int|
            0 <= i < j < list@.len() ==> text_before(
                (#[trigger] list@[i]).0@,
                (#[trigger] list@[j]).0@,
            ),
{
    let args = (store, urc_id);
    assert(call_ensures(Store::list_grants, args, list));
    assert(args.0@.grants.contains_key((subject, args.1@)) ==> names_subject(list@, subject));
    if names_subject(list@, subject) {
        let i = choose|i: int| 0 <= i < list@.len() && (#[trigger] list@[i]).0@ == subject;
        assert(store@.grants.contains_key((list@[i].0@, urc_id@)));
    }
}

/// The rows of the tables are what the store holds: one row for each entry, as it is, and
/// no other.
pub proof fn rows_are_what_the_store_holds(
    store: &Store,
    resources: Vec<ResourceRow>,
    grants: Vec<GrantRow>,
    members: Vec<MemberRow>,
    urc_id: Seq<char>,
    grant: (Seq<char>, Seq<char>),
    member: (Seq<char>, Seq<char>),
)
    requires
        call_ensures(Store::resource_rows, (store,), &resources),
        call_ensures(Store::grant_rows, (store,), &grants),
        call_ensures(Store::member_rows, (store,), &members),
    ensures
        store@.resources.contains_key(urc_id) <==> exists|i: int|
            0 <= i < resources@.len() && (#[trigger] resources@[i]).urc_id@ == urc_id,
        forall|i: int|
            0 <= i < resources@.len() ==> store@.resources[(#[trigger] resources@[i]).urc_id@] == (
                resources@[i].name@,
                resources@[i].created_at,
            ),
        store@.grants.contains_key(grant) <==> exists|i: int|
            0 <= i < grants@.len() && (#[trigger] grants@[i]).subject@ == grant.0
                && grants@[i].urc_id@ == grant.1,
        forall|i: int|
            0 <= i < grants@.len() ==> store@.grants[(
                (#[trigger] grants@[i]).subject@,
                grants@[i].urc_id@,
            )] == grants@[i].role@,
        store@.members.contains(member) <==> exists|i: int|
            0 <= i < members@.len() && (#[trigger] members@[i]).grp@ == member.0
                && members@[i].subject@ == member.1,
{
    if store@.resources.contains_key(urc_id) {
        let i = choose|i: int|
            0 <= i < resources@.len() && (#[trigger] resources@[i]).urc_id@ == urc_id;
        assert(resources@[i].urc_id@ == urc_id);
    }
    assert forall|i: int| 0 <= i < resources@.len() implies store@.resources[(
    #[trigger] resources@[i]).urc_id@] == (resources@[i].name@, resources@[i].created_at) by {
        let j = resource_at(resources@, resources@[i].urc_id@);
        assert(0 <= j < resources@.len() && resources@[j].urc_id@ == resources@[i].urc_id@);
        assert(i == j);
    }
    if store@.grants.contains_key(grant) {
        let i = choose|i: int|
            0 <= i < grants@.len() && grant_key(#[trigger] grants@[i]) == grant;
        assert(grants@[i].subject@ == grant.0);
    }
    assert forall|i: int| 0 <= i < grants@.len() implies store@.grants[(
        (#[trigger] grants@[i]).subject@,
        grants@[i].urc_id@,
    )] == grants@[i].role@ by {
        let k = (grants@[i].subject@, grants@[i].urc_id@);
        let j = grant_at(grants@, k);
        assert(grant_key(grants@[i]) == k);
        assert(0 <= j < grants@.len() && grant_key(grants@[j]) == k);
        assert(i == j);
    }
    if store@.members.contains(member) {
        let i = choose|i: int|
            0 <= i < members@.len() && member_key(#[trigger] members@[i])
                == member;
        assert(members@[i].grp@ == member.0);
    }
}

/// A role is read from its name and written as it, and gives what a role of that name
/// gives.
pub proof fn role_is_read_from_its_name(
    s: &str,
    read: Option<Role>,
    role: Role,
    name: &'static str,
    permissions: Vec<String>,
)
    requires
        call_ensures(Role::parse, (s,), read),
        call_ensures(Role::as_str, (role,), name),
        call_ensures(Role::permissions, (role,), permissions),
    ensures
        read == Some(Role::Owner) <==> s@ == "owner"@,
        read == Some(Role::Member) <==> s@ == "member"@ || s@ == "writer"@ || s@ == "reader"@,
        s@ == name@ ==> read == Some(role),
        role == Role::Owner ==> name@ == "owner"@ && texts(permissions@) == seq![
            "owner"@,
            "admin"@,
            "obliterate"@,
            "migrate"@,
            "read"@,
            "write"@,
        ],
        role == Role::Member ==> name@ == "member"@ && texts(permissions@) == seq![
            "read"@,
            "write"@,
        ],
{
    names_of_roles(s@);
    names_of_roles(name@);
    role_names_read_back(role);
    permissions_of_roles();
}

/// What the `grant` command granted is in force: the subject is told to have that role, or
/// through a group a stronger one. What the `revoke` command took away is not.
pub proof fn admin_grant_is_in_force(
    grant: &mut Store,
    args: Vec<String>,
    r: Result<Vec<String>, AdminError>,
    after: &Store,
    subject: &str,
    urc_id: &str,
    is: Option<Role>,
)
    requires
        call_ensures(run_admin, (grant, &args), r),
        call_ensures(Store::role_for, (after, subject, urc_id), is),
        after@ == final(grant)@,
        args@.len() == 4 && args@[0]@ == "grant"@ || args@.len() == 3 && args@[0]@ == "revoke"@,
        args@[1]@ == subject@,
        args@[2]@ == urc_id@,
    ensures
        ({
            let v = old(grant)@;
            let alone = forall|grp: Seq<char>| #[trigger]
                v.members.contains((grp, subject@)) ==> !v.grants.contains_key(
                    ("group:"@ + grp, urc_id@),
                );
            &&& args@[0]@ == "grant"@ && args@[3]@ == "owner"@ ==> r is Ok && is == Some(
                Role::Owner,
            )
            &&& args@[0]@ == "grant"@ && args@[3]@ == "member"@ ==> r is Ok && is is Some && (alone
                ==> is == Some(Role::Member))
            &&& args@[0]@ == "grant"@ && args@[3]@ != "owner"@ && args@[3]@ != "member"@
                && args@[3]@ != "writer"@ && args@[3]@ != "reader"@ ==> r == Err::<
                Vec<String>,
                AdminError,
            >(AdminError::UnknownRole) && after@ == v
            &&& args@[0]@ == "revoke"@ && alone ==> r is Ok && is is None
            &&& same_but_one_grant(v, after@, subject@, urc_id@)
            &&& after@.resources == v.resources && after@.members == v.members
        }),
{
    let v = old(grant)@;
    let t = texts(args@);
    assert(t[0] == args@[0]@ && t[1] == args@[1]@ && t[2] == args@[2]@);
    reveal_strlit("grant");
    reveal_strlit("revoke");
    assert("grant"@.len() != "revoke"@.len());
    if args@[0]@ == "grant"@ {
        assert(t[3] == args@[3]@);
        names_of_roles(t[3]);
        grant_command_reads_the_role(t);
        if t[3] == "owner"@ {
            grant_command_grants_the_role(v, t, Role::Owner);
        } else if t[3] == "member"@ {
            grant_command_grants_the_role(v, t, Role::Member);
        } else if t[3] == "writer"@ || t[3] == "reader"@ {
            granting_concerns_one_grant(v, subject@, urc_id@, Role::Member);
        }
    } else {
        revoke_command_takes_the_grant_away(v, t);
        if forall|grp: Seq<char>| #[trigger]
            v.members.contains((grp, subject@)) ==> !v.grants.contains_key(
                ("group:"@ + grp, urc_id@),
            ) {
            no_other_grant_counts(after@, subject@, urc_id@);
        }
    }
}

/// The group commands change who is a member of the group, and nothing else; anything that
/// is no command changes nothing at all.
pub proof fn admin_groups_are_in_force(
    store: &mut Store,
    args: Vec<String>,
    r: Result<Vec<String>, AdminError>,
    other: (Seq<char>, Seq<char>),
)
    requires
        call_ensures(run_admin, (store, &args), r),
        args@.len() > 0,
    ensures
        args@.len() == 3 && (args@[0]@ == "group-add"@ || args@[0]@ == "group-del"@) ==> {
            &&& r is Ok
            &&& final(store)@.members.contains((args@[1]@, args@[2]@)) <==> args@[0]@
                == "group-add"@
            &&& other != (args@[1]@, args@[2]@) ==> final(store)@.members.contains(other)
                == old(store)@.members.contains(other)
            &&& final(store)@.grants == old(store)@.grants
            &&& final(store)@.resources == old(store)@.resources
        },
        args@.len() == 2 && args@[0]@ == "ls"@ ==> r is Ok && final(store)@ == old(store)@,
        args@[0]@ != "grant"@ && args@[0]@ != "revoke"@ && args@[0]@ != "group-add"@ && args@[0]@
            != "group-del"@ && args@[0]@ != "ls"@ ==> final(store)@ == old(store)@ && r == Err::<
            Vec<String>,
            AdminError,
        >(AdminError::InvalidCommand),
{
    let v = old(store)@;
    let t = texts(args@);
    assert(t[0] == args@[0]@);
    if t.len() == 3 && (t[0] == "group-add"@ || t[0] == "group-del"@) {
        assert(t[1] == args@[1]@ && t[2] == args@[2]@);
        group_commands_change_the_membership(v, t, other);
    } else if t.len() == 2 && t[0] == "ls"@ {
        reveal_strlit("grant");
        reveal_strlit("revoke");
        reveal_strlit("group-add");
        reveal_strlit("group-del");
        reveal_strlit("ls");
        assert("ls"@.len() == 2);
        ls_command_lists_the_grants(v, t, texts(r->Ok_0@), ""@);
    } else if t[0] != "grant"@ && t[0] != "revoke"@ && t[0] != "group-add"@ && t[0]
        != "group-del"@ && t[0] != "ls"@ {
        other_commands_are_refused(t);
    }
}

/// In a store that was just opened nobody reaches anything, and nothing is recorded.
pub proof fn opened_store_is_empty(
    store: Store,
    subject: &str,
    urc_id: &str,
    is: Option<Role>,
    list: Vec<String>,
)
    requires
        call_ensures(Store::open_in_memory, (), store),
        call_ensures(Store::role_for, (&store, subject, urc_id), is),
        call_ensures(Store::accessible, (&store, subject), list),
    ensures
        is is None,
        list@.len() == 0,
        !store@.resources.contains_key(urc_id@),
{
    no_other_grant_counts(store@, subject@, urc_id@);
    if list@.len() > 0 {
        let first = texts(list@)[0];
        assert(texts(list@).contains(first));
        no_other_grant_counts(store@, subject@, first);
    }
}

/// A row that is read in counts as what it says, in place of one with the same key, and
/// changes no other.
pub proof fn row_that_is_read_in_counts(
    grants: &mut Store,
    subject: &str,
    urc_id: &str,
    role: &str,
    after: &Store,
    is: Option<Role>,
    resources: &mut Store,
    name: &str,
    created_at: i64,
    other: Seq<char>,
)
    requires
        call_ensures(Store::put_grant_row, (grants, subject, urc_id, role), ()),
        call_ensures(Store::role_for, (after, subject, urc_id), is),
        call_ensures(Store::put_resource_row, (resources, urc_id, name, created_at), ()),
        after@ == final(grants)@,
    ensures
        role@ == "owner"@ ==> is == Some(Role::Owner),
        role@ == "member"@ || role@ == "writer"@ || role@ == "reader"@ ==> is is Some,
        after@.grants.contains_key((subject@, urc_id@)),
        after@.grants[(subject@, urc_id@)] == role@,
        same_but_one_grant(old(grants)@, after@, subject@, urc_id@),
        after@.resources == old(grants)@.resources,
        after@.members == old(grants)@.members,
        final(resources)@.resources.contains_key(urc_id@),
        final(resources)@.resources[urc_id@] == (name@, created_at),
        other != urc_id@ ==> final(resources)@.resources.contains_key(other)
            == old(resources)@.resources.contains_key(other) && (old(resources)@.resources.contains_key(
            other,
        ) ==> final(resources)@.resources[other]
            == old(resources)@.resources[other]),
        final(resources)@.grants == old(resources)@.grants,
        final(resources)@.members == old(resources)@.members,
{
    names_of_roles(role@);
    own_grant_counts(after@, subject@, urc_id@);
}

/// What is told of a command that was not carried out is why.
pub proof fn refused_command_is_told_why(
    e: AdminError,
    r: &'static str,
)
    requires
        call_ensures(AdminError::message, (e,), r),
    ensures
        e == AdminError::UnknownRole ==> r@ == "role must be 'owner' or 'member'"@,
        e == AdminError::InvalidCommand ==> r@ == "invalid admin command"@,
{
}

/// Whatever the time is, whoever creates a resource that was not there becomes its owner,
/// and a resource that was there stays as it is.
pub proof fn creator_becomes_the_owner_at_any_time(
    create: &mut Store,
    owner: &str,
    urc_id: &str,
    name: &str,
)
    requires
        call_ensures(Store::record_owner, (create, owner, urc_id, name), ()),
    ensures
        old(create)@.resources.contains_key(urc_id@) ==> final(create)@ == old(create)@,
        !old(create)@.resources.contains_key(urc_id@) ==> {
            &&& final(create)@.resources.contains_key(urc_id@)
            &&& final(create)@.resources[urc_id@].0 == name@
            &&& is_time(final(create)@.resources[urc_id@].1)
            &&& final(create)@.grants.contains_key((owner@, urc_id@))
            &&& final(create)@.grants[(owner@, urc_id@)] == "owner"@
        },
        same_but_one_grant(old(create)@, final(create)@, owner@, urc_id@),
        final(create)@.members == old(create)@.members,
{
}

}
