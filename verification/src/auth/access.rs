//! What holds of access, whatever the store records.
use vstd::prelude::*;

use crate::auth::store::{
    acts_as, effective_role, holds, reaches, role_name, role_named, role_permissions, with_grant,
    with_member, with_owner, without_grant, without_member, without_resource, Role, StoreView,
};

verus! {

/// Role names read back as the role they were written for.
pub proof fn role_names_read_back(role: Role)
    ensures
        role_named(role_name(role)) == Some(role),
{
    reveal_strlit("owner");
    reveal_strlit("member");
    assert("owner"@.len() != "member"@.len());
}

/// An owner's permissions are the four privileged ones and all of a member's; a
/// member has none of the privileged ones.
pub proof fn only_owners_are_privileged()
    ensures
        forall|p: Seq<char>| #[trigger]
            role_permissions(Role::Owner).contains(p) <==> p == "owner"@ || p == "admin"@ || p
                == "obliterate"@ || p == "migrate"@ || role_permissions(Role::Member).contains(p),
        !role_permissions(Role::Member).contains("owner"@),
        !role_permissions(Role::Member).contains("admin"@),
        !role_permissions(Role::Member).contains("obliterate"@),
        !role_permissions(Role::Member).contains("migrate"@),
{
    reveal_strlit("owner");
    reveal_strlit("admin");
    reveal_strlit("obliterate");
    reveal_strlit("migrate");
    reveal_strlit("read");
    reveal_strlit("write");
    let owner = role_permissions(Role::Owner);
    let member = role_permissions(Role::Member);
    assert("owner"@[0] == 'o' && "admin"@[0] == 'a' && "obliterate"@[0] == 'o' && "migrate"@[0]
        == 'm' && "read"@[0] == 'r' && "write"@[0] == 'w');
}

/// A subject with no grant on a resource, of its own or of a group, has no role
/// on it.
pub proof fn no_grant_no_access(v: StoreView, subject: Seq<char>, urc_id: Seq<char>)
    requires
        !reaches(v, subject, urc_id),
    ensures
        effective_role(v, subject, urc_id) is None,
{
}

/// The strongest grant wins: a subject is an owner exactly when some grant that
/// applies to it says so, and a member exactly when one says that and none says
/// owner.
pub proof fn strongest_grant_wins(v: StoreView, subject: Seq<char>, urc_id: Seq<char>)
    ensures
        effective_role(v, subject, urc_id) == Some(Role::Owner) <==> holds(
            v,
            subject,
            urc_id,
            Role::Owner,
        ),
        effective_role(v, subject, urc_id) == Some(Role::Member) <==> holds(
            v,
            subject,
            urc_id,
            Role::Member,
        ) && !holds(v, subject, urc_id, Role::Owner),
{
}

/// Any access is both to clone and to push: every role reads and writes.
pub proof fn every_role_reads_and_writes(role: Role)
    ensures
        role_permissions(role).contains("read"@),
        role_permissions(role).contains("write"@),
{
    let p = role_permissions(role);
    assert(p[p.len() - 2] == "read"@ && p[p.len() - 1] == "write"@);
}

/// Whoever first creates a resource owns it, whatever they could do with it before.
pub proof fn creator_becomes_owner(
    v: StoreView,
    owner: Seq<char>,
    urc_id: Seq<char>,
    name: Seq<char>,
    created_at: i64,
)
    requires
        !v.resources.contains_key(urc_id),
    ensures
        effective_role(with_owner(v, owner, urc_id, name, created_at), owner, urc_id) == Some(
            Role::Owner,
        ),
{
    role_names_read_back(Role::Owner);
    let w = with_owner(v, owner, urc_id, name, created_at);
    assert(acts_as(w, owner, owner));
}

/// Creating a resource again, by anyone, changes nothing: the first owner stays
/// and nobody is added.
pub proof fn re_create_changes_nothing(
    v: StoreView,
    first: Seq<char>,
    second: Seq<char>,
    urc_id: Seq<char>,
    name: Seq<char>,
    name_again: Seq<char>,
    created_at: i64,
    again_at: i64,
)
    ensures
        ({
            let once = with_owner(v, first, urc_id, name, created_at);
            with_owner(once, second, urc_id, name_again, again_at) == once
        }),
{
}

/// Creating a resource gives a role to nobody but its creator (or, where the
/// creator's name is that of a group, to the group's members), and changes no
/// role on another resource.
pub proof fn creation_concerns_the_creator_only(
    v: StoreView,
    owner: Seq<char>,
    urc_id: Seq<char>,
    name: Seq<char>,
    created_at: i64,
    subject: Seq<char>,
    other: Seq<char>,
)
    requires
        other != urc_id || !acts_as(v, subject, owner),
    ensures
        effective_role(with_owner(v, owner, urc_id, name, created_at), subject, other)
            == effective_role(v, subject, other),
{
    let w = with_owner(v, owner, urc_id, name, created_at);
    same_grants_same_role(v, w, subject, other);
}

/// Roles depend only on the memberships and on the grants that apply.
proof fn same_grants_same_role(v: StoreView, w: StoreView, subject: Seq<char>, urc_id: Seq<char>)
    requires
        v.members == w.members,
        forall|s: Seq<char>| #[trigger]
            acts_as(v, subject, s) ==> (v.grants.contains_key((s, urc_id))
                == w.grants.contains_key((s, urc_id))) && (v.grants.contains_key((s, urc_id))
                ==> v.grants[(s, urc_id)] == w.grants[(s, urc_id)]),
    ensures
        effective_role(v, subject, urc_id) == effective_role(w, subject, urc_id),
        reaches(v, subject, urc_id) == reaches(w, subject, urc_id),
{
    assert forall|s: Seq<char>| acts_as(v, subject, s) == acts_as(w, subject, s) by {}
}

/// A grant gives access at its role or a stronger one, to the subject itself and
/// to every member where the subject is a group.
pub proof fn grant_gives_access(
    v: StoreView,
    holder: Seq<char>,
    urc_id: Seq<char>,
    role: Role,
    subject: Seq<char>,
)
    requires
        acts_as(v, subject, holder),
    ensures
        ({
            let effective = effective_role(with_grant(v, holder, urc_id, role), subject, urc_id);
            effective == Some(role) || effective == Some(Role::Owner)
        }),
{
    role_names_read_back(role);
    let w = with_grant(v, holder, urc_id, role);
    if holder != subject {
        let g = choose|g: Seq<char>| #[trigger]
            v.members.contains((g, subject)) && holder == "group:"@ + g;
        assert(w.members.contains((g, subject)));
    }
    assert(acts_as(w, subject, holder));
}

/// A grant to a subject that no group gives anything on the resource gives it
/// exactly that role: a member grant is no ownership.
pub proof fn grant_gives_exactly_its_role(
    v: StoreView,
    subject: Seq<char>,
    urc_id: Seq<char>,
    role: Role,
)
    requires
        forall|s: Seq<char>| #[trigger]
            acts_as(v, subject, s) && v.grants.contains_key((s, urc_id)) ==> s == subject,
    ensures
        effective_role(with_grant(v, subject, urc_id, role), subject, urc_id) == Some(role),
{
    role_names_read_back(role);
    let w = with_grant(v, subject, urc_id, role);
    assert(acts_as(w, subject, subject));
    assert forall|other: Role| other != role implies !holds(w, subject, urc_id, other) by {
        if holds(w, subject, urc_id, other) {
            let s = choose|s: Seq<char>| #[trigger]
                acts_as(w, subject, s) && w.grants.contains_key((s, urc_id)) && role_named(
                    w.grants[(s, urc_id)],
                ) == Some(other);
            assert(acts_as(v, subject, s));
        }
    }
}

/// Revoking the only grant that applies to a subject takes its access away.
pub proof fn revoke_takes_access_away(v: StoreView, subject: Seq<char>, urc_id: Seq<char>)
    requires
        forall|s: Seq<char>| #[trigger]
            acts_as(v, subject, s) && v.grants.contains_key((s, urc_id)) ==> s == subject,
    ensures
        effective_role(without_grant(v, subject, urc_id), subject, urc_id) is None,
        !reaches(without_grant(v, subject, urc_id), subject, urc_id),
{
    let w = without_grant(v, subject, urc_id);
    if reaches(w, subject, urc_id) {
        let s = choose|s: Seq<char>| #[trigger]
            acts_as(w, subject, s) && w.grants.contains_key((s, urc_id));
        assert(acts_as(v, subject, s));
    }
    no_grant_no_access(w, subject, urc_id);
}

/// Granting and then revoking, where there was no grant before, undoes the
/// grant.
pub proof fn revoke_undoes_grant(
    v: StoreView,
    subject: Seq<char>,
    urc_id: Seq<char>,
    role: Role,
)
    requires
        !v.grants.contains_key((subject, urc_id)),
    ensures
        without_grant(with_grant(v, subject, urc_id, role), subject, urc_id) == v,
{
}

/// Joining a group confers the group's grants, at their role or a stronger one.
pub proof fn membership_confers_the_group_grant(
    v: StoreView,
    grp: Seq<char>,
    subject: Seq<char>,
    urc_id: Seq<char>,
    role: Role,
)
    requires
        v.grants.contains_key(("group:"@ + grp, urc_id)),
        role_named(v.grants[("group:"@ + grp, urc_id)]) == Some(role),
    ensures
        ({
            let effective = effective_role(with_member(v, grp, subject), subject, urc_id);
            effective == Some(role) || effective == Some(Role::Owner)
        }),
        reaches(with_member(v, grp, subject), subject, urc_id),
{
    let w = with_member(v, grp, subject);
    assert(w.members.contains((grp, subject)));
    assert(acts_as(w, subject, "group:"@ + grp));
}

/// Leaving the only group through which a subject reaches a resource takes its
/// access away.
pub proof fn leaving_takes_the_group_grant_away(
    v: StoreView,
    grp: Seq<char>,
    subject: Seq<char>,
    urc_id: Seq<char>,
)
    requires
        !v.grants.contains_key((subject, urc_id)),
        forall|g: Seq<char>| #[trigger]
            v.members.contains((g, subject)) && v.grants.contains_key(("group:"@ + g, urc_id)) ==> g
                == grp,
    ensures
        effective_role(without_member(v, grp, subject), subject, urc_id) is None,
        !reaches(without_member(v, grp, subject), subject, urc_id),
{
    let w = without_member(v, grp, subject);
    if reaches(w, subject, urc_id) {
        let s = choose|s: Seq<char>| #[trigger]
            acts_as(w, subject, s) && w.grants.contains_key((s, urc_id));
    }
    no_grant_no_access(w, subject, urc_id);
}

/// Deleting a resource takes everybody's access to it away, and nobody's access
/// to another one.
pub proof fn deletion_removes_all_access(
    v: StoreView,
    urc_id: Seq<char>,
    subject: Seq<char>,
    other: Seq<char>,
)
    ensures
        effective_role(without_resource(v, urc_id), subject, urc_id) is None,
        !reaches(without_resource(v, urc_id), subject, urc_id),
        other != urc_id ==> effective_role(without_resource(v, urc_id), subject, other)
            == effective_role(v, subject, other),
        other != urc_id ==> reaches(without_resource(v, urc_id), subject, other) == reaches(
            v,
            subject,
            other,
        ),
{
    let w = without_resource(v, urc_id);
    no_grant_no_access(w, subject, urc_id);
    if other != urc_id {
        same_grants_same_role(v, w, subject, other);
    }
}

/// A resource that was deleted can be created anew, by anyone, who then owns it.
pub proof fn deleted_resource_can_be_created(
    v: StoreView,
    urc_id: Seq<char>,
    owner: Seq<char>,
    name: Seq<char>,
    created_at: i64,
)
    ensures
        effective_role(
            with_owner(without_resource(v, urc_id), owner, urc_id, name, created_at),
            owner,
            urc_id,
        ) == Some(Role::Owner),
{
    creator_becomes_owner(without_resource(v, urc_id), owner, urc_id, name, created_at);
}

/// Every grant carries the name of a role.
pub open spec fn roles_named(v: StoreView) -> bool {
    forall|k: (Seq<char>, Seq<char>)| #[trigger]
        v.grants.contains_key(k) ==> role_named(v.grants[k]) is Some
}

/// Where every grant carries the name of a role, a subject has a role on exactly
/// the resources that it reaches.
pub proof fn reach_is_having_a_role(v: StoreView, subject: Seq<char>, urc_id: Seq<char>)
    requires
        roles_named(v),
    ensures
        reaches(v, subject, urc_id) <==> effective_role(v, subject, urc_id) is Some,
{
    if reaches(v, subject, urc_id) {
        let s = choose|s: Seq<char>| #[trigger]
            acts_as(v, subject, s) && v.grants.contains_key((s, urc_id));
        let role = role_named(v.grants[(s, urc_id)])->0;
    }
}

/// What the operations write keeps every grant named.
pub proof fn operations_keep_roles_named(
    v: StoreView,
    subject: Seq<char>,
    urc_id: Seq<char>,
    name: Seq<char>,
    created_at: i64,
    grp: Seq<char>,
    role: Role,
)
    requires
        roles_named(v),
    ensures
        roles_named(with_owner(v, subject, urc_id, name, created_at)),
        roles_named(without_resource(v, urc_id)),
        roles_named(with_grant(v, subject, urc_id, role)),
        roles_named(without_grant(v, subject, urc_id)),
        roles_named(with_member(v, grp, subject)),
        roles_named(without_member(v, grp, subject)),
{
    role_names_read_back(Role::Owner);
    role_names_read_back(role);
}

/// A role has its own name, and a name stands for one role: `owner` for the owner, and
/// `member`, `writer` and `reader` for the member. Other names stand for none.
pub proof fn names_of_roles(s: Seq<char>)
    ensures
        role_name(Role::Owner) == "owner"@,
        role_name(Role::Member) == "member"@,
        role_named(s) == Some(Role::Owner) <==> s == "owner"@,
        role_named(s) == Some(Role::Member) <==> (s == "member"@ || s == "writer"@ || s
            == "reader"@),
        role_named(s) is None <==> (s != "owner"@ && s != "member"@ && s != "writer"@ && s
            != "reader"@),
{
    reveal_strlit("owner");
    reveal_strlit("member");
    reveal_strlit("writer");
    reveal_strlit("reader");
    assert("owner"@.len() == 5 && "member"@.len() == 6 && "writer"@.len() == 6 && "reader"@.len()
        == 6);
}

/// A member reads and writes, and does nothing else; an owner does the four privileged
/// things, and what a member does.
pub proof fn permissions_of_roles()
    ensures
        role_permissions(Role::Member) == seq!["read"@, "write"@],
        role_permissions(Role::Owner) == seq!["owner"@, "admin"@, "obliterate"@, "migrate"@]
            + role_permissions(Role::Member),
{
}

/// A subject's own grant counts: it has that role, or a stronger one.
pub proof fn own_grant_counts(v: StoreView, subject: Seq<char>, urc_id: Seq<char>)
    requires
        v.grants.contains_key((subject, urc_id)),
    ensures
        reaches(v, subject, urc_id),
        v.grants[(subject, urc_id)] == "owner"@ ==> effective_role(v, subject, urc_id) == Some(
            Role::Owner,
        ),
        role_named(v.grants[(subject, urc_id)]) is Some ==> effective_role(v, subject, urc_id)
            is Some,
{
    names_of_roles(v.grants[(subject, urc_id)]);
    assert(acts_as(v, subject, subject));
}

/// The grant of a group counts for each of its members.
pub proof fn group_grant_counts(
    v: StoreView,
    grp: Seq<char>,
    subject: Seq<char>,
    urc_id: Seq<char>,
)
    requires
        v.members.contains((grp, subject)),
        v.grants.contains_key(("group:"@ + grp, urc_id)),
    ensures
        reaches(v, subject, urc_id),
        v.grants[("group:"@ + grp, urc_id)] == "owner"@ ==> effective_role(v, subject, urc_id)
            == Some(Role::Owner),
        role_named(v.grants[("group:"@ + grp, urc_id)]) is Some ==> effective_role(
            v,
            subject,
            urc_id,
        ) is Some,
{
    names_of_roles(v.grants[("group:"@ + grp, urc_id)]);
    assert(acts_as(v, subject, "group:"@ + grp));
}

/// Nothing else counts: without a grant of its own, or of a group that it is itself a
/// member of, a subject has no access.
pub proof fn no_other_grant_counts(v: StoreView, subject: Seq<char>, urc_id: Seq<char>)
    requires
        !v.grants.contains_key((subject, urc_id)),
        forall|grp: Seq<char>| #[trigger]
            v.members.contains((grp, subject)) ==> !v.grants.contains_key(("group:"@ + grp, urc_id)),
    ensures
        !reaches(v, subject, urc_id),
        effective_role(v, subject, urc_id) is None,
{
}

/// Nobody is an owner but by a grant that says so, their own or that of a group that
/// they are a member of.
pub proof fn owners_are_named_owners(v: StoreView, subject: Seq<char>, urc_id: Seq<char>)
    requires
        v.grants.contains_key((subject, urc_id)) ==> v.grants[(subject, urc_id)] != "owner"@,
        forall|grp: Seq<char>| #[trigger]
            v.members.contains((grp, subject)) && v.grants.contains_key(("group:"@ + grp, urc_id))
                ==> v.grants[("group:"@ + grp, urc_id)] != "owner"@,
    ensures
        effective_role(v, subject, urc_id) != Some(Role::Owner),
{
    if holds(v, subject, urc_id, Role::Owner) {
        let s = choose|s: Seq<char>| #[trigger]
            acts_as(v, subject, s) && v.grants.contains_key((s, urc_id)) && role_named(
                v.grants[(s, urc_id)],
            ) == Some(Role::Owner);
        names_of_roles(v.grants[(s, urc_id)]);
    }
}

/// A grant that carries no role's name gives no role, and everything else is decided
/// by those that do.
pub proof fn unnamed_grants_give_no_role(v: StoreView, subject: Seq<char>, urc_id: Seq<char>)
    requires
        v.grants.contains_key((subject, urc_id)) ==> role_named(v.grants[(subject, urc_id)]) is None,
        forall|grp: Seq<char>| #[trigger]
            v.members.contains((grp, subject)) && v.grants.contains_key(("group:"@ + grp, urc_id))
                ==> role_named(v.grants[("group:"@ + grp, urc_id)]) is None,
    ensures
        effective_role(v, subject, urc_id) is None,
{
}

/// The grants of two stores are the same but for one subject on one resource.
pub open spec fn same_but_one_grant(
    v: StoreView,
    w: StoreView,
    subject: Seq<char>,
    urc_id: Seq<char>,
) -> bool {
    forall|k: (Seq<char>, Seq<char>)|
        k != (subject, urc_id) ==> (#[trigger] w.grants.contains_key(k) <==> v.grants.contains_key(k))
            && (v.grants.contains_key(k) ==> w.grants[k] == v.grants[k])
}

/// Granting writes one grant under the name of its role, and revoking takes one away.
/// No other grant changes, and no resource or membership.
pub proof fn granting_concerns_one_grant(
    v: StoreView,
    subject: Seq<char>,
    urc_id: Seq<char>,
    role: Role,
)
    ensures
        ({
            let w = with_grant(v, subject, urc_id, role);
            &&& w.grants.contains_key((subject, urc_id))
            &&& w.grants[(subject, urc_id)] == if role == Role::Owner {
                "owner"@
            } else {
                "member"@
            }
            &&& same_but_one_grant(v, w, subject, urc_id)
            &&& w.resources == v.resources && w.members == v.members
        }),
        ({
            let w = without_grant(v, subject, urc_id);
            &&& !w.grants.contains_key((subject, urc_id))
            &&& same_but_one_grant(v, w, subject, urc_id)
            &&& w.resources == v.resources && w.members == v.members
        }),
{
}

/// Joining and leaving change one membership, and no other, and no grant or resource.
pub proof fn joining_concerns_one_membership(
    v: StoreView,
    grp: Seq<char>,
    subject: Seq<char>,
    other: (Seq<char>, Seq<char>),
)
    ensures
        with_member(v, grp, subject).members.contains((grp, subject)),
        !without_member(v, grp, subject).members.contains((grp, subject)),
        other != (grp, subject) ==> with_member(v, grp, subject).members.contains(other)
            == v.members.contains(other),
        other != (grp, subject) ==> without_member(v, grp, subject).members.contains(other)
            == v.members.contains(other),
        with_member(v, grp, subject).grants == v.grants,
        with_member(v, grp, subject).resources == v.resources,
        without_member(v, grp, subject).grants == v.grants,
        without_member(v, grp, subject).resources == v.resources,
{
}

/// The first creation records the resource with its name and its time and writes one
/// grant, the creator's as owner; a later one records nothing. No other resource, grant
/// or membership changes.
pub proof fn creation_records_the_resource(
    v: StoreView,
    owner: Seq<char>,
    urc_id: Seq<char>,
    name: Seq<char>,
    created_at: i64,
    other: Seq<char>,
)
    ensures
        ({
            let w = with_owner(v, owner, urc_id, name, created_at);
            &&& v.resources.contains_key(urc_id) ==> w == v
            &&& !v.resources.contains_key(urc_id) ==> w.resources.contains_key(urc_id)
                && w.resources[urc_id] == (name, created_at)
            &&& !v.resources.contains_key(urc_id) ==> w.grants.contains_key((owner, urc_id))
                && w.grants[(owner, urc_id)] == "owner"@
            &&& other != urc_id ==> w.resources.contains_key(other) == v.resources.contains_key(
                other,
            ) && (v.resources.contains_key(other) ==> w.resources[other] == v.resources[other])
            &&& same_but_one_grant(v, w, owner, urc_id)
            &&& w.members == v.members
        }),
{
}

/// Deleting takes the resource and every grant on it away, and nothing else.
pub proof fn deletion_concerns_one_resource(
    v: StoreView,
    urc_id: Seq<char>,
    subject: Seq<char>,
    other: Seq<char>,
)
    ensures
        ({
            let w = without_resource(v, urc_id);
            &&& !w.resources.contains_key(urc_id)
            &&& !w.grants.contains_key((subject, urc_id))
            &&& other != urc_id ==> w.resources.contains_key(other) == v.resources.contains_key(
                other,
            ) && (v.resources.contains_key(other) ==> w.resources[other] == v.resources[other])
            &&& other != urc_id ==> w.grants.contains_key((subject, other))
                == v.grants.contains_key((subject, other)) && (v.grants.contains_key(
                (subject, other),
            ) ==> w.grants[(subject, other)] == v.grants[(subject, other)])
            &&& w.members == v.members
        }),
{
}

}
