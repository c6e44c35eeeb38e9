//! The relationship store: who may access which repository.
//!
//! Lore's data path authorizes purely from the `resources` claim of the token
//! that this service mints, and its privileged operations read named permission
//! strings from that same claim. So the store answers, per subject and
//! repository: is there access at all, and at what role. Read and write are not
//! told apart, because any access grants both clone and push. The two roles are
//! `owner` (access and privileged permissions) and `member` (access).
//!
//! The store is three tables of rows, each with a primary key. It holds rows in
//! memory; whoever keeps them on disk reads them in with the `put_*_row` methods
//! and writes out what the `*_rows` methods show.
use vstd::prelude::*;

use crate::clock::{is_time, now};
use crate::text::{
    comes_before, lemma_text_before_order, lemma_text_before_transitive, same_text, text_before, texts,
};

verus! {

/// What a subject may do with a repository. `Owner` is the stronger role.
#[derive(Clone, Copy, Debug, PartialEq, Eq, PartialOrd, Ord, Structural)]
pub enum Role {
    Member,
    Owner,
}

/// The name of a role in the grants table.
pub open spec fn role_name(role: Role) -> Seq<char> {
    match role {
        Role::Owner => "owner"@,
        Role::Member => "member"@,
    }
}

/// The role that a name in the grants table stands for. `writer` and `reader`
/// stand for `Member`: there is one access role.
pub open spec fn role_named(s: Seq<char>) -> Option<Role> {
    if s == "owner"@ {
        Some(Role::Owner)
    } else if s == "member"@ || s == "writer"@ || s == "reader"@ {
        Some(Role::Member)
    } else {
        None
    }
}

/// The permission strings that a role carries in a minted token.
pub open spec fn role_permissions(role: Role) -> Seq<Seq<char>> {
    match role {
        Role::Owner => seq![
            "owner"@,
            "admin"@,
            "obliterate"@,
            "migrate"@,
            "read"@,
            "write"@,
        ],
        Role::Member => seq!["read"@, "write"@],
    }
}

impl Role {
    pub fn as_str(self) -> (r: &'static str)
        ensures
            r@ == role_name(self),
    {
        match self {
            Role::Owner => "owner",
            Role::Member => "member",
        }
    }

    /// Parse a role name. `writer` and `reader` are accepted as aliases for
    /// `member` (Lore has no enforceable read/write split, so there is one
    /// access role).
    pub fn parse(s: &str) -> (r: Option<Role>)
        ensures
            r == role_named(s@),
    {
        if same_text(s, "owner") {
            Some(Role::Owner)
        } else if same_text(s, "member") || same_text(s, "writer") || same_text(s, "reader") {
            Some(Role::Member)
        } else {
            None
        }
    }

    /// The permission strings to place in the minted token's `resources` claim.
    /// The Lore server checks `owner`, `admin`, `obliterate` and `migrate` for
    /// privileged operations; `read` and `write` are informational.
    pub fn permissions(self) -> (r: Vec<String>)
        ensures
            texts(r@) == role_permissions(self),
    {
        let mut p: Vec<String> = Vec::new();
        match self {
            Role::Owner => {
                p.push("owner".to_owned());
                p.push("admin".to_owned());
                p.push("obliterate".to_owned());
                p.push("migrate".to_owned());
            },
            Role::Member => {},
        }
        p.push("read".to_owned());
        p.push("write".to_owned());
        assert(texts(p@) =~= role_permissions(self));
        p
    }
}

/// A row of the resources table. The primary key is `urc_id`.
#[derive(Debug)]
pub struct ResourceRow {
    pub urc_id: String,
    pub name: String,
    pub created_at: i64,
}

/// A row of the grants table. The primary key is `(subject, urc_id)`; `subject`
/// is a user id or `group:{name}`, `role` the name of a role.
#[derive(Debug)]
pub struct GrantRow {
    pub subject: String,
    pub urc_id: String,
    pub role: String,
}

/// A row of the group membership table. Its primary key is the whole row.
#[derive(Debug)]
pub struct MemberRow {
    pub grp: String,
    pub subject: String,
}

pub open spec fn grant_key(row: GrantRow) -> (Seq<char>, Seq<char>) {
    (row.subject@, row.urc_id@)
}

pub open spec fn member_key(row: MemberRow) -> (Seq<char>, Seq<char>) {
    (row.grp@, row.subject@)
}

/// No two rows have the same primary key.
pub open spec fn resources_keyed(rows: Seq<ResourceRow>) -> bool {
    forall|i: int, j: int|
        #![trigger rows[i], rows[j]]
        0 <= i < j < rows.len() ==> rows[i].urc_id@ != rows[j].urc_id@
}

/// No two rows have the same primary key.
pub open spec fn grants_keyed(rows: Seq<GrantRow>) -> bool {
    forall|i: int, j: int|
        #![trigger rows[i], rows[j]]
        0 <= i < j < rows.len() ==> grant_key(rows[i]) != grant_key(rows[j])
}

/// No two rows have the same primary key.
pub open spec fn members_keyed(rows: Seq<MemberRow>) -> bool {
    forall|i: int, j: int|
        #![trigger rows[i], rows[j]]
        0 <= i < j < rows.len() ==> member_key(rows[i]) != member_key(rows[j])
}

/// The position of the row with key `k`.
pub open spec fn resource_at(rows: Seq<ResourceRow>, k: Seq<char>) -> int {
    choose|i: int| 0 <= i < rows.len() && (#[trigger] rows[i]).urc_id@ == k
}

/// The position of the row with key `k`.
pub open spec fn grant_at(rows: Seq<GrantRow>, k: (Seq<char>, Seq<char>)) -> int {
    choose|i: int| 0 <= i < rows.len() && grant_key(#[trigger] rows[i]) == k
}

/// The resources that rows record, by id: name and time of creation.
pub open spec fn resource_table(rows: Seq<ResourceRow>) -> Map<Seq<char>, (Seq<char>, i64)> {
    Map::new(
        |k: Seq<char>| exists|i: int| 0 <= i < rows.len() && (#[trigger] rows[i]).urc_id@ == k,
        |k: Seq<char>|
            (rows[resource_at(rows, k)].name@, rows[resource_at(rows, k)].created_at),
    )
}

/// The grants that rows record: the role name per subject and resource.
pub open spec fn grant_table(rows: Seq<GrantRow>) -> Map<(Seq<char>, Seq<char>), Seq<char>> {
    Map::new(
        |k: (Seq<char>, Seq<char>)|
            exists|i: int| 0 <= i < rows.len() && grant_key(#[trigger] rows[i]) == k,
        |k: (Seq<char>, Seq<char>)| rows[grant_at(rows, k)].role@,
    )
}

/// The memberships that rows record: group and member.
pub open spec fn member_table(rows: Seq<MemberRow>) -> Set<(Seq<char>, Seq<char>)> {
    Set::new(
        |k: (Seq<char>, Seq<char>)|
            exists|i: int| 0 <= i < rows.len() && member_key(#[trigger] rows[i]) == k,
    )
}

/// What a store holds.
#[verifier::ext_equal]
pub struct StoreView {
    /// Name and time of creation, by resource id.
    pub resources: Map<Seq<char>, (Seq<char>, i64)>,
    /// Role name, by subject and resource id.
    pub grants: Map<(Seq<char>, Seq<char>), Seq<char>>,
    /// Group and member.
    pub members: Set<(Seq<char>, Seq<char>)>,
}

/// The grants of the subject `s` apply to `subject`: it is the subject itself,
/// or a group that the subject belongs to.
pub open spec fn acts_as(v: StoreView, subject: Seq<char>, s: Seq<char>) -> bool {
    s == subject || exists|grp: Seq<char>| #[trigger]
        v.members.contains((grp, subject)) && s == "group:"@ + grp
}

/// `subject` has a grant of exactly `role` on a resource, directly or through a
/// group.
pub open spec fn holds(v: StoreView, subject: Seq<char>, urc_id: Seq<char>, role: Role) -> bool {
    exists|s: Seq<char>| #[trigger]
        acts_as(v, subject, s) && v.grants.contains_key((s, urc_id)) && role_named(
            v.grants[(s, urc_id)],
        ) == Some(role)
}

/// The strongest role that `subject` has on a resource, directly or through a
/// group.
pub open spec fn effective_role(v: StoreView, subject: Seq<char>, urc_id: Seq<char>) -> Option<
    Role,
> {
    if holds(v, subject, urc_id, Role::Owner) {
        Some(Role::Owner)
    } else if holds(v, subject, urc_id, Role::Member) {
        Some(Role::Member)
    } else {
        None
    }
}

/// `subject` has a grant on a resource, directly or through a group.
pub open spec fn reaches(v: StoreView, subject: Seq<char>, urc_id: Seq<char>) -> bool {
    exists|s: Seq<char>| #[trigger]
        acts_as(v, subject, s) && v.grants.contains_key((s, urc_id))
}

/// A store after `owner` created a resource: the first creation records the
/// resource and makes its creator the owner, a later one changes nothing.
pub open spec fn with_owner(
    v: StoreView,
    owner: Seq<char>,
    urc_id: Seq<char>,
    name: Seq<char>,
    created_at: i64,
) -> StoreView {
    if v.resources.contains_key(urc_id) {
        v
    } else {
        StoreView {
            resources: v.resources.insert(urc_id, (name, created_at)),
            grants: v.grants.insert((owner, urc_id), "owner"@),
            members: v.members,
        }
    }
}

/// The store after a role was granted.
pub open spec fn with_grant(
    v: StoreView,
    subject: Seq<char>,
    urc_id: Seq<char>,
    role: Role,
) -> StoreView {
    StoreView { grants: v.grants.insert((subject, urc_id), role_name(role)), ..v }
}

/// The store after a subject's own grant was revoked.
pub open spec fn without_grant(v: StoreView, subject: Seq<char>, urc_id: Seq<char>) -> StoreView {
    StoreView { grants: v.grants.remove((subject, urc_id)), ..v }
}

/// The store after a subject joined a group.
pub open spec fn with_member(v: StoreView, grp: Seq<char>, subject: Seq<char>) -> StoreView {
    StoreView { members: v.members.insert((grp, subject)), ..v }
}

/// The store after a subject left a group.
pub open spec fn without_member(v: StoreView, grp: Seq<char>, subject: Seq<char>) -> StoreView {
    StoreView { members: v.members.remove((grp, subject)), ..v }
}

/// A store after a resource was deleted, with every grant on it.
pub open spec fn without_resource(v: StoreView, urc_id: Seq<char>) -> StoreView {
    StoreView {
        resources: v.resources.remove(urc_id),
        grants: v.grants.restrict(Set::new(|k: (Seq<char>, Seq<char>)| k.1 != urc_id)),
        members: v.members,
    }
}

/// A keyed table gives back the row at each position.
proof fn lemma_grant_row(rows: Seq<GrantRow>, i: int)
    requires
        grants_keyed(rows),
        0 <= i < rows.len(),
    ensures
        grant_table(rows).contains_key(grant_key(rows[i])),
        grant_table(rows)[grant_key(rows[i])] == rows[i].role@,
{
    let k = grant_key(rows[i]);
    let j = grant_at(rows, k);
    assert(grant_key(rows[i]) == k);
    assert(0 <= j < rows.len() && grant_key(rows[j]) == k);
    assert(i == j);
}

proof fn lemma_grant_push(rows: Seq<GrantRow>, row: GrantRow)
    requires
        grants_keyed(rows),
        !grant_table(rows).contains_key(grant_key(row)),
    ensures
        grants_keyed(rows.push(row)),
        grant_table(rows.push(row)) == grant_table(rows).insert(grant_key(row), row.role@),
{
    let after = rows.push(row);
    assert forall|i: int, j: int|
        #![trigger after[i], after[j]]
        0 <= i < j < after.len() implies grant_key(after[i]) != grant_key(after[j]) by {
        assert(after[i] == rows[i]);
        if j < rows.len() {
            assert(after[j] == rows[j]);
        }
    }
    let table = grant_table(rows).insert(grant_key(row), row.role@);
    assert forall|k: (Seq<char>, Seq<char>)| grant_table(after).contains_key(k) implies
        table.contains_key(k) && table[k] == grant_table(after)[k] by {
        let i = grant_at(after, k);
        lemma_grant_row(after, i);
        if i < rows.len() {
            assert(after[i] == rows[i]);
            lemma_grant_row(rows, i);
        }
    }
    assert forall|k: (Seq<char>, Seq<char>)| table.contains_key(k) implies
        grant_table(after).contains_key(k) by {
        if k == grant_key(row) {
            assert(after[rows.len() as int] == row);
        } else {
            let i = grant_at(rows, k);
            assert(after[i] == rows[i]);
        }
    }
    assert(grant_table(after) =~= table);
}

proof fn lemma_grant_remove(rows: Seq<GrantRow>, at: int)
    requires
        grants_keyed(rows),
        0 <= at < rows.len(),
    ensures
        grants_keyed(rows.remove(at)),
        grant_table(rows.remove(at)) == grant_table(rows).remove(grant_key(rows[at])),
{
    let after = rows.remove(at);
    let gone = grant_key(rows[at]);
    assert forall|i: int| 0 <= i < after.len() implies (#[trigger] after[i]) == rows[if i < at {
        i
    } else {
        i + 1
    }] by {}
    assert forall|i: int, j: int|
        #![trigger after[i], after[j]]
        0 <= i < j < after.len() implies grant_key(after[i]) != grant_key(after[j]) by {
        let p = if i < at { i } else { i + 1 };
        let q = if j < at { j } else { j + 1 };
        assert(after[i] == rows[p] && after[j] == rows[q]);
    }
    let table = grant_table(rows).remove(gone);
    assert forall|k: (Seq<char>, Seq<char>)| grant_table(after).contains_key(k) implies
        table.contains_key(k) && table[k] == grant_table(after)[k] by {
        let i = grant_at(after, k);
        lemma_grant_row(after, i);
        let p = if i < at { i } else { i + 1 };
        assert(after[i] == rows[p]);
        lemma_grant_row(rows, p);
    }
    assert forall|k: (Seq<char>, Seq<char>)| table.contains_key(k) implies
        grant_table(after).contains_key(k) by {
        let p = grant_at(rows, k);
        assert(p != at);
        let i = if p < at { p } else { p - 1 };
        assert(after[i] == rows[p]);
    }
    assert(grant_table(after) =~= table);
}

proof fn lemma_member_push(rows: Seq<MemberRow>, row: MemberRow)
    requires
        members_keyed(rows),
        !member_table(rows).contains(member_key(row)),
    ensures
        members_keyed(rows.push(row)),
        member_table(rows.push(row)) == member_table(rows).insert(member_key(row)),
{
    let after = rows.push(row);
    assert forall|i: int, j: int|
        #![trigger after[i], after[j]]
        0 <= i < j < after.len() implies member_key(after[i]) != member_key(after[j]) by {
        assert(after[i] == rows[i]);
        if j < rows.len() {
            assert(after[j] == rows[j]);
        }
    }
    let table = member_table(rows).insert(member_key(row));
    assert forall|k: (Seq<char>, Seq<char>)| member_table(after).contains(k) implies
        table.contains(k) by {
        let i = choose|i: int| 0 <= i < after.len() && member_key(#[trigger] after[i]) == k;
        if i < rows.len() {
            assert(after[i] == rows[i]);
        }
    }
    assert forall|k: (Seq<char>, Seq<char>)| table.contains(k) implies
        member_table(after).contains(k) by {
        if k == member_key(row) {
            assert(after[rows.len() as int] == row);
        } else {
            let i = choose|i: int| 0 <= i < rows.len() && member_key(#[trigger] rows[i]) == k;
            assert(after[i] == rows[i]);
        }
    }
    assert(member_table(after) =~= table);
}

proof fn lemma_member_remove(rows: Seq<MemberRow>, at: int)
    requires
        members_keyed(rows),
        0 <= at < rows.len(),
    ensures
        members_keyed(rows.remove(at)),
        member_table(rows.remove(at)) == member_table(rows).remove(member_key(rows[at])),
{
    let after = rows.remove(at);
    assert forall|i: int, j: int|
        #![trigger after[i], after[j]]
        0 <= i < j < after.len() implies member_key(after[i]) != member_key(after[j]) by {
        let p = if i < at { i } else { i + 1 };
        let q = if j < at { j } else { j + 1 };
        assert(after[i] == rows[p] && after[j] == rows[q]);
    }
    let table = member_table(rows).remove(member_key(rows[at]));
    assert forall|k: (Seq<char>, Seq<char>)| member_table(after).contains(k) implies
        table.contains(k) by {
        let i = choose|i: int| 0 <= i < after.len() && member_key(#[trigger] after[i]) == k;
        let p = if i < at { i } else { i + 1 };
        assert(after[i] == rows[p]);
    }
    assert forall|k: (Seq<char>, Seq<char>)| table.contains(k) implies
        member_table(after).contains(k) by {
        let p = choose|i: int| 0 <= i < rows.len() && member_key(#[trigger] rows[i]) == k;
        assert(p != at);
        let i = if p < at { p } else { p - 1 };
        assert(after[i] == rows[p]);
    }
    assert(member_table(after) =~= table);
}

proof fn lemma_resource_row(rows: Seq<ResourceRow>, i: int)
    requires
        resources_keyed(rows),
        0 <= i < rows.len(),
    ensures
        resource_table(rows).contains_key(rows[i].urc_id@),
        resource_table(rows)[rows[i].urc_id@] == (rows[i].name@, rows[i].created_at),
{
    let k = rows[i].urc_id@;
    let j = resource_at(rows, k);
    assert(0 <= j < rows.len() && rows[j].urc_id@ == k);
    assert(i == j);
}

proof fn lemma_resource_push(rows: Seq<ResourceRow>, row: ResourceRow)
    requires
        resources_keyed(rows),
        !resource_table(rows).contains_key(row.urc_id@),
    ensures
        resources_keyed(rows.push(row)),
        resource_table(rows.push(row)) == resource_table(rows).insert(
            row.urc_id@,
            (row.name@, row.created_at),
        ),
{
    let after = rows.push(row);
    assert forall|i: int, j: int|
        #![trigger after[i], after[j]]
        0 <= i < j < after.len() implies after[i].urc_id@ != after[j].urc_id@ by {
        assert(after[i] == rows[i]);
        if j < rows.len() {
            assert(after[j] == rows[j]);
        }
    }
    let table = resource_table(rows).insert(row.urc_id@, (row.name@, row.created_at));
    assert forall|k: Seq<char>| resource_table(after).contains_key(k) implies
        table.contains_key(k) && table[k] == resource_table(after)[k] by {
        let i = resource_at(after, k);
        lemma_resource_row(after, i);
        if i < rows.len() {
            assert(after[i] == rows[i]);
            lemma_resource_row(rows, i);
        }
    }
    assert forall|k: Seq<char>| table.contains_key(k) implies
        resource_table(after).contains_key(k) by {
        if k == row.urc_id@ {
            assert(after[rows.len() as int] == row);
        } else {
            let i = resource_at(rows, k);
            assert(after[i] == rows[i]);
        }
    }
    assert(resource_table(after) =~= table);
}

proof fn lemma_resource_remove(rows: Seq<ResourceRow>, at: int)
    requires
        resources_keyed(rows),
        0 <= at < rows.len(),
    ensures
        resources_keyed(rows.remove(at)),
        resource_table(rows.remove(at)) == resource_table(rows).remove(rows[at].urc_id@),
{
    let after = rows.remove(at);
    assert forall|i: int, j: int|
        #![trigger after[i], after[j]]
        0 <= i < j < after.len() implies after[i].urc_id@ != after[j].urc_id@ by {
        let p = if i < at { i } else { i + 1 };
        let q = if j < at { j } else { j + 1 };
        assert(after[i] == rows[p] && after[j] == rows[q]);
    }
    let table = resource_table(rows).remove(rows[at].urc_id@);
    assert forall|k: Seq<char>| resource_table(after).contains_key(k) implies
        table.contains_key(k) && table[k] == resource_table(after)[k] by {
        let i = resource_at(after, k);
        lemma_resource_row(after, i);
        let p = if i < at { i } else { i + 1 };
        assert(after[i] == rows[p]);
        lemma_resource_row(rows, p);
    }
    assert forall|k: Seq<char>| table.contains_key(k) implies
        resource_table(after).contains_key(k) by {
        let p = resource_at(rows, k);
        assert(p != at);
        let i = if p < at { p } else { p - 1 };
        assert(after[i] == rows[p]);
    }
    assert(resource_table(after) =~= table);
}

/// A listing names a subject.
#[verifier::opaque]
spec fn listed(list: Seq<(String, String)>, subject: Seq<char>) -> bool {
    exists|a: int| 0 <= a < list.len() && (#[trigger] list[a]).0@ == subject
}

/// The three tables.
#[derive(Debug)]
pub struct Store {
    resources: Vec<ResourceRow>,
    grants: Vec<GrantRow>,
    members: Vec<MemberRow>,
}

impl View for Store {
    type V = StoreView;

    closed spec fn view(&self) -> StoreView {
        StoreView {
            resources: resource_table(self.resources@),
            grants: grant_table(self.grants@),
            members: member_table(self.members@),
        }
    }
}

impl Store {
    /// Every table has a primary key.
    pub closed spec fn wf(&self) -> bool {
        &&& resources_keyed(self.resources@)
        &&& grants_keyed(self.grants@)
        &&& members_keyed(self.members@)
    }

    /// A store with empty tables.
    pub fn open_in_memory() -> (r: Store)
        ensures
            r.wf(),
            r@.resources == Map::<Seq<char>, (Seq<char>, i64)>::empty(),
            r@.grants == Map::<(Seq<char>, Seq<char>), Seq<char>>::empty(),
            r@.members == Set::<(Seq<char>, Seq<char>)>::empty(),
    {
        let r = Store { resources: Vec::new(), grants: Vec::new(), members: Vec::new() };
        assert(r@.resources =~= Map::<Seq<char>, (Seq<char>, i64)>::empty());
        assert(r@.grants =~= Map::<(Seq<char>, Seq<char>), Seq<char>>::empty());
        assert(r@.members =~= Set::<(Seq<char>, Seq<char>)>::empty());
        r
    }

    fn find_resource(&self, urc_id: &str) -> (r: Option<usize>)
        ensures
            match r {
                Some(i) => i < self.resources@.len() && self.resources@[i as int].urc_id@
                    == urc_id@,
                None => !self@.resources.contains_key(urc_id@),
            },
    {
        let mut i: usize = 0;
        while i < self.resources.len()
            invariant
                i <= self.resources@.len(),
                forall|k: int| 0 <= k < i ==> (#[trigger] self.resources@[k]).urc_id@ != urc_id@,
            decreases self.resources@.len() - i,
        {
            if same_text(self.resources[i].urc_id.as_str(), urc_id) {
                return Some(i);
            }
            i += 1;
        }
        None
    }

    fn find_grant(&self, subject: &str, urc_id: &str) -> (r: Option<usize>)
        ensures
            match r {
                Some(i) => i < self.grants@.len() && grant_key(self.grants@[i as int]) == (
                    subject@,
                    urc_id@,
                ),
                None => !self@.grants.contains_key((subject@, urc_id@)),
            },
    {
        let mut i: usize = 0;
        while i < self.grants.len()
            invariant
                i <= self.grants@.len(),
                forall|k: int| 0 <= k < i ==> grant_key(#[trigger] self.grants@[k]) != (subject@, urc_id@),
            decreases self.grants@.len() - i,
        {
            if same_text(self.grants[i].subject.as_str(), subject) && same_text(
                self.grants[i].urc_id.as_str(),
                urc_id,
            ) {
                return Some(i);
            }
            i += 1;
        }
        None
    }

    fn find_member(&self, grp: &str, subject: &str) -> (r: Option<usize>)
        ensures
            match r {
                Some(i) => i < self.members@.len() && member_key(self.members@[i as int]) == (
                    grp@,
                    subject@,
                ),
                None => !self@.members.contains((grp@, subject@)),
            },
    {
        let mut i: usize = 0;
        while i < self.members.len()
            invariant
                i <= self.members@.len(),
                forall|k: int| 0 <= k < i ==> member_key(#[trigger] self.members@[k]) != (grp@, subject@),
            decreases self.members@.len() - i,
        {
            if same_text(self.members[i].grp.as_str(), grp) && same_text(
                self.members[i].subject.as_str(),
                subject,
            ) {
                return Some(i);
            }
            i += 1;
        }
        None
    }

    /// Read in a row of the resources table, in place of one with the same key.
    pub fn put_resource_row(&mut self, urc_id: &str, name: &str, created_at: i64)
        requires
            old(self).wf(),
        ensures
            final(self).wf(),
            final(self)@ == (StoreView {
                resources: old(self)@.resources.insert(urc_id@, (name@, created_at)),
                ..old(self)@
            }),
    {
        let row = ResourceRow { urc_id: urc_id.to_owned(), name: name.to_owned(), created_at };
        let at = self.find_resource(urc_id);
        if let Some(i) = at {
            proof {
                lemma_resource_remove(self.resources@, i as int);
            }
            self.resources.remove(i);
        }
        proof {
            lemma_resource_push(self.resources@, row);
        }
        self.resources.push(row);
        assert(self@ =~= (StoreView {
            resources: old(self)@.resources.insert(urc_id@, (name@, created_at)),
            ..old(self)@
        }));
    }

    /// Read in a row of the grants table, in place of one with the same key.
    pub fn put_grant_row(&mut self, subject: &str, urc_id: &str, role: &str)
        requires
            old(self).wf(),
        ensures
            final(self).wf(),
            final(self)@ == (StoreView {
                grants: old(self)@.grants.insert((subject@, urc_id@), role@),
                ..old(self)@
            }),
    {
        let row = GrantRow {
            subject: subject.to_owned(),
            urc_id: urc_id.to_owned(),
            role: role.to_owned(),
        };
        let at = self.find_grant(subject, urc_id);
        if let Some(i) = at {
            proof {
                lemma_grant_remove(self.grants@, i as int);
            }
            self.grants.remove(i);
        }
        proof {
            lemma_grant_push(self.grants@, row);
        }
        self.grants.push(row);
        assert(self@ =~= (StoreView {
            grants: old(self)@.grants.insert((subject@, urc_id@), role@),
            ..old(self)@
        }));
    }

    /// Record a resource created at `created_at` and make `owner` its owner. The
    /// owner grant is written only when the resource is newly created, so
    /// re-creating an existing resource (by anyone) neither changes nor adds an
    /// owner.
    pub fn record_owner_at(&mut self, owner: &str, urc_id: &str, name: &str, created_at: i64)
        requires
            old(self).wf(),
        ensures
            final(self).wf(),
            final(self)@ == with_owner(old(self)@, owner@, urc_id@, name@, created_at),
    {
        if let None = self.find_resource(urc_id) {
            self.put_resource_row(urc_id, name, created_at);
            self.put_grant_row(owner, urc_id, "owner");
        } else {
            proof {
                let i = choose|i: int|
                    0 <= i < self.resources@.len() && (#[trigger] self.resources@[i]).urc_id@
                        == urc_id@;
                lemma_resource_row(self.resources@, i);
            }
        }
    }

    /// Record a resource created now and make `owner` its owner.
    pub fn record_owner(&mut self, owner: &str, urc_id: &str, name: &str)
        requires
            old(self).wf(),
        ensures
            final(self).wf(),
            exists|created_at: i64|
                is_time(created_at) && final(self)@ == #[trigger] with_owner(
                    old(self)@,
                    owner@,
                    urc_id@,
                    name@,
                    created_at,
                ),
    {
        let created_at: i64 = now();
        self.record_owner_at(owner, urc_id, name, created_at);
    }

    /// Forget a resource and every grant on it.
    pub fn delete_resource(&mut self, urc_id: &str)
        requires
            old(self).wf(),
        ensures
            final(self).wf(),
            final(self)@ == without_resource(old(self)@, urc_id@),
    {
        let ghost before = self@;
        let mut i: usize = 0;
        while i < self.grants.len()
            invariant
                i <= self.grants@.len(),
                self.wf(),
                before == old(self)@,
                self@.resources == before.resources,
                self@.members == before.members,
                forall|k: (Seq<char>, Seq<char>)| #[trigger]
                    self@.grants.contains_key(k) ==> before.grants.contains_key(k) && self@.grants[k]
                        == before.grants[k],
                forall|k: (Seq<char>, Seq<char>)|
                    before.grants.contains_key(k) && k.1 != urc_id@
                        ==> #[trigger] self@.grants.contains_key(k),
                forall|j: int| 0 <= j < i ==> (#[trigger] self.grants@[j]).urc_id@ != urc_id@,
            decreases self.grants@.len() - i,
        {
            if same_text(self.grants[i].urc_id.as_str(), urc_id) {
                let ghost rows = self.grants@;
                let ghost prior = self@.grants;
                proof {
                    lemma_grant_row(rows, i as int);
                    lemma_grant_remove(rows, i as int);
                }
                self.grants.remove(i);
                assert(self@.grants == prior.remove(grant_key(rows[i as int])));
                assert forall|k: (Seq<char>, Seq<char>)| #[trigger]
                    self@.grants.contains_key(k) implies before.grants.contains_key(k)
                    && self@.grants[k] == before.grants[k] by {
                    assert(prior.contains_key(k));
                }
                assert forall|k: (Seq<char>, Seq<char>)|
                    before.grants.contains_key(k) && k.1 != urc_id@ implies #[trigger]
                self@.grants.contains_key(k) by {
                    assert(prior.contains_key(k));
                }
                assert forall|j: int| 0 <= j < i implies (#[trigger] self.grants@[j]).urc_id@
                    != urc_id@ by {
                    assert(self.grants@[j] == rows[j]);
                }
            } else {
                i += 1;
            }
        }
        let ghost kept = self@.grants;
        assert forall|k: (Seq<char>, Seq<char>)| kept.contains_key(k) implies k.1 != urc_id@ by {
            let j = grant_at(self.grants@, k);
            assert(grant_key(self.grants@[j]) == k);
        }
        assert(kept =~= without_resource(before, urc_id@).grants);
        let at = self.find_resource(urc_id);
        if let Some(i) = at {
            proof {
                lemma_resource_remove(self.resources@, i as int);
            }
            self.resources.remove(i);
        }
        assert(self@ =~= without_resource(before, urc_id@));
    }

    /// The names under which a subject's groups appear in the grants table.
    fn group_subjects(&self, subject: &str) -> (r: Vec<String>)
        ensures
            forall|s: Seq<char>| #[trigger]
                texts(r@).contains(s) <==> exists|grp: Seq<char>| #[trigger]
                    self@.members.contains((grp, subject@)) && s == "group:"@ + grp,
    {
        let mut out: Vec<String> = Vec::new();
        let mut i: usize = 0;
        assert(texts(out@) =~= seq![]);
        while i < self.members.len()
            invariant
                i <= self.members@.len(),
                forall|s: Seq<char>| #[trigger]
                    texts(out@).contains(s) <==> exists|k: int|
                        0 <= k < i && (#[trigger] self.members@[k]).subject@ == subject@ && s
                            == "group:"@ + self.members@[k].grp@,
            decreases self.members@.len() - i,
        {
            let ghost before = texts(out@);
            let ghost hit = self.members@[i as int];
            if same_text(self.members[i].subject.as_str(), subject) {
                let mut name = "group:".to_owned();
                name.append(self.members[i].grp.as_str());
                out.push(name);
                assert(texts(out@) =~= before.push("group:"@ + hit.grp@));
                assert forall|s: Seq<char>| #[trigger] texts(out@).contains(s) <==> (
                before.contains(s) || s == "group:"@ + hit.grp@) by {
                    if before.contains(s) {
                        let j = choose|j: int| 0 <= j < before.len() && before[j] == s;
                        assert(texts(out@)[j] == s);
                    }
                    if s == "group:"@ + hit.grp@ {
                        assert(texts(out@)[before.len() as int] == s);
                    }
                }
            }
            i += 1;
        }
        assert forall|s: Seq<char>| #[trigger] texts(out@).contains(s) implies exists|
            grp: Seq<char>,
        | #[trigger] self@.members.contains((grp, subject@)) && s == "group:"@ + grp by {
            let k = choose|k: int|
                0 <= k < self.members@.len() && (#[trigger] self.members@[k]).subject@ == subject@
                    && s == "group:"@ + self.members@[k].grp@;
            assert(member_key(self.members@[k]) == (self.members@[k].grp@, subject@));
            assert(self@.members.contains((self.members@[k].grp@, subject@)));
        }
        assert forall|s: Seq<char>|
            (exists|grp: Seq<char>| #[trigger]
                self@.members.contains((grp, subject@)) && s == "group:"@ + grp) implies #[trigger]
        texts(out@).contains(s) by {
            let grp = choose|grp: Seq<char>| #[trigger]
                self@.members.contains((grp, subject@)) && s == "group:"@ + grp;
            let k = choose|k: int|
                0 <= k < self.members@.len() && member_key(#[trigger] self.members@[k]) == (
                    grp,
                    subject@,
                );
            assert(self.members@[k].subject@ == subject@);
        }
        out
    }

    /// Whether the grants of `s` apply to `subject`, whose groups are `groups`.
    fn applies(s: &str, subject: &str, groups: &Vec<String>) -> (r: bool)
        ensures
            r == (s@ == subject@ || texts(groups@).contains(s@)),
    {
        if same_text(s, subject) {
            return true;
        }
        contains_text(groups, s)
    }

    /// The subject's effective role on a resource: the strongest of its direct
    /// grant and any grant held by a group it belongs to. `None` is no access.
    pub fn role_for(&self, subject: &str, urc_id: &str) -> (r: Option<Role>)
        requires
            self.wf(),
        ensures
            r == effective_role(self@, subject@, urc_id@),
    {
        let groups = self.group_subjects(subject);
        let mut best: Option<Role> = None;
        let mut i: usize = 0;
        proof {
            self.lemma_found_next(0, subject@, urc_id@, Role::Owner);
            self.lemma_found_next(0, subject@, urc_id@, Role::Member);
        }
        while i < self.grants.len()
            invariant
                i <= self.grants@.len(),
                self.wf(),
                forall|s: Seq<char>| #[trigger]
                    texts(groups@).contains(s) <==> exists|grp: Seq<char>| #[trigger]
                        self@.members.contains((grp, subject@)) && s == "group:"@ + grp,
                best == Some(Role::Owner) <==> self.found(i as int, subject@, urc_id@, Role::Owner),
                best is None ==> !self.found(i as int, subject@, urc_id@, Role::Member),
                best == Some(Role::Member) ==> self.found(
                    i as int,
                    subject@,
                    urc_id@,
                    Role::Member,
                ),
            decreases self.grants@.len() - i,
        {
            let row = &self.grants[i];
            let applies = Self::applies(row.subject.as_str(), subject, &groups);
            assert(applies == acts_as(self@, subject@, row.subject@));
            if same_text(row.urc_id.as_str(), urc_id) && applies {
                let parsed = Role::parse(row.role.as_str());
                match parsed {
                    Some(Role::Owner) => {
                        best = Some(Role::Owner);
                    },
                    Some(Role::Member) => {
                        if let None = best {
                            best = Some(Role::Member);
                        }
                    },
                    None => {},
                }
            }
            proof {
                self.lemma_found_next(i as int, subject@, urc_id@, Role::Owner);
                self.lemma_found_next(i as int, subject@, urc_id@, Role::Member);
            }
            i += 1;
        }
        proof {
            self.lemma_found_all(subject@, urc_id@, Role::Owner);
            self.lemma_found_all(subject@, urc_id@, Role::Member);
            assert(i == self.grants@.len());
            assert(best == Some(Role::Owner) <==> holds(self@, subject@, urc_id@, Role::Owner));
            assert(best is None ==> !holds(self@, subject@, urc_id@, Role::Member));
            assert(best is Some && best != Some(Role::Owner) ==> best == Some(Role::Member));
        }
        best
    }

    /// Row `k` gives a subject exactly this role on a resource.
    spec fn row_gives(&self, k: int, subject: Seq<char>, urc_id: Seq<char>, role: Role) -> bool {
        &&& self.grants@[k].urc_id@ == urc_id
        &&& acts_as(self@, subject, self.grants@[k].subject@)
        &&& role_named(self.grants@[k].role@) == Some(role)
    }

    /// One of the first `n` rows gives a subject exactly this role on a resource.
    #[verifier::opaque]
    spec fn found(&self, n: int, subject: Seq<char>, urc_id: Seq<char>, role: Role) -> bool {
        exists|k: int| 0 <= k < n && #[trigger] self.row_gives(k, subject, urc_id, role)
    }

    proof fn lemma_found_next(&self, n: int, subject: Seq<char>, urc_id: Seq<char>, role: Role)
        requires
            n >= 0,
        ensures
            self.found(n + 1, subject, urc_id, role) <==> self.found(n, subject, urc_id, role)
                || self.row_gives(n, subject, urc_id, role),
            n == 0 ==> !self.found(n, subject, urc_id, role),
    {
        reveal(Store::found);
        if self.found(n, subject, urc_id, role) {
            let k = choose|k: int| 0 <= k < n && #[trigger] self.row_gives(k, subject, urc_id, role);
            assert(self.row_gives(k, subject, urc_id, role));
        }
    }

    proof fn lemma_found_all(&self, subject: Seq<char>, urc_id: Seq<char>, role: Role)
        requires
            self.wf(),
        ensures
            self.found(self.grants@.len() as int, subject, urc_id, role) <==> holds(
                self@,
                subject,
                urc_id,
                role,
            ),
    {
        reveal(Store::found);
        let n = self.grants@.len() as int;
        if holds(self@, subject, urc_id, role) {
            let s = choose|s: Seq<char>| #[trigger]
                acts_as(self@, subject, s) && self@.grants.contains_key((s, urc_id))
                    && role_named(self@.grants[(s, urc_id)]) == Some(role);
            let k = grant_at(self.grants@, (s, urc_id));
            lemma_grant_row(self.grants@, k);
            assert(self.row_gives(k, subject, urc_id, role));
        }
        if self.found(n, subject, urc_id, role) {
            let k = choose|k: int| 0 <= k < n && #[trigger] self.row_gives(k, subject, urc_id, role);
            lemma_grant_row(self.grants@, k);
            assert(acts_as(self@, subject, self.grants@[k].subject@));
        }
    }

    /// Every resource the subject can reach, directly or through a group.
    pub fn accessible(&self, subject: &str) -> (r: Vec<String>)
        requires
            self.wf(),
        ensures
            texts(r@).no_duplicates(),
            forall|urc_id: Seq<char>| #[trigger]
                texts(r@).contains(urc_id) <==> reaches(self@, subject@, urc_id),
    {
        let groups = self.group_subjects(subject);
        let mut out: Vec<String> = Vec::new();
        let mut i: usize = 0;
        assert(texts(out@) =~= seq![]);
        while i < self.grants.len()
            invariant
                i <= self.grants@.len(),
                self.wf(),
                forall|s: Seq<char>| #[trigger]
                    texts(groups@).contains(s) <==> exists|grp: Seq<char>| #[trigger]
                        self@.members.contains((grp, subject@)) && s == "group:"@ + grp,
                texts(out@).no_duplicates(),
                forall|u: Seq<char>| #[trigger]
                    texts(out@).contains(u) <==> exists|k: int|
                        0 <= k < i && (#[trigger] self.grants@[k]).urc_id@ == u && acts_as(
                            self@,
                            subject@,
                            self.grants@[k].subject@,
                        ),
            decreases self.grants@.len() - i,
        {
            let ghost before = texts(out@);
            let row = &self.grants[i];
            let applies = Self::applies(row.subject.as_str(), subject, &groups);
            assert(applies == acts_as(self@, subject@, row.subject@));
            if applies && !contains_text(&out, row.urc_id.as_str()) {
                out.push(row.urc_id.clone());
                assert(texts(out@) =~= before.push(row.urc_id@));
                assert forall|u: Seq<char>| #[trigger] texts(out@).contains(u) <==> (
                before.contains(u) || u == row.urc_id@) by {
                    if before.contains(u) {
                        let j = choose|j: int| 0 <= j < before.len() && before[j] == u;
                        assert(texts(out@)[j] == u);
                    }
                    if u == row.urc_id@ {
                        assert(texts(out@)[before.len() as int] == u);
                    }
                }
            }
            i += 1;
            assert forall|u: Seq<char>| #[trigger] texts(out@).contains(u) implies exists|k: int|
                0 <= k < i && (#[trigger] self.grants@[k]).urc_id@ == u && acts_as(
                    self@,
                    subject@,
                    self.grants@[k].subject@,
                ) by {
                if !before.contains(u) {
                    assert(self.grants@[i - 1].urc_id@ == u);
                }
            }
            assert forall|u: Seq<char>|
                (exists|k: int|
                    0 <= k < i && (#[trigger] self.grants@[k]).urc_id@ == u && acts_as(
                        self@,
                        subject@,
                        self.grants@[k].subject@,
                    )) implies #[trigger] texts(out@).contains(u) by {
                let k = choose|k: int|
                    0 <= k < i && (#[trigger] self.grants@[k]).urc_id@ == u && acts_as(
                        self@,
                        subject@,
                        self.grants@[k].subject@,
                    );
                if k < i - 1 {
                    assert(before.contains(u));
                }
            }
        }
        assert forall|u: Seq<char>| #[trigger] texts(out@).contains(u) implies reaches(
            self@,
            subject@,
            u,
        ) by {
            let k = choose|k: int|
                0 <= k < i && (#[trigger] self.grants@[k]).urc_id@ == u && acts_as(
                    self@,
                    subject@,
                    self.grants@[k].subject@,
                );
            lemma_grant_row(self.grants@, k);
        }
        assert forall|u: Seq<char>| reaches(self@, subject@, u) implies #[trigger] texts(
            out@,
        ).contains(u) by {
            let s = choose|s: Seq<char>| #[trigger]
                acts_as(self@, subject@, s) && self@.grants.contains_key((s, u));
            let k = grant_at(self.grants@, (s, u));
            assert(grant_key(self.grants@[k]) == (s, u));
        }
        out
    }

    /// Give a subject a role on a resource, in place of the role it had.
    pub fn grant(&mut self, subject: &str, urc_id: &str, role: Role)
        requires
            old(self).wf(),
        ensures
            final(self).wf(),
            final(self)@ == with_grant(old(self)@, subject@, urc_id@, role),
    {
        self.put_grant_row(subject, urc_id, role.as_str());
    }

    /// Take a subject's own grant on a resource away. Returns how many grants
    /// were removed.
    pub fn revoke(&mut self, subject: &str, urc_id: &str) -> (r: usize)
        requires
            old(self).wf(),
        ensures
            final(self).wf(),
            final(self)@ == without_grant(old(self)@, subject@, urc_id@),
            r == if old(self)@.grants.contains_key((subject@, urc_id@)) {
                1usize
            } else {
                0usize
            },
    {
        let at = self.find_grant(subject, urc_id);
        let mut n: usize = 0;
        if let Some(i) = at {
            proof {
                lemma_grant_row(self.grants@, i as int);
                lemma_grant_remove(self.grants@, i as int);
            }
            self.grants.remove(i);
            n = 1;
        }
        assert(self@ =~= without_grant(old(self)@, subject@, urc_id@));
        n
    }

    /// Make a subject a member of a group.
    pub fn add_group_member(&mut self, grp: &str, subject: &str)
        requires
            old(self).wf(),
        ensures
            final(self).wf(),
            final(self)@ == with_member(old(self)@, grp@, subject@),
    {
        if let None = self.find_member(grp, subject) {
            let row = MemberRow { grp: grp.to_owned(), subject: subject.to_owned() };
            proof {
                lemma_member_push(self.members@, row);
            }
            self.members.push(row);
        } else {
            proof {
                let i = choose|i: int|
                    0 <= i < self.members@.len() && member_key(#[trigger] self.members@[i]) == (
                        grp@,
                        subject@,
                    );
                assert(self@.members.contains((grp@, subject@)));
            }
        }
        assert(self@ =~= with_member(old(self)@, grp@, subject@));
    }

    /// Take a subject out of a group. Returns how many memberships were removed.
    pub fn remove_group_member(&mut self, grp: &str, subject: &str) -> (r: usize)
        requires
            old(self).wf(),
        ensures
            final(self).wf(),
            final(self)@ == without_member(old(self)@, grp@, subject@),
            r == if old(self)@.members.contains((grp@, subject@)) {
                1usize
            } else {
                0usize
            },
    {
        let at = self.find_member(grp, subject);
        let mut n: usize = 0;
        if let Some(i) = at {
            proof {
                assert(member_key(self.members@[i as int]) == (grp@, subject@));
                lemma_member_remove(self.members@, i as int);
            }
            self.members.remove(i);
            n = 1;
        }
        assert(self@ =~= without_member(old(self)@, grp@, subject@));
        n
    }

    /// All (subject, role) grants on a resource, in the order of the subjects,
    /// for the admin `ls` view.
    pub fn list_grants(&self, urc_id: &str) -> (r: Vec<(String, String)>)
        requires
            self.wf(),
        ensures
            forall|i: int, j: int|
                #![trigger r@[i], r@[j]]
                0 <= i < j < r@.len() ==> text_before(r@[i].0@, r@[j].0@),
            forall|i: int|
                0 <= i < r@.len() ==> self@.grants.contains_key(((#[trigger] r@[i]).0@, urc_id@))
                    && self@.grants[(r@[i].0@, urc_id@)] == r@[i].1@,
            forall|subject: Seq<char>| #[trigger]
                self@.grants.contains_key((subject, urc_id@)) ==> exists|i: int|
                    0 <= i < r@.len() && (#[trigger] r@[i]).0@ == subject,
    {
        let mut out: Vec<(String, String)> = Vec::new();
        let mut i: usize = 0;
        while i < self.grants.len()
            invariant
                i <= self.grants@.len(),
                self.wf(),
                forall|a: int, b: int|
                    #![trigger out@[a], out@[b]]
                    0 <= a < b < out@.len() ==> text_before(out@[a].0@, out@[b].0@),
                forall|a: int|
                    0 <= a < out@.len() ==> self.recorded(i as int, #[trigger] out@[a], urc_id@),
                forall|k: int|
                    0 <= k < i && (#[trigger] self.grants@[k]).urc_id@ == urc_id@ ==> listed(
                        out@,
                        self.grants@[k].subject@,
                    ),
            decreases self.grants@.len() - i,
        {
            let row = &self.grants[i];
            let ghost before = out@;
            if same_text(row.urc_id.as_str(), urc_id) {
                let mut p: usize = 0;
                while p < out.len() && comes_before(out[p].0.as_str(), row.subject.as_str())
                    invariant
                        p <= out@.len(),
                        out@ == before,
                        forall|a: int| 0 <= a < p ==> text_before((#[trigger] out@[a]).0@, row.subject@),
                    ensures
                        p <= out@.len(),
                        out@ == before,
                        forall|a: int| 0 <= a < p ==> text_before((#[trigger] out@[a]).0@, row.subject@),
                        p < out@.len() ==> !text_before(out@[p as int].0@, row.subject@),
                    decreases out@.len() - p,
                {
                    p += 1;
                }
                let pair = (row.subject.clone(), row.role.clone());
                out.insert(p, pair);
                proof {
                    self.lemma_insert_sorted(before, pair, p as int, i as int, urc_id@);
                    self.lemma_insert_recorded(before, pair, p as int, i as int, urc_id@);
                    self.lemma_insert_listed(before, pair, p as int, i as int, urc_id@);
                }
            } else {
                proof {
                    assert forall|a: int| 0 <= a < out@.len() implies self.recorded(
                        i + 1,
                        #[trigger] out@[a],
                        urc_id@,
                    ) by {
                        reveal(Store::recorded);
                    }
                }
            }
            i += 1;
        }
        assert forall|a: int| 0 <= a < out@.len() implies self@.grants.contains_key(
            ((#[trigger] out@[a]).0@, urc_id@),
        ) && self@.grants[(out@[a].0@, urc_id@)] == out@[a].1@ by {
            reveal(Store::recorded);
            assert(self.recorded(i as int, out@[a], urc_id@));
            let k = choose|k: int|
                0 <= k < i && grant_key(#[trigger] self.grants@[k]) == (out@[a].0@, urc_id@)
                    && self.grants@[k].role@ == out@[a].1@;
            lemma_grant_row(self.grants@, k);
        }
        assert forall|subject: Seq<char>| #[trigger]
            self@.grants.contains_key((subject, urc_id@)) implies exists|a: int|
            0 <= a < out@.len() && (#[trigger] out@[a]).0@ == subject by {
            reveal(listed);
            let k = grant_at(self.grants@, (subject, urc_id@));
            assert(grant_key(self.grants@[k]) == (subject, urc_id@));
        }
        out
    }

    /// One of the first `n` rows grants this subject this role on a resource.
    #[verifier::opaque]
    spec fn recorded(&self, n: int, pair: (String, String), urc_id: Seq<char>) -> bool {
        exists|k: int|
            0 <= k < n && grant_key(#[trigger] self.grants@[k]) == (pair.0@, urc_id)
                && self.grants@[k].role@ == pair.1@
    }

    proof fn lemma_insert_sorted(
        &self,
        before: Seq<(String, String)>,
        pair: (String, String),
        p: int,
        i: int,
        urc_id: Seq<char>,
    )
        requires
            self.wf(),
            0 <= i < self.grants@.len(),
            0 <= p <= before.len(),
            grant_key(self.grants@[i]) == (pair.0@, urc_id),
            forall|a: int, b: int|
                #![trigger before[a], before[b]]
                0 <= a < b < before.len() ==> text_before(before[a].0@, before[b].0@),
            forall|a: int| 0 <= a < before.len() ==> self.recorded(i, #[trigger] before[a], urc_id),
            forall|a: int| 0 <= a < p ==> text_before((#[trigger] before[a]).0@, pair.0@),
            p < before.len() ==> !text_before(before[p].0@, pair.0@),
        ensures
            ({
                let after = before.insert(p, pair);
                forall|a: int, b: int|
                    #![trigger after[a], after[b]]
                    0 <= a < b < after.len() ==> text_before(after[a].0@, after[b].0@)
            }),
    {
        let after = before.insert(p, pair);
        // The subject is not listed yet, so what is not before it comes after it.
        assert forall|a: int| p <= a < before.len() implies text_before(
            pair.0@,
            (#[trigger] before[a]).0@,
        ) by {
            self.lemma_not_recorded(before[p], i, urc_id);
            lemma_text_before_order(before[p].0@, pair.0@);
            if a > p {
                assert(text_before(before[p].0@, before[a].0@));
                lemma_text_before_transitive(pair.0@, before[p].0@, before[a].0@);
            }
        }
        assert forall|a: int, b: int|
            #![trigger after[a], after[b]]
            0 <= a < b < after.len() implies text_before(after[a].0@, after[b].0@) by {
            if a == p {
                assert(after[b] == before[b - 1]);
            } else if b == p {
                assert(after[a] == before[a]);
            } else {
                let x = if a < p { a } else { a - 1 };
                let y = if b < p { b } else { b - 1 };
                assert(after[a] == before[x] && after[b] == before[y]);
            }
        }
    }

    /// Rows have different keys, so row `i` is not among the first `i`.
    proof fn lemma_not_recorded(&self, pair: (String, String), i: int, urc_id: Seq<char>)
        requires
            self.wf(),
            0 <= i < self.grants@.len(),
            self.grants@[i].urc_id@ == urc_id,
            self.recorded(i, pair, urc_id),
        ensures
            pair.0@ != self.grants@[i].subject@,
    {
        reveal(Store::recorded);
        let k = choose|k: int|
            0 <= k < i && grant_key(#[trigger] self.grants@[k]) == (pair.0@, urc_id)
                && self.grants@[k].role@ == pair.1@;
        assert(grant_key(self.grants@[k]) != grant_key(self.grants@[i]));
    }

    proof fn lemma_insert_recorded(
        &self,
        before: Seq<(String, String)>,
        pair: (String, String),
        p: int,
        i: int,
        urc_id: Seq<char>,
    )
        requires
            0 <= i < self.grants@.len(),
            0 <= p <= before.len(),
            grant_key(self.grants@[i]) == (pair.0@, urc_id),
            self.grants@[i].role@ == pair.1@,
            forall|a: int| 0 <= a < before.len() ==> self.recorded(i, #[trigger] before[a], urc_id),
        ensures
            ({
                let after = before.insert(p, pair);
                forall|a: int|
                    0 <= a < after.len() ==> self.recorded(i + 1, #[trigger] after[a], urc_id)
            }),
    {
        let after = before.insert(p, pair);
        assert forall|a: int| 0 <= a < after.len() implies self.recorded(
            i + 1,
            #[trigger] after[a],
            urc_id,
        ) by {
            if a != p {
                let x = if a < p { a } else { a - 1 };
                assert(after[a] == before[x]);
            }
            reveal(Store::recorded);
        }
    }

    proof fn lemma_insert_listed(
        &self,
        before: Seq<(String, String)>,
        pair: (String, String),
        p: int,
        i: int,
        urc_id: Seq<char>,
    )
        requires
            0 <= i < self.grants@.len(),
            0 <= p <= before.len(),
            grant_key(self.grants@[i]) == (pair.0@, urc_id),
            forall|k: int|
                0 <= k < i && (#[trigger] self.grants@[k]).urc_id@ == urc_id ==> listed(
                    before,
                    self.grants@[k].subject@,
                ),
        ensures
            forall|k: int|
                0 <= k < i + 1 && (#[trigger] self.grants@[k]).urc_id@ == urc_id ==> listed(
                    before.insert(p, pair),
                    self.grants@[k].subject@,
                ),
    {
        let after = before.insert(p, pair);
        assert forall|k: int|
            0 <= k < i + 1 && (#[trigger] self.grants@[k]).urc_id@ == urc_id implies listed(
            after,
            self.grants@[k].subject@,
        ) by {
            reveal(listed);
            if k == i {
                assert(after[p].0@ == self.grants@[k].subject@);
            } else {
                let x = choose|a: int|
                    0 <= a < before.len() && (#[trigger] before[a]).0@ == self.grants@[k].subject@;
                let a = if x < p { x } else { x + 1 };
                assert(after[a] == before[x]);
            }
        }
    }

    /// The rows of the resources table.
    pub fn resource_rows(&self) -> (r: &Vec<ResourceRow>)
        requires
            self.wf(),
        ensures
            resources_keyed(r@),
            resource_table(r@) == self@.resources,
    {
        &self.resources
    }

    /// The rows of the grants table.
    pub fn grant_rows(&self) -> (r: &Vec<GrantRow>)
        requires
            self.wf(),
        ensures
            grants_keyed(r@),
            grant_table(r@) == self@.grants,
    {
        &self.grants
    }

    /// The rows of the group membership table.
    pub fn member_rows(&self) -> (r: &Vec<MemberRow>)
        requires
            self.wf(),
        ensures
            members_keyed(r@),
            member_table(r@) == self@.members,
    {
        &self.members
    }
}

/// Whether a list holds a text.
pub fn contains_text(list: &Vec<String>, s: &str) -> (r: bool)
    ensures
        r == texts(list@).contains(s@),
{
    let mut i: usize = 0;
    while i < list.len()
        invariant
            i <= list@.len(),
            forall|k: int| 0 <= k < i ==> (#[trigger] list@[k])@ != s@,
        decreases list@.len() - i,
    {
        if same_text(list[i].as_str(), s) {
            assert(texts(list@)[i as int] == s@);
            return true;
        }
        i += 1;
    }
    assert(!texts(list@).contains(s@)) by {
        if texts(list@).contains(s@) {
            let k = choose|k: int| 0 <= k < texts(list@).len() && texts(list@)[k] == s@;
            assert(list@[k]@ == s@);
        }
    }
    false
}

}
