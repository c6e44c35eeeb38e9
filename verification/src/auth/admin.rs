//! The admin commands: grants and groups are managed directly against the store.
use vstd::prelude::*;

use crate::auth::access::{
    granting_concerns_one_grant, joining_concerns_one_membership, names_of_roles, own_grant_counts,
    owners_are_named_owners, role_names_read_back, same_but_one_grant,
};
use crate::auth::store::{
    effective_role, role_name, role_named, with_grant, with_member, without_grant, without_member,
    Role, Store, StoreView,
};
use crate::text::{
    decimal, lemma_text_before_order, push_decimal, same_text, text_before, texts,
};

verus! {

/// How the commands are used.
pub const ADMIN_USAGE: &'static str = "\
usage: kaguya-auth <command>
  grant <subject> <urc-id> <owner|member>   grant a role on a resource
  revoke <subject> <urc-id>                  remove a grant
  group-add <group> <subject>                add a subject to a group
  group-del <group> <subject>                remove a subject from a group
  ls <urc-id>                                list grants on a resource
subjects are user ids (JWT sub) or 'group:<name>'. Run with no command to serve.";

/// Why a command was not carried out.
#[derive(Clone, Copy, Debug, PartialEq, Eq, Structural)]
pub enum AdminError {
    /// The role to grant has no known name.
    UnknownRole,
    /// There is no such command, or it takes other arguments. The usage is shown.
    InvalidCommand,
}

/// An error in words.
pub open spec fn admin_error_text(e: AdminError) -> Seq<char> {
    match e {
        AdminError::UnknownRole => "role must be 'owner' or 'member'"@,
        AdminError::InvalidCommand => "invalid admin command"@,
    }
}

impl AdminError {
    /// The error in words.
    pub fn message(self) -> (r: &'static str)
        ensures
            r@ == admin_error_text(self),
    {
        match self {
            AdminError::UnknownRole => "role must be 'owner' or 'member'",
            AdminError::InvalidCommand => "invalid admin command",
        }
    }
}

/// What a command asks for.
pub enum Command {
    Grant { subject: Seq<char>, urc_id: Seq<char>, role: Role },
    Revoke { subject: Seq<char>, urc_id: Seq<char> },
    GroupAdd { group: Seq<char>, subject: Seq<char> },
    GroupDel { group: Seq<char>, subject: Seq<char> },
    Ls { urc_id: Seq<char> },
}

/// The command that a list of arguments gives.
pub open spec fn command_of(args: Seq<Seq<char>>) -> Result<Command, AdminError> {
    if args[0] == "grant"@ && args.len() == 4 {
        match role_named(args[3]) {
            Some(role) => Ok(Command::Grant { subject: args[1], urc_id: args[2], role }),
            None => Err(AdminError::UnknownRole),
        }
    } else if args[0] == "revoke"@ && args.len() == 3 {
        Ok(Command::Revoke { subject: args[1], urc_id: args[2] })
    } else if args[0] == "group-add"@ && args.len() == 3 {
        Ok(Command::GroupAdd { group: args[1], subject: args[2] })
    } else if args[0] == "group-del"@ && args.len() == 3 {
        Ok(Command::GroupDel { group: args[1], subject: args[2] })
    } else if args[0] == "ls"@ && args.len() == 2 {
        Ok(Command::Ls { urc_id: args[1] })
    } else {
        Err(AdminError::InvalidCommand)
    }
}

/// The store after a command.
pub open spec fn after_command(v: StoreView, c: Command) -> StoreView {
    match c {
        Command::Grant { subject, urc_id, role } => with_grant(v, subject, urc_id, role),
        Command::Revoke { subject, urc_id } => without_grant(v, subject, urc_id),
        Command::GroupAdd { group, subject } => with_member(v, group, subject),
        Command::GroupDel { group, subject } => without_member(v, group, subject),
        Command::Ls { .. } => v,
    }
}

/// How many rows a removal takes away.
pub open spec fn removed(there: bool) -> nat {
    if there {
        1
    } else {
        0
    }
}

/// A list of the grants on a resource, as subjects and role names, in the order
/// of the subjects.
pub open spec fn is_grant_list(
    v: StoreView,
    urc_id: Seq<char>,
    list: Seq<(Seq<char>, Seq<char>)>,
) -> bool {
    &&& forall|i: int, j: int|
        #![trigger list[i], list[j]]
        0 <= i < j < list.len() ==> text_before(list[i].0, list[j].0)
    &&& forall|i: int|
        0 <= i < list.len() ==> v.grants.contains_key(((#[trigger] list[i]).0, urc_id))
            && v.grants[(list[i].0, urc_id)] == list[i].1
    &&& forall|subject: Seq<char>| #[trigger]
        v.grants.contains_key((subject, urc_id)) ==> exists|i: int|
            0 <= i < list.len() && (#[trigger] list[i]).0 == subject
}

/// The lines that list grants: the role, a tab, and the subject.
pub open spec fn grant_lines(list: Seq<(Seq<char>, Seq<char>)>) -> Seq<Seq<char>> {
    list.map_values(|g: (Seq<char>, Seq<char>)| g.1 + "\t"@ + g.0)
}

/// Lines list the grants on a resource.
pub open spec fn lists_grants(v: StoreView, urc_id: Seq<char>, lines: Seq<Seq<char>>) -> bool {
    exists|list: Seq<(Seq<char>, Seq<char>)>| #[trigger]
        is_grant_list(v, urc_id, list) && lines == grant_lines(list)
}

/// The lines that a command prints.
pub open spec fn prints(v: StoreView, c: Command, lines: Seq<Seq<char>>) -> bool {
    match c {
        Command::Grant { subject, urc_id, role } => lines == seq![
            "granted "@ + role_name(role) + " on "@ + urc_id + " to "@ + subject,
        ],
        Command::Revoke { subject, urc_id } => lines == seq![
            "removed "@ + decimal(removed(v.grants.contains_key((subject, urc_id))))
                + " grant(s) for "@ + subject + " on "@ + urc_id,
        ],
        Command::GroupAdd { group, subject } => lines == seq![
            "added "@ + subject + " to group "@ + group,
        ],
        Command::GroupDel { group, subject } => lines == seq![
            "removed "@ + decimal(removed(v.members.contains((group, subject))))
                + " membership(s) of "@ + subject + " in group "@ + group,
        ],
        Command::Ls { urc_id } => lists_grants(v, urc_id, lines),
    }
}

/// A single line.
fn one_line(line: String) -> (r: Vec<String>)
    ensures
        texts(r@) == seq![line@],
{
    let mut lines: Vec<String> = Vec::new();
    lines.push(line);
    lines
}

/// The lines that list the grants on a resource.
fn list_lines(store: &Store, urc_id: &str) -> (r: Vec<String>)
    requires
        store.wf(),
    ensures
        lists_grants(store@, urc_id@, texts(r@)),
{
    let grants = store.list_grants(urc_id);
    let ghost list = grants@.map_values(|g: (String, String)| (g.0@, g.1@));
    let mut lines: Vec<String> = Vec::new();
    let mut i: usize = 0;
    while i < grants.len()
        invariant
            i <= grants@.len(),
            lines@.len() == i,
            forall|k: int|
                0 <= k < i ==> (#[trigger] lines@[k])@ == grants@[k].1@ + "\t"@ + grants@[k].0@,
        decreases grants@.len() - i,
    {
        let mut line = grants[i].1.clone();
        line.append("\t");
        line.append(grants[i].0.as_str());
        lines.push(line);
        i += 1;
    }
    proof {
        assert(texts(lines@) =~= grant_lines(list));
        assert forall|subject: Seq<char>| #[trigger]
            store@.grants.contains_key((subject, urc_id@)) implies exists|k: int|
            0 <= k < list.len() && (#[trigger] list[k]).0 == subject by {
            let k = choose|k: int| 0 <= k < grants@.len() && (#[trigger] grants@[k]).0@ == subject;
            assert(list[k].0 == subject);
        }
        assert(is_grant_list(store@, urc_id@, list));
    }
    lines
}

/// Carry out the command in `args` against the store. Returns the lines to print.
pub fn run_admin(store: &mut Store, args: &Vec<String>) -> (r: Result<Vec<String>, AdminError>)
    requires
        old(store).wf(),
        args@.len() > 0,
    ensures
        final(store).wf(),
        match command_of(texts(args@)) {
            Ok(c) => {
                &&& final(store)@ == after_command(old(store)@, c)
                &&& r matches Ok(lines) && prints(old(store)@, c, texts(lines@))
            },
            Err(e) => final(store)@ == old(store)@ && (r matches Err(x) && x == e),
        },
{
    let command = args[0].as_str();
    if args.len() == 4 && same_text(command, "grant") {
        let role = match Role::parse(args[3].as_str()) {
            Some(role) => role,
            None => {
                return Err(AdminError::UnknownRole);
            },
        };
        store.grant(args[1].as_str(), args[2].as_str(), role);
        let mut line = "granted ".to_owned();
        line.append(role.as_str());
        line.append(" on ");
        line.append(args[2].as_str());
        line.append(" to ");
        line.append(args[1].as_str());
        return Ok(one_line(line));
    }
    if args.len() == 3 {
        if same_text(command, "revoke") {
            let n: usize = store.revoke(args[1].as_str(), args[2].as_str());
            let mut line = "removed ".to_owned();
            push_decimal(&mut line, n as u64);
            line.append(" grant(s) for ");
            line.append(args[1].as_str());
            line.append(" on ");
            line.append(args[2].as_str());
            return Ok(one_line(line));
        }
        if same_text(command, "group-add") {
            store.add_group_member(args[1].as_str(), args[2].as_str());
            let mut line = "added ".to_owned();
            line.append(args[2].as_str());
            line.append(" to group ");
            line.append(args[1].as_str());
            return Ok(one_line(line));
        }
        if same_text(command, "group-del") {
            let n: usize = store.remove_group_member(args[1].as_str(), args[2].as_str());
            let mut line = "removed ".to_owned();
            push_decimal(&mut line, n as u64);
            line.append(" membership(s) of ");
            line.append(args[2].as_str());
            line.append(" in group ");
            line.append(args[1].as_str());
            return Ok(one_line(line));
        }
    }
    if args.len() == 2 && same_text(command, "ls") {
        return Ok(list_lines(store, args[1].as_str()));
    }
    Err(AdminError::InvalidCommand)
}

proof fn lemma_same_at(
    v: StoreView,
    urc_id: Seq<char>,
    a: Seq<(Seq<char>, Seq<char>)>,
    b: Seq<(Seq<char>, Seq<char>)>,
    i: int,
)
    requires
        is_grant_list(v, urc_id, a),
        is_grant_list(v, urc_id, b),
        0 <= i < a.len(),
    ensures
        i < b.len(),
        a[i] == b[i],
    decreases i,
{
    assert forall|k: int| 0 <= k < i implies k < b.len() && a[k] == b[k] by {
        lemma_same_at(v, urc_id, a, b, k);
    }
    let j = choose|j: int| 0 <= j < b.len() && (#[trigger] b[j]).0 == a[i].0;
    if j < i {
        lemma_text_before_order(a[j].0, a[i].0);
    }
    let m = choose|m: int| 0 <= m < a.len() && (#[trigger] a[m]).0 == b[i].0;
    if m < i {
        lemma_text_before_order(b[m].0, b[i].0);
    }
    if j > i && m > i {
        lemma_text_before_order(a[i].0, b[i].0);
    }
}

/// There is one list of the grants on a resource.
pub proof fn grant_list_is_unique(
    v: StoreView,
    urc_id: Seq<char>,
    a: Seq<(Seq<char>, Seq<char>)>,
    b: Seq<(Seq<char>, Seq<char>)>,
)
    requires
        is_grant_list(v, urc_id, a),
        is_grant_list(v, urc_id, b),
    ensures
        a == b,
{
    assert forall|i: int| 0 <= i < a.len() implies i < b.len() && a[i] == b[i] by {
        lemma_same_at(v, urc_id, a, b, i);
    }
    assert forall|i: int| 0 <= i < b.len() implies i < a.len() && a[i] == b[i] by {
        lemma_same_at(v, urc_id, b, a, i);
    }
    if a.len() < b.len() {
        assert(b[a.len() as int] == b[a.len() as int]);
    } else if b.len() < a.len() {
        assert(a[b.len() as int] == a[b.len() as int]);
    }
}

/// The `grant` command, with the name of a role, writes that role for that subject on
/// that resource, and says so; every other grant stays. Where no group gives the subject
/// anything on the resource, it then has exactly that role.
pub proof fn grant_command_grants_the_role(v: StoreView, args: Seq<Seq<char>>, role: Role)
    requires
        args.len() == 4,
        args[0] == "grant"@,
        args[3] == role_name(role),
    ensures
        command_of(args) matches Ok(c) && {
            let w = after_command(v, c);
            &&& w.grants.contains_key((args[1], args[2]))
            &&& w.grants[(args[1], args[2])] == args[3]
            &&& same_but_one_grant(v, w, args[1], args[2])
            &&& w.resources == v.resources && w.members == v.members
            &&& effective_role(w, args[1], args[2]) == Some(role) || effective_role(
                w,
                args[1],
                args[2],
            ) == Some(Role::Owner)
            &&& (forall|grp: Seq<char>| #[trigger]
                v.members.contains((grp, args[1])) ==> !v.grants.contains_key(
                    ("group:"@ + grp, args[2]),
                )) ==> effective_role(w, args[1], args[2]) == Some(role)
            &&& forall|lines: Seq<Seq<char>>| #[trigger]
                prints(v, c, lines) <==> lines == seq![
                    "granted "@ + args[3] + " on "@ + args[2] + " to "@ + args[1],
                ]
        },
{
    role_names_read_back(role);
    names_of_roles(args[3]);
    granting_concerns_one_grant(v, args[1], args[2], role);
    let w = with_grant(v, args[1], args[2], role);
    own_grant_counts(w, args[1], args[2]);
    if role == Role::Member && (forall|grp: Seq<char>| #[trigger]
        v.members.contains((grp, args[1])) ==> !v.grants.contains_key(("group:"@ + grp, args[2]))) {
        reveal_strlit("owner");
        reveal_strlit("member");
        assert("owner"@.len() != "member"@.len());
        assert forall|grp: Seq<char>| #[trigger]
            w.members.contains((grp, args[1])) && w.grants.contains_key(("group:"@ + grp, args[2]))
            implies w.grants[("group:"@ + grp, args[2])] != "owner"@ by {
            assert(v.members.contains((grp, args[1])));
            if "group:"@ + grp != args[1] {
                assert(!v.grants.contains_key(("group:"@ + grp, args[2])));
            }
        }
        owners_are_named_owners(w, args[1], args[2]);
    }
}

/// The older names of the one access role grant membership; a role of no known name
/// grants nothing.
pub proof fn grant_command_reads_the_role(args: Seq<Seq<char>>)
    requires
        args.len() == 4,
        args[0] == "grant"@,
    ensures
        args[3] == "owner"@ ==> command_of(args) == Ok::<Command, AdminError>(
            Command::Grant { subject: args[1], urc_id: args[2], role: Role::Owner },
        ),
        args[3] == "member"@ || args[3] == "writer"@ || args[3] == "reader"@ ==> command_of(args)
            == Ok::<Command, AdminError>(
            Command::Grant { subject: args[1], urc_id: args[2], role: Role::Member },
        ),
        args[3] != "owner"@ && args[3] != "member"@ && args[3] != "writer"@ && args[3] != "reader"@
            ==> command_of(args) == Err::<Command, AdminError>(AdminError::UnknownRole),
{
    names_of_roles(args[3]);
}

proof fn reveal_commands()
    ensures
        "grant"@ != "revoke"@,
        "grant"@ != "group-add"@,
        "grant"@ != "group-del"@,
        "grant"@ != "ls"@,
        "revoke"@ != "group-add"@,
        "revoke"@ != "group-del"@,
        "revoke"@ != "ls"@,
        "group-add"@ != "group-del"@,
        "group-add"@ != "ls"@,
        "group-del"@ != "ls"@,
        decimal(0) == "0"@,
        decimal(1) == "1"@,
{
    reveal_strlit("grant");
    reveal_strlit("revoke");
    reveal_strlit("group-add");
    reveal_strlit("group-del");
    reveal_strlit("ls");
    reveal_strlit("0");
    reveal_strlit("1");
    assert("group-add"@[6] == 'a' && "group-del"@[6] == 'd');
    assert("grant"@.len() == 5 && "revoke"@.len() == 6 && "group-add"@.len() == 9 && "ls"@.len()
        == 2);
    assert(decimal(0) =~= "0"@);
    assert(decimal(1) =~= "1"@);
}

/// The `revoke` command takes the subject's own grant on the resource away and tells
/// whether there was one; every other grant stays.
pub proof fn revoke_command_takes_the_grant_away(v: StoreView, args: Seq<Seq<char>>)
    requires
        args.len() == 3,
        args[0] == "revoke"@,
    ensures
        command_of(args) matches Ok(c) && {
            let w = after_command(v, c);
            &&& !w.grants.contains_key((args[1], args[2]))
            &&& same_but_one_grant(v, w, args[1], args[2])
            &&& w.resources == v.resources && w.members == v.members
            &&& forall|lines: Seq<Seq<char>>| #[trigger]
                prints(v, c, lines) <==> lines == seq![
                    "removed "@ + (if v.grants.contains_key((args[1], args[2])) {
                        "1"@
                    } else {
                        "0"@
                    }) + " grant(s) for "@ + args[1] + " on "@ + args[2],
                ]
        },
{
    reveal_commands();
    granting_concerns_one_grant(v, args[1], args[2], Role::Member);
}

/// The `group-add` command makes the subject a member of the group, and the
/// `group-del` command takes it out and tells whether it was one. Nothing else changes.
pub proof fn group_commands_change_the_membership(
    v: StoreView,
    args: Seq<Seq<char>>,
    other: (Seq<char>, Seq<char>),
)
    requires
        args.len() == 3,
        args[0] == "group-add"@ || args[0] == "group-del"@,
    ensures
        command_of(args) matches Ok(c) && {
            let w = after_command(v, c);
            &&& w.members.contains((args[1], args[2])) <==> args[0] == "group-add"@
            &&& other != (args[1], args[2]) ==> w.members.contains(other) == v.members.contains(
                other,
            )
            &&& w.resources == v.resources && w.grants == v.grants
            &&& args[0] == "group-add"@ ==> forall|lines: Seq<Seq<char>>| #[trigger]
                prints(v, c, lines) <==> lines == seq![
                    "added "@ + args[2] + " to group "@ + args[1],
                ]
            &&& args[0] == "group-del"@ ==> forall|lines: Seq<Seq<char>>| #[trigger]
                prints(v, c, lines) <==> lines == seq![
                    "removed "@ + (if v.members.contains((args[1], args[2])) {
                        "1"@
                    } else {
                        "0"@
                    }) + " membership(s) of "@ + args[2] + " in group "@ + args[1],
                ]
        },
{
    reveal_commands();
    joining_concerns_one_membership(v, args[1], args[2], other);
}

/// The `ls` command changes nothing, and prints every grant on the resource, as its role
/// name, a tab and its subject, one line each and in the order of the subjects, and
/// nothing else.
pub proof fn ls_command_lists_the_grants(
    v: StoreView,
    args: Seq<Seq<char>>,
    lines: Seq<Seq<char>>,
    subject: Seq<char>,
)
    requires
        args.len() == 2,
        args[0] == "ls"@,
        command_of(args) matches Ok(c) && prints(v, c, lines),
    ensures
        after_command(v, command_of(args)->Ok_0) == v,
        v.grants.contains_key((subject, args[1])) ==> lines.contains(
            v.grants[(subject, args[1])] + "\t"@ + subject,
        ),
        exists|subjects: Seq<Seq<char>>|
            #![trigger subjects.len()]
            {
                &&& subjects.len() == lines.len()
                &&& forall|i: int|
                    0 <= i < lines.len() ==> v.grants.contains_key((#[trigger] subjects[i], args[1]))
                        && lines[i] == v.grants[(subjects[i], args[1])] + "\t"@ + subjects[i]
                &&& forall|i: int, j: int|
                    0 <= i < j < lines.len() ==> text_before(
                        #[trigger] subjects[i],
                        #[trigger] subjects[j],
                    )
            },
{
    reveal_commands();
    let list = choose|list: Seq<(Seq<char>, Seq<char>)>| #[trigger]
        is_grant_list(v, args[1], list) && lines == grant_lines(list);
    let subjects = list.map_values(|g: (Seq<char>, Seq<char>)| g.0);
    assert(subjects.len() == lines.len());
    assert forall|i: int, j: int| 0 <= i < j < lines.len() implies text_before(
        #[trigger] subjects[i],
        #[trigger] subjects[j],
    ) by {
        assert(text_before(list[i].0, list[j].0));
    }
    if v.grants.contains_key((subject, args[1])) {
        let k = choose|k: int| 0 <= k < list.len() && (#[trigger] list[k]).0 == subject;
        assert(lines[k] == v.grants[(subject, args[1])] + "\t"@ + subject);
    }
}

/// There are five commands, each with its number of arguments; anything else is refused
/// and changes nothing.
pub proof fn other_commands_are_refused(args: Seq<Seq<char>>)
    requires
        args.len() > 0,
        args[0] == "grant"@ ==> args.len() != 4,
        args[0] == "revoke"@ || args[0] == "group-add"@ || args[0] == "group-del"@ ==> args.len()
            != 3,
        args[0] == "ls"@ ==> args.len() != 2,
    ensures
        command_of(args) == Err::<Command, AdminError>(AdminError::InvalidCommand),
{
}

}
