use kaguya::auth::store::{Role, Store};
use rusqlite::Connection;

const SCHEMA: &str = "
CREATE TABLE resources (urc_id TEXT PRIMARY KEY, name TEXT NOT NULL DEFAULT '', created_at INTEGER NOT NULL);
CREATE TABLE grants (subject TEXT NOT NULL, urc_id TEXT NOT NULL, role TEXT NOT NULL, PRIMARY KEY (subject, urc_id));
CREATE TABLE group_members (grp TEXT NOT NULL, subject TEXT NOT NULL, PRIMARY KEY (grp, subject));
";

const SUBJECTS: [&str; 5] = ["alice", "bob", "Zoë", "group:eng", "group:ops"];
const GROUPS: [&str; 2] = ["eng", "ops"];
const RESOURCES: [&str; 3] = ["urc-1", "urc-2", "urc-é"];

struct Both {
    store: Store,
    conn: Connection,
}

impl Both {
    fn new() -> Both {
        let conn = Connection::open_in_memory().unwrap();
        conn.execute_batch(SCHEMA).unwrap();
        Both { store: Store::open_in_memory(), conn }
    }

    fn record_owner(&mut self, owner: &str, urc_id: &str) {
        self.store.record_owner_at(owner, urc_id, "n", 5);
        let created = self
            .conn
            .execute(
                "INSERT OR IGNORE INTO resources(urc_id, name, created_at) VALUES (?, ?, ?)",
                (urc_id, "n", 5),
            )
            .unwrap();
        if created > 0 {
            self.conn
                .execute(
                    "INSERT OR REPLACE INTO grants(subject, urc_id, role) VALUES (?, ?, 'owner')",
                    [owner, urc_id],
                )
                .unwrap();
        }
    }

    fn delete_resource(&mut self, urc_id: &str) {
        self.store.delete_resource(urc_id);
        self.conn.execute("DELETE FROM grants WHERE urc_id = ?", [urc_id]).unwrap();
        self.conn.execute("DELETE FROM resources WHERE urc_id = ?", [urc_id]).unwrap();
    }

    fn grant(&mut self, subject: &str, urc_id: &str, role: Role) {
        self.store.grant(subject, urc_id, role);
        self.conn
            .execute(
                "INSERT OR REPLACE INTO grants(subject, urc_id, role) VALUES (?, ?, ?)",
                [subject, urc_id, role.as_str()],
            )
            .unwrap();
    }

    fn revoke(&mut self, subject: &str, urc_id: &str) {
        let n = self
            .conn
            .execute("DELETE FROM grants WHERE subject = ? AND urc_id = ?", [subject, urc_id])
            .unwrap();
        assert_eq!(self.store.revoke(subject, urc_id), n);
    }

    fn add_group_member(&mut self, grp: &str, subject: &str) {
        self.store.add_group_member(grp, subject);
        self.conn
            .execute("INSERT OR IGNORE INTO group_members(grp, subject) VALUES (?, ?)", [grp, subject])
            .unwrap();
    }

    fn remove_group_member(&mut self, grp: &str, subject: &str) {
        let n = self
            .conn
            .execute("DELETE FROM group_members WHERE grp = ? AND subject = ?", [grp, subject])
            .unwrap();
        assert_eq!(self.store.remove_group_member(grp, subject), n);
    }

    fn roles(&self, subject: &str, urc_id: &str) -> Option<Role> {
        let mut stmt = self
            .conn
            .prepare(
                "SELECT role FROM grants WHERE urc_id = ?1 AND (
                     subject = ?2
                     OR subject IN (SELECT 'group:' || grp FROM group_members WHERE subject = ?2)
                 )",
            )
            .unwrap();
        let rows = stmt.query_map([urc_id, subject], |r| r.get::<_, String>(0)).unwrap();
        let mut best: Option<Role> = None;
        for role in rows.flatten() {
            if let Some(role) = Role::parse(&role) {
                best = Some(best.map_or(role, |b| b.max(role)));
            }
        }
        best
    }

    fn accessible(&self, subject: &str) -> Vec<String> {
        let mut stmt = self
            .conn
            .prepare(
                "SELECT DISTINCT urc_id FROM grants WHERE
                     subject = ?1
                     OR subject IN (SELECT 'group:' || grp FROM group_members WHERE subject = ?1)",
            )
            .unwrap();
        let rows = stmt.query_map([subject], |r| r.get::<_, String>(0)).unwrap();
        let mut list: Vec<String> = rows.flatten().collect();
        list.sort();
        list
    }

    fn list_grants(&self, urc_id: &str) -> Vec<(String, String)> {
        let mut stmt = self
            .conn
            .prepare("SELECT subject, role FROM grants WHERE urc_id = ? ORDER BY subject")
            .unwrap();
        let rows = stmt
            .query_map([urc_id], |r| Ok((r.get::<_, String>(0)?, r.get::<_, String>(1)?)))
            .unwrap();
        rows.flatten().collect()
    }

    fn agree(&self) {
        for subject in SUBJECTS {
            for urc_id in RESOURCES {
                assert_eq!(self.store.role_for(subject, urc_id), self.roles(subject, urc_id));
            }
            let mut mine = self.store.accessible(subject);
            mine.sort();
            assert_eq!(mine, self.accessible(subject));
        }
        for urc_id in RESOURCES {
            assert_eq!(self.store.list_grants(urc_id), self.list_grants(urc_id));
        }
    }
}

#[test]
fn the_tables_answer_as_a_database_does() {
    let mut both = Both::new();
    let mut seed: u64 = 0x2545_f491_4f6c_dd1d;
    for _ in 0..400 {
        seed ^= seed << 13;
        seed ^= seed >> 7;
        seed ^= seed << 17;
        let n = seed as usize;
        let subject = SUBJECTS[n % SUBJECTS.len()];
        let urc_id = RESOURCES[(n >> 8) % RESOURCES.len()];
        let grp = GROUPS[(n >> 16) % GROUPS.len()];
        match (n >> 24) % 8 {
            0 => both.record_owner(subject, urc_id),
            1 => both.delete_resource(urc_id),
            2 => both.grant(subject, urc_id, Role::Owner),
            3 | 4 => both.grant(subject, urc_id, Role::Member),
            5 => both.revoke(subject, urc_id),
            6 => both.add_group_member(grp, subject),
            _ => both.remove_group_member(grp, subject),
        }
        both.agree();
    }
}
