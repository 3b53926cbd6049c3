//! The test harness's provisioning rules: one freshly named database per
//! run, created if absent, and never observed by any other run.

use vstd::prelude::*;
use vstd::string::StringExecFns;
use crate::endpoint::{subscribe, subscribe_status};
use crate::store::SubscriptionStore;

verus! {

/// A lower-case hex digit character.
pub open spec fn is_lower_hex_char(c: char) -> bool {
    (0x30 <= c as u32 && c as u32 <= 0x39) || (0x61 <= c as u32 && c as u32 <= 0x66)
}

/// A character a generated database name may hold.
pub open spec fn safe_name_char(c: char) -> bool {
    (0x30 <= c as u32 && c as u32 <= 0x39) || (0x61 <= c as u32 && c as u32 <= 0x7A) || c as u32
        == 0x2D
}

/// A database name the harness accepts: non-empty, at most 64 characters,
/// lower-case letters, digits and hyphens only.  Such a name holds no
/// backtick and no quote, so quoting it with backticks is always sound.
pub open spec fn safe_db_name(s: Seq<char>) -> bool {
    &&& s.len() > 0
    &&& s.len() <= 64
    &&& forall|i: int| 0 <= i < s.len() ==> safe_name_char(s[i])
}

/// Relies on uuid's `Uuid::new_v4` and its hyphenated rendering: a fresh
/// random identifier printed as 36 characters, lower-case hex digits with
/// hyphens at positions 8, 13, 18 and 23.  Nothing is assumed about which
/// identifier comes out.
#[verifier::external_body]
fn random_uuid_string() -> (r: String)
    ensures
        r@.len() == 36,
        forall|i: int|
            0 <= i < 36 ==> if i == 8 || i == 13 || i == 18 || i == 23 {
                r@[i] as u32 == 0x2D
            } else {
                is_lower_hex_char(r@[i])
            },
{
    uuid::Uuid::new_v4().to_string()
}

/// Draws a globally unique database name for one test run.  Whatever the
/// draw, the name is safe to provision.
pub fn provision_database_name() -> (s: String)
    ensures
        safe_db_name(s@),
        s@.len() == 36,
{
    let s = random_uuid_string();
    proof {
        assert forall|i: int| 0 <= i < s@.len() implies safe_name_char(s@[i]) by {
            if !(i == 8 || i == 13 || i == 18 || i == 23) {
                assert(is_lower_hex_char(s@[i]));
            }
        }
    }
    s
}

/// The characters of ``CREATE DATABASE IF NOT EXISTS ` ``.
pub open spec fn create_stmt_prefix() -> Seq<char> {
    seq![
        'C',
        'R',
        'E',
        'A',
        'T',
        'E',
        ' ',
        'D',
        'A',
        'T',
        'A',
        'B',
        'A',
        'S',
        'E',
        ' ',
        'I',
        'F',
        ' ',
        'N',
        'O',
        'T',
        ' ',
        'E',
        'X',
        'I',
        'S',
        'T',
        'S',
        ' ',
        '`',
    ]
}

/// The create-if-not-exists statement for a database name, backtick-quoted.
pub open spec fn spec_create_statement(name: Seq<char>) -> Seq<char> {
    create_stmt_prefix() + name + seq!['`']
}

/// Decides `safe_db_name`.
pub fn check_db_name(name: &str) -> (r: bool)
    ensures
        r == safe_db_name(name@),
{
    let chars = crate::text::str_chars(name);
    let n = chars.len();
    if n == 0 || n > 64 {
        return false;
    }
    let mut i: usize = 0;
    while i < n
        invariant
            n == name@.len(),
            chars@ == name@,
            i <= n,
            forall|k: int| 0 <= k < i ==> safe_name_char(name@[k]),
        decreases n - i,
    {
        let v = chars[i] as u32;
        if !((0x30 <= v && v <= 0x39) || (0x61 <= v && v <= 0x7A) || v == 0x2D) {
            return false;
        }
        i = i + 1;
    }
    true
}

/// Composes the create-if-not-exists statement for a safe name, and
/// refuses any other name, so no name can escape its backtick quoting.
pub fn create_database_statement(name: &str) -> (r: Option<String>)
    ensures
        r is Some <==> safe_db_name(name@),
        r matches Some(s) ==> s@ == spec_create_statement(name@),
{
    if !check_db_name(name) {
        return None;
    }
    proof {
        reveal_strlit("CREATE DATABASE IF NOT EXISTS `");
        reveal_strlit("`");
    }
    let mut s = String::new();
    s.append("CREATE DATABASE IF NOT EXISTS `");
    s.append(name);
    s.append("`");
    proof {
        assert(s@ =~= spec_create_statement(name@));
    }
    Some(s)
}

/// One isolated database: its name and its own subscription table.
pub struct DatabaseInstance {
    pub name: String,
    pub store: SubscriptionStore,
}

/// The store server as the harness sees it: a family of databases, each
/// with its own rows.
pub struct StoreCluster {
    pub databases: Vec<DatabaseInstance>,
}

impl StoreCluster {
    /// Names are unique and every database is well formed.
    pub open spec fn wf(self) -> bool {
        &&& forall|i: int, j: int|
            0 <= i < j < self.databases@.len() ==> self.databases@[i].name@
                != self.databases@[j].name@
        &&& forall|i: int| 0 <= i < self.databases@.len() ==> self.databases@[i].store.wf()
    }

    /// A database of this name exists.
    pub open spec fn has_db(self, name: Seq<char>) -> bool {
        exists|i: int| 0 <= i < self.databases@.len() && self.databases@[i].name@ == name
    }

    /// An empty server.
    pub fn new() -> (c: StoreCluster)
        ensures
            c.wf(),
            c.databases@.len() == 0,
    {
        StoreCluster { databases: Vec::new() }
    }

    fn find_db(&self, name: &String) -> (r: Option<usize>)
        ensures
            r is Some <==> self.has_db(name@),
            r matches Some(i) ==> i < self.databases@.len() && self.databases@[i as int].name@
                == name@,
    {
        let n = self.databases.len();
        let mut k: usize = 0;
        while k < n
            invariant
                n == self.databases@.len(),
                k <= n,
                forall|j: int| 0 <= j < k ==> self.databases@[j].name@ != name@,
            decreases n - k,
        {
            if self.databases[k].name == *name {
                return Some(k);
            }
            k = k + 1;
        }
        None
    }

    /// Creates a database of this name if none exists; a name already taken
    /// is left as it is.  No other database is touched either way.
    pub fn create_database_if_not_exists(&mut self, name: String)
        requires
            old(self).wf(),
        ensures
            final(self).wf(),
            final(self).has_db(name@),
            old(self).has_db(name@) ==> *final(self) == *old(self),
            !old(self).has_db(name@) ==> final(self).databases@.len()
                == old(self).databases@.len() + 1 && final(self).databases@.last().name@ == name@
                && final(self).databases@.last().store.records@.len() == 0
                && final(self).databases@.last().store.next_id == 0,
            forall|j: int|
                0 <= j < old(self).databases@.len() ==> final(self).databases@[j]
                    == old(self).databases@[j],
    {
        if self.find_db(&name).is_some() {
            return ;
        }
        let ghost pre = *self;
        self.databases.push(DatabaseInstance { name, store: SubscriptionStore::new() });
        proof {
            let ds = self.databases@;
            let n = ds.len() as int;
            assert forall|a: int, b: int| 0 <= a < b < n implies ds[a].name@ != ds[b].name@ by {
                if b == n - 1 {
                    assert(ds[a] == pre.databases@[a]);
                }
            }
            assert(ds[n - 1].name@ == ds.last().name@);
        }
    }

    /// Runs one `POST /subscriptions` against the named database.  The
    /// answer and the named database's rows are exactly those of a lone
    /// store; every database of another name keeps its rows untouched,
    /// whatever the request does.  Without a database of this name nothing
    /// happens at all.
    pub fn subscribe_in(&mut self, name: &String, body: &[u8]) -> (status: Option<u16>)
        requires
            old(self).wf(),
            forall|j: int|
                0 <= j < old(self).databases@.len() && old(self).databases@[j].name@ == name@
                    ==> old(self).databases@[j].store.next_id < u64::MAX,
        ensures
            final(self).wf(),
            final(self).databases@.len() == old(self).databases@.len(),
            status is Some <==> old(self).has_db(name@),
            !old(self).has_db(name@) ==> *final(self) == *old(self),
            forall|j: int|
                0 <= j < old(self).databases@.len() && old(self).databases@[j].name@ != name@
                    ==> final(self).databases@[j] == old(self).databases@[j],
            forall|j: int|
                0 <= j < old(self).databases@.len() && old(self).databases@[j].name@ == name@
                    ==> status == Some(
                    subscribe_status(old(self).databases@[j].store, body@),
                ) && final(self).databases@[j].name@ == name@,
            forall|j: int|
                0 <= j < old(self).databases@.len() && old(self).databases@[j].name@ == name@
                    && subscribe_status(old(self).databases@[j].store, body@) != 200
                    ==> final(self).databases@[j] == old(self).databases@[j],
            forall|j: int|
                0 <= j < old(self).databases@.len() && old(self).databases@[j].name@ == name@
                    && subscribe_status(old(self).databases@[j].store, body@) == 200
                    ==> final(self).databases@[j].store.records@.len()
                        == old(self).databases@[j].store.records@.len() + 1,
    {
        let idx = match self.find_db(name) {
            Some(i) => i,
            None => {
                return None;
            },
        };
        let ghost pre = *self;
        let status = subscribe(body, &mut self.databases[idx].store);
        proof {
            let ds = self.databases@;
            assert forall|a: int, b: int|
                0 <= a < b < ds.len() implies ds[a].name@ != ds[b].name@ by {
                assert(pre.databases@[a].name@ != pre.databases@[b].name@);
            }
        }
        Some(status)
    }
}

/// Law: runs against differently named databases are isolated.  Whatever
/// one run writes, a database of another name keeps exactly the rows it
/// had.
pub proof fn lemma_runs_are_isolated(
    pre: StoreCluster,
    post: StoreCluster,
    name: Seq<char>,
    other: Seq<char>,
    j: int,
)
    requires
        pre.wf(),
        post.databases@.len() == pre.databases@.len(),
        forall|k: int|
            0 <= k < pre.databases@.len() && pre.databases@[k].name@ != name ==> post.databases@[k]
                == pre.databases@[k],
        other != name,
        0 <= j < pre.databases@.len(),
        pre.databases@[j].name@ == other,
    ensures
        post.databases@[j] == pre.databases@[j],
{
}

} // verus!
