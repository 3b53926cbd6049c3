//! The persistence model: subscription records under a unique-email
//! constraint, and the classification of storage failures.

use vstd::prelude::*;
use vstd::string::StringExecFns;
use crate::domain::NewSubscriber;

verus! {

/// One persisted subscription row.
pub struct SubscriptionRecord {
    pub id: u64,
    pub email: String,
    pub name: String,
    pub subscribed_at: i64,
}

/// The three-way classification of storage failures.  A duplicate email is
/// an expected, recoverable outcome and is never conflated with a transport
/// failure or a missing schema.
#[derive(Clone, Copy, Debug, PartialEq, Eq, Structural)]
pub enum StoreError {
    DuplicateEmail,
    Unavailable,
    SchemaMismatch,
}

/// How many records of `rs` carry the email `e`.
pub open spec fn email_count(rs: Seq<SubscriptionRecord>, e: Seq<char>) -> nat
    decreases rs.len(),
{
    if rs.len() == 0 {
        0
    } else {
        email_count(rs.drop_last(), e) + (if rs.last().email@ == e {
            1nat
        } else {
            0nat
        })
    }
}

/// The subscription table: records in insertion order, and the identifier
/// the store will assign next.
pub struct SubscriptionStore {
    pub records: Vec<SubscriptionRecord>,
    pub next_id: u64,
}

impl SubscriptionStore {
    /// The store's invariant: emails are globally unique, and identifiers
    /// are unique, assigned at creation from a counter that never reuses one.
    pub open spec fn wf(self) -> bool {
        &&& forall|i: int, j: int|
            0 <= i < j < self.records@.len() ==> self.records@[i].email@
                != self.records@[j].email@
        &&& forall|i: int| 0 <= i < self.records@.len() ==> self.records@[i].id < self.next_id
        &&& forall|i: int, j: int|
            0 <= i < j < self.records@.len() ==> self.records@[i].id != self.records@[j].id
    }

    /// Some record of the store carries the email `e`.
    pub open spec fn contains_email(self, e: Seq<char>) -> bool {
        exists|i: int| 0 <= i < self.records@.len() && self.records@[i].email@ == e
    }

    /// An empty store.
    pub fn new() -> (s: SubscriptionStore)
        ensures
            s.wf(),
            s.records@.len() == 0,
            s.next_id == 0,
    {
        SubscriptionStore { records: Vec::new(), next_id: 0 }
    }

    /// Whether some record carries the given email.
    pub fn has_email(&self, email: &String) -> (r: bool)
        ensures
            r == self.contains_email(email@),
    {
        let n = self.records.len();
        let mut k: usize = 0;
        while k < n
            invariant
                n == self.records@.len(),
                k <= n,
                forall|j: int| 0 <= j < k ==> self.records@[j].email@ != email@,
            decreases n - k,
        {
            if self.records[k].email == *email {
                return true;
            }
            k = k + 1;
        }
        false
    }

    /// Inserts one record, or reports the duplicate.  On success the new
    /// record takes the store's next identifier and the given timestamp;
    /// on failure the store is untouched.
    pub fn insert(&mut self, subscriber: &NewSubscriber, now: i64) -> (r: Result<(), StoreError>)
        requires
            old(self).wf(),
            old(self).next_id < u64::MAX,
        ensures
            final(self).wf(),
            old(self).contains_email(subscriber.email@) ==> r == Err::<(), StoreError>(
                StoreError::DuplicateEmail,
            ) && *final(self) == *old(self),
            !old(self).contains_email(subscriber.email@) ==> r is Ok && inserted(
                *old(self),
                *final(self),
                subscriber.name@,
                subscriber.email@,
            ) && final(self).records@.last().subscribed_at == now,
    {
        let email = String::from_str(subscriber.email.as_ref());
        if self.has_email(&email) {
            return Err(StoreError::DuplicateEmail);
        }
        let name = String::from_str(subscriber.name.as_ref());
        let id = self.next_id;
        let ghost pre = *self;
        self.records.push(SubscriptionRecord { id, email, name, subscribed_at: now });
        self.next_id = self.next_id + 1;
        proof {
            let rs = self.records@;
            let n = rs.len() as int;
            assert(rs.subrange(0, n - 1) =~= pre.records@);
            assert forall|a: int, b: int| 0 <= a < b < n implies rs[a].email@ != rs[b].email@ by {
                if b == n - 1 {
                    assert(rs[a] == pre.records@[a]);
                }
            }
            assert forall|a: int| 0 <= a < n implies rs[a].id < self.next_id by {
                if a < n - 1 {
                    assert(rs[a] == pre.records@[a]);
                }
            }
            assert forall|a: int, b: int| 0 <= a < b < n implies rs[a].id != rs[b].id by {
                if b == n - 1 && a < n - 1 {
                    assert(rs[a] == pre.records@[a]);
                }
            }
        }
        Ok(())
    }
}

/// The relation between a store and its successor after one successful
/// insertion of a subscriber with the given name and email.  The timestamp
/// of the new record is the adapter's clock reading and is not part of the
/// relation.
pub open spec fn inserted(
    pre: SubscriptionStore,
    post: SubscriptionStore,
    name: Seq<char>,
    email: Seq<char>,
) -> bool {
    &&& post.records@.len() == pre.records@.len() + 1
    &&& post.records@.subrange(0, pre.records@.len() as int) == pre.records@
    &&& post.records@.last().email@ == email
    &&& post.records@.last().name@ == name
    &&& post.records@.last().id == pre.next_id
    &&& post.next_id == pre.next_id + 1
}

/// Relies on chrono's `Utc::now` for the insertion timestamp; nothing is
/// assumed of the value read from the clock.
#[verifier::external_body]
fn now_timestamp_micros() -> i64 {
    chrono::Utc::now().timestamp_micros()
}

/// The persistence adapter's insert: stamps the record with the adapter's
/// clock at the moment of insertion, never with a caller-supplied time.
pub fn insert_subscriber(
    store: &mut SubscriptionStore,
    new_subscriber: &NewSubscriber,
) -> (r: Result<(), StoreError>)
    requires
        old(store).wf(),
        old(store).next_id < u64::MAX,
    ensures
        final(store).wf(),
        old(store).contains_email(new_subscriber.email@) ==> r == Err::<(), StoreError>(
            StoreError::DuplicateEmail,
        ) && *final(store) == *old(store),
        !old(store).contains_email(new_subscriber.email@) ==> r is Ok && inserted(
            *old(store),
            *final(store),
            new_subscriber.name@,
            new_subscriber.email@,
        ),
{
    let now = now_timestamp_micros();
    store.insert(new_subscriber, now)
}

/// Classifies a database error by the server's error code: duplicate-key
/// violations are the recoverable duplicate-email outcome, a missing table
/// or column means the schema was not migrated, and anything else, a
/// transport failure without a server code included, is unavailability.
pub fn classify_db_error(code: Option<u16>) -> (r: StoreError)
    ensures
        code == Some(1062u16) ==> r == StoreError::DuplicateEmail,
        code == Some(1146u16) || code == Some(1054u16) ==> r == StoreError::SchemaMismatch,
        code != Some(1062u16) && code != Some(1146u16) && code != Some(1054u16) ==> r
            == StoreError::Unavailable,
{
    match code {
        Some(1062u16) => StoreError::DuplicateEmail,
        Some(1146u16) => StoreError::SchemaMismatch,
        Some(1054u16) => StoreError::SchemaMismatch,
        _ => StoreError::Unavailable,
    }
}

/// A store whose emails are unique holds exactly one record of an email it
/// contains, and none of an email it does not.
pub proof fn lemma_email_count(s: SubscriptionStore, e: Seq<char>)
    requires
        s.wf(),
    ensures
        s.contains_email(e) ==> email_count(s.records@, e) == 1,
        !s.contains_email(e) ==> email_count(s.records@, e) == 0,
{
    lemma_email_count_rec(s.records@, e);
}

proof fn lemma_email_count_rec(rs: Seq<SubscriptionRecord>, e: Seq<char>)
    requires
        forall|i: int, j: int| 0 <= i < j < rs.len() ==> rs[i].email@ != rs[j].email@,
    ensures
        (exists|i: int| 0 <= i < rs.len() && rs[i].email@ == e) ==> email_count(rs, e) == 1,
        !(exists|i: int| 0 <= i < rs.len() && rs[i].email@ == e) ==> email_count(rs, e) == 0,
    decreases rs.len(),
{
    if rs.len() > 0 {
        let head = rs.drop_last();
        assert(forall|i: int, j: int| 0 <= i < j < head.len() ==> head[i] == rs[i] && head[j]
            == rs[j]);
        lemma_email_count_rec(head, e);
        if rs.last().email@ == e {
            assert forall|i: int| 0 <= i < head.len() implies head[i].email@ != e by {
                assert(head[i] == rs[i]);
                assert(rs[i].email@ != rs[rs.len() - 1].email@);
            }
        } else {
            if exists|i: int| 0 <= i < rs.len() && rs[i].email@ == e {
                let i = choose|i: int| 0 <= i < rs.len() && rs[i].email@ == e;
                assert(i < head.len() && head[i] == rs[i]);
            }
        }
    }
}

} // verus!
