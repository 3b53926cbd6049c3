//! The subscriber intake service: validate, then persist, exactly once.

use vstd::prelude::*;
use crate::domain::{email_ok, name_ok, NewSubscriber};
use crate::form::FormData;
use crate::store::{
    email_count, inserted, insert_subscriber, StoreError, SubscriptionStore,
};

verus! {

/// Why an intake failed: the input was rejected by the domain parsers, or
/// the store refused the insert.  The storage classification is kept
/// distinct inside the error so no caller has to conflate a duplicate with
/// an outage.
#[derive(Clone, Copy, Debug, PartialEq, Eq, Structural)]
pub enum IntakeError {
    InvalidInput,
    StorageFailure(StoreError),
}

/// What one intake of the given raw fields returns against a given store.
pub open spec fn ingest_outcome(
    s: SubscriptionStore,
    name: Seq<char>,
    email: Seq<char>,
) -> Result<(), IntakeError> {
    if !(name_ok(name) && email_ok(email)) {
        Result::Err(IntakeError::InvalidInput)
    } else if s.contains_email(email) {
        Result::Err(IntakeError::StorageFailure(StoreError::DuplicateEmail))
    } else {
        Result::Ok(())
    }
}

/// Converts the raw fields into domain values and delegates to the
/// persistence adapter.  Invalid input fails fast: the store is never
/// touched.  A failed insert leaves no record; a successful one leaves
/// exactly the one new record.
pub fn ingest(raw_form: FormData, store: &mut SubscriptionStore) -> (r: Result<(), IntakeError>)
    requires
        old(store).wf(),
        old(store).next_id < u64::MAX,
    ensures
        final(store).wf(),
        r == ingest_outcome(*old(store), raw_form.name@, raw_form.email@),
        r is Err ==> *final(store) == *old(store),
        r is Ok ==> inserted(*old(store), *final(store), raw_form.name@, raw_form.email@),
{
    let subscriber = match NewSubscriber::try_from(raw_form) {
        Ok(ns) => ns,
        Err(_) => {
            return Err(IntakeError::InvalidInput);
        },
    };
    match insert_subscriber(store, &subscriber) {
        Ok(u) => Ok(u),
        Err(e) => Err(IntakeError::StorageFailure(e)),
    }
}

/// Law: one successful insertion preserves the store's invariant, and the
/// store then holds the new email.
pub proof fn lemma_inserted_wf(
    pre: SubscriptionStore,
    post: SubscriptionStore,
    name: Seq<char>,
    email: Seq<char>,
)
    requires
        pre.wf(),
        !pre.contains_email(email),
        inserted(pre, post, name, email),
    ensures
        post.wf(),
        post.contains_email(email),
{
    let rs = post.records@;
    let n = rs.len() as int;
    assert forall|a: int, b: int| 0 <= a < b < n implies rs[a].email@ != rs[b].email@ by {
        if b == n - 1 {
            assert(rs[a] == pre.records@[a]);
        } else {
            assert(rs[a] == pre.records@[a] && rs[b] == pre.records@[b]);
        }
    }
    assert forall|a: int| 0 <= a < n implies rs[a].id < post.next_id by {
        if a < n - 1 {
            assert(rs[a] == pre.records@[a]);
        }
    }
    assert forall|a: int, b: int| 0 <= a < b < n implies rs[a].id != rs[b].id by {
        if b == n - 1 && a < n - 1 {
            assert(rs[a] == pre.records@[a]);
        } else if b < n - 1 {
            assert(rs[a] == pre.records@[a] && rs[b] == pre.records@[b]);
        }
    }
    assert(rs[n - 1].email@ == email);
}

/// Law: ingesting the same email twice stores one record and fails the
/// second time.  After a first successful ingest, a second intake of any
/// form carrying the same email is refused as a duplicate-email storage
/// failure, and the store holds exactly one record of that email.
pub proof fn lemma_ingest_idempotent(
    pre: SubscriptionStore,
    post: SubscriptionStore,
    name: Seq<char>,
    email: Seq<char>,
    second_name: Seq<char>,
)
    requires
        pre.wf(),
        ingest_outcome(pre, name, email) is Ok,
        inserted(pre, post, name, email),
        name_ok(second_name),
    ensures
        ingest_outcome(post, second_name, email) == Result::<(), IntakeError>::Err(
            IntakeError::StorageFailure(StoreError::DuplicateEmail),
        ),
        email_count(post.records@, email) == 1,
{
    lemma_inserted_wf(pre, post, name, email);
    crate::store::lemma_email_count(post, email);
}

} // verus!
