use z2p_axum::domain::NewSubscriber;
use z2p_axum::form::FormData;
use z2p_axum::intake::{ingest, IntakeError};
use z2p_axum::store::{classify_db_error, insert_subscriber, StoreError, SubscriptionStore};

fn valid_form() -> FormData {
    FormData { email: "ursula_le_guin@gmail.com".to_string(), name: "le guin".to_string() }
}

#[test]
fn a_fresh_insert_stores_one_record() {
    let mut store = SubscriptionStore::new();
    let subscriber = NewSubscriber::try_from(valid_form()).unwrap();
    assert!(insert_subscriber(&mut store, &subscriber).is_ok());
    assert_eq!(store.records.len(), 1);
    assert_eq!(store.records[0].email, "ursula_le_guin@gmail.com");
    assert_eq!(store.records[0].name, "le guin");
}

#[test]
fn identifiers_are_assigned_in_order_and_never_reused() {
    let mut store = SubscriptionStore::new();
    let a = NewSubscriber::try_from(FormData {
        email: "a@x.com".to_string(),
        name: "a".to_string(),
    })
    .unwrap();
    let b = NewSubscriber::try_from(FormData {
        email: "b@x.com".to_string(),
        name: "b".to_string(),
    })
    .unwrap();
    insert_subscriber(&mut store, &a).unwrap();
    insert_subscriber(&mut store, &b).unwrap();
    assert_eq!(store.records[0].id, 0);
    assert_eq!(store.records[1].id, 1);
    assert_eq!(store.next_id, 2);
}

#[test]
fn inserting_the_same_email_twice_is_a_duplicate() {
    let mut store = SubscriptionStore::new();
    let subscriber = NewSubscriber::try_from(valid_form()).unwrap();
    assert!(insert_subscriber(&mut store, &subscriber).is_ok());
    assert_eq!(insert_subscriber(&mut store, &subscriber), Err(StoreError::DuplicateEmail));
    let matching = store
        .records
        .iter()
        .filter(|r| r.email == "ursula_le_guin@gmail.com")
        .count();
    assert_eq!(matching, 1);
}

#[test]
fn ingest_rejects_invalid_input_without_touching_the_store() {
    let mut store = SubscriptionStore::new();
    let bad = FormData { email: "not-an-email".to_string(), name: "le guin".to_string() };
    assert_eq!(ingest(bad, &mut store), Err(IntakeError::InvalidInput));
    assert_eq!(store.records.len(), 0);
}

#[test]
fn ingest_twice_with_the_same_email_stores_once_and_fails_once() {
    let mut store = SubscriptionStore::new();
    assert!(ingest(valid_form(), &mut store).is_ok());
    let second = ingest(
        FormData { email: "ursula_le_guin@gmail.com".to_string(), name: "other".to_string() },
        &mut store,
    );
    assert_eq!(second, Err(IntakeError::StorageFailure(StoreError::DuplicateEmail)));
    assert_eq!(store.records.len(), 1);
    assert_eq!(store.records[0].name, "le guin");
}

#[test]
fn duplicate_key_code_classifies_as_duplicate_email() {
    assert_eq!(classify_db_error(Some(1062)), StoreError::DuplicateEmail);
}

#[test]
fn schema_codes_classify_as_schema_mismatch() {
    assert_eq!(classify_db_error(Some(1146)), StoreError::SchemaMismatch);
    assert_eq!(classify_db_error(Some(1054)), StoreError::SchemaMismatch);
}

#[test]
fn anything_else_classifies_as_unavailable() {
    assert_eq!(classify_db_error(None), StoreError::Unavailable);
    assert_eq!(classify_db_error(Some(1045)), StoreError::Unavailable);
}
