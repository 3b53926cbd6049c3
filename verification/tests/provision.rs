use z2p_axum::provision::{
    check_db_name, create_database_statement, provision_database_name, StoreCluster,
};

#[test]
fn generated_names_are_safe_and_fresh() {
    let a = provision_database_name();
    let b = provision_database_name();
    assert_eq!(a.len(), 36);
    assert!(check_db_name(&a));
    assert!(a.chars().all(|c| c.is_ascii_hexdigit() || c == '-'));
    assert_ne!(a, b);
}

#[test]
fn the_create_statement_quotes_the_name() {
    let stmt = create_database_statement("foo-1").unwrap();
    assert_eq!(stmt, "CREATE DATABASE IF NOT EXISTS `foo-1`");
}

#[test]
fn unsafe_names_are_refused() {
    assert!(create_database_statement("").is_none());
    assert!(create_database_statement("has space").is_none());
    assert!(create_database_statement("back`tick").is_none());
    assert!(create_database_statement("UPPER").is_none());
    assert!(create_database_statement(&"a".repeat(65)).is_none());
}

#[test]
fn provisioning_is_idempotent_under_create_if_not_exists() {
    let mut cluster = StoreCluster::new();
    cluster.create_database_if_not_exists("db-a".to_string());
    cluster.create_database_if_not_exists("db-a".to_string());
    assert_eq!(cluster.databases.len(), 1);
}

#[test]
fn concurrent_scenarios_never_observe_each_other() {
    let mut cluster = StoreCluster::new();
    let db_a = provision_database_name();
    let db_b = provision_database_name();
    cluster.create_database_if_not_exists(db_a.clone());
    cluster.create_database_if_not_exists(db_b.clone());

    let body_a: &[u8] = b"name=le%20guin&email=ursula_le_guin%40gmail.com";
    let body_b: &[u8] = b"name=tolkien&email=jrr%40tolkien.co.uk";

    assert_eq!(cluster.subscribe_in(&db_a, body_a), Some(200));
    assert_eq!(cluster.subscribe_in(&db_b, body_b), Some(200));
    assert_eq!(cluster.subscribe_in(&db_b, body_a), Some(200));

    let a = cluster.databases.iter().find(|d| d.name == db_a).unwrap();
    let b = cluster.databases.iter().find(|d| d.name == db_b).unwrap();
    assert_eq!(a.store.records.len(), 1);
    assert_eq!(a.store.records[0].email, "ursula_le_guin@gmail.com");
    assert_eq!(b.store.records.len(), 2);
}

#[test]
fn subscribing_into_an_absent_database_does_nothing() {
    let mut cluster = StoreCluster::new();
    let status = cluster.subscribe_in(&"nowhere".to_string(), b"");
    assert_eq!(status, None);
    assert_eq!(cluster.databases.len(), 0);
}
