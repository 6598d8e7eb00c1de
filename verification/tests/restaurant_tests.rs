use pispas_reservation::errors::AppError;
use pispas_reservation::store::Store;

fn register_bistro(store: &mut Store) -> pispas_reservation::restaurant::Credentials {
    store
        .register_restaurant("X1", "Bistro", "secret1", false, 100)
        .expect("registration should succeed")
}

#[test]
fn register_returns_token_and_id() {
    let mut store = Store::new();
    let creds = register_bistro(&mut store);
    assert_eq!(creds.access_token.len(), 36);
    assert_eq!(creds.id, 0);
    assert_eq!(store.restaurants().len(), 1);
    assert_eq!(store.restaurants()[0].nombre, "Bistro");
    assert_eq!(store.restaurants()[0].objid_pispas, "X1");
    assert_eq!(store.restaurants()[0].password, "secret1");
    assert_eq!(store.restaurants()[0].created_at, 100);
    assert!(!store.restaurants()[0].confirmar_automaticamente);
}

#[test]
fn register_rejects_bad_input() {
    let mut store = Store::new();
    let e = store.register_restaurant("X1", "", "secret1", false, 1).unwrap_err();
    assert!(matches!(e, AppError::Validation(_)));
    let e = store.register_restaurant("X1", "Bistro", "12345", false, 1).unwrap_err();
    assert!(matches!(e, AppError::Validation(_)));
    let e = store.register_restaurant("", "Bistro", "secret1", false, 1).unwrap_err();
    assert!(matches!(e, AppError::Validation(_)));
    assert_eq!(store.restaurants().len(), 0);
}

#[test]
fn secret_minimum_counts_utf8_bytes() {
    let mut store = Store::new();
    // Three characters, six bytes: long enough.
    store
        .register_restaurant("X1", "Bistro", "ñññ", false, 1)
        .expect("a six-byte secret should be accepted");
    // Two characters, four bytes: too short.
    let e = store.register_restaurant("X2", "Cantina", "ññ", false, 1).unwrap_err();
    assert!(matches!(e, AppError::Validation(_)));
}

#[test]
fn register_same_name_conflicts() {
    let mut store = Store::new();
    register_bistro(&mut store);
    let e = store
        .register_restaurant("X2", "Bistro", "secret2", true, 101)
        .unwrap_err();
    assert!(matches!(e, AppError::Conflict(_)));
    assert_eq!(store.restaurants().len(), 1);
}

#[test]
fn register_same_external_ref_conflicts() {
    let mut store = Store::new();
    register_bistro(&mut store);
    let e = store
        .register_restaurant("X1", "Cantina", "secret2", true, 101)
        .unwrap_err();
    assert!(matches!(e, AppError::Conflict(_)));
    assert_eq!(store.restaurants().len(), 1);
}

#[test]
fn register_with_token_reports_duplicate_token_as_database_error() {
    let mut store = Store::new();
    store
        .register_with_token("X1", "Bistro", "secret1", false, "tok-1".to_string(), 100)
        .expect("first registration should succeed");
    let e = store
        .register_with_token("X2", "Cantina", "secret2", false, "tok-1".to_string(), 101)
        .unwrap_err();
    assert!(matches!(e, AppError::Database { .. }));
    assert_eq!(e.status_code(), 500);
    assert_eq!(store.restaurants().len(), 1);
}

#[test]
fn login_succeeds_with_exact_credentials() {
    let mut store = Store::new();
    let creds = register_bistro(&mut store);
    let back = store.login_restaurant("Bistro", "secret1").expect("login should succeed");
    assert_eq!(back.access_token, creds.access_token);
    assert_eq!(back.id, creds.id);
}

#[test]
fn login_wrong_secret_is_unauthorized() {
    let mut store = Store::new();
    register_bistro(&mut store);
    let e = store.login_restaurant("Bistro", "wrong-secret").unwrap_err();
    assert!(matches!(e, AppError::Unauthorized(_)));
    assert_eq!(e.status_code(), 401);
}

#[test]
fn login_empty_fields_are_validation_errors() {
    let store = Store::new();
    let e = store.login_restaurant("", "secret1").unwrap_err();
    assert!(matches!(e, AppError::Validation(_)));
    let e = store.login_restaurant("Bistro", "").unwrap_err();
    assert!(matches!(e, AppError::Validation(_)));
}

#[test]
fn validate_access_token_resolves_the_owner() {
    let mut store = Store::new();
    let creds = register_bistro(&mut store);
    let id = store
        .validate_access_token(creds.access_token.as_str())
        .expect("stored token should resolve");
    assert_eq!(id, creds.id);
    let e = store.validate_access_token("not-a-token").unwrap_err();
    assert!(matches!(e, AppError::Unauthorized(_)));
}

#[test]
fn tokens_of_two_registrations_differ() {
    let mut store = Store::new();
    let a = register_bistro(&mut store);
    let b = store
        .register_restaurant("X2", "Cantina", "secret2", true, 101)
        .expect("second registration should succeed");
    assert_ne!(a.access_token, b.access_token);
    assert_ne!(a.id, b.id);
}

#[test]
fn list_restaurants_gives_summaries_in_order() {
    let mut store = Store::new();
    register_bistro(&mut store);
    store
        .register_restaurant("X2", "Cantina", "secret2", true, 101)
        .expect("second registration should succeed");
    let all = store.list_restaurants();
    assert_eq!(all.len(), 2);
    assert_eq!(all[0].nombre, "Bistro");
    assert_eq!(all[0].objid_pispas, "X1");
    assert!(!all[0].confirmar_automaticamente);
    assert_eq!(all[1].nombre, "Cantina");
    assert!(all[1].confirmar_automaticamente);
}
