use pispas_reservation::errors::AppError;
use pispas_reservation::store::Store;
use pispas_reservation::table::NewTable;

fn new_table(owner: u64, nombre: &str) -> NewTable {
    NewTable {
        id_restaurante: owner.to_string(),
        tipo: "mesa".to_string(),
        nombre: nombre.to_string(),
        pos_x: 100,
        pos_y: 100,
        size_x: 80,
        size_y: 80,
        forma: "cuadrado".to_string(),
        reservable: true,
        min_personas: Some(2),
        max_personas: Some(4),
    }
}

fn store_with_owner() -> (Store, u64) {
    let mut store = Store::new();
    let creds = store
        .register_restaurant("X1", "Bistro", "secret1", false, 100)
        .expect("registration should succeed");
    (store, creds.id)
}

#[test]
fn create_table_succeeds_and_stores_the_record() {
    let (mut store, owner) = store_with_owner();
    let id = store.create_table(owner, &new_table(owner, "T1"), 200).expect("create should work");
    assert_eq!(store.mesas().len(), 1);
    assert_eq!(store.mesas()[0].id, id);
    assert_eq!(store.mesas()[0].id_restaurante, owner);
    assert_eq!(store.mesas()[0].nombre, "T1");
    assert_eq!(store.mesas()[0].forma, "cuadrado");
    assert_eq!(store.mesas()[0].min_personas, Some(2));
    assert_eq!(store.mesas()[0].max_personas, Some(4));
    assert_eq!(store.mesas()[0].created_at, 200);
}

#[test]
fn create_table_same_name_conflicts_same_owner_only() {
    let (mut store, owner) = store_with_owner();
    let other = store
        .register_restaurant("X2", "Cantina", "secret2", false, 100)
        .expect("second registration should succeed")
        .id;
    store.create_table(owner, &new_table(owner, "T1"), 200).expect("first create should work");
    let e = store.create_table(owner, &new_table(owner, "T1"), 201).unwrap_err();
    assert!(matches!(e, AppError::Conflict(_)));
    assert_eq!(e.status_code(), 409);
    store
        .create_table(other, &new_table(other, "T1"), 202)
        .expect("same name under another restaurant should work");
    assert_eq!(store.mesas().len(), 2);
}

#[test]
fn create_table_rejects_bad_input() {
    let (mut store, owner) = store_with_owner();
    let mut t = new_table(owner, "");
    let e = store.create_table(owner, &t, 200).unwrap_err();
    assert!(matches!(e, AppError::Validation(_)));
    t = new_table(owner, "T1");
    t.forma = "triangulo".to_string();
    let e = store.create_table(owner, &t, 200).unwrap_err();
    assert!(matches!(e, AppError::Validation(_)));
    t = new_table(owner, "T1");
    t.min_personas = Some(6);
    t.max_personas = Some(4);
    let e = store.create_table(owner, &t, 200).unwrap_err();
    assert!(matches!(e, AppError::Validation(_)));
    t = new_table(owner, "T1");
    t.id_restaurante = "not-a-number".to_string();
    let e = store.create_table(owner, &t, 200).unwrap_err();
    assert!(matches!(e, AppError::Validation(_)));
    assert_eq!(store.mesas().len(), 0);
}

#[test]
fn create_table_for_another_restaurant_is_unauthorized() {
    let (mut store, owner) = store_with_owner();
    let t = new_table(owner + 1, "T1");
    let e = store.create_table(owner, &t, 200).unwrap_err();
    assert!(matches!(e, AppError::Unauthorized(_)));
    assert_eq!(e.status_code(), 401);
}

#[test]
fn circle_shape_is_accepted() {
    let (mut store, owner) = store_with_owner();
    let mut t = new_table(owner, "Redonda");
    t.forma = "circulo".to_string();
    store.create_table(owner, &t, 200).expect("circle should be accepted");
}

#[test]
fn get_tables_lists_only_the_callers_tables() {
    let (mut store, owner) = store_with_owner();
    let other = store
        .register_restaurant("X2", "Cantina", "secret2", false, 100)
        .expect("second registration should succeed")
        .id;
    store.create_table(owner, &new_table(owner, "T1"), 200).unwrap();
    store.create_table(other, &new_table(other, "T2"), 201).unwrap();
    store.create_table(owner, &new_table(owner, "T3"), 202).unwrap();
    let mine = store.get_tables(owner, &owner.to_string()).expect("listing should work");
    assert_eq!(mine.len(), 2);
    assert_eq!(mine[0].nombre, "T1");
    assert_eq!(mine[1].nombre, "T3");
    let e = store.get_tables(owner, &other.to_string()).unwrap_err();
    assert!(matches!(e, AppError::Unauthorized(_)));
    let e = store.get_tables(owner, "xyz").unwrap_err();
    assert!(matches!(e, AppError::Validation(_)));
}

#[test]
fn clear_tables_deletes_only_the_callers_tables() {
    let (mut store, owner) = store_with_owner();
    let other = store
        .register_restaurant("X2", "Cantina", "secret2", false, 100)
        .expect("second registration should succeed")
        .id;
    store.create_table(owner, &new_table(owner, "T1"), 200).unwrap();
    store.create_table(other, &new_table(other, "T2"), 201).unwrap();
    store.create_table(owner, &new_table(owner, "T3"), 202).unwrap();
    let count = store.clear_tables(owner, &owner.to_string()).expect("clear should work");
    assert_eq!(count, 2);
    assert_eq!(store.mesas().len(), 1);
    assert_eq!(store.mesas()[0].nombre, "T2");
    let again = store.clear_tables(owner, &owner.to_string()).expect("empty clear is not an error");
    assert_eq!(again, 0);
}

#[test]
fn clear_tables_checks_authorization_first() {
    let (mut store, owner) = store_with_owner();
    store.create_table(owner, &new_table(owner, "T1"), 200).unwrap();
    let e = store.clear_tables(owner, &(owner + 7).to_string()).unwrap_err();
    assert!(matches!(e, AppError::Unauthorized(_)));
    let e = store.clear_tables(owner, "").unwrap_err();
    assert!(matches!(e, AppError::Validation(_)));
    assert_eq!(store.mesas().len(), 1);
}
