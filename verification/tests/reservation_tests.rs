use pispas_reservation::errors::AppError;
use pispas_reservation::models::Estado;
use pispas_reservation::reservation::MakeReservation;
use pispas_reservation::store::Store;
use pispas_reservation::table::NewTable;

fn request(mesa_id: u64) -> MakeReservation {
    MakeReservation {
        id_mesa: mesa_id.to_string(),
        nombre_cliente: "Juan Pérez".to_string(),
        email_cliente: "juan@email.com".to_string(),
        telefono_cliente: "+34 123 456 789".to_string(),
        numero_personas: 3,
        fecha: "2024-12-25".to_string(),
        hora: "20:00".to_string(),
    }
}

/// A store with one restaurant and one table "T1" (square, 2..4 seats).
fn prepared() -> (Store, u64, u64) {
    let mut store = Store::new();
    let owner = store
        .register_restaurant("X1", "Bistro", "secret1", false, 100)
        .expect("registration should succeed")
        .id;
    let mesa = store
        .create_table(
            owner,
            &NewTable {
                id_restaurante: owner.to_string(),
                tipo: "mesa".to_string(),
                nombre: "T1".to_string(),
                pos_x: 0,
                pos_y: 0,
                size_x: 80,
                size_y: 80,
                forma: "cuadrado".to_string(),
                reservable: true,
                min_personas: Some(2),
                max_personas: Some(4),
            },
            150,
        )
        .expect("table creation should succeed");
    (store, owner, mesa)
}

#[test]
fn end_to_end_scenario() {
    // Register "Bistro", create table "T1", reserve it, collide, confirm,
    // cancel, and fail to confirm again.
    let mut store = Store::new();
    let creds = store
        .register_restaurant("X1", "Bistro", "secret1", false, 100)
        .expect("registration should succeed");
    let owner = store
        .validate_access_token(creds.access_token.as_str())
        .expect("token should resolve");
    let mesa = store
        .create_table(
            owner,
            &NewTable {
                id_restaurante: owner.to_string(),
                tipo: "mesa".to_string(),
                nombre: "T1".to_string(),
                pos_x: 0,
                pos_y: 0,
                size_x: 80,
                size_y: 80,
                forma: "cuadrado".to_string(),
                reservable: true,
                min_personas: Some(2),
                max_personas: Some(4),
            },
            150,
        )
        .expect("table creation should succeed");
    let rid = store.make_reservation(owner, &request(mesa), 200).expect("reservation should work");
    assert_eq!(store.reservas()[0].estado, Estado::Pendiente);

    let e = store.make_reservation(owner, &request(mesa), 201).unwrap_err();
    assert!(matches!(e, AppError::Conflict(_)));

    store
        .confirm_reservation(owner, &rid.to_string(), 300)
        .expect("confirming the pending reservation should work");
    assert_eq!(store.reservas()[0].estado, Estado::Confirmada);

    store
        .cancel_reservation(owner, &rid.to_string(), 400)
        .expect("cancelling the confirmed reservation should work");
    assert_eq!(store.reservas()[0].estado, Estado::Cancelada);

    let e = store.confirm_reservation(owner, &rid.to_string(), 500).unwrap_err();
    assert!(matches!(e, AppError::NotFound(_)));
}

#[test]
fn party_size_above_max_is_rejected_before_any_write() {
    let (mut store, owner, mesa) = prepared();
    let mut req = request(mesa);
    req.numero_personas = 5;
    let e = store.make_reservation(owner, &req, 200).unwrap_err();
    assert!(matches!(e, AppError::Validation(_)));
    assert_eq!(e.status_code(), 400);
    assert_eq!(store.reservas().len(), 0);
}

#[test]
fn party_size_below_min_is_rejected() {
    let (mut store, owner, mesa) = prepared();
    let mut req = request(mesa);
    req.numero_personas = 1;
    let e = store.make_reservation(owner, &req, 200).unwrap_err();
    assert!(matches!(e, AppError::Validation(_)));
    assert_eq!(store.reservas().len(), 0);
}

#[test]
fn second_active_reservation_on_a_slot_conflicts() {
    let (mut store, owner, mesa) = prepared();
    store.make_reservation(owner, &request(mesa), 200).expect("first reservation should work");
    let mut again = request(mesa);
    again.nombre_cliente = "Otra Persona".to_string();
    let e = store.make_reservation(owner, &again, 201).unwrap_err();
    assert!(matches!(e, AppError::Conflict(_)));
    assert_eq!(store.reservas().len(), 1);
}

#[test]
fn cancelled_reservation_frees_its_slot() {
    let (mut store, owner, mesa) = prepared();
    let rid = store.make_reservation(owner, &request(mesa), 200).expect("first should work");
    store.cancel_reservation(owner, &rid.to_string(), 250).expect("cancel should work");
    store
        .make_reservation(owner, &request(mesa), 300)
        .expect("the slot is free again after cancellation");
    assert_eq!(store.reservas().len(), 2);
}

#[test]
fn different_slots_do_not_conflict() {
    let (mut store, owner, mesa) = prepared();
    store.make_reservation(owner, &request(mesa), 200).expect("first should work");
    let mut other_time = request(mesa);
    other_time.hora = "21:00".to_string();
    store.make_reservation(owner, &other_time, 201).expect("another time should work");
    let mut other_day = request(mesa);
    other_day.fecha = "2024-12-26".to_string();
    store.make_reservation(owner, &other_day, 202).expect("another day should work");
}

#[test]
fn confirm_twice_fails_the_second_time() {
    let (mut store, owner, mesa) = prepared();
    let rid = store.make_reservation(owner, &request(mesa), 200).expect("reservation works");
    store.confirm_reservation(owner, &rid.to_string(), 300).expect("first confirm works");
    let e = store.confirm_reservation(owner, &rid.to_string(), 301).unwrap_err();
    assert!(matches!(e, AppError::NotFound(_)));
    assert_eq!(e.status_code(), 404);
    assert_eq!(store.reservas()[0].estado, Estado::Confirmada);
    assert_eq!(store.reservas()[0].updated_at, 300);
}

#[test]
fn cancel_succeeds_exactly_once() {
    let (mut store, owner, mesa) = prepared();
    let rid = store.make_reservation(owner, &request(mesa), 200).expect("reservation works");
    store.cancel_reservation(owner, &rid.to_string(), 300).expect("first cancel works");
    let e = store.cancel_reservation(owner, &rid.to_string(), 301).unwrap_err();
    assert!(matches!(e, AppError::NotFound(_)));
    assert_eq!(store.reservas()[0].estado, Estado::Cancelada);
}

#[test]
fn confirm_checks_ownership_and_state() {
    let (mut store, owner, mesa) = prepared();
    let rid = store.make_reservation(owner, &request(mesa), 200).expect("reservation works");
    let e = store.confirm_reservation(owner + 9, &rid.to_string(), 300).unwrap_err();
    assert!(matches!(e, AppError::NotFound(_)));
    let e = store.confirm_reservation(owner, "9999", 300).unwrap_err();
    assert!(matches!(e, AppError::NotFound(_)));
    let e = store.confirm_reservation(owner, "not-an-id", 300).unwrap_err();
    assert!(matches!(e, AppError::Validation(_)));
    assert_eq!(store.reservas()[0].estado, Estado::Pendiente);
}

#[test]
fn reservation_input_is_validated() {
    let (mut store, owner, mesa) = prepared();
    let mut req = request(mesa);
    req.nombre_cliente = "   ".to_string();
    assert!(matches!(store.make_reservation(owner, &req, 200), Err(AppError::Validation(_))));
    req = request(mesa);
    req.nombre_cliente = "\u{00A0}\u{00A0}".to_string();
    assert!(matches!(store.make_reservation(owner, &req, 200), Err(AppError::Validation(_))));
    req = request(mesa);
    req.email_cliente = "juanemail.com".to_string();
    assert!(matches!(store.make_reservation(owner, &req, 200), Err(AppError::Validation(_))));
    req = request(mesa);
    req.telefono_cliente = "".to_string();
    assert!(matches!(store.make_reservation(owner, &req, 200), Err(AppError::Validation(_))));
    req = request(mesa);
    req.numero_personas = 0;
    assert!(matches!(store.make_reservation(owner, &req, 200), Err(AppError::Validation(_))));
    req = request(mesa);
    req.fecha = "2024-02-30".to_string();
    assert!(matches!(store.make_reservation(owner, &req, 200), Err(AppError::Validation(_))));
    req = request(mesa);
    req.fecha = "25-12-2024".to_string();
    assert!(matches!(store.make_reservation(owner, &req, 200), Err(AppError::Validation(_))));
    req = request(mesa);
    req.hora = "24:30".to_string();
    assert!(matches!(store.make_reservation(owner, &req, 200), Err(AppError::Validation(_))));
    req = request(mesa);
    req.id_mesa = "??".to_string();
    assert!(matches!(store.make_reservation(owner, &req, 200), Err(AppError::Validation(_))));
    assert_eq!(store.reservas().len(), 0);
}

#[test]
fn reservation_on_missing_or_foreign_table() {
    let (mut store, owner, mesa) = prepared();
    let e = store.make_reservation(owner, &request(mesa + 100), 200).unwrap_err();
    assert!(matches!(e, AppError::NotFound(_)));
    let other = store
        .register_restaurant("X2", "Cantina", "secret2", false, 100)
        .expect("second registration should succeed")
        .id;
    let e = store.make_reservation(other, &request(mesa), 200).unwrap_err();
    assert!(matches!(e, AppError::Unauthorized(_)));
    assert_eq!(store.reservas().len(), 0);
}

#[test]
fn list_reservations_filters_by_date_and_state() {
    let (mut store, owner, mesa) = prepared();
    let first = store.make_reservation(owner, &request(mesa), 200).expect("first works");
    let mut other_day = request(mesa);
    other_day.fecha = "2024-12-26".to_string();
    store.make_reservation(owner, &other_day, 201).expect("second works");
    store.confirm_reservation(owner, &first.to_string(), 300).expect("confirm works");

    let all = store.get_reservations(owner, None, None);
    assert_eq!(all.len(), 2);
    let on_christmas = store.get_reservations(owner, Some("2024-12-25"), None);
    assert_eq!(on_christmas.len(), 1);
    assert_eq!(on_christmas[0].id, first);
    let confirmed = store.get_reservations(owner, None, Some("confirmada"));
    assert_eq!(confirmed.len(), 1);
    assert_eq!(confirmed[0].id, first);
    let pending_that_day = store.get_reservations(owner, Some("2024-12-26"), Some("pendiente"));
    assert_eq!(pending_that_day.len(), 1);
    let none = store.get_reservations(owner, Some("2024-12-25"), Some("cancelada"));
    assert_eq!(none.len(), 0);
    let unknown_state = store.get_reservations(owner, None, Some("desconocido"));
    assert_eq!(unknown_state.len(), 0);
    let foreign = store.get_reservations(owner + 5, None, None);
    assert_eq!(foreign.len(), 0);
}

#[test]
fn reservation_records_carry_their_fields() {
    let (mut store, owner, mesa) = prepared();
    let rid = store.make_reservation(owner, &request(mesa), 222).expect("reservation works");
    let rec = &store.reservas()[0];
    assert_eq!(rec.id, rid);
    assert_eq!(rec.id_restaurante, owner);
    assert_eq!(rec.id_mesa, mesa);
    assert_eq!(rec.nombre_cliente, "Juan Pérez");
    assert_eq!(rec.email_cliente, "juan@email.com");
    assert_eq!(rec.numero_personas, 3);
    assert_eq!(rec.fecha, "2024-12-25");
    assert_eq!(rec.hora, "20:00");
    assert_eq!(rec.created_at, 222);
    assert_eq!(rec.updated_at, 222);
    assert_eq!(rec.estado.as_str(), "pendiente");
}

#[test]
fn clearing_tables_keeps_reservations_consistent() {
    let (mut store, owner, mesa) = prepared();
    store.make_reservation(owner, &request(mesa), 200).expect("reservation works");
    store.clear_tables(owner, &owner.to_string()).expect("clear works");
    assert_eq!(store.mesas().len(), 0);
    assert_eq!(store.reservas().len(), 1);
    let e = store.make_reservation(owner, &request(mesa), 300).unwrap_err();
    assert!(matches!(e, AppError::NotFound(_)));
}
