//! The reservation manager: creating reservations, listing them with
//! filters, and the pending→confirmed and →cancelled transitions.
//!
//! A reservation occupies the (table, date, time) slot it names; at most
//! one active reservation may hold a slot, and creating a second one is
//! refused with a conflict.

use vstd::prelude::*;
use crate::errors::{AppError, AppResult};
use crate::models::{Estado, Mesa, Reserva, estado_name};
use crate::store::{Store, has_mesa, is_active, party_fits, reserva_valid, slot_taken};
use crate::datetime::{validate_date, validate_time};
use crate::valid::{id_parses, id_value, parse_id, is_blank, str_eq, validate_email};

verus! {

/// The request body for creating a reservation.
pub struct MakeReservation {
    /// The table to reserve, as the wire carries it.
    pub id_mesa: String,
    pub nombre_cliente: String,
    pub email_cliente: String,
    pub telefono_cliente: String,
    pub numero_personas: i32,
    /// Date of the reservation, YYYY-MM-DD.
    pub fecha: String,
    /// Time of the reservation, HH:MM.
    pub hora: String,
}

/// A reservation request is malformed when a customer field is blank or
/// ill-formed, the party size is not positive, the date or the time does
/// not parse, or the table identifier does not parse.
pub open spec fn reservation_input_bad(d: MakeReservation) -> bool {
    ||| crate::valid::spec_blank(d.nombre_cliente@)
    ||| !crate::valid::spec_valid_email(d.email_cliente@)
    ||| crate::valid::spec_blank(d.telefono_cliente@)
    ||| d.numero_personas <= 0
    ||| !crate::datetime::date_parses(d.fecha@)
    ||| !crate::datetime::time_parses(d.hora@)
    ||| !id_parses(d.id_mesa@)
}

/// The named table exists but belongs to another restaurant.
pub open spec fn mesa_owner_wrong(ms: Seq<Mesa>, mid: u64, owner: u64) -> bool {
    exists|j: int|
        0 <= j < ms.len() && (#[trigger] ms[j]).id == mid && ms[j].id_restaurante != owner
}

/// The named table is the caller's but refuses the party size.
pub open spec fn mesa_capacity_wrong(ms: Seq<Mesa>, mid: u64, owner: u64, personas: i32) -> bool {
    exists|j: int|
        0 <= j < ms.len() && (#[trigger] ms[j]).id == mid && ms[j].id_restaurante == owner
            && !party_fits(personas, ms[j])
}

/// Some reservation of this identifier belongs to the owner and is still
/// pending: exactly the records that a confirmation transitions.
pub open spec fn can_confirm(rvs: Seq<Reserva>, owner: u64, rid: u64) -> bool {
    exists|i: int|
        0 <= i < rvs.len() && (#[trigger] rvs[i]).id == rid && rvs[i].id_restaurante == owner
            && rvs[i].estado is Pendiente
}

/// Some reservation of this identifier belongs to the owner and is not yet
/// cancelled: exactly the records that a cancellation transitions.
pub open spec fn can_cancel(rvs: Seq<Reserva>, owner: u64, rid: u64) -> bool {
    exists|i: int|
        0 <= i < rvs.len() && (#[trigger] rvs[i]).id == rid && rvs[i].id_restaurante == owner
            && is_active(rvs[i])
}

/// One reservation after a state transition: the state and the update
/// timestamp change, everything else stays.
pub open spec fn with_estado(rv: Reserva, estado: Estado, now: i64) -> Reserva {
    Reserva { estado, updated_at: now, ..rv }
}

/// The reservations one listing answers: the owner's, narrowed by the
/// optional exact date and state filters.
pub open spec fn reserva_filter_pred(
    owner: u64,
    fecha: Option<Seq<char>>,
    estado: Option<Seq<char>>,
) -> spec_fn(Reserva) -> bool {
    |rv: Reserva|
        rv.id_restaurante == owner && (fecha matches Some(f) ==> rv.fecha@ == f) && (
        estado matches Some(q) ==> estado_name(rv.estado) == q)
}

/// The view of an optional filter string.
pub open spec fn opt_str_view(o: Option<&str>) -> Option<Seq<char>> {
    match o {
        Some(s) => Some(s@),
        None => None,
    }
}

/// The position of the table with this identifier, if any.
fn find_mesa(ms: &Vec<Mesa>, id: u64) -> (r: Option<usize>)
    ensures
        match r {
            Some(j) => j < ms@.len() && ms@[j as int].id == id,
            None => !has_mesa(ms@, id),
        },
{
    let mut i: usize = 0;
    while i < ms.len()
        invariant
            0 <= i <= ms@.len(),
            forall|k: int| 0 <= k < i ==> (#[trigger] ms@[k]).id != id,
        decreases ms@.len() - i,
    {
        if ms[i].id == id {
            return Some(i);
        }
        i += 1;
    }
    None
}

/// Whether an active reservation already occupies the slot.
fn slot_busy(rvs: &Vec<Reserva>, mesa: u64, fecha: &str, hora: &str) -> (b: bool)
    ensures
        b == slot_taken(rvs@, mesa, fecha@, hora@),
{
    let mut i: usize = 0;
    while i < rvs.len()
        invariant
            0 <= i <= rvs@.len(),
            forall|k: int|
                0 <= k < i ==> !((#[trigger] rvs@[k]).id_mesa == mesa && rvs@[k].fecha@ == fecha@
                    && rvs@[k].hora@ == hora@ && is_active(rvs@[k])),
        decreases rvs@.len() - i,
    {
        if rvs[i].id_mesa == mesa && str_eq(rvs[i].fecha.as_str(), fecha) && str_eq(
            rvs[i].hora.as_str(),
            hora,
        ) && !(rvs[i].estado == Estado::Cancelada) {
            return true;
        }
        i += 1;
    }
    false
}

/// The position of the owner's pending reservation of this identifier.
fn find_confirmable(rvs: &Vec<Reserva>, owner: u64, rid: u64) -> (r: Option<usize>)
    ensures
        match r {
            Some(i) => i < rvs@.len() && rvs@[i as int].id == rid
                && rvs@[i as int].id_restaurante == owner && rvs@[i as int].estado is Pendiente,
            None => !can_confirm(rvs@, owner, rid),
        },
{
    let mut i: usize = 0;
    while i < rvs.len()
        invariant
            0 <= i <= rvs@.len(),
            forall|k: int|
                0 <= k < i ==> !((#[trigger] rvs@[k]).id == rid && rvs@[k].id_restaurante == owner
                    && rvs@[k].estado is Pendiente),
        decreases rvs@.len() - i,
    {
        if rvs[i].id == rid && rvs[i].id_restaurante == owner && rvs[i].estado
            == Estado::Pendiente {
            return Some(i);
        }
        i += 1;
    }
    None
}

/// The position of the owner's not-yet-cancelled reservation of this
/// identifier.
fn find_cancellable(rvs: &Vec<Reserva>, owner: u64, rid: u64) -> (r: Option<usize>)
    ensures
        match r {
            Some(i) => i < rvs@.len() && rvs@[i as int].id == rid
                && rvs@[i as int].id_restaurante == owner && is_active(rvs@[i as int]),
            None => !can_cancel(rvs@, owner, rid),
        },
{
    let mut i: usize = 0;
    while i < rvs.len()
        invariant
            0 <= i <= rvs@.len(),
            forall|k: int|
                0 <= k < i ==> !((#[trigger] rvs@[k]).id == rid && rvs@[k].id_restaurante == owner
                    && is_active(rvs@[k])),
        decreases rvs@.len() - i,
    {
        if rvs[i].id == rid && rvs[i].id_restaurante == owner && !(rvs[i].estado
            == Estado::Cancelada) {
            return Some(i);
        }
        i += 1;
    }
    None
}

impl Store {
    /// Creates a reservation.
    ///
    /// The customer fields, the party size, the date, the time and the
    /// table identifier are checked first; the table must exist, belong to
    /// the caller, and take the party size; the (table, date, time) slot
    /// must be free of active reservations. On success the reservation is
    /// appended pending, under a fresh identifier, which is answered.
    pub fn make_reservation(&mut self, user_id: u64, data: &MakeReservation, now: i64) -> (r:
        AppResult<u64>)
        requires
            old(self).wf(),
            old(self).next_id < u64::MAX,
        ensures
            final(self).wf(),
            r is Err ==> *final(self) == *old(self),
            (r matches Err(e) && e.is_not_found()) <==> (!reservation_input_bad(*data)
                && !has_mesa(old(self).mesas@, id_value(data.id_mesa@))),
            (r matches Err(e) && e.is_unauthorized()) <==> (!reservation_input_bad(*data)
                && mesa_owner_wrong(old(self).mesas@, id_value(data.id_mesa@), user_id)),
            (r matches Err(e) && e.is_validation()) <==> (reservation_input_bad(*data)
                || mesa_capacity_wrong(
                old(self).mesas@,
                id_value(data.id_mesa@),
                user_id,
                data.numero_personas,
            )),
            (r matches Err(e) && e.is_conflict()) <==> (!reservation_input_bad(*data) && has_mesa(
                old(self).mesas@,
                id_value(data.id_mesa@),
            ) && !mesa_owner_wrong(old(self).mesas@, id_value(data.id_mesa@), user_id)
                && !mesa_capacity_wrong(
                old(self).mesas@,
                id_value(data.id_mesa@),
                user_id,
                data.numero_personas,
            ) && slot_taken(old(self).reservas@, id_value(data.id_mesa@), data.fecha@, data.hora@)),
            r is Ok <==> (!reservation_input_bad(*data) && has_mesa(
                old(self).mesas@,
                id_value(data.id_mesa@),
            ) && !mesa_owner_wrong(old(self).mesas@, id_value(data.id_mesa@), user_id)
                && !mesa_capacity_wrong(
                old(self).mesas@,
                id_value(data.id_mesa@),
                user_id,
                data.numero_personas,
            ) && !slot_taken(
                old(self).reservas@,
                id_value(data.id_mesa@),
                data.fecha@,
                data.hora@,
            )),
            r matches Ok(id) ==> ({
                let rec = final(self).reservas@.last();
                &&& id == old(self).next_id
                &&& final(self).reservas@.len() == old(self).reservas@.len() + 1
                &&& final(self).reservas@.drop_last() == old(self).reservas@
                &&& rec.id == old(self).next_id
                &&& rec.id_restaurante == user_id
                &&& rec.id_mesa == id_value(data.id_mesa@)
                &&& rec.nombre_cliente@ == data.nombre_cliente@
                &&& rec.email_cliente@ == data.email_cliente@
                &&& rec.telefono_cliente@ == data.telefono_cliente@
                &&& rec.numero_personas == data.numero_personas
                &&& rec.fecha@ == data.fecha@
                &&& rec.hora@ == data.hora@
                &&& rec.estado is Pendiente
                &&& rec.created_at == now
                &&& rec.updated_at == now
                &&& final(self).restaurants == old(self).restaurants
                &&& final(self).mesas == old(self).mesas
                &&& final(self).next_id == old(self).next_id + 1
            }),
            r is Ok ==> slot_taken(
                final(self).reservas@,
                id_value(data.id_mesa@),
                data.fecha@,
                data.hora@,
            ),
    {
        if is_blank(data.nombre_cliente.as_str()) {
            return Err(
                AppError::Validation(String::from_str("El nombre del cliente es requerido")),
            );
        }
        if !validate_email(data.email_cliente.as_str()) {
            return Err(AppError::Validation(String::from_str("Email inválido")));
        }
        if is_blank(data.telefono_cliente.as_str()) {
            return Err(
                AppError::Validation(String::from_str("El teléfono del cliente es requerido")),
            );
        }
        if data.numero_personas <= 0 {
            return Err(
                AppError::Validation(
                    String::from_str("El número de personas debe ser mayor a 0"),
                ),
            );
        }
        match validate_date(data.fecha.as_str()) {
            Err(e) => {
                return Err(e);
            },
            Ok(()) => {},
        }
        match validate_time(data.hora.as_str()) {
            Err(e) => {
                return Err(e);
            },
            Ok(()) => {},
        }
        let id_mesa = match parse_id(data.id_mesa.as_str()) {
            Some(v) => v,
            None => {
                return Err(AppError::Validation(String::from_str("ID de mesa inválido")));
            },
        };
        let j = match find_mesa(&self.mesas, id_mesa) {
            Some(j) => j,
            None => {
                proof {
                    no_mesa_no_witnesses(
                        self.mesas@,
                        id_mesa,
                        user_id,
                        data.numero_personas,
                    );
                }
                return Err(AppError::NotFound(String::from_str("Mesa no encontrada")));
            },
        };
        if self.mesas[j].id_restaurante != user_id {
            proof {
                self.one_mesa_only(j as int, id_mesa);
            }
            return Err(
                AppError::Unauthorized(
                    String::from_str("No tienes permiso para hacer reservas en esta mesa"),
                ),
            );
        }
        let too_few = match self.mesas[j].min_personas {
            Some(mn) => data.numero_personas < mn,
            None => false,
        };
        let too_many = match self.mesas[j].max_personas {
            Some(mx) => data.numero_personas > mx,
            None => false,
        };
        if too_few {
            proof {
                self.one_mesa_only(j as int, id_mesa);
            }
            return Err(
                AppError::Validation(String::from_str("Esta mesa requiere un mínimo de personas")),
            );
        }
        if too_many {
            proof {
                self.one_mesa_only(j as int, id_mesa);
            }
            return Err(
                AppError::Validation(String::from_str("Esta mesa permite un máximo de personas")),
            );
        }
        proof {
            self.one_mesa_only(j as int, id_mesa);
        }
        if slot_busy(&self.reservas, id_mesa, data.fecha.as_str(), data.hora.as_str()) {
            return Err(
                AppError::Conflict(
                    String::from_str("Ya existe una reserva para esta mesa en este horario"),
                ),
            );
        }
        let id = self.next_id;
        let rec = Reserva {
            id,
            id_restaurante: user_id,
            id_mesa,
            nombre_cliente: data.nombre_cliente.clone(),
            email_cliente: data.email_cliente.clone(),
            telefono_cliente: data.telefono_cliente.clone(),
            numero_personas: data.numero_personas,
            fecha: data.fecha.clone(),
            hora: data.hora.clone(),
            estado: Estado::Pendiente,
            created_at: now,
            updated_at: now,
        };
        self.reservas.push(rec);
        self.next_id = self.next_id + 1;
        proof {
            let oldr = old(self).reservas@;
            let rv = self.reservas@;
            let n = rv.len() - 1;
            assert(rv.drop_last() =~= oldr);
            assert(forall|k: int| 0 <= k < n ==> #[trigger] rv[k] == oldr[k]);
            assert forall|a: int, b: int|
                #![trigger rv[a], rv[b]]
                0 <= a < rv.len() && 0 <= b < rv.len() && a != b implies rv[a].id != rv[b].id
                && !(is_active(rv[a]) && is_active(rv[b]) && rv[a].id_mesa == rv[b].id_mesa
                && rv[a].fecha@ == rv[b].fecha@ && rv[a].hora@ == rv[b].hora@) by {
                if a < n && b < n {
                    assert(oldr[a].id != oldr[b].id && !(is_active(oldr[a]) && is_active(oldr[b])
                        && oldr[a].id_mesa == oldr[b].id_mesa && oldr[a].fecha@ == oldr[b].fecha@
                        && oldr[a].hora@ == oldr[b].hora@));
                } else {
                    let k = if a < n {
                        a
                    } else {
                        b
                    };
                    assert(oldr[k].id < old(self).next_id);
                    assert(!(oldr[k].id_mesa == id_value(data.id_mesa@) && oldr[k].fecha@
                        == data.fecha@ && oldr[k].hora@ == data.hora@ && is_active(oldr[k])));
                }
            }
            assert forall|k: int| 0 <= k < rv.len() implies reserva_valid(#[trigger] rv[k]) by {
                if k < n {
                    assert(reserva_valid(oldr[k]));
                }
            }
            assert(rv[n].id_mesa == id_value(data.id_mesa@) && rv[n].fecha@ == data.fecha@
                && rv[n].hora@ == data.hora@ && is_active(rv[n]));
            assert forall|a: int, b: int|
                0 <= a < rv.len() && 0 <= b < self.mesas@.len() && (#[trigger] rv[a]).id_mesa
                    == (#[trigger] self.mesas@[b]).id implies party_fits(
                rv[a].numero_personas,
                self.mesas@[b],
            ) by {
                if a < n {
                    assert(party_fits(oldr[a].numero_personas, old(self).mesas@[b]));
                } else {
                    assert(self.mesas@[b].id == self.mesas@[j as int].id);
                }
            }
        }
        Ok(id)
    }

    /// In a well-formed store at most one table carries an identifier:
    /// whichever condition holds of the table at `j` — wrong owner, wrong
    /// capacity — holds of the identifier's table or of none.
    proof fn one_mesa_only(self, j: int, mid: u64)
        requires
            self.wf(),
            0 <= j < self.mesas@.len(),
            self.mesas@[j].id == mid,
        ensures
            forall|k: int|
                0 <= k < self.mesas@.len() && (#[trigger] self.mesas@[k]).id == mid ==> k == j,
    {
        assert forall|k: int|
            0 <= k < self.mesas@.len() && (#[trigger] self.mesas@[k]).id == mid implies k
            == j by {
            if k != j {
                assert(self.mesas@[k].id != self.mesas@[j].id);
            }
        }
    }

    /// Lists the caller's reservations, optionally narrowed to an exact
    /// date and an exact state, in insertion order.
    pub fn get_reservations(&self, user_id: u64, fecha: Option<&str>, estado: Option<&str>) -> (r:
        Vec<Reserva>)
        ensures
            r@ == self.reservas@.filter(
                reserva_filter_pred(user_id, opt_str_view(fecha), opt_str_view(estado)),
            ),
    {
        let ghost pred = reserva_filter_pred(user_id, opt_str_view(fecha), opt_str_view(estado));
        let mut out: Vec<Reserva> = Vec::new();
        let mut i: usize = 0;
        while i < self.reservas.len()
            invariant
                0 <= i <= self.reservas@.len(),
                out@ == self.reservas@.subrange(0, i as int).filter(pred),
                pred == reserva_filter_pred(user_id, opt_str_view(fecha), opt_str_view(estado)),
            decreases self.reservas@.len() - i,
        {
            proof {
                broadcast use vstd::prelude::Seq::lemma_filter_push;

                assert(self.reservas@.subrange(0, i + 1) =~= self.reservas@.subrange(
                    0,
                    i as int,
                ).push(self.reservas@[i as int]));
            }
            let rec = &self.reservas[i];
            let fecha_ok = match fecha {
                Some(f) => str_eq(rec.fecha.as_str(), f),
                None => true,
            };
            let estado_ok = match estado {
                Some(q) => str_eq(rec.estado.as_str(), q),
                None => true,
            };
            if rec.id_restaurante == user_id && fecha_ok && estado_ok {
                out.push(rec.clone());
            }
            i += 1;
        }
        proof {
            assert(self.reservas@.subrange(0, self.reservas@.len() as int) =~= self.reservas@);
        }
        out
    }

    /// Confirms a pending reservation: the one record of this identifier
    /// transitions pending→confirmed, only if it is the caller's and still
    /// pending. A record that is missing, another restaurant's, or no
    /// longer pending answers the same not-found error.
    pub fn confirm_reservation(&mut self, user_id: u64, reservation_id: &str, now: i64) -> (r:
        AppResult<u64>)
        requires
            old(self).wf(),
        ensures
            final(self).wf(),
            r is Err ==> *final(self) == *old(self),
            (r matches Err(e) && e.is_validation()) <==> !id_parses(reservation_id@),
            (r matches Err(e) && e.is_not_found()) <==> (id_parses(reservation_id@)
                && !can_confirm(old(self).reservas@, user_id, id_value(reservation_id@))),
            r is Ok <==> (id_parses(reservation_id@) && can_confirm(
                old(self).reservas@,
                user_id,
                id_value(reservation_id@),
            )),
            r matches Ok(id) ==> id == id_value(reservation_id@) && exists|i: int|
                0 <= i < old(self).reservas@.len() && (#[trigger] old(self).reservas@[i]).id
                    == id_value(reservation_id@) && old(self).reservas@[i].id_restaurante
                    == user_id && old(self).reservas@[i].estado is Pendiente
                    && final(self).reservas@ == old(self).reservas@.update(
                    i,
                    with_estado(old(self).reservas@[i], Estado::Confirmada, now),
                ),
            r is Ok ==> final(self).restaurants == old(self).restaurants && final(self).mesas
                == old(self).mesas && final(self).next_id == old(self).next_id,
    {
        let rid = match parse_id(reservation_id) {
            Some(v) => v,
            None => {
                return Err(AppError::Validation(String::from_str("ID de reserva inválido")));
            },
        };
        let i = match find_confirmable(&self.reservas, user_id, rid) {
            Some(i) => i,
            None => {
                return Err(
                    AppError::NotFound(String::from_str("Reserva no encontrada o ya procesada")),
                );
            },
        };
        let mut updated = self.reservas[i].clone();
        updated.estado = Estado::Confirmada;
        updated.updated_at = now;
        self.reservas.set(i, updated);
        proof {
            self.confirm_cancel_keeps_wf(*old(self), i as int, now);
        }
        Ok(rid)
    }

    /// Cancels a reservation: the one record of this identifier
    /// transitions to cancelled, only if it is the caller's and not yet
    /// cancelled; a pending and a confirmed record both cancel. A record
    /// that is missing, another restaurant's, or already cancelled answers
    /// the same not-found error.
    pub fn cancel_reservation(&mut self, user_id: u64, reservation_id: &str, now: i64) -> (r:
        AppResult<u64>)
        requires
            old(self).wf(),
        ensures
            final(self).wf(),
            r is Err ==> *final(self) == *old(self),
            (r matches Err(e) && e.is_validation()) <==> !id_parses(reservation_id@),
            (r matches Err(e) && e.is_not_found()) <==> (id_parses(reservation_id@) && !can_cancel(
                old(self).reservas@,
                user_id,
                id_value(reservation_id@),
            )),
            r is Ok <==> (id_parses(reservation_id@) && can_cancel(
                old(self).reservas@,
                user_id,
                id_value(reservation_id@),
            )),
            r matches Ok(id) ==> id == id_value(reservation_id@) && exists|i: int|
                0 <= i < old(self).reservas@.len() && (#[trigger] old(self).reservas@[i]).id
                    == id_value(reservation_id@) && old(self).reservas@[i].id_restaurante
                    == user_id && is_active(old(self).reservas@[i]) && final(self).reservas@
                    == old(self).reservas@.update(
                    i,
                    with_estado(old(self).reservas@[i], Estado::Cancelada, now),
                ),
            r is Ok ==> final(self).restaurants == old(self).restaurants && final(self).mesas
                == old(self).mesas && final(self).next_id == old(self).next_id,
    {
        let rid = match parse_id(reservation_id) {
            Some(v) => v,
            None => {
                return Err(AppError::Validation(String::from_str("ID de reserva inválido")));
            },
        };
        let i = match find_cancellable(&self.reservas, user_id, rid) {
            Some(i) => i,
            None => {
                return Err(
                    AppError::NotFound(String::from_str("Reserva no encontrada o ya cancelada")),
                );
            },
        };
        let mut updated = self.reservas[i].clone();
        updated.estado = Estado::Cancelada;
        updated.updated_at = now;
        self.reservas.set(i, updated);
        proof {
            self.confirm_cancel_keeps_wf(*old(self), i as int, now);
        }
        Ok(rid)
    }

    /// A state transition of one reservation keeps the store well-formed:
    /// identifiers, slots and party sizes are untouched, and a transition
    /// never turns an inactive record active.
    proof fn confirm_cancel_keeps_wf(self, prior: Store, i: int, now: i64)
        requires
            prior.wf(),
            0 <= i < prior.reservas@.len(),
            self.restaurants == prior.restaurants,
            self.mesas == prior.mesas,
            self.next_id == prior.next_id,
            self.reservas@.len() == prior.reservas@.len(),
            is_active(prior.reservas@[i]),
            self.reservas@ == prior.reservas@.update(
                i,
                with_estado(prior.reservas@[i], self.reservas@[i].estado, now),
            ),
        ensures
            self.wf(),
    {
        let oldr = prior.reservas@;
        let rv = self.reservas@;
        assert(forall|k: int| 0 <= k < rv.len() && k != i ==> #[trigger] rv[k] == oldr[k]);
        assert forall|a: int, b: int|
            #![trigger rv[a], rv[b]]
            0 <= a < rv.len() && 0 <= b < rv.len() && a != b implies rv[a].id != rv[b].id && !(
        is_active(rv[a]) && is_active(rv[b]) && rv[a].id_mesa == rv[b].id_mesa && rv[a].fecha@
            == rv[b].fecha@ && rv[a].hora@ == rv[b].hora@) by {
            assert(oldr[a].id != oldr[b].id && !(is_active(oldr[a]) && is_active(oldr[b])
                && oldr[a].id_mesa == oldr[b].id_mesa && oldr[a].fecha@ == oldr[b].fecha@
                && oldr[a].hora@ == oldr[b].hora@));
        }
        assert forall|k: int| 0 <= k < rv.len() implies reserva_valid(#[trigger] rv[k]) by {
            assert(reserva_valid(oldr[k]));
        }
        assert forall|a: int, b: int|
            0 <= a < rv.len() && 0 <= b < self.mesas@.len() && (#[trigger] rv[a]).id_mesa
                == (#[trigger] self.mesas@[b]).id implies party_fits(
            rv[a].numero_personas,
            self.mesas@[b],
        ) by {
            assert(party_fits(oldr[a].numero_personas, prior.mesas@[b]));
        }
        assert forall|k: int| 0 <= k < rv.len() implies (#[trigger] rv[k]).id < self.next_id
            && rv[k].id_mesa < self.next_id by {
            assert(oldr[k].id < prior.next_id && oldr[k].id_mesa < prior.next_id);
        }
    }
}

/// When a table does not exist, neither the wrong-owner nor the
/// wrong-capacity condition can name it.
proof fn no_mesa_no_witnesses(ms: Seq<Mesa>, mid: u64, owner: u64, personas: i32)
    requires
        !has_mesa(ms, mid),
    ensures
        !mesa_owner_wrong(ms, mid, owner),
        !mesa_capacity_wrong(ms, mid, owner, personas),
{
    if mesa_owner_wrong(ms, mid, owner) {
        let j = choose|j: int|
            0 <= j < ms.len() && (#[trigger] ms[j]).id == mid && ms[j].id_restaurante != owner;
        assert(has_mesa(ms, mid));
    }
    if mesa_capacity_wrong(ms, mid, owner, personas) {
        let j = choose|j: int|
            0 <= j < ms.len() && (#[trigger] ms[j]).id == mid && ms[j].id_restaurante == owner
                && !party_fits(personas, ms[j]);
        assert(has_mesa(ms, mid));
    }
}

/// A confirmation happens at most once: against the reservations that a
/// successful confirmation leaves behind, no confirmation of the same
/// identifier can succeed again, for any caller — the record is no longer
/// pending, and no other record carries the identifier.
pub proof fn lemma_confirm_once(s1: Store, s2: Store, i: int, owner2: u64, now: i64)
    requires
        s1.wf(),
        0 <= i < s1.reservas@.len(),
        s2.reservas@ == s1.reservas@.update(
            i,
            with_estado(s1.reservas@[i], Estado::Confirmada, now),
        ),
    ensures
        !can_confirm(s2.reservas@, owner2, s1.reservas@[i].id),
{
    let rid = s1.reservas@[i].id;
    if can_confirm(s2.reservas@, owner2, rid) {
        let j = choose|j: int|
            0 <= j < s2.reservas@.len() && (#[trigger] s2.reservas@[j]).id == rid
                && s2.reservas@[j].id_restaurante == owner2 && s2.reservas@[j].estado is Pendiente;
        assert(j != i);
        assert(s1.reservas@[j].id != s1.reservas@[i].id);
    }
}

/// A cancellation is terminal: against the reservations that a successful
/// cancellation leaves behind, neither a second cancellation nor a
/// confirmation of the same identifier can succeed, for any caller.
pub proof fn lemma_cancel_terminal(s1: Store, s2: Store, i: int, owner2: u64, now: i64)
    requires
        s1.wf(),
        0 <= i < s1.reservas@.len(),
        s2.reservas@ == s1.reservas@.update(
            i,
            with_estado(s1.reservas@[i], Estado::Cancelada, now),
        ),
    ensures
        !can_cancel(s2.reservas@, owner2, s1.reservas@[i].id),
        !can_confirm(s2.reservas@, owner2, s1.reservas@[i].id),
{
    let rid = s1.reservas@[i].id;
    if can_cancel(s2.reservas@, owner2, rid) {
        let j = choose|j: int|
            0 <= j < s2.reservas@.len() && (#[trigger] s2.reservas@[j]).id == rid
                && s2.reservas@[j].id_restaurante == owner2 && is_active(s2.reservas@[j]);
        assert(j != i);
        assert(s1.reservas@[j].id != s1.reservas@[i].id);
    }
    if can_confirm(s2.reservas@, owner2, rid) {
        let j = choose|j: int|
            0 <= j < s2.reservas@.len() && (#[trigger] s2.reservas@[j]).id == rid
                && s2.reservas@[j].id_restaurante == owner2 && s2.reservas@[j].estado is Pendiente;
        assert(j != i);
        assert(s1.reservas@[j].id != s1.reservas@[i].id);
    }
}

} // verus!
