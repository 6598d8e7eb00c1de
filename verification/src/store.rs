//! The document store of the service, held in memory: the three record
//! collections and the counter that hands out fresh identifiers.
//!
//! Every operation is a single atomic read-modify-write on the store. The
//! uniqueness rules that a database would enforce through unique indexes —
//! unique restaurant names, external references and access tokens, unique
//! table names per restaurant, at most one active reservation per
//! (table, date, time) slot — are the store's well-formedness invariant
//! [`Store::wf`]: every operation requires it and proves it preserved.

use vstd::prelude::*;
use crate::models::{Estado, Mesa, Reserva, Restaurant};
use crate::valid::{spec_blank, spec_valid_email};
use crate::datetime::{date_parses, time_parses};

verus! {

/// Some restaurant already carries this display name.
pub open spec fn nombre_taken(rs: Seq<Restaurant>, nombre: Seq<char>) -> bool {
    exists|i: int| 0 <= i < rs.len() && #[trigger] rs[i].nombre@ == nombre
}

/// Some restaurant already carries this external reference.
pub open spec fn objid_taken(rs: Seq<Restaurant>, objid: Seq<char>) -> bool {
    exists|i: int| 0 <= i < rs.len() && #[trigger] rs[i].objid_pispas@ == objid
}

/// Some restaurant already carries this access token.
pub open spec fn token_taken(rs: Seq<Restaurant>, token: Seq<char>) -> bool {
    exists|i: int| 0 <= i < rs.len() && #[trigger] rs[i].access_token@ == token
}

/// Some restaurant matches this name and this secret exactly.
pub open spec fn credentials_match(rs: Seq<Restaurant>, nombre: Seq<char>, password: Seq<char>) -> bool {
    exists|i: int|
        0 <= i < rs.len() && #[trigger] rs[i].nombre@ == nombre && rs[i].password@ == password
}

/// The owner already has a table of this name.
pub open spec fn mesa_name_taken(ms: Seq<Mesa>, owner: u64, nombre: Seq<char>) -> bool {
    exists|i: int|
        0 <= i < ms.len() && #[trigger] ms[i].id_restaurante == owner && #[trigger] ms[i].nombre@
            == nombre
}

/// A table with this identifier exists.
pub open spec fn has_mesa(ms: Seq<Mesa>, id: u64) -> bool {
    exists|i: int| 0 <= i < ms.len() && #[trigger] ms[i].id == id
}

/// A reservation is active as long as it is not cancelled.
pub open spec fn is_active(rv: Reserva) -> bool {
    !(rv.estado is Cancelada)
}

/// Some active reservation already occupies this (table, date, time) slot.
pub open spec fn slot_taken(rvs: Seq<Reserva>, mesa: u64, fecha: Seq<char>, hora: Seq<char>) -> bool {
    exists|i: int|
        0 <= i < rvs.len() && #[trigger] rvs[i].id_mesa == mesa && rvs[i].fecha@ == fecha
            && rvs[i].hora@ == hora && is_active(rvs[i])
}

/// The party size lies within the table's bounds, where they are set.
pub open spec fn party_fits(personas: i32, m: Mesa) -> bool {
    &&& (m.min_personas matches Some(mn) ==> personas >= mn)
    &&& (m.max_personas matches Some(mx) ==> personas <= mx)
}

/// A stored table is valid: named, of a known shape, and with consistent
/// occupancy bounds.
pub open spec fn mesa_valid(m: Mesa) -> bool {
    &&& m.nombre@.len() > 0
    &&& (m.forma@ == "cuadrado"@ || m.forma@ == "circulo"@)
    &&& !(m.min_personas matches Some(mn) && m.max_personas matches Some(mx) && mn > mx)
}

/// A stored reservation is valid: complete customer data, a positive party
/// size, and a date and time that parse.
pub open spec fn reserva_valid(rv: Reserva) -> bool {
    &&& !spec_blank(rv.nombre_cliente@)
    &&& spec_valid_email(rv.email_cliente@)
    &&& !spec_blank(rv.telefono_cliente@)
    &&& rv.numero_personas > 0
    &&& date_parses(rv.fecha@)
    &&& time_parses(rv.hora@)
}

/// The store: three record collections over one fresh-identifier counter.
pub struct Store {
    pub restaurants: Vec<Restaurant>,
    pub mesas: Vec<Mesa>,
    pub reservas: Vec<Reserva>,
    pub next_id: u64,
}

impl Store {
    /// Every identifier in the store — including the table a reservation
    /// points at — was handed out by the counter, so a fresh identifier
    /// collides with nothing.
    pub open spec fn ids_fresh(self) -> bool {
        &&& forall|i: int|
            0 <= i < self.restaurants@.len() ==> (#[trigger] self.restaurants@[i]).id
                < self.next_id
        &&& forall|i: int|
            0 <= i < self.mesas@.len() ==> (#[trigger] self.mesas@[i]).id < self.next_id
        &&& forall|i: int|
            0 <= i < self.reservas@.len() ==> (#[trigger] self.reservas@[i]).id < self.next_id
                && self.reservas@[i].id_mesa < self.next_id
    }

    /// Restaurants have pairwise distinct identifiers, names, external
    /// references and access tokens.
    pub open spec fn restaurants_wf(self) -> bool {
        forall|i: int, j: int|
            #![trigger self.restaurants@[i], self.restaurants@[j]]
            0 <= i < self.restaurants@.len() && 0 <= j < self.restaurants@.len() && i != j
                ==> self.restaurants@[i].id != self.restaurants@[j].id
                && self.restaurants@[i].nombre@ != self.restaurants@[j].nombre@
                && self.restaurants@[i].objid_pispas@ != self.restaurants@[j].objid_pispas@
                && self.restaurants@[i].access_token@ != self.restaurants@[j].access_token@
    }

    /// Tables have pairwise distinct identifiers, their (owner, name) pairs
    /// are unique, and each stored table is valid.
    pub open spec fn mesas_wf(self) -> bool {
        &&& forall|i: int, j: int|
            #![trigger self.mesas@[i], self.mesas@[j]]
            0 <= i < self.mesas@.len() && 0 <= j < self.mesas@.len() && i != j
                ==> self.mesas@[i].id != self.mesas@[j].id
                && !(self.mesas@[i].id_restaurante == self.mesas@[j].id_restaurante
                && self.mesas@[i].nombre@ == self.mesas@[j].nombre@)
        &&& forall|i: int| 0 <= i < self.mesas@.len() ==> mesa_valid(#[trigger] self.mesas@[i])
    }

    /// Reservations have pairwise distinct identifiers, at most one active
    /// reservation occupies a (table, date, time) slot, and each stored
    /// reservation is valid.
    pub open spec fn reservas_wf(self) -> bool {
        &&& forall|i: int, j: int|
            #![trigger self.reservas@[i], self.reservas@[j]]
            0 <= i < self.reservas@.len() && 0 <= j < self.reservas@.len() && i != j
                ==> self.reservas@[i].id != self.reservas@[j].id
                && !(is_active(self.reservas@[i]) && is_active(self.reservas@[j])
                && self.reservas@[i].id_mesa == self.reservas@[j].id_mesa
                && self.reservas@[i].fecha@ == self.reservas@[j].fecha@
                && self.reservas@[i].hora@ == self.reservas@[j].hora@)
        &&& forall|i: int| 0 <= i < self.reservas@.len() ==> reserva_valid(#[trigger] self.reservas@[i])
    }

    /// A reservation's party size lies within the bounds of the table it
    /// points at, as long as that table exists.
    pub open spec fn reservas_in_bounds(self) -> bool {
        forall|i: int, j: int|
            0 <= i < self.reservas@.len() && 0 <= j < self.mesas@.len()
                && #[trigger] self.reservas@[i].id_mesa == #[trigger] self.mesas@[j].id
                ==> party_fits(self.reservas@[i].numero_personas, self.mesas@[j])
    }

    /// The store's well-formedness: what the storage layer's unique indexes
    /// and the creation-time checks enforce together.
    pub open spec fn wf(self) -> bool {
        &&& self.ids_fresh()
        &&& self.restaurants_wf()
        &&& self.mesas_wf()
        &&& self.reservas_wf()
        &&& self.reservas_in_bounds()
    }

    /// Opens an empty store.
    pub fn new() -> (s: Store)
        ensures
            s.wf(),
            s.restaurants@.len() == 0,
            s.mesas@.len() == 0,
            s.reservas@.len() == 0,
            s.next_id == 0,
    {
        Store { restaurants: Vec::new(), mesas: Vec::new(), reservas: Vec::new(), next_id: 0 }
    }

    /// The restaurant records, in insertion order.
    pub fn restaurants(&self) -> (r: &Vec<Restaurant>)
        ensures
            r == &self.restaurants,
    {
        &self.restaurants
    }

    /// The table records, in insertion order.
    pub fn mesas(&self) -> (r: &Vec<Mesa>)
        ensures
            r == &self.mesas,
    {
        &self.mesas
    }

    /// The reservation records, in insertion order.
    pub fn reservas(&self) -> (r: &Vec<Reserva>)
        ensures
            r == &self.reservas,
    {
        &self.reservas
    }
}

/// In a well-formed store, two distinct reservations on the same table with
/// the same date and the same time are never both active: inserting the
/// second active one is refused with a conflict instead.
pub proof fn lemma_slot_exclusive(s: Store, i: int, j: int)
    requires
        s.wf(),
        0 <= i < s.reservas@.len(),
        0 <= j < s.reservas@.len(),
        i != j,
        s.reservas@[i].id_mesa == s.reservas@[j].id_mesa,
        s.reservas@[i].fecha@ == s.reservas@[j].fecha@,
        s.reservas@[i].hora@ == s.reservas@[j].hora@,
    ensures
        !(is_active(s.reservas@[i]) && is_active(s.reservas@[j])),
{
}

} // verus!
