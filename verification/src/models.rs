//! The records the store holds: restaurants, tables and reservations.
//!
//! Identifiers are plain integers, handed out by the store in creation
//! order; on the wire they travel as opaque strings.

use vstd::prelude::*;

verus! {

/// The state of a reservation. A reservation is created pending; it can move
/// from pending to confirmed, and from pending or confirmed to cancelled.
/// Cancelled is terminal.
#[derive(Clone, Copy, PartialEq, Eq, Structural, Debug)]
pub enum Estado {
    Pendiente,
    Confirmada,
    Cancelada,
}

/// The name a reservation state carries on the wire.
pub open spec fn estado_name(e: Estado) -> Seq<char> {
    match e {
        Estado::Pendiente => "pendiente"@,
        Estado::Confirmada => "confirmada"@,
        Estado::Cancelada => "cancelada"@,
    }
}

impl Estado {
    /// The name of this state on the wire.
    pub fn as_str(&self) -> (r: &'static str)
        ensures
            r@ == estado_name(*self),
    {
        match self {
            Estado::Pendiente => "pendiente",
            Estado::Confirmada => "confirmada",
            Estado::Cancelada => "cancelada",
        }
    }
}

/// A registered restaurant account.
#[derive(Debug)]
pub struct Restaurant {
    pub id: u64,
    /// Reference identifier of the external system this account belongs to.
    pub objid_pispas: String,
    /// Display name, unique across all restaurants.
    pub nombre: String,
    /// Credential secret. Stored as given; see the registration contract.
    pub password: String,
    /// Whether new reservations are confirmed without manual action.
    pub confirmar_automaticamente: bool,
    /// Opaque bearer credential, unique across all restaurants.
    pub access_token: String,
    pub created_at: i64,
}

/// A table in a restaurant's floor plan.
#[derive(Debug)]
pub struct Mesa {
    pub id: u64,
    pub id_restaurante: u64,
    /// Element kind in the floor plan.
    pub tipo: String,
    /// Name, unique within the owning restaurant.
    pub nombre: String,
    /// Position in the floor plan, in whole pixels; opaque to the logic.
    pub pos_x: i64,
    pub pos_y: i64,
    /// Size in the floor plan, in whole pixels; opaque to the logic.
    pub size_x: i64,
    pub size_y: i64,
    /// Geometric shape: "cuadrado" or "circulo".
    pub forma: String,
    pub reservable: bool,
    /// Smallest party the table takes, when set.
    pub min_personas: Option<i32>,
    /// Largest party the table takes, when set.
    pub max_personas: Option<i32>,
    pub created_at: i64,
}

/// A reservation of one table for one date and time.
#[derive(Debug)]
pub struct Reserva {
    pub id: u64,
    pub id_restaurante: u64,
    pub id_mesa: u64,
    pub nombre_cliente: String,
    pub email_cliente: String,
    pub telefono_cliente: String,
    pub numero_personas: i32,
    /// Date of the reservation, YYYY-MM-DD.
    pub fecha: String,
    /// Time of the reservation, HH:MM.
    pub hora: String,
    pub estado: Estado,
    pub created_at: i64,
    pub updated_at: i64,
}

/// The public summary of a restaurant: everything but its credentials.
#[derive(Debug)]
pub struct RestaurantInfo {
    pub id: u64,
    pub nombre: String,
    pub objid_pispas: String,
    pub confirmar_automaticamente: bool,
}

impl Clone for Restaurant {
    fn clone(&self) -> (r: Self)
        ensures
            r == *self,
    {
        Restaurant {
            id: self.id,
            objid_pispas: self.objid_pispas.clone(),
            nombre: self.nombre.clone(),
            password: self.password.clone(),
            confirmar_automaticamente: self.confirmar_automaticamente,
            access_token: self.access_token.clone(),
            created_at: self.created_at,
        }
    }
}

impl Clone for Mesa {
    fn clone(&self) -> (r: Self)
        ensures
            r == *self,
    {
        Mesa {
            id: self.id,
            id_restaurante: self.id_restaurante,
            tipo: self.tipo.clone(),
            nombre: self.nombre.clone(),
            pos_x: self.pos_x,
            pos_y: self.pos_y,
            size_x: self.size_x,
            size_y: self.size_y,
            forma: self.forma.clone(),
            reservable: self.reservable,
            min_personas: self.min_personas,
            max_personas: self.max_personas,
            created_at: self.created_at,
        }
    }
}

impl Clone for Reserva {
    fn clone(&self) -> (r: Self)
        ensures
            r == *self,
    {
        Reserva {
            id: self.id,
            id_restaurante: self.id_restaurante,
            id_mesa: self.id_mesa,
            nombre_cliente: self.nombre_cliente.clone(),
            email_cliente: self.email_cliente.clone(),
            telefono_cliente: self.telefono_cliente.clone(),
            numero_personas: self.numero_personas,
            fecha: self.fecha.clone(),
            hora: self.hora.clone(),
            estado: self.estado,
            created_at: self.created_at,
            updated_at: self.updated_at,
        }
    }
}

} // verus!
