//! The restaurant account service: registration, login, the public
//! listing, and the bearer-token lookup that guards every other endpoint.

use vstd::prelude::*;
use crate::errors::{AppError, AppResult};
use crate::models::{Restaurant, RestaurantInfo};
use crate::store::{
    Store, credentials_match, nombre_taken, objid_taken, token_taken,
};
use crate::token::uuid_v4_string;
use crate::valid::str_eq;
use vstd::string::StringSliceAdditionalSpecFns;

verus! {

/// What register and login answer with: the opaque access token and the
/// record identifier it belongs to.
#[derive(Debug)]
pub struct Credentials {
    pub access_token: String,
    pub id: u64,
}

/// A registration is malformed when the name is empty, the secret is
/// shorter than six bytes in its UTF-8 form, or the external reference is
/// empty.
pub open spec fn register_input_bad(
    objid_pispas: Seq<char>,
    name: Seq<char>,
    password: Seq<char>,
) -> bool {
    name.len() == 0 || vstd::utf8::encode_utf8(password).len() < 6 || objid_pispas.len() == 0
}

/// A registration conflicts when its name or its external reference is
/// already taken.
pub open spec fn register_conflict(
    rs: Seq<Restaurant>,
    name: Seq<char>,
    objid_pispas: Seq<char>,
) -> bool {
    nombre_taken(rs, name) || objid_taken(rs, objid_pispas)
}

/// Whether some restaurant already uses this name or this external
/// reference.
fn find_name_or_objid(rs: &Vec<Restaurant>, name: &str, objid_pispas: &str) -> (found: bool)
    ensures
        found == register_conflict(rs@, name@, objid_pispas@),
{
    let mut i: usize = 0;
    while i < rs.len()
        invariant
            0 <= i <= rs@.len(),
            forall|j: int|
                0 <= j < i ==> (#[trigger] rs@[j]).nombre@ != name@ && rs@[j].objid_pispas@
                    != objid_pispas@,
        decreases rs@.len() - i,
    {
        let name_hit = str_eq(rs[i].nombre.as_str(), name);
        let objid_hit = str_eq(rs[i].objid_pispas.as_str(), objid_pispas);
        if name_hit || objid_hit {
            return true;
        }
        i += 1;
    }
    false
}

/// Whether some restaurant already holds this access token.
fn find_token(rs: &Vec<Restaurant>, token: &str) -> (found: Option<usize>)
    ensures
        match found {
            Some(i) => i < rs@.len() && rs@[i as int].access_token@ == token@,
            None => !token_taken(rs@, token@),
        },
{
    let mut i: usize = 0;
    while i < rs.len()
        invariant
            0 <= i <= rs@.len(),
            forall|j: int| 0 <= j < i ==> #[trigger] rs@[j].access_token@ != token@,
        decreases rs@.len() - i,
    {
        if str_eq(rs[i].access_token.as_str(), token) {
            return Some(i);
        }
        i += 1;
    }
    None
}

/// The record matching both name and secret, if any.
fn find_credentials(rs: &Vec<Restaurant>, name: &str, password: &str) -> (found: Option<usize>)
    ensures
        match found {
            Some(i) => i < rs@.len() && rs@[i as int].nombre@ == name@
                && rs@[i as int].password@ == password@,
            None => !credentials_match(rs@, name@, password@),
        },
{
    let mut i: usize = 0;
    while i < rs.len()
        invariant
            0 <= i <= rs@.len(),
            forall|j: int|
                0 <= j < i ==> !(#[trigger] rs@[j].nombre@ == name@ && rs@[j].password@
                    == password@),
        decreases rs@.len() - i,
    {
        if str_eq(rs[i].nombre.as_str(), name) && str_eq(rs[i].password.as_str(), password) {
            return Some(i);
        }
        i += 1;
    }
    None
}

impl Store {
    /// Registers a restaurant under a caller-supplied access token.
    ///
    /// The inputs are checked first (empty name, short secret, empty
    /// external reference), then the uniqueness of the name and of the
    /// external reference; a token that is already held by another record
    /// is a storage-level failure, as a unique index would make it. On
    /// success the record is appended and the token is answered together
    /// with the fresh identifier.
    pub fn register_with_token(
        &mut self,
        objid_pispas: &str,
        name: &str,
        password: &str,
        confirmar_automaticamente: bool,
        access_token: String,
        now: i64,
    ) -> (r: AppResult<Credentials>)
        requires
            old(self).wf(),
            old(self).next_id < u64::MAX,
        ensures
            final(self).wf(),
            r is Err ==> *final(self) == *old(self),
            (r matches Err(e) && e.is_validation()) <==> register_input_bad(
                objid_pispas@,
                name@,
                password@,
            ),
            (r matches Err(e) && e.is_conflict()) <==> (!register_input_bad(
                objid_pispas@,
                name@,
                password@,
            ) && register_conflict(old(self).restaurants@, name@, objid_pispas@)),
            (r matches Err(e) && e.is_internal()) <==> (!register_input_bad(
                objid_pispas@,
                name@,
                password@,
            ) && !register_conflict(old(self).restaurants@, name@, objid_pispas@) && token_taken(
                old(self).restaurants@,
                access_token@,
            )),
            r is Ok <==> (!register_input_bad(objid_pispas@, name@, password@)
                && !register_conflict(old(self).restaurants@, name@, objid_pispas@)
                && !token_taken(old(self).restaurants@, access_token@)),
            r matches Ok(c) ==> ({
                let rec = final(self).restaurants@.last();
                &&& c.id == old(self).next_id
                &&& c.access_token@ == access_token@
                &&& final(self).restaurants@.len() == old(self).restaurants@.len() + 1
                &&& final(self).restaurants@.drop_last() == old(self).restaurants@
                &&& rec.id == old(self).next_id
                &&& rec.objid_pispas@ == objid_pispas@
                &&& rec.nombre@ == name@
                &&& rec.password@ == password@
                &&& rec.confirmar_automaticamente == confirmar_automaticamente
                &&& rec.access_token@ == access_token@
                &&& rec.created_at == now
                &&& final(self).mesas == old(self).mesas
                &&& final(self).reservas == old(self).reservas
                &&& final(self).next_id == old(self).next_id + 1
            }),
    {
        if name.unicode_len() == 0 {
            return Err(
                AppError::Validation(String::from_str("El nombre del restaurante es requerido")),
            );
        }
        proof {
            assert(password.spec_bytes() == vstd::utf8::encode_utf8(password@));
        }
        if password.as_bytes().len() < 6 {
            return Err(
                AppError::Validation(
                    String::from_str("La contraseña debe tener al menos 6 caracteres"),
                ),
            );
        }
        if objid_pispas.unicode_len() == 0 {
            return Err(
                AppError::Validation(String::from_str("El OBJID de Pispas es requerido")),
            );
        }
        if find_name_or_objid(&self.restaurants, name, objid_pispas) {
            return Err(AppError::Conflict(String::from_str("El restaurante ya existe")));
        }
        if let Some(_) = find_token(&self.restaurants, access_token.as_str()) {
            return Err(
                AppError::database("register_restaurant", "access token duplicado en el índice"),
            );
        }
        let id = self.next_id;
        let token_out = access_token.clone();
        let rec = Restaurant {
            id,
            objid_pispas: String::from_str(objid_pispas),
            nombre: String::from_str(name),
            password: String::from_str(password),
            confirmar_automaticamente,
            access_token,
            created_at: now,
        };
        self.restaurants.push(rec);
        self.next_id = self.next_id + 1;
        proof {
            assert(self.restaurants@.drop_last() =~= old(self).restaurants@);
        }
        Ok(Credentials { access_token: token_out, id })
    }

    /// Registers a restaurant: draws a fresh opaque access token and stores
    /// the record under it, through [`Store::register_with_token`].
    ///
    /// The draw is random, so after the input and conflict checks the
    /// contract does not fix which of the two remaining outcomes is
    /// answered; it does confine them. Success carries the drawn token; the
    /// only other outcome is the storage-level failure of a collision with
    /// a stored token, which requires some stored token of the draw's own
    /// 36-character length. Where no such token is stored — in an empty
    /// store above all — success is the one outcome the contract leaves.
    pub fn register_restaurant(
        &mut self,
        objid_pispas: &str,
        name: &str,
        password: &str,
        confirmar_automaticamente: bool,
        now: i64,
    ) -> (r: AppResult<Credentials>)
        requires
            old(self).wf(),
            old(self).next_id < u64::MAX,
        ensures
            final(self).wf(),
            r is Err ==> *final(self) == *old(self),
            (r matches Err(e) && e.is_validation()) <==> register_input_bad(
                objid_pispas@,
                name@,
                password@,
            ),
            (r matches Err(e) && e.is_conflict()) <==> (!register_input_bad(
                objid_pispas@,
                name@,
                password@,
            ) && register_conflict(old(self).restaurants@, name@, objid_pispas@)),
            r matches Err(e) ==> (e.is_validation() || e.is_conflict() || e.is_internal()),
            (r matches Err(e) && e.is_internal()) ==> (!register_input_bad(
                objid_pispas@,
                name@,
                password@,
            ) && !register_conflict(old(self).restaurants@, name@, objid_pispas@) && exists|
                t: Seq<char>,
            |
                t.len() == 36 && token_taken(old(self).restaurants@, t)),
            r matches Ok(c) ==> ({
                let rec = final(self).restaurants@.last();
                &&& !token_taken(old(self).restaurants@, c.access_token@)
                &&& c.access_token@.len() == 36
                &&& c.id == old(self).next_id
                &&& final(self).restaurants@.len() == old(self).restaurants@.len() + 1
                &&& final(self).restaurants@.drop_last() == old(self).restaurants@
                &&& rec.id == old(self).next_id
                &&& rec.objid_pispas@ == objid_pispas@
                &&& rec.nombre@ == name@
                &&& rec.password@ == password@
                &&& rec.confirmar_automaticamente == confirmar_automaticamente
                &&& rec.access_token@ == c.access_token@
                &&& rec.created_at == now
                &&& final(self).mesas == old(self).mesas
                &&& final(self).reservas == old(self).reservas
                &&& final(self).next_id == old(self).next_id + 1
            }),
    {
        let access_token = uuid_v4_string();
        let ghost tok = access_token@;
        let r = self.register_with_token(
            objid_pispas,
            name,
            password,
            confirmar_automaticamente,
            access_token,
            now,
        );
        proof {
            if r matches Err(ref e) && e.is_internal() {
                assert(tok.len() == 36 && token_taken(old(self).restaurants@, tok));
            }
        }
        r
    }

    /// Answers the stored access token and the record identifier for a
    /// matching name and secret, and an authorization error otherwise:
    /// nothing of a record leaks on a wrong secret.
    pub fn login_restaurant(&self, name: &str, password: &str) -> (r: AppResult<Credentials>)
        ensures
            (r matches Err(e) && e.is_validation()) <==> (name@.len() == 0 || password@.len()
                == 0),
            r is Ok <==> (name@.len() > 0 && password@.len() > 0 && credentials_match(
                self.restaurants@,
                name@,
                password@,
            )),
            (r matches Err(e) && e.is_unauthorized()) <==> (name@.len() > 0 && password@.len() > 0
                && !credentials_match(self.restaurants@, name@, password@)),
            r matches Ok(c) ==> exists|i: int|
                0 <= i < self.restaurants@.len() && #[trigger] self.restaurants@[i].nombre@
                    == name@ && self.restaurants@[i].password@ == password@ && c.access_token@
                    == self.restaurants@[i].access_token@ && c.id == self.restaurants@[i].id,
    {
        if name.unicode_len() == 0 || password.unicode_len() == 0 {
            return Err(
                AppError::Validation(String::from_str("Nombre y contraseña son requeridos")),
            );
        }
        match find_credentials(&self.restaurants, name, password) {
            Some(i) => {
                let rec = &self.restaurants[i];
                Ok(Credentials { access_token: rec.access_token.clone(), id: rec.id })
            },
            None => Err(AppError::Unauthorized(String::from_str("Credenciales incorrectas"))),
        }
    }

    /// Resolves a bearer token to the identifier of the restaurant holding
    /// it; fails with an authorization error when no record holds it.
    pub fn validate_access_token(&self, token: &str) -> (r: AppResult<u64>)
        ensures
            r is Ok <==> token_taken(self.restaurants@, token@),
            r matches Ok(id) ==> exists|i: int|
                0 <= i < self.restaurants@.len() && #[trigger] self.restaurants@[i].access_token@
                    == token@ && id == self.restaurants@[i].id,
            r matches Err(e) ==> e.is_unauthorized(),
    {
        match find_token(&self.restaurants, token) {
            Some(i) => Ok(self.restaurants[i].id),
            None => Err(AppError::Unauthorized(String::from_str("Token inválido"))),
        }
    }

    /// The public summaries of all restaurants, in insertion order:
    /// everything but the secrets and the tokens.
    pub fn list_restaurants(&self) -> (r: Vec<RestaurantInfo>)
        ensures
            r@.len() == self.restaurants@.len(),
            forall|i: int|
                0 <= i < r@.len() ==> (#[trigger] r@[i]).id == self.restaurants@[i].id
                    && r@[i].nombre@ == self.restaurants@[i].nombre@ && r@[i].objid_pispas@
                    == self.restaurants@[i].objid_pispas@ && r@[i].confirmar_automaticamente
                    == self.restaurants@[i].confirmar_automaticamente,
    {
        let mut out: Vec<RestaurantInfo> = Vec::new();
        let mut i: usize = 0;
        while i < self.restaurants.len()
            invariant
                0 <= i <= self.restaurants@.len(),
                out@.len() == i,
                forall|j: int|
                    0 <= j < i ==> (#[trigger] out@[j]).id == self.restaurants@[j].id
                        && out@[j].nombre@ == self.restaurants@[j].nombre@ && out@[j].objid_pispas@
                        == self.restaurants@[j].objid_pispas@ && out@[j].confirmar_automaticamente
                        == self.restaurants@[j].confirmar_automaticamente,
            decreases self.restaurants@.len() - i,
        {
            let rec = &self.restaurants[i];
            out.push(
                RestaurantInfo {
                    id: rec.id,
                    nombre: rec.nombre.clone(),
                    objid_pispas: rec.objid_pispas.clone(),
                    confirmar_automaticamente: rec.confirmar_automaticamente,
                },
            );
            i += 1;
        }
        out
    }
}

/// Registering a restaurant takes its name and its external reference:
/// against the store that a successful registration leaves behind, a second
/// registration that reuses either of them hits the conflict guard of
/// [`Store::register_with_token`].
pub proof fn lemma_register_takes_name(
    rs1: Seq<Restaurant>,
    rs2: Seq<Restaurant>,
    name2: Seq<char>,
    objid2: Seq<char>,
)
    requires
        rs2.len() == rs1.len() + 1,
        rs2.drop_last() == rs1,
        name2 == rs2.last().nombre@ || objid2 == rs2.last().objid_pispas@,
    ensures
        register_conflict(rs2, name2, objid2),
{
    let k = rs2.len() - 1;
    if name2 == rs2.last().nombre@ {
        assert(rs2[k].nombre@ == name2);
    } else {
        assert(rs2[k].objid_pispas@ == objid2);
    }
}

/// Naming a restaurant with a wrong secret matches no record: names are
/// unique in a well-formed store, so the one record of that name refuses
/// the secret and [`Store::login_restaurant`] answers unauthorized.
pub proof fn lemma_login_wrong_secret(s: Store, i: int, password: Seq<char>)
    requires
        s.wf(),
        0 <= i < s.restaurants@.len(),
        s.restaurants@[i].password@ != password,
    ensures
        !credentials_match(s.restaurants@, s.restaurants@[i].nombre@, password),
{
    if credentials_match(s.restaurants@, s.restaurants@[i].nombre@, password) {
        let j = choose|j: int|
            0 <= j < s.restaurants@.len() && #[trigger] s.restaurants@[j].nombre@
                == s.restaurants@[i].nombre@ && s.restaurants@[j].password@ == password;
        assert(j != i);
        assert(s.restaurants@[i].nombre@ != s.restaurants@[j].nombre@);
    }
}

} // verus!
