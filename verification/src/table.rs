//! The table registry: creating tables in a restaurant's floor plan,
//! listing them, and clearing the whole plan.
//!
//! Every operation takes the identifier the caller's bearer token resolved
//! to, and the restaurant identifier named by the request; they must
//! agree, or the operation answers an authorization error.

use vstd::prelude::*;
use crate::errors::{AppError, AppResult};
use crate::models::Mesa;
use crate::store::{Store, mesa_name_taken, mesa_valid, party_fits};
use crate::valid::{id_parses, id_value, parse_id, str_eq};

verus! {

/// The request body for creating a table.
pub struct NewTable {
    /// Owning restaurant, as the wire carries it.
    pub id_restaurante: String,
    pub tipo: String,
    pub nombre: String,
    pub pos_x: i64,
    pub pos_y: i64,
    pub size_x: i64,
    pub size_y: i64,
    pub forma: String,
    pub reservable: bool,
    pub min_personas: Option<i32>,
    pub max_personas: Option<i32>,
}

/// A table request is malformed when the name is empty, the shape is
/// neither "cuadrado" nor "circulo", or the bounds cross.
pub open spec fn table_input_bad(
    nombre: Seq<char>,
    forma: Seq<char>,
    min_personas: Option<i32>,
    max_personas: Option<i32>,
) -> bool {
    ||| nombre.len() == 0
    ||| !(forma == "cuadrado"@ || forma == "circulo"@)
    ||| (min_personas matches Some(mn) && max_personas matches Some(mx) && mn > mx)
}

/// The tables owned by one restaurant.
pub open spec fn owner_pred(owner: u64) -> spec_fn(Mesa) -> bool {
    |m: Mesa| m.id_restaurante == owner
}

/// The tables that survive a clear: those of every other restaurant.
pub open spec fn not_owner_pred(owner: u64) -> spec_fn(Mesa) -> bool {
    |m: Mesa| m.id_restaurante != owner
}

/// A filter and its complement split a sequence: their lengths add up.
proof fn lemma_filter_split<T>(s: Seq<T>, p: spec_fn(T) -> bool, q: spec_fn(T) -> bool)
    requires
        forall|x: T| #[trigger] q(x) == !p(x),
    ensures
        s.filter(p).len() + s.filter(q).len() == s.len(),
    decreases s.len(),
{
    broadcast use vstd::prelude::Seq::lemma_filter_push;

    if s.len() == 0 {
        broadcast use vstd::seq_lib::group_filter_ensures;

        assert(s.filter(p).len() == 0 && s.filter(q).len() == 0);
    } else {
        let d = s.drop_last();
        lemma_filter_split(d, p, q);
        assert(d.push(s.last()) =~= s);
        assert(q(s.last()) == !p(s.last()));
    }
}

/// Every element of a filtered sequence is an element of the sequence it
/// was filtered from.
proof fn lemma_filter_members<T>(s: Seq<T>, pred: spec_fn(T) -> bool)
    ensures
        forall|a: int|
            0 <= a < s.filter(pred).len() ==> s.contains(#[trigger] s.filter(pred)[a]),
    decreases s.len(),
{
    broadcast use vstd::prelude::Seq::lemma_filter_push;
    broadcast use vstd::seq_lib::group_filter_ensures;

    if s.len() == 0 {
        assert(s.filter(pred).len() == 0);
    } else {
        let d = s.drop_last();
        lemma_filter_members(d, pred);
        assert(d.push(s.last()) =~= s);
        assert forall|a: int| 0 <= a < s.filter(pred).len() implies s.contains(
            #[trigger] s.filter(pred)[a],
        ) by {
            let f = s.filter(pred);
            let fd = d.filter(pred);
            if pred(s.last()) {
                assert(f == fd.push(s.last()));
                if a < fd.len() {
                    assert(d.contains(fd[a]));
                    let k = choose|k: int| 0 <= k < d.len() && d[k] == fd[a];
                    assert(s[k] == f[a]);
                } else {
                    assert(s[s.len() - 1] == f[a]);
                }
            } else {
                assert(f == fd);
                assert(d.contains(fd[a]));
                let k = choose|k: int| 0 <= k < d.len() && d[k] == fd[a];
                assert(s[k] == f[a]);
            }
        }
    }
}

/// Filtering keeps tables pairwise distinct: distinct identifiers and
/// distinct (owner, name) pairs survive into the filtered sequence.
proof fn lemma_filter_keeps_mesa_wf(s: Seq<Mesa>, pred: spec_fn(Mesa) -> bool)
    requires
        forall|i: int, j: int|
            #![trigger s[i], s[j]]
            0 <= i < s.len() && 0 <= j < s.len() && i != j ==> s[i].id != s[j].id
                && !(s[i].id_restaurante == s[j].id_restaurante && s[i].nombre@ == s[j].nombre@),
    ensures
        forall|a: int, b: int|
            #![trigger s.filter(pred)[a], s.filter(pred)[b]]
            0 <= a < s.filter(pred).len() && 0 <= b < s.filter(pred).len() && a != b ==> s.filter(
                pred,
            )[a].id != s.filter(pred)[b].id && !(s.filter(pred)[a].id_restaurante == s.filter(
                pred,
            )[b].id_restaurante && s.filter(pred)[a].nombre@ == s.filter(pred)[b].nombre@),
    decreases s.len(),
{
    broadcast use vstd::prelude::Seq::lemma_filter_push;
    broadcast use vstd::seq_lib::group_filter_ensures;

    if s.len() == 0 {
        assert(s.filter(pred).len() == 0);
    } else {
        let d = s.drop_last();
        assert(forall|i: int| 0 <= i < d.len() ==> #[trigger] d[i] == s[i]);
        lemma_filter_keeps_mesa_wf(d, pred);
        lemma_filter_members(d, pred);
        assert(d.push(s.last()) =~= s);
        let f = s.filter(pred);
        let fd = d.filter(pred);
        assert forall|a: int, b: int|
            0 <= a < f.len() && 0 <= b < f.len() && a != b implies f[a].id != f[b].id && !(
        f[a].id_restaurante == f[b].id_restaurante && f[a].nombre@ == f[b].nombre@) by {
            if pred(s.last()) {
                assert(f == fd.push(s.last()));
                if a < fd.len() && b < fd.len() {
                    assert(fd[a] == f[a] && fd[b] == f[b]);
                } else {
                    let inner = if a < fd.len() {
                        a
                    } else {
                        b
                    };
                    assert(d.contains(fd[inner]));
                    let k = choose|k: int| 0 <= k < d.len() && d[k] == fd[inner];
                    assert(s[k] == f[inner]);
                    assert(s[s.len() - 1] == s.last());
                }
            } else {
                assert(f == fd);
            }
        }
    }
}

/// Whether the owner already has a table of this name.
fn mesa_name_exists(ms: &Vec<Mesa>, owner: u64, nombre: &str) -> (found: bool)
    ensures
        found == mesa_name_taken(ms@, owner, nombre@),
{
    let mut i: usize = 0;
    while i < ms.len()
        invariant
            0 <= i <= ms@.len(),
            forall|j: int|
                0 <= j < i ==> !((#[trigger] ms@[j]).id_restaurante == owner && ms@[j].nombre@
                    == nombre@),
        decreases ms@.len() - i,
    {
        if ms[i].id_restaurante == owner && str_eq(ms[i].nombre.as_str(), nombre) {
            return true;
        }
        i += 1;
    }
    false
}

impl Store {
    /// Creates a table.
    ///
    /// The restaurant named by the request must parse and must be the
    /// caller's own; the name must be non-empty, the shape one of
    /// "cuadrado" and "circulo", and the occupancy bounds consistent; the
    /// name must be free within the restaurant. On success the table is
    /// appended under a fresh identifier, which is answered.
    pub fn create_table(&mut self, user_id: u64, data: &NewTable, now: i64) -> (r: AppResult<
        u64,
    >)
        requires
            old(self).wf(),
            old(self).next_id < u64::MAX,
        ensures
            final(self).wf(),
            r is Err ==> *final(self) == *old(self),
            (r matches Err(e) && e.is_validation()) <==> (!id_parses(data.id_restaurante@) || (
            id_parses(data.id_restaurante@) && id_value(data.id_restaurante@) == user_id
                && table_input_bad(
                data.nombre@,
                data.forma@,
                data.min_personas,
                data.max_personas,
            ))),
            (r matches Err(e) && e.is_unauthorized()) <==> (id_parses(data.id_restaurante@)
                && id_value(data.id_restaurante@) != user_id),
            (r matches Err(e) && e.is_conflict()) <==> (id_parses(data.id_restaurante@)
                && id_value(data.id_restaurante@) == user_id && !table_input_bad(
                data.nombre@,
                data.forma@,
                data.min_personas,
                data.max_personas,
            ) && mesa_name_taken(old(self).mesas@, user_id, data.nombre@)),
            r is Ok <==> (id_parses(data.id_restaurante@) && id_value(data.id_restaurante@)
                == user_id && !table_input_bad(
                data.nombre@,
                data.forma@,
                data.min_personas,
                data.max_personas,
            ) && !mesa_name_taken(old(self).mesas@, user_id, data.nombre@)),
            r matches Ok(id) ==> ({
                let rec = final(self).mesas@.last();
                &&& id == old(self).next_id
                &&& final(self).mesas@.len() == old(self).mesas@.len() + 1
                &&& final(self).mesas@.drop_last() == old(self).mesas@
                &&& rec.id == old(self).next_id
                &&& rec.id_restaurante == user_id
                &&& rec.tipo@ == data.tipo@
                &&& rec.nombre@ == data.nombre@
                &&& rec.pos_x == data.pos_x
                &&& rec.pos_y == data.pos_y
                &&& rec.size_x == data.size_x
                &&& rec.size_y == data.size_y
                &&& rec.forma@ == data.forma@
                &&& rec.reservable == data.reservable
                &&& rec.min_personas == data.min_personas
                &&& rec.max_personas == data.max_personas
                &&& rec.created_at == now
                &&& final(self).restaurants == old(self).restaurants
                &&& final(self).reservas == old(self).reservas
                &&& final(self).next_id == old(self).next_id + 1
            }),
    {
        let id_restaurante = match parse_id(data.id_restaurante.as_str()) {
            Some(v) => v,
            None => {
                return Err(
                    AppError::Validation(String::from_str("ID de restaurante inválido")),
                );
            },
        };
        if user_id != id_restaurante {
            return Err(
                AppError::Unauthorized(
                    String::from_str("No tienes permiso para crear mesas en este restaurante"),
                ),
            );
        }
        if data.nombre.unicode_len() == 0 {
            return Err(AppError::Validation(String::from_str("El nombre de la mesa es requerido")));
        }
        let cuadrado = str_eq(data.forma.as_str(), "cuadrado");
        let circulo = str_eq(data.forma.as_str(), "circulo");
        if !cuadrado && !circulo {
            return Err(
                AppError::Validation(String::from_str("La forma debe ser 'cuadrado' o 'circulo'")),
            );
        }
        let bounds_bad = match (data.min_personas, data.max_personas) {
            (Some(mn), Some(mx)) => mn > mx,
            _ => false,
        };
        if bounds_bad {
            return Err(
                AppError::Validation(
                    String::from_str("El mínimo de personas no puede ser mayor al máximo"),
                ),
            );
        }
        if mesa_name_exists(&self.mesas, user_id, data.nombre.as_str()) {
            return Err(
                AppError::Conflict(
                    String::from_str("Ya existe una mesa con el nombre '").concat(
                        data.nombre.as_str(),
                    ).concat("'"),
                ),
            );
        }
        let id = self.next_id;
        let rec = Mesa {
            id,
            id_restaurante: user_id,
            tipo: data.tipo.clone(),
            nombre: data.nombre.clone(),
            pos_x: data.pos_x,
            pos_y: data.pos_y,
            size_x: data.size_x,
            size_y: data.size_y,
            forma: data.forma.clone(),
            reservable: data.reservable,
            min_personas: data.min_personas,
            max_personas: data.max_personas,
            created_at: now,
        };
        self.mesas.push(rec);
        self.next_id = self.next_id + 1;
        proof {
            let oldm = old(self).mesas@;
            let m = self.mesas@;
            let n = m.len() - 1;
            assert(m.drop_last() =~= oldm);
            assert(forall|k: int| 0 <= k < n ==> #[trigger] m[k] == oldm[k]);
            assert forall|i: int, j: int|
                0 <= i < m.len() && 0 <= j < m.len() && i != j implies m[i].id != m[j].id && !(
            m[i].id_restaurante == m[j].id_restaurante && m[i].nombre@ == m[j].nombre@) by {
                if i < n && j < n {
                    assert(oldm[i].id != oldm[j].id && !(oldm[i].id_restaurante
                        == oldm[j].id_restaurante && oldm[i].nombre@ == oldm[j].nombre@));
                } else if i == n {
                    assert(oldm[j].id < old(self).next_id);
                    assert(!(oldm[j].id_restaurante == user_id && oldm[j].nombre@
                        == data.nombre@));
                } else {
                    assert(oldm[i].id < old(self).next_id);
                    assert(!(oldm[i].id_restaurante == user_id && oldm[i].nombre@
                        == data.nombre@));
                }
            }
            assert forall|a: int, b: int|
                0 <= a < self.reservas@.len() && 0 <= b < m.len()
                    && #[trigger] self.reservas@[a].id_mesa == #[trigger] m[b].id implies
                party_fits(self.reservas@[a].numero_personas, m[b]) by {
                if b < n {
                    assert(party_fits(old(self).reservas@[a].numero_personas, oldm[b]));
                } else {
                    assert(old(self).reservas@[a].id_mesa < old(self).next_id);
                }
            }
            assert forall|k: int| 0 <= k < m.len() implies mesa_valid(#[trigger] m[k]) by {
                if k < n {
                    assert(mesa_valid(oldm[k]));
                } else {
                    assert(!(m[n].min_personas matches Some(mn) && m[n].max_personas
                        matches Some(mx) && mn > mx));
                }
            }
        }
        Ok(id)
    }

    /// The caller's tables, in insertion order. The restaurant named by
    /// the request must parse and must be the caller's own.
    pub fn get_tables(&self, user_id: u64, id_restaurante: &str) -> (r: AppResult<Vec<Mesa>>)
        ensures
            (r matches Err(e) && e.is_validation()) <==> !id_parses(id_restaurante@),
            (r matches Err(e) && e.is_unauthorized()) <==> (id_parses(id_restaurante@)
                && id_value(id_restaurante@) != user_id),
            r is Ok <==> (id_parses(id_restaurante@) && id_value(id_restaurante@) == user_id),
            r matches Ok(v) ==> v@ == self.mesas@.filter(owner_pred(user_id)),
    {
        let parsed = match parse_id(id_restaurante) {
            Some(v) => v,
            None => {
                return Err(
                    AppError::Validation(String::from_str("ID de restaurante inválido")),
                );
            },
        };
        if user_id != parsed {
            return Err(
                AppError::Unauthorized(
                    String::from_str("No tienes permiso para ver las mesas de este restaurante"),
                ),
            );
        }
        let mut out: Vec<Mesa> = Vec::new();
        let mut i: usize = 0;
        while i < self.mesas.len()
            invariant
                0 <= i <= self.mesas@.len(),
                out@ == self.mesas@.subrange(0, i as int).filter(owner_pred(user_id)),
            decreases self.mesas@.len() - i,
        {
            proof {
                broadcast use vstd::prelude::Seq::lemma_filter_push;

                assert(self.mesas@.subrange(0, i + 1) =~= self.mesas@.subrange(0, i as int).push(
                    self.mesas@[i as int],
                ));
            }
            if self.mesas[i].id_restaurante == user_id {
                out.push(self.mesas[i].clone());
            }
            i += 1;
        }
        proof {
            assert(self.mesas@.subrange(0, self.mesas@.len() as int) =~= self.mesas@);
        }
        Ok(out)
    }

    /// Deletes every table of the caller's restaurant and answers how many
    /// went. Deleting none is not an error. The restaurant named by the
    /// request must parse and must be the caller's own.
    pub fn clear_tables(&mut self, user_id: u64, id_restaurante: &str) -> (r: AppResult<u64>)
        requires
            old(self).wf(),
        ensures
            final(self).wf(),
            r is Err ==> *final(self) == *old(self),
            (r matches Err(e) && e.is_validation()) <==> !id_parses(id_restaurante@),
            (r matches Err(e) && e.is_unauthorized()) <==> (id_parses(id_restaurante@)
                && id_value(id_restaurante@) != user_id),
            r is Ok <==> (id_parses(id_restaurante@) && id_value(id_restaurante@) == user_id),
            r matches Ok(count) ==> ({
                &&& final(self).mesas@ == old(self).mesas@.filter(not_owner_pred(user_id))
                &&& count == old(self).mesas@.filter(owner_pred(user_id)).len()
                &&& count == old(self).mesas@.len() - final(self).mesas@.len()
                &&& final(self).restaurants == old(self).restaurants
                &&& final(self).reservas == old(self).reservas
                &&& final(self).next_id == old(self).next_id
            }),
    {
        let parsed = match parse_id(id_restaurante) {
            Some(v) => v,
            None => {
                return Err(
                    AppError::Validation(String::from_str("ID de restaurante inválido")),
                );
            },
        };
        if user_id != parsed {
            return Err(
                AppError::Unauthorized(
                    String::from_str("No tienes permiso para modificar este restaurante"),
                ),
            );
        }
        let mut kept: Vec<Mesa> = Vec::new();
        let mut i: usize = 0;
        while i < self.mesas.len()
            invariant
                0 <= i <= self.mesas@.len(),
                kept@ == self.mesas@.subrange(0, i as int).filter(not_owner_pred(user_id)),
            decreases self.mesas@.len() - i,
        {
            proof {
                broadcast use vstd::prelude::Seq::lemma_filter_push;

                assert(self.mesas@.subrange(0, i + 1) =~= self.mesas@.subrange(0, i as int).push(
                    self.mesas@[i as int],
                ));
            }
            if self.mesas[i].id_restaurante != user_id {
                kept.push(self.mesas[i].clone());
            }
            i += 1;
        }
        proof {
            assert(self.mesas@.subrange(0, self.mesas@.len() as int) =~= self.mesas@);
        }
        let total = self.mesas.len();
        let remaining = kept.len();
        let count = (total - remaining) as u64;
        let ghost prior = *self;
        self.mesas = kept;
        proof {
            let p = not_owner_pred(user_id);
            lemma_filter_split(prior.mesas@, owner_pred(user_id), p);
            lemma_filter_members(prior.mesas@, p);
            lemma_filter_keeps_mesa_wf(prior.mesas@, p);
            assert forall|a: int|
                0 <= a < self.mesas@.len() implies mesa_valid(#[trigger] self.mesas@[a])
                && self.mesas@[a].id < self.next_id by {
                assert(prior.mesas@.contains(self.mesas@[a]));
                let k = choose|k: int|
                    0 <= k < prior.mesas@.len() && prior.mesas@[k] == self.mesas@[a];
                assert(mesa_valid(prior.mesas@[k]));
            }
            assert forall|a: int, b: int|
                0 <= a < self.reservas@.len() && 0 <= b < self.mesas@.len()
                    && #[trigger] self.reservas@[a].id_mesa == #[trigger] self.mesas@[b].id implies
                party_fits(self.reservas@[a].numero_personas, self.mesas@[b]) by {
                assert(prior.mesas@.contains(self.mesas@[b]));
                let k = choose|k: int|
                    0 <= k < prior.mesas@.len() && prior.mesas@[k] == self.mesas@[b];
                assert(party_fits(prior.reservas@[a].numero_personas, prior.mesas@[k]));
            }
        }
        Ok(count)
    }
}

/// A table name is scoped to its restaurant. Against the store that a
/// successful creation leaves behind, the created (owner, name) pair is
/// taken — a second table of that name under the same owner hits the
/// conflict guard of [`Store::create_table`] — while under every other
/// owner exactly the names taken before are taken after.
pub proof fn lemma_table_name_scoped(
    ms1: Seq<Mesa>,
    ms2: Seq<Mesa>,
    owner2: u64,
    nombre2: Seq<char>,
)
    requires
        ms2.len() == ms1.len() + 1,
        ms2.drop_last() == ms1,
    ensures
        mesa_name_taken(ms2, ms2.last().id_restaurante, ms2.last().nombre@),
        owner2 != ms2.last().id_restaurante ==> mesa_name_taken(ms2, owner2, nombre2)
            == mesa_name_taken(ms1, owner2, nombre2),
{
    let n = ms2.len() - 1;
    assert(ms2[n].id_restaurante == ms2.last().id_restaurante);
    assert(forall|i: int| 0 <= i < n ==> ms1[i] == #[trigger] ms2[i]);
    if owner2 != ms2.last().id_restaurante {
        if mesa_name_taken(ms1, owner2, nombre2) {
            let i = choose|i: int|
                0 <= i < ms1.len() && (#[trigger] ms1[i]).id_restaurante == owner2
                    && ms1[i].nombre@ == nombre2;
            assert(ms2[i].id_restaurante == owner2 && ms2[i].nombre@ == nombre2);
        }
        if mesa_name_taken(ms2, owner2, nombre2) {
            let i = choose|i: int|
                0 <= i < ms2.len() && (#[trigger] ms2[i]).id_restaurante == owner2
                    && ms2[i].nombre@ == nombre2;
            assert(i < n);
            assert(ms1[i].id_restaurante == owner2 && ms1[i].nombre@ == nombre2);
        }
    }
}

} // verus!
