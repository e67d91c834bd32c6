use vstd::prelude::*;

use crate::invariants::lemma_create_production_keeps_wf;
use crate::model::{in_crew, Cuadrilla, Estado, Jornalero, Produccion};
use crate::rules::{self, lemma_filter_prefix_step, CrewError, ProduccionData};
use crate::store::Store;

verus! {

/// The active workers pass.
pub open spec fn is_active() -> spec_fn(Jornalero) -> bool {
    |w: Jornalero| w.estado == Estado::Activo
}

/// The inactive workers pass.
pub open spec fn is_inactive() -> spec_fn(Jornalero) -> bool {
    |w: Jornalero| w.estado == Estado::Inactivo
}

/// Which workers a listing shows.
enum Selection {
    Active,
    Inactive,
    Crew(i32),
}

impl Selection {
    spec fn pred(self) -> spec_fn(Jornalero) -> bool {
        match self {
            Selection::Active => is_active(),
            Selection::Inactive => is_inactive(),
            Selection::Crew(c) => in_crew(c),
        }
    }

    fn accepts(&self, w: &Jornalero) -> (r: bool)
        ensures
            r == self.pred()(*w),
    {
        match self {
            Selection::Active => w.estado == Estado::Activo,
            Selection::Inactive => w.estado == Estado::Inactivo,
            Selection::Crew(c) => w.cuadrilla_id == Some(*c),
        }
    }
}

fn select_workers(store: &Store, sel: Selection) -> (r: Vec<Jornalero>)
    ensures
        r@ == store@.jornaleros.filter(sel.pred()),
{
    let ws = store.workers();
    let mut out: Vec<Jornalero> = Vec::new();
    let mut i: usize = 0;
    while i < ws.len()
        invariant
            i <= ws@.len(),
            out@ == ws@.subrange(0, i as int).filter(sel.pred()),
        decreases ws.len() - i,
    {
        proof {
            lemma_filter_prefix_step(ws@, i as int, sel.pred());
        }
        if sel.accepts(&ws[i]) {
            out.push(ws[i].duplicate());
        }
        i += 1;
    }
    proof {
        assert(ws@.subrange(0, i as int) =~= ws@);
    }
    out
}

/// The active workers, in registration order.
pub fn get_jornaleros(store: &Store) -> (r: Vec<Jornalero>)
    ensures
        r@ == store@.jornaleros.filter(is_active()),
{
    select_workers(store, Selection::Active)
}

/// The inactive workers, in registration order.
pub fn get_inactive_jornaleros(store: &Store) -> (r: Vec<Jornalero>)
    ensures
        r@ == store@.jornaleros.filter(is_inactive()),
{
    select_workers(store, Selection::Inactive)
}

/// The members of crew `cuadrilla_id`, in registration order.
pub fn get_jornaleros_by_cuadrilla(store: &Store, cuadrilla_id: i32) -> (r: Vec<Jornalero>)
    ensures
        r@ == store@.members(cuadrilla_id),
{
    select_workers(store, Selection::Crew(cuadrilla_id))
}

/// Every worker, in registration order.
pub fn get_all_jornaleros(store: &Store) -> (r: Vec<Jornalero>)
    ensures
        r@ == store@.jornaleros,
{
    let ws = store.workers();
    let mut out: Vec<Jornalero> = Vec::new();
    let mut i: usize = 0;
    while i < ws.len()
        invariant
            i <= ws@.len(),
            out@ == ws@.subrange(0, i as int),
        decreases ws.len() - i,
    {
        out.push(ws[i].duplicate());
        i += 1;
        proof {
            assert(out@ =~= ws@.subrange(0, i as int));
        }
    }
    proof {
        assert(ws@.subrange(0, i as int) =~= ws@);
    }
    out
}

/// Worker `id`, if it exists.
pub fn get_jornalero_by_id(store: &Store, id: i32) -> (r: Option<Jornalero>)
    requires
        store.wf(),
    ensures
        r == (if store@.worker_exists(id) {
            Some(store@.worker(id))
        } else {
            None
        }),
{
    match store.find_worker(id) {
        None => None,
        Some(i) => {
            proof {
                store@.lemma_worker_at(i as int, id);
            }
            Some(store.workers()[i].duplicate())
        },
    }
}

/// Every crew, in registration order.
pub fn get_cuadrillas(store: &Store) -> (r: Vec<Cuadrilla>)
    ensures
        r@ == store@.cuadrillas,
{
    let cs = store.crews();
    let mut out: Vec<Cuadrilla> = Vec::new();
    let mut i: usize = 0;
    while i < cs.len()
        invariant
            i <= cs@.len(),
            out@ == cs@.subrange(0, i as int),
        decreases cs.len() - i,
    {
        out.push(cs[i].duplicate());
        i += 1;
        proof {
            assert(out@ =~= cs@.subrange(0, i as int));
        }
    }
    proof {
        assert(cs@.subrange(0, i as int) =~= cs@);
    }
    out
}

/// Crew `id`, if it exists.
pub fn get_cuadrilla_by_id(store: &Store, id: i32) -> (r: Option<Cuadrilla>)
    requires
        store.wf(),
    ensures
        r == (if store@.crew_exists(id) {
            Some(store@.crew(id))
        } else {
            None
        }),
{
    match store.find_crew(id) {
        None => None,
        Some(i) => {
            proof {
                store@.lemma_crew_at(i as int, id);
            }
            Some(store.crews()[i].duplicate())
        },
    }
}

/// Records a harvest for an existing crew and returns the record's identity.
pub fn post_produccion(store: &mut Store, data: ProduccionData) -> (r: Result<i32, CrewError>)
    requires
        old(store).wf(),
    ensures
        final(store).wf(),
        match rules::create_production(old(store)@, data) {
            Ok((t, id)) => r == Ok::<i32, CrewError>(id) && final(store)@ == t,
            Err(e) => r == Err::<i32, CrewError>(e) && final(store)@ == old(store)@,
        },
{
    proof {
        lemma_create_production_keeps_wf(store@, data);
    }
    if store.next_produccion_id_value() == i32::MAX {
        return Err(CrewError::StoreError);
    }
    if store.find_crew(data.cuadrilla_id).is_none() {
        return Err(CrewError::CrewNotFound(data.cuadrilla_id));
    }
    Ok(store.insert_production(data))
}

/// Every harvest record, in registration order.
pub fn get_produccion(store: &Store) -> (r: Vec<Produccion>)
    ensures
        r@ == store@.producciones,
{
    let ps = store.productions();
    let mut out: Vec<Produccion> = Vec::new();
    let mut i: usize = 0;
    while i < ps.len()
        invariant
            i <= ps@.len(),
            out@ == ps@.subrange(0, i as int),
        decreases ps.len() - i,
    {
        out.push(ps[i].duplicate());
        i += 1;
        proof {
            assert(out@ =~= ps@.subrange(0, i as int));
        }
    }
    proof {
        assert(ps@.subrange(0, i as int) =~= ps@);
    }
    out
}

} // verus!
