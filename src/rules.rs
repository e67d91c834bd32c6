use vstd::prelude::*;

use crate::model::{Cuadrilla, Estado, Jornalero, Produccion, StoreView};

verus! {

/// Why an operation on the store was refused.
#[derive(Clone, Copy, Debug, PartialEq, Eq, Structural)]
pub enum CrewError {
    /// No crew has this identity.
    CrewNotFound(i32),
    /// No worker has this identity.
    WorkerNotFound(i32),
    /// The worker named as a crew's new leader does not exist.
    LeaderNotFound(i32),
    /// The worker is already inactive.
    AlreadyInactive(i32),
    /// The worker is already active.
    AlreadyActive(i32),
    /// The worker leads the crew and the change would take them out of it;
    /// the crew's leadership must change first.
    LeaderReassignmentConflict { worker: i32, crew: i32 },
    /// The crew is referenced by this many harvest records.
    HasProductionDependency(usize),
    /// An inactive worker cannot be placed in a crew.
    InactiveWorker,
    /// The store has no identity left to hand out.
    StoreError,
}

/// The fields of a crew as the caller supplies them.
pub struct CuadrillaData {
    /// Not read: the store assigns identities and updates name the crew.
    pub id: Option<i32>,
    pub lider_cuadrilla_id: Option<i32>,
    pub lote: String,
    pub variedad_id: Option<i32>,
    pub temporada_id: Option<i32>,
}

/// The fields of a worker as the caller supplies them.
pub struct JornaleroData {
    pub nombre: String,
    pub edad: i32,
    pub estado: Estado,
    pub fecha_contratacion: String,
    pub errores: Option<i32>,
    pub cuadrilla_id: Option<i32>,
}

/// The fields of a harvest record as the caller supplies them.
pub struct ProduccionData {
    pub cuadrilla_id: i32,
    pub temporada_id: i32,
    pub cantidad: String,
    pub fecha: String,
    pub tipo_empaque_id: Option<i32>,
    pub tipo_uva_id: Option<i32>,
    pub cliente_id: Option<i32>,
    pub cajas_no_aceptadas: Option<i32>,
}

/// What creating a crew reports: the new row and a warning flag.
#[derive(Debug)]
pub struct CrewCreated {
    pub crew: Cuadrilla,
    /// The requested leader did not resolve to a worker, so the crew was
    /// created without a leader.
    pub leader_missing: bool,
}

/// What deactivating a worker reports.
#[derive(Debug)]
pub struct Deactivation {
    /// The worker as it now stands.
    pub worker: Jornalero,
    /// A crew that the worker led lost its leader.
    pub crew_lost_leader: bool,
}

/// Worker `id` with crew `crew`; every other worker unchanged.
pub open spec fn place_worker(ws: Seq<Jornalero>, id: i32, crew: Option<i32>) -> Seq<Jornalero> {
    ws.map_values(|w: Jornalero| if w.id == id { Jornalero { cuadrilla_id: crew, ..w } } else { w })
}

/// Crew `id` led by `leader`; every other crew unchanged.
pub open spec fn lead_crew(cs: Seq<Cuadrilla>, id: i32, leader: Option<i32>) -> Seq<Cuadrilla> {
    cs.map_values(
        |c: Cuadrilla|
            if c.id == id {
                Cuadrilla { lider_cuadrilla_id: leader, ..c }
            } else {
                c
            },
    )
}

/// Every crew led by `w` left without a leader.
pub open spec fn revoke_leadership(cs: Seq<Cuadrilla>, w: i32) -> Seq<Cuadrilla> {
    cs.map_values(
        |c: Cuadrilla|
            if c.lider_cuadrilla_id == Some(w) {
                Cuadrilla { lider_cuadrilla_id: None, ..c }
            } else {
                c
            },
    )
}

/// Every member of crew `c` left unassigned.
pub open spec fn release_members(ws: Seq<Jornalero>, c: i32) -> Seq<Jornalero> {
    ws.map_values(
        |w: Jornalero|
            if w.cuadrilla_id == Some(c) {
                Jornalero { cuadrilla_id: None, ..w }
            } else {
                w
            },
    )
}

/// The row a new crew gets.
pub open spec fn new_crew_row(id: i32, leader: Option<i32>, data: CuadrillaData) -> Cuadrilla {
    Cuadrilla {
        id,
        lider_cuadrilla_id: leader,
        lote: data.lote,
        variedad_id: data.variedad_id,
        temporada_id: data.temporada_id,
    }
}

/// `post_cuadrilla`: insert a crew; a leader that resolves is moved into it.
pub open spec fn create_crew(s: StoreView, data: CuadrillaData) -> Result<
    (StoreView, CrewCreated),
    CrewError,
> {
    let id = s.next_cuadrilla_id as i32;
    let grown = StoreView { next_cuadrilla_id: s.next_cuadrilla_id + 1, ..s };
    if s.next_cuadrilla_id >= i32::MAX {
        Err(CrewError::StoreError)
    } else {
        match data.lider_cuadrilla_id {
            None => Ok(
                (
                    StoreView { cuadrillas: s.cuadrillas.push(new_crew_row(id, None, data)), ..grown },
                    CrewCreated { crew: new_crew_row(id, None, data), leader_missing: false },
                ),
            ),
            Some(w) => if !s.worker_exists(w) {
                Ok(
                    (
                        StoreView {
                            cuadrillas: s.cuadrillas.push(new_crew_row(id, None, data)),
                            ..grown
                        },
                        CrewCreated { crew: new_crew_row(id, None, data), leader_missing: true },
                    ),
                )
            } else if s.worker(w).estado == Estado::Inactivo {
                Err(CrewError::InactiveWorker)
            } else if s.leads_some_crew(w) {
                Err(CrewError::LeaderReassignmentConflict { worker: w, crew: s.led_crew(w) })
            } else {
                Ok(
                    (
                        StoreView {
                            cuadrillas: s.cuadrillas.push(new_crew_row(id, Some(w), data)),
                            jornaleros: place_worker(s.jornaleros, w, Some(id)),
                            ..grown
                        },
                        CrewCreated { crew: new_crew_row(id, Some(w), data), leader_missing: false },
                    ),
                )
            },
        }
    }
}

/// `set_leader`: make `leader` the leader of crew `c`, detaching the previous
/// leader first. Every check comes before any change.
pub open spec fn set_leader(s: StoreView, c: i32, leader: Option<i32>) -> Result<
    StoreView,
    CrewError,
> {
    if !s.crew_exists(c) {
        Err(CrewError::CrewNotFound(c))
    } else if s.crew(c).lider_cuadrilla_id == leader {
        Ok(s)
    } else {
        let previous = s.crew(c).lider_cuadrilla_id;
        let detached = match previous {
            Some(p) => place_worker(s.jornaleros, p, None),
            None => s.jornaleros,
        };
        match leader {
            None => Ok(
                StoreView {
                    jornaleros: detached,
                    cuadrillas: lead_crew(s.cuadrillas, c, None),
                    ..s
                },
            ),
            Some(w) => if !s.worker_exists(w) {
                Err(CrewError::LeaderNotFound(w))
            } else if s.worker(w).estado == Estado::Inactivo {
                Err(CrewError::InactiveWorker)
            } else if s.leads_some_crew(w) {
                Err(CrewError::LeaderReassignmentConflict { worker: w, crew: s.led_crew(w) })
            } else {
                Ok(
                    StoreView {
                        jornaleros: place_worker(detached, w, Some(c)),
                        cuadrillas: lead_crew(s.cuadrillas, c, Some(w)),
                        ..s
                    },
                )
            },
        }
    }
}

/// Crew `id` with the descriptive fields of `data`.
pub open spec fn describe_crew(cs: Seq<Cuadrilla>, id: i32, data: CuadrillaData) -> Seq<
    Cuadrilla,
> {
    cs.map_values(
        |c: Cuadrilla|
            if c.id == id {
                Cuadrilla {
                    lote: data.lote,
                    variedad_id: data.variedad_id,
                    temporada_id: data.temporada_id,
                    ..c
                }
            } else {
                c
            },
    )
}

/// `put_cuadrilla`: `set_leader` with `data`'s leader, then the other fields.
pub open spec fn update_crew(s: StoreView, id: i32, data: CuadrillaData) -> Result<
    StoreView,
    CrewError,
> {
    match set_leader(s, id, data.lider_cuadrilla_id) {
        Ok(t) => Ok(StoreView { cuadrillas: describe_crew(t.cuadrillas, id, data), ..t }),
        Err(e) => Err(e),
    }
}

/// The row a new worker gets.
pub open spec fn new_worker_row(id: i32, data: JornaleroData) -> Jornalero {
    Jornalero {
        id,
        nombre: data.nombre,
        edad: data.edad,
        estado: data.estado,
        fecha_contratacion: data.fecha_contratacion,
        errores: data.errores,
        cuadrilla_id: data.cuadrilla_id,
    }
}

/// `post_jornalero`: register a worker.
pub open spec fn create_worker(s: StoreView, data: JornaleroData) -> Result<
    (StoreView, i32),
    CrewError,
> {
    let id = s.next_jornalero_id as i32;
    if s.next_jornalero_id >= i32::MAX {
        Err(CrewError::StoreError)
    } else if data.cuadrilla_id is Some && !s.crew_exists(data.cuadrilla_id->0) {
        Err(CrewError::CrewNotFound(data.cuadrilla_id->0))
    } else if data.cuadrilla_id is Some && data.estado == Estado::Inactivo {
        Err(CrewError::InactiveWorker)
    } else {
        Ok(
            (
                StoreView {
                    jornaleros: s.jornaleros.push(new_worker_row(id, data)),
                    next_jornalero_id: s.next_jornalero_id + 1,
                    ..s
                },
                id,
            ),
        )
    }
}

/// Worker `id` with the fields of `data`, keeping identity and activity state.
pub open spec fn rewrite_worker(ws: Seq<Jornalero>, id: i32, data: JornaleroData) -> Seq<
    Jornalero,
> {
    ws.map_values(
        |w: Jornalero|
            if w.id == id {
                Jornalero { estado: w.estado, ..new_worker_row(id, data) }
            } else {
                w
            },
    )
}

/// `put_jornalero`: the general field update of a worker.
pub open spec fn update_worker(s: StoreView, id: i32, data: JornaleroData) -> Result<
    StoreView,
    CrewError,
> {
    if !s.worker_exists(id) {
        Err(CrewError::WorkerNotFound(id))
    } else if s.leads_some_crew(id) && data.cuadrilla_id != Some(s.led_crew(id)) {
        Err(CrewError::LeaderReassignmentConflict { worker: id, crew: s.led_crew(id) })
    } else if data.cuadrilla_id is Some && !s.crew_exists(data.cuadrilla_id->0) {
        Err(CrewError::CrewNotFound(data.cuadrilla_id->0))
    } else if data.cuadrilla_id is Some && s.worker(id).estado == Estado::Inactivo {
        Err(CrewError::InactiveWorker)
    } else {
        Ok(StoreView { jornaleros: rewrite_worker(s.jornaleros, id, data), ..s })
    }
}

/// `delete_jornalero`: deactivate a worker. The flag says whether a crew
/// lost its leader.
pub open spec fn deactivate(s: StoreView, id: i32) -> Result<(StoreView, bool), CrewError> {
    if !s.worker_exists(id) {
        Err(CrewError::WorkerNotFound(id))
    } else if s.worker(id).estado == Estado::Inactivo {
        Err(CrewError::AlreadyInactive(id))
    } else {
        Ok(
            (
                StoreView {
                    cuadrillas: revoke_leadership(s.cuadrillas, id),
                    jornaleros: s.jornaleros.map_values(
                        |w: Jornalero|
                            if w.id == id {
                                Jornalero { estado: Estado::Inactivo, cuadrilla_id: None, ..w }
                            } else {
                                w
                            },
                    ),
                    ..s
                },
                s.leads_some_crew(id),
            ),
        )
    }
}

/// `reactivate_jornalero`: make an inactive worker active again, without
/// restoring any crew.
pub open spec fn reactivate(s: StoreView, id: i32) -> Result<StoreView, CrewError> {
    if !s.worker_exists(id) {
        Err(CrewError::WorkerNotFound(id))
    } else if s.worker(id).estado == Estado::Activo {
        Err(CrewError::AlreadyActive(id))
    } else {
        Ok(
            StoreView {
                jornaleros: s.jornaleros.map_values(
                    |w: Jornalero|
                        if w.id == id {
                            Jornalero { estado: Estado::Activo, ..w }
                        } else {
                            w
                        },
                ),
                ..s
            },
        )
    }
}

/// The crew row (which exists) removed and its members released; harvest records are kept
/// as they are, even where they reference the crew.
pub open spec fn remove_crew(s: StoreView, c: i32) -> StoreView {
    StoreView {
        cuadrillas: s.cuadrillas.remove(s.crew_index(c)),
        jornaleros: release_members(s.jornaleros, c),
        ..s
    }
}

/// `delete_cuadrilla`: refused while harvest records reference the crew. The
/// number is how many workers were released.
pub open spec fn delete_crew(s: StoreView, c: i32) -> Result<(StoreView, nat), CrewError> {
    if s.productions_of(c).len() > 0 {
        Err(CrewError::HasProductionDependency(s.productions_of(c).len() as usize))
    } else if !s.crew_exists(c) {
        Err(CrewError::CrewNotFound(c))
    } else {
        Ok((remove_crew(s, c), s.members(c).len()))
    }
}

/// `force_delete_cuadrilla`: removes the crew whatever references it.
pub open spec fn force_delete_crew(s: StoreView, c: i32) -> Result<(StoreView, nat), CrewError> {
    if !s.crew_exists(c) {
        Err(CrewError::CrewNotFound(c))
    } else {
        Ok((remove_crew(s, c), s.members(c).len()))
    }
}

/// `reassign_jornaleros_from_cuadrilla`: release every member of crew `c`;
/// the crew keeps existing and, its leader being released, has no leader.
pub open spec fn reassign_workers(s: StoreView, c: i32) -> (StoreView, nat) {
    (
        StoreView {
            jornaleros: release_members(s.jornaleros, c),
            cuadrillas: lead_crew(s.cuadrillas, c, None),
            ..s
        },
        s.members(c).len(),
    )
}

/// The row a new harvest record gets.
pub open spec fn new_production_row(id: i32, data: ProduccionData) -> Produccion {
    Produccion {
        id,
        cuadrilla_id: data.cuadrilla_id,
        temporada_id: data.temporada_id,
        cantidad: data.cantidad,
        fecha: data.fecha,
        tipo_empaque_id: data.tipo_empaque_id,
        tipo_uva_id: data.tipo_uva_id,
        cliente_id: data.cliente_id,
        cajas_no_aceptadas: data.cajas_no_aceptadas,
    }
}

/// `post_produccion`: record a harvest for an existing crew.
pub open spec fn create_production(s: StoreView, data: ProduccionData) -> Result<
    (StoreView, i32),
    CrewError,
> {
    let id = s.next_produccion_id as i32;
    if s.next_produccion_id >= i32::MAX {
        Err(CrewError::StoreError)
    } else if !s.crew_exists(data.cuadrilla_id) {
        Err(CrewError::CrewNotFound(data.cuadrilla_id))
    } else {
        Ok(
            (
                StoreView {
                    producciones: s.producciones.push(new_production_row(id, data)),
                    next_produccion_id: s.next_produccion_id + 1,
                    ..s
                },
                id,
            ),
        )
    }
}

/// Filtering one more element of a prefix.
pub proof fn lemma_filter_prefix_step<A>(xs: Seq<A>, i: int, pred: spec_fn(A) -> bool)
    requires
        0 <= i < xs.len(),
    ensures
        xs.subrange(0, i + 1).filter(pred) == if pred(xs[i]) {
            xs.subrange(0, i).filter(pred).push(xs[i])
        } else {
            xs.subrange(0, i).filter(pred)
        },
{
    reveal(Seq::filter);
    assert(xs.subrange(0, i + 1).drop_last() =~= xs.subrange(0, i));
}

/// Where no element passes, the filter is empty.
pub proof fn lemma_filter_none<A>(xs: Seq<A>, pred: spec_fn(A) -> bool)
    requires
        forall|k: int| 0 <= k < xs.len() ==> !pred(#[trigger] xs[k]),
    ensures
        xs.filter(pred).len() == 0,
    decreases xs.len(),
{
    reveal(Seq::filter);
    if xs.len() > 0 {
        lemma_filter_none(xs.drop_last(), pred);
    }
}

/// Under unique identities, placing worker `ws[i].id` changes position `i` alone.
pub proof fn lemma_place_worker_at(ws: Seq<Jornalero>, i: int, crew: Option<i32>)
    requires
        0 <= i < ws.len(),
        forall|a: int, b: int|
            0 <= a < b < ws.len() ==> (#[trigger] ws[a]).id != (#[trigger] ws[b]).id,
    ensures
        place_worker(ws, ws[i].id, crew) == ws.update(i, Jornalero { cuadrilla_id: crew, ..ws[i] }),
{
    let id = ws[i].id;
    assert forall|k: int| 0 <= k < ws.len() && k != i implies ws[k].id != id by {
        if k < i {
            assert(ws[k].id != ws[i].id);
        } else {
            assert(ws[i].id != ws[k].id);
        }
    }
    assert(place_worker(ws, id, crew) =~= ws.update(i, Jornalero { cuadrilla_id: crew, ..ws[i] }));
}

/// Placing a worker that is not in the table changes nothing.
pub proof fn lemma_place_absent_worker(ws: Seq<Jornalero>, id: i32, crew: Option<i32>)
    requires
        forall|k: int| 0 <= k < ws.len() ==> (#[trigger] ws[k]).id != id,
    ensures
        place_worker(ws, id, crew) == ws,
{
    assert(place_worker(ws, id, crew) =~= ws);
}

/// Under unique identities, setting the leader of crew `cs[i].id` changes
/// position `i` alone.
pub proof fn lemma_lead_crew_at(cs: Seq<Cuadrilla>, i: int, leader: Option<i32>)
    requires
        0 <= i < cs.len(),
        forall|a: int, b: int|
            0 <= a < b < cs.len() ==> (#[trigger] cs[a]).id != (#[trigger] cs[b]).id,
    ensures
        lead_crew(cs, cs[i].id, leader) == cs.update(
            i,
            Cuadrilla { lider_cuadrilla_id: leader, ..cs[i] },
        ),
{
    let id = cs[i].id;
    assert forall|k: int| 0 <= k < cs.len() && k != i implies cs[k].id != id by {
        if k < i {
            assert(cs[k].id != cs[i].id);
        } else {
            assert(cs[i].id != cs[k].id);
        }
    }
    assert(lead_crew(cs, id, leader) =~= cs.update(i, Cuadrilla { lider_cuadrilla_id: leader, ..cs[i] }));
}

} // verus!
