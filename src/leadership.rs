use vstd::prelude::*;

use crate::invariants::{
    lemma_create_crew_keeps_wf, lemma_set_leader_keeps_wf, lemma_update_crew_keeps_wf,
};
use crate::model::{Cuadrilla, Estado};
use crate::rules::{
    self, describe_crew, lemma_lead_crew_at, lemma_place_absent_worker, lemma_place_worker_at,
    CrewCreated, CrewError, CuadrillaData,
};
use crate::store::Store;

verus! {

/// Makes `lider` the leader of crew `cuadrilla_id` (`None` leaves it without
/// one). The previous leader is detached from the crew, then the new leader
/// is placed in it, then the crew row records the leader. Every check comes
/// before the first change, so a refused call changes nothing.
pub fn set_leader(store: &mut Store, cuadrilla_id: i32, lider: Option<i32>) -> (r: Result<
    Cuadrilla,
    CrewError,
>)
    requires
        old(store).wf(),
    ensures
        final(store).wf(),
        match rules::set_leader(old(store)@, cuadrilla_id, lider) {
            Ok(t) => r is Ok && final(store)@ == t && t.crew_exists(cuadrilla_id) && r->Ok_0
                == t.crew(cuadrilla_id),
            Err(e) => r is Err && r->Err_0 == e && final(store)@ == old(store)@,
        },
{
    let ghost s = store@;
    let ci = match store.find_crew(cuadrilla_id) {
        None => return Err(CrewError::CrewNotFound(cuadrilla_id)),
        Some(i) => i,
    };
    proof {
        s.lemma_crew_at(ci as int, cuadrilla_id);
    }
    let previous = store.crews()[ci].lider_cuadrilla_id;
    if previous == lider {
        return Ok(store.crews()[ci].duplicate());
    }
    let mut new_wi: Option<usize> = None;
    if let Some(w) = lider {
        let wi = match store.find_worker(w) {
            None => return Err(CrewError::LeaderNotFound(w)),
            Some(i) => i,
        };
        proof {
            s.lemma_worker_at(wi as int, w);
        }
        if store.workers()[wi].estado == Estado::Inactivo {
            return Err(CrewError::InactiveWorker);
        }
        if let Some(k) = store.find_led_crew(w) {
            proof {
                s.lemma_led_crew_at(k as int, w);
            }
            return Err(
                CrewError::LeaderReassignmentConflict { worker: w, crew: store.crews()[k].id },
            );
        }
        new_wi = Some(wi);
    }
    if let Some(p) = previous {
        match store.find_worker(p) {
            Some(pi) => {
                proof {
                    lemma_place_worker_at(s.jornaleros, pi as int, None);
                }
                store.set_crew_at(pi, None);
            },
            None => {
                proof {
                    lemma_place_absent_worker(s.jornaleros, p, None);
                }
            },
        }
    }
    let ghost detached = store@.jornaleros;
    if let Some(wi) = new_wi {
        proof {
            lemma_place_worker_at(detached, wi as int, Some(cuadrilla_id));
        }
        store.set_crew_at(wi, Some(cuadrilla_id));
    }
    proof {
        lemma_lead_crew_at(s.cuadrillas, ci as int, lider);
    }
    store.set_leader_at(ci, lider);
    proof {
        assert(store@ == rules::set_leader(s, cuadrilla_id, lider)->Ok_0);
        lemma_set_leader_keeps_wf(s, cuadrilla_id, lider);
        store@.lemma_crew_at(ci as int, cuadrilla_id);
    }
    Ok(store.crews()[ci].duplicate())
}

/// Updates crew `id`: its leader as `set_leader` does, then its plot, variety
/// and season. A refused call changes nothing.
pub fn put_cuadrilla(store: &mut Store, id: i32, data: CuadrillaData) -> (r: Result<
    Cuadrilla,
    CrewError,
>)
    requires
        old(store).wf(),
    ensures
        final(store).wf(),
        match rules::update_crew(old(store)@, id, data) {
            Ok(t) => r is Ok && final(store)@ == t && t.crew_exists(id) && r->Ok_0 == t.crew(id),
            Err(e) => r is Err && r->Err_0 == e && final(store)@ == old(store)@,
        },
{
    let ghost s = store@;
    set_leader(store, id, data.lider_cuadrilla_id)?;
    let ghost t = store@;
    let ci = match store.find_crew(id) {
        Some(i) => i,
        None => {
            proof {
                let i = s.crew_index(id);
                assert(t.cuadrillas[i].id == id);
            }
            return Err(CrewError::CrewNotFound(id));
        },
    };
    proof {
        assert forall|k: int| 0 <= k < t.cuadrillas.len() && k != ci implies t.cuadrillas[k].id
            != id by {
            if k < ci {
                assert(t.cuadrillas[k].id != t.cuadrillas[ci as int].id);
            } else {
                assert(t.cuadrillas[ci as int].id != t.cuadrillas[k].id);
            }
        }
    }
    store.describe_crew_at(ci, data);
    proof {
        assert(store@.cuadrillas =~= describe_crew(t.cuadrillas, id, data));
        lemma_update_crew_keeps_wf(s, id, data);
        store@.lemma_crew_at(ci as int, id);
    }
    Ok(store.crews()[ci].duplicate())
}

/// Registers a crew. A leader that resolves to a worker is placed in the new
/// crew; one that does not leaves the crew without a leader, and the result
/// says so. An inactive leader, or one who already leads a crew, is refused
/// before anything is inserted.
pub fn post_cuadrilla(store: &mut Store, data: CuadrillaData) -> (r: Result<CrewCreated, CrewError>)
    requires
        old(store).wf(),
    ensures
        final(store).wf(),
        match rules::create_crew(old(store)@, data) {
            Ok((t, created)) => r is Ok && r->Ok_0 == created && final(store)@ == t,
            Err(e) => r is Err && r->Err_0 == e && final(store)@ == old(store)@,
        },
{
    let ghost s = store@;
    proof {
        lemma_create_crew_keeps_wf(s, data);
    }
    if store.next_cuadrilla_id_value() == i32::MAX {
        return Err(CrewError::StoreError);
    }
    match data.lider_cuadrilla_id {
        None => {
            store.insert_crew(None, data);
            Ok(CrewCreated { crew: store.last_crew(), leader_missing: false })
        },
        Some(w) => {
            match store.find_worker(w) {
                None => {
                    store.insert_crew(None, data);
                    Ok(CrewCreated { crew: store.last_crew(), leader_missing: true })
                },
                Some(wi) => {
                    proof {
                        s.lemma_worker_at(wi as int, w);
                    }
                    if store.workers()[wi].estado == Estado::Inactivo {
                        return Err(CrewError::InactiveWorker);
                    }
                    if let Some(k) = store.find_led_crew(w) {
                        proof {
                            s.lemma_led_crew_at(k as int, w);
                        }
                        return Err(
                            CrewError::LeaderReassignmentConflict {
                                worker: w,
                                crew: store.crews()[k].id,
                            },
                        );
                    }
                    let id = store.insert_crew(Some(w), data);
                    proof {
                        lemma_place_worker_at(s.jornaleros, wi as int, Some(id));
                    }
                    store.set_crew_at(wi, Some(id));
                    Ok(CrewCreated { crew: store.last_crew(), leader_missing: false })
                },
            }
        },
    }
}

} // verus!
