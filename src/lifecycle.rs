use vstd::prelude::*;

use crate::invariants::{
    lemma_create_worker_keeps_wf, lemma_deactivate_keeps_wf, lemma_reactivate_keeps_wf,
    lemma_update_worker_keeps_wf,
};
use crate::model::{Estado, Jornalero};
use crate::rules::{self, lemma_place_worker_at, CrewError, Deactivation, JornaleroData};
use crate::store::Store;

verus! {

/// Registers a worker and returns its identity. The crew, if given, must
/// exist, and an inactive worker cannot be placed in one.
pub fn post_jornalero(store: &mut Store, data: JornaleroData) -> (r: Result<i32, CrewError>)
    requires
        old(store).wf(),
    ensures
        final(store).wf(),
        match rules::create_worker(old(store)@, data) {
            Ok((t, id)) => r == Ok::<i32, CrewError>(id) && final(store)@ == t,
            Err(e) => r == Err::<i32, CrewError>(e) && final(store)@ == old(store)@,
        },
{
    proof {
        lemma_create_worker_keeps_wf(store@, data);
    }
    if store.next_jornalero_id_value() == i32::MAX {
        return Err(CrewError::StoreError);
    }
    if let Some(c) = data.cuadrilla_id {
        if store.find_crew(c).is_none() {
            return Err(CrewError::CrewNotFound(c));
        }
        if data.estado == Estado::Inactivo {
            return Err(CrewError::InactiveWorker);
        }
    }
    Ok(store.insert_worker(data))
}

/// The general field update of worker `id`. Its activity state is kept. A
/// worker who leads a crew cannot be moved out of it this way: the crew's
/// leadership must change first.
pub fn put_jornalero(store: &mut Store, id: i32, data: JornaleroData) -> (r: Result<
    Jornalero,
    CrewError,
>)
    requires
        old(store).wf(),
    ensures
        final(store).wf(),
        match rules::update_worker(old(store)@, id, data) {
            Ok(t) => r is Ok && final(store)@ == t && t.worker_exists(id) && r->Ok_0 == t.worker(
                id,
            ),
            Err(e) => r is Err && r->Err_0 == e && final(store)@ == old(store)@,
        },
{
    let ghost s = store@;
    let wi = match store.find_worker(id) {
        None => return Err(CrewError::WorkerNotFound(id)),
        Some(i) => i,
    };
    proof {
        s.lemma_worker_at(wi as int, id);
    }
    if let Some(k) = store.find_led_crew(id) {
        proof {
            s.lemma_led_crew_at(k as int, id);
        }
        let c = store.crews()[k].id;
        if data.cuadrilla_id != Some(c) {
            return Err(CrewError::LeaderReassignmentConflict { worker: id, crew: c });
        }
    }
    if let Some(c) = data.cuadrilla_id {
        if store.find_crew(c).is_none() {
            return Err(CrewError::CrewNotFound(c));
        }
        if store.workers()[wi].estado == Estado::Inactivo {
            return Err(CrewError::InactiveWorker);
        }
    }
    proof {
        lemma_update_worker_keeps_wf(s, id, data);
        assert forall|k: int| 0 <= k < s.jornaleros.len() && k != wi implies s.jornaleros[k].id
            != id by {
            if k < wi {
                assert(s.jornaleros[k].id != s.jornaleros[wi as int].id);
            } else {
                assert(s.jornaleros[wi as int].id != s.jornaleros[k].id);
            }
        }
    }
    store.rewrite_worker_at(wi, data);
    proof {
        assert(store@.jornaleros =~= rules::rewrite_worker(s.jornaleros, id, data));
        store@.lemma_worker_at(wi as int, id);
    }
    Ok(store.workers()[wi].duplicate())
}

/// Deactivates worker `id` (a soft delete): it becomes inactive and leaves
/// its crew, and a crew it led is left without a leader. The result holds
/// the worker's new row and whether a crew lost its leader.
pub fn delete_jornalero(store: &mut Store, id: i32) -> (r: Result<Deactivation, CrewError>)
    requires
        old(store).wf(),
    ensures
        final(store).wf(),
        match rules::deactivate(old(store)@, id) {
            Ok((t, lost)) => r is Ok && r->Ok_0.crew_lost_leader == lost && final(store)@ == t
                && t.worker_exists(id) && r->Ok_0.worker == t.worker(id),
            Err(e) => r is Err && r->Err_0 == e && final(store)@ == old(store)@,
        },
{
    let ghost s = store@;
    let wi = match store.find_worker(id) {
        None => return Err(CrewError::WorkerNotFound(id)),
        Some(i) => i,
    };
    proof {
        s.lemma_worker_at(wi as int, id);
    }
    if store.workers()[wi].estado == Estado::Inactivo {
        return Err(CrewError::AlreadyInactive(id));
    }
    let lost = match store.find_led_crew(id) {
        Some(k) => {
            proof {
                s.lemma_led_crew_at(k as int, id);
                assert forall|j: int|
                    0 <= j < s.cuadrillas.len() && j != k implies s.cuadrillas[j].lider_cuadrilla_id
                    != Some(id) by {
                    if s.cuadrillas[j].lider_cuadrilla_id == Some(id) {
                        s.lemma_led_crew_at(j, id);
                        if j < k {
                            assert(s.cuadrillas[j].id != s.cuadrillas[k as int].id);
                        } else {
                            assert(s.cuadrillas[k as int].id != s.cuadrillas[j].id);
                        }
                    }
                }
            }
            store.set_leader_at(k, None);
            proof {
                assert(store@.cuadrillas =~= rules::revoke_leadership(s.cuadrillas, id));
            }
            true
        },
        None => {
            proof {
                assert(s.cuadrillas =~= rules::revoke_leadership(s.cuadrillas, id));
            }
            false
        },
    };
    store.set_state_at(wi, Estado::Inactivo);
    store.set_crew_at(wi, None);
    proof {
        lemma_deactivate_keeps_wf(s, id);
        assert forall|k: int| 0 <= k < s.jornaleros.len() && k != wi implies s.jornaleros[k].id
            != id by {
            if k < wi {
                assert(s.jornaleros[k].id != s.jornaleros[wi as int].id);
            } else {
                assert(s.jornaleros[wi as int].id != s.jornaleros[k].id);
            }
        }
        assert(store@.jornaleros =~= rules::deactivate(s, id)->Ok_0.0.jornaleros);
        store@.lemma_worker_at(wi as int, id);
    }
    Ok(Deactivation { worker: store.workers()[wi].duplicate(), crew_lost_leader: lost })
}

/// Reactivates worker `id`. Its former crew is not restored.
pub fn reactivate_jornalero(store: &mut Store, id: i32) -> (r: Result<Jornalero, CrewError>)
    requires
        old(store).wf(),
    ensures
        final(store).wf(),
        match rules::reactivate(old(store)@, id) {
            Ok(t) => r is Ok && final(store)@ == t && t.worker_exists(id) && r->Ok_0 == t.worker(
                id,
            ),
            Err(e) => r is Err && r->Err_0 == e && final(store)@ == old(store)@,
        },
{
    let ghost s = store@;
    let wi = match store.find_worker(id) {
        None => return Err(CrewError::WorkerNotFound(id)),
        Some(i) => i,
    };
    proof {
        s.lemma_worker_at(wi as int, id);
    }
    if store.workers()[wi].estado == Estado::Activo {
        return Err(CrewError::AlreadyActive(id));
    }
    store.set_state_at(wi, Estado::Activo);
    proof {
        lemma_reactivate_keeps_wf(s, id);
        assert forall|k: int| 0 <= k < s.jornaleros.len() && k != wi implies s.jornaleros[k].id
            != id by {
            if k < wi {
                assert(s.jornaleros[k].id != s.jornaleros[wi as int].id);
            } else {
                assert(s.jornaleros[wi as int].id != s.jornaleros[k].id);
            }
        }
        assert(store@.jornaleros =~= rules::reactivate(s, id)->Ok_0.jornaleros);
        store@.lemma_worker_at(wi as int, id);
    }
    Ok(store.workers()[wi].duplicate())
}

} // verus!
