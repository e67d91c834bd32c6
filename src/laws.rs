use vstd::prelude::*;

use crate::invariants::{
    lemma_lookup_same_ids, lemma_remove_crew_keeps_wf, lemma_set_leader_keeps_wf, same_crew_ids,
    same_worker_ids,
};
use crate::model::{Estado, StoreView};
use crate::rules::{deactivate, force_delete_crew, reassign_workers, set_leader};

verus! {

/// In a well-formed store, and so after any sequence of the operations, a
/// crew's leader is an existing worker whose crew is that crew.
pub proof fn law_leader_belongs_to_crew(s: StoreView, i: int)
    requires
        s.wf(),
        0 <= i < s.cuadrillas.len(),
        s.cuadrillas[i].lider_cuadrilla_id is Some,
    ensures
        s.worker_exists(s.cuadrillas[i].lider_cuadrilla_id->0),
        s.worker(s.cuadrillas[i].lider_cuadrilla_id->0).cuadrilla_id == Some(s.cuadrillas[i].id),
{
}

/// In a well-formed store, and so after any sequence of the operations, an
/// inactive worker belongs to no crew.
pub proof fn law_inactive_worker_has_no_crew(s: StoreView, i: int)
    requires
        s.wf(),
        0 <= i < s.jornaleros.len(),
        s.jornaleros[i].estado == Estado::Inactivo,
    ensures
        s.jornaleros[i].cuadrilla_id is None,
{
}

/// Making `w` the leader of crew `c` and then clearing the leader leaves the
/// crew without a leader and `w` in no crew.
pub proof fn law_set_then_clear_leader(s: StoreView, c: i32, w: i32)
    requires
        s.wf(),
        set_leader(s, c, Some(w)) is Ok,
    ensures
        ({
            let t = set_leader(s, c, Some(w))->Ok_0;
            &&& set_leader(t, c, None) is Ok
            &&& set_leader(t, c, None)->Ok_0.crew_exists(c)
            &&& set_leader(t, c, None)->Ok_0.crew(c).lider_cuadrilla_id is None
            &&& set_leader(t, c, None)->Ok_0.worker_exists(w)
            &&& set_leader(t, c, None)->Ok_0.worker(w).cuadrilla_id is None
        }),
{
    let t = set_leader(s, c, Some(w))->Ok_0;
    lemma_set_leader_keeps_wf(s, c, Some(w));
    let ci = s.crew_index(c);
    assert(same_crew_ids(s.cuadrillas, t.cuadrillas));
    assert(same_worker_ids(s.jornaleros, t.jornaleros));
    lemma_lookup_same_ids(s, t);
    assert(t.cuadrillas[ci].lider_cuadrilla_id == Some(w));
    let u = set_leader(t, c, None)->Ok_0;
    assert(same_crew_ids(t.cuadrillas, u.cuadrillas));
    assert(same_worker_ids(t.jornaleros, u.jornaleros));
    lemma_lookup_same_ids(t, u);
    let wi = t.worker_index(w);
    assert(u.jornaleros[wi].cuadrilla_id is None);
}

/// Deactivating the leader of a crew succeeds, reports that a crew lost its
/// leader, and leaves that crew, read again, without a leader.
pub proof fn law_deactivating_leader_clears_crew(s: StoreView, i: int)
    requires
        s.wf(),
        0 <= i < s.cuadrillas.len(),
        s.cuadrillas[i].lider_cuadrilla_id is Some,
    ensures
        ({
            let w = s.cuadrillas[i].lider_cuadrilla_id->0;
            let c = s.cuadrillas[i].id;
            &&& deactivate(s, w) is Ok
            &&& deactivate(s, w)->Ok_0.1
            &&& deactivate(s, w)->Ok_0.0.crew_exists(c)
            &&& deactivate(s, w)->Ok_0.0.crew(c).lider_cuadrilla_id is None
        }),
{
    let w = s.cuadrillas[i].lider_cuadrilla_id->0;
    s.lemma_led_crew_at(i, w);
    let wi = s.worker_index(w);
    assert(s.jornaleros[wi].cuadrilla_id is Some);
    let t = deactivate(s, w)->Ok_0.0;
    assert(same_crew_ids(s.cuadrillas, t.cuadrillas));
    assert(same_worker_ids(s.jornaleros, t.jornaleros));
    lemma_lookup_same_ids(s, t);
    s.lemma_crew_at(i, s.cuadrillas[i].id);
}

/// A forced delete of an existing crew removes it whatever references it,
/// and releasing the members of the deleted crew afterwards finds none.
pub proof fn law_force_delete_then_reassign(s: StoreView, c: i32)
    requires
        s.wf(),
        s.crew_exists(c),
    ensures
        force_delete_crew(s, c) is Ok,
        !force_delete_crew(s, c)->Ok_0.0.crew_exists(c),
        reassign_workers(force_delete_crew(s, c)->Ok_0.0, c).1 == 0,
{
    lemma_remove_crew_keeps_wf(s, c);
}

} // verus!
