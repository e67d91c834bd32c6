use vstd::prelude::*;

use crate::model::{in_crew, Cuadrilla, Jornalero, StoreView};
use crate::rules::{
    create_crew, create_worker, deactivate, lemma_filter_none, reactivate, reassign_workers,
    remove_crew, set_leader, update_crew, update_worker, create_production,
    CuadrillaData, JornaleroData, ProduccionData,
};

verus! {

/// Two worker tables with the same identities position by position.
pub open spec fn same_worker_ids(a: Seq<Jornalero>, b: Seq<Jornalero>) -> bool {
    a.len() == b.len() && forall|i: int| 0 <= i < a.len() ==> (#[trigger] a[i]).id == b[i].id
}

/// Two crew tables with the same identities position by position.
pub open spec fn same_crew_ids(a: Seq<Cuadrilla>, b: Seq<Cuadrilla>) -> bool {
    a.len() == b.len() && forall|i: int| 0 <= i < a.len() ==> (#[trigger] a[i]).id == b[i].id
}

/// Where the identities are those of a well-formed store, lookups by identity
/// find the same positions.
pub proof fn lemma_lookup_same_ids(s: StoreView, t: StoreView)
    requires
        s.ids_fresh_and_unique(),
        same_worker_ids(s.jornaleros, t.jornaleros),
        same_crew_ids(s.cuadrillas, t.cuadrillas),
    ensures
        forall|id: i32| #[trigger] t.worker_exists(id) <==> s.worker_exists(id),
        forall|id: i32|
            s.worker_exists(id) ==> #[trigger] t.worker_index(id) == s.worker_index(id),
        forall|id: i32| #[trigger] t.crew_exists(id) <==> s.crew_exists(id),
        forall|id: i32| s.crew_exists(id) ==> #[trigger] t.crew_index(id) == s.crew_index(id),
{
    assert forall|id: i32| #[trigger] t.worker_exists(id) <==> s.worker_exists(id) by {
        if t.worker_exists(id) {
            let i = t.worker_index(id);
            assert(s.jornaleros[i].id == id);
        }
        if s.worker_exists(id) {
            let i = s.worker_index(id);
            assert(t.jornaleros[i].id == id);
        }
    }
    assert forall|id: i32| s.worker_exists(id) implies #[trigger] t.worker_index(id)
        == s.worker_index(id) by {
        let i = s.worker_index(id);
        let j = t.worker_index(id);
        assert(t.jornaleros[i].id == id);
        assert(s.jornaleros[j].id == id);
        s.lemma_worker_at(j, id);
    }
    assert forall|id: i32| #[trigger] t.crew_exists(id) <==> s.crew_exists(id) by {
        if t.crew_exists(id) {
            let i = t.crew_index(id);
            assert(s.cuadrillas[i].id == id);
        }
        if s.crew_exists(id) {
            let i = s.crew_index(id);
            assert(t.cuadrillas[i].id == id);
        }
    }
    assert forall|id: i32| s.crew_exists(id) implies #[trigger] t.crew_index(id)
        == s.crew_index(id) by {
        let i = s.crew_index(id);
        let j = t.crew_index(id);
        assert(t.cuadrillas[i].id == id);
        assert(s.cuadrillas[j].id == id);
        s.lemma_crew_at(j, id);
    }
}

/// Changing a crew's leader keeps the store well formed.
pub proof fn lemma_set_leader_keeps_wf(s: StoreView, c: i32, leader: Option<i32>)
    requires
        s.wf(),
        set_leader(s, c, leader) is Ok,
    ensures
        set_leader(s, c, leader)->Ok_0.wf(),
{
    let t = set_leader(s, c, leader)->Ok_0;
    if s.crew(c).lider_cuadrilla_id != leader {
        let previous = s.crew(c).lider_cuadrilla_id;
        assert(same_worker_ids(s.jornaleros, t.jornaleros));
        assert(same_crew_ids(s.cuadrillas, t.cuadrillas));
        lemma_lookup_same_ids(s, t);
        let ci = s.crew_index(c);
        if let Some(p) = previous {
            assert(s.cuadrillas[ci].lider_cuadrilla_id == Some(p));
            s.lemma_led_crew_at(ci, p);
        }
        assert(t.ids_fresh_and_unique());
        assert forall|k: int|
            0 <= k < t.cuadrillas.len() && (#[trigger] t.cuadrillas[k]).lider_cuadrilla_id
                is Some implies {
            let w = t.cuadrillas[k].lider_cuadrilla_id->0;
            t.worker_exists(w) && t.worker(w).cuadrilla_id == Some(t.cuadrillas[k].id)
        } by {
            let w = t.cuadrillas[k].lider_cuadrilla_id->0;
            if s.cuadrillas[k].id == c {
                assert(leader == Some(w));
            } else {
                assert(s.cuadrillas[k].lider_cuadrilla_id == Some(w));
                s.lemma_led_crew_at(k, w);
                if leader == Some(w) {
                    assert(s.leads_some_crew(w));
                }
            }
        }
        assert(t.leaders_are_members());
        assert(t.inactive_unassigned());
        assert forall|i: int|
            0 <= i < t.jornaleros.len() && (#[trigger] t.jornaleros[i]).cuadrilla_id
                is Some implies t.crew_exists(t.jornaleros[i].cuadrilla_id->0) by {
            if t.jornaleros[i].cuadrilla_id == Some(c) {
                assert(s.cuadrillas[ci].id == c);
            } else {
                assert(s.jornaleros[i].cuadrilla_id == t.jornaleros[i].cuadrilla_id);
            }
        }
    }
}

/// Updating a crew keeps the store well formed.
pub proof fn lemma_update_crew_keeps_wf(s: StoreView, id: i32, data: CuadrillaData)
    requires
        s.wf(),
        update_crew(s, id, data) is Ok,
    ensures
        update_crew(s, id, data)->Ok_0.wf(),
{
    lemma_set_leader_keeps_wf(s, id, data.lider_cuadrilla_id);
    let t = set_leader(s, id, data.lider_cuadrilla_id)->Ok_0;
    let u = update_crew(s, id, data)->Ok_0;
    assert(same_crew_ids(t.cuadrillas, u.cuadrillas));
    assert(same_worker_ids(t.jornaleros, u.jornaleros));
    lemma_lookup_same_ids(t, u);
    assert(u.ids_fresh_and_unique());
    assert(u.leaders_are_members());
    assert(u.memberships_resolve());
}

/// Creating a crew keeps the store well formed.
pub proof fn lemma_create_crew_keeps_wf(s: StoreView, data: CuadrillaData)
    requires
        s.wf(),
    ensures
        create_crew(s, data) is Ok ==> create_crew(s, data)->Ok_0.0.wf(),
{
    if create_crew(s, data) is Ok {
        let t = create_crew(s, data)->Ok_0.0;
        let id = s.next_cuadrilla_id as i32;
        let n = s.cuadrillas.len();
        assert(t.cuadrillas[n as int].id == id);
        assert forall|k: int| 0 <= k < n implies #[trigger] t.cuadrillas[k] == s.cuadrillas[k] by {}
        assert(t.ids_fresh_and_unique());
        assert forall|id2: i32| s.crew_exists(id2) implies #[trigger] t.crew_exists(id2) by {
            let i = s.crew_index(id2);
            assert(t.cuadrillas[i].id == id2);
        }
        assert(same_worker_ids(s.jornaleros, t.jornaleros));
        assert forall|wid: i32| s.worker_exists(wid) implies #[trigger] t.worker_exists(wid)
            && t.worker_index(wid) == s.worker_index(wid) by {
            let i = s.worker_index(wid);
            assert(t.jornaleros[i].id == wid);
            t.lemma_worker_at(i, wid);
        }
        assert(t.leaders_are_members()) by {
            assert forall|k: int|
                0 <= k < t.cuadrillas.len() && (#[trigger] t.cuadrillas[k]).lider_cuadrilla_id
                    is Some implies {
                let w = t.cuadrillas[k].lider_cuadrilla_id->0;
                t.worker_exists(w) && t.worker(w).cuadrilla_id == Some(t.cuadrillas[k].id)
            } by {
                let w = t.cuadrillas[k].lider_cuadrilla_id->0;
                if k < n {
                    assert(s.cuadrillas[k].lider_cuadrilla_id == Some(w));
                    s.lemma_led_crew_at(k, w);
                    if data.lider_cuadrilla_id == Some(w) {
                        assert(s.leads_some_crew(w));
                    }
                } else {
                    assert(data.lider_cuadrilla_id == Some(w));
                }
            }
        }
        assert(t.inactive_unassigned());
        assert(t.memberships_resolve()) by {
            assert forall|i: int|
                0 <= i < t.jornaleros.len() && (#[trigger] t.jornaleros[i]).cuadrilla_id
                    is Some implies t.crew_exists(t.jornaleros[i].cuadrilla_id->0) by {
                if t.jornaleros[i].cuadrilla_id == Some(id) {
                    assert(t.cuadrillas[n as int].id == id);
                } else {
                    assert(s.jornaleros[i].cuadrilla_id == t.jornaleros[i].cuadrilla_id);
                }
            }
        }
    }
}

/// Registering a worker keeps the store well formed.
pub proof fn lemma_create_worker_keeps_wf(s: StoreView, data: JornaleroData)
    requires
        s.wf(),
    ensures
        create_worker(s, data) is Ok ==> create_worker(s, data)->Ok_0.0.wf(),
{
    if create_worker(s, data) is Ok {
        let t = create_worker(s, data)->Ok_0.0;
        let n = s.jornaleros.len();
        assert forall|k: int| 0 <= k < n implies #[trigger] t.jornaleros[k] == s.jornaleros[k] by {}
        assert(t.ids_fresh_and_unique());
        assert forall|wid: i32| s.worker_exists(wid) implies #[trigger] t.worker_exists(wid)
            && t.worker_index(wid) == s.worker_index(wid) by {
            let i = s.worker_index(wid);
            assert(t.jornaleros[i].id == wid);
            t.lemma_worker_at(i, wid);
        }
        assert(t.leaders_are_members());
        assert(t.inactive_unassigned());
        assert(t.memberships_resolve());
    }
}

/// The general field update of a worker keeps the store well formed.
pub proof fn lemma_update_worker_keeps_wf(s: StoreView, id: i32, data: JornaleroData)
    requires
        s.wf(),
        update_worker(s, id, data) is Ok,
    ensures
        update_worker(s, id, data)->Ok_0.wf(),
{
    let t = update_worker(s, id, data)->Ok_0;
    assert(same_worker_ids(s.jornaleros, t.jornaleros));
    assert(same_crew_ids(s.cuadrillas, t.cuadrillas));
    lemma_lookup_same_ids(s, t);
    assert(t.ids_fresh_and_unique());
    assert forall|k: int|
        0 <= k < t.cuadrillas.len() && (#[trigger] t.cuadrillas[k]).lider_cuadrilla_id
            is Some implies {
        let w = t.cuadrillas[k].lider_cuadrilla_id->0;
        t.worker_exists(w) && t.worker(w).cuadrilla_id == Some(t.cuadrillas[k].id)
    } by {
        let w = t.cuadrillas[k].lider_cuadrilla_id->0;
        s.lemma_led_crew_at(k, w);
    }
    assert(t.leaders_are_members());
    assert(t.inactive_unassigned());
    assert(t.memberships_resolve());
}

/// Deactivating a worker keeps the store well formed.
pub proof fn lemma_deactivate_keeps_wf(s: StoreView, id: i32)
    requires
        s.wf(),
        deactivate(s, id) is Ok,
    ensures
        deactivate(s, id)->Ok_0.0.wf(),
{
    let t = deactivate(s, id)->Ok_0.0;
    assert(same_worker_ids(s.jornaleros, t.jornaleros));
    assert(same_crew_ids(s.cuadrillas, t.cuadrillas));
    lemma_lookup_same_ids(s, t);
    assert(t.ids_fresh_and_unique());
    assert forall|k: int|
        0 <= k < t.cuadrillas.len() && (#[trigger] t.cuadrillas[k]).lider_cuadrilla_id
            is Some implies {
        let w = t.cuadrillas[k].lider_cuadrilla_id->0;
        t.worker_exists(w) && t.worker(w).cuadrilla_id == Some(t.cuadrillas[k].id)
    } by {
        let w = t.cuadrillas[k].lider_cuadrilla_id->0;
        s.lemma_led_crew_at(k, w);
    }
    assert(t.leaders_are_members());
    assert(t.inactive_unassigned());
    assert(t.memberships_resolve());
}

/// Reactivating a worker keeps the store well formed.
pub proof fn lemma_reactivate_keeps_wf(s: StoreView, id: i32)
    requires
        s.wf(),
        reactivate(s, id) is Ok,
    ensures
        reactivate(s, id)->Ok_0.wf(),
{
    let t = reactivate(s, id)->Ok_0;
    assert(same_worker_ids(s.jornaleros, t.jornaleros));
    assert(same_crew_ids(s.cuadrillas, t.cuadrillas));
    lemma_lookup_same_ids(s, t);
    assert(t.ids_fresh_and_unique());
    assert forall|k: int|
        0 <= k < t.cuadrillas.len() && (#[trigger] t.cuadrillas[k]).lider_cuadrilla_id
            is Some implies {
        let w = t.cuadrillas[k].lider_cuadrilla_id->0;
        t.worker_exists(w) && t.worker(w).cuadrilla_id == Some(t.cuadrillas[k].id)
    } by {
        let w = t.cuadrillas[k].lider_cuadrilla_id->0;
        s.lemma_led_crew_at(k, w);
    }
    assert(t.leaders_are_members());
    assert(t.inactive_unassigned());
    assert(t.memberships_resolve());
}

/// Removing an existing crew and releasing its members keeps the store well
/// formed, and leaves no crew and no member under that identity.
pub proof fn lemma_remove_crew_keeps_wf(s: StoreView, c: i32)
    requires
        s.wf(),
        s.crew_exists(c),
    ensures
        remove_crew(s, c).wf(),
        !remove_crew(s, c).crew_exists(c),
        remove_crew(s, c).members(c).len() == 0,
{
    let t = remove_crew(s, c);
    let ci = s.crew_index(c);
    let n = s.cuadrillas.len();
    assert forall|k: int| 0 <= k < n - 1 implies #[trigger] t.cuadrillas[k]
        == s.cuadrillas[if k < ci { k } else { k + 1 }] by {}
    assert(same_worker_ids(s.jornaleros, t.jornaleros));
    assert forall|a: int, b: int| 0 <= a < b < t.cuadrillas.len() implies (#[trigger] t.cuadrillas[
        a]).id != (#[trigger] t.cuadrillas[b]).id by {
        let a2 = if a < ci { a } else { a + 1 };
        let b2 = if b < ci { b } else { b + 1 };
        assert(s.cuadrillas[a2].id != s.cuadrillas[b2].id);
    }
    assert(t.ids_fresh_and_unique());
    assert forall|k: int| 0 <= k < t.cuadrillas.len() implies (#[trigger] t.cuadrillas[k]).id
        != c by {
        let k2 = if k < ci { k } else { k + 1 };
        if k2 < ci {
            assert(s.cuadrillas[k2].id != s.cuadrillas[ci].id);
        } else {
            assert(s.cuadrillas[ci].id != s.cuadrillas[k2].id);
        }
    }
    assert forall|wid: i32| s.worker_exists(wid) implies #[trigger] t.worker_exists(wid)
        && t.worker_index(wid) == s.worker_index(wid) by {
        let i = s.worker_index(wid);
        assert(t.jornaleros[i].id == wid);
        t.lemma_worker_at(i, wid);
    }
    assert forall|k: int|
        0 <= k < t.cuadrillas.len() && (#[trigger] t.cuadrillas[k]).lider_cuadrilla_id
            is Some implies {
        let w = t.cuadrillas[k].lider_cuadrilla_id->0;
        t.worker_exists(w) && t.worker(w).cuadrilla_id == Some(t.cuadrillas[k].id)
    } by {
        let w = t.cuadrillas[k].lider_cuadrilla_id->0;
        let k2 = if k < ci { k } else { k + 1 };
        s.lemma_led_crew_at(k2, w);
    }
    assert(t.leaders_are_members());
    assert(t.inactive_unassigned());
    assert forall|i: int|
        0 <= i < t.jornaleros.len() && (#[trigger] t.jornaleros[i]).cuadrilla_id
            is Some implies t.crew_exists(t.jornaleros[i].cuadrilla_id->0) by {
        let x = t.jornaleros[i].cuadrilla_id->0;
        let xi = s.crew_index(x);
        let k = if xi < ci { xi } else { xi - 1 };
        assert(t.cuadrillas[k].id == x);
    }
    assert(t.memberships_resolve());
    lemma_filter_none(t.jornaleros, in_crew(c));
}

/// Releasing a crew's members keeps the store well formed.
pub proof fn lemma_reassign_keeps_wf(s: StoreView, c: i32)
    requires
        s.wf(),
    ensures
        reassign_workers(s, c).0.wf(),
{
    let t = reassign_workers(s, c).0;
    assert(same_worker_ids(s.jornaleros, t.jornaleros));
    assert(same_crew_ids(s.cuadrillas, t.cuadrillas));
    lemma_lookup_same_ids(s, t);
    assert(t.ids_fresh_and_unique());
    assert forall|k: int|
        0 <= k < t.cuadrillas.len() && (#[trigger] t.cuadrillas[k]).lider_cuadrilla_id
            is Some implies {
        let w = t.cuadrillas[k].lider_cuadrilla_id->0;
        t.worker_exists(w) && t.worker(w).cuadrilla_id == Some(t.cuadrillas[k].id)
    } by {
        let w = t.cuadrillas[k].lider_cuadrilla_id->0;
        s.lemma_led_crew_at(k, w);
    }
    assert(t.leaders_are_members());
    assert(t.inactive_unassigned());
    assert(t.memberships_resolve());
}

/// Recording a harvest keeps the store well formed.
pub proof fn lemma_create_production_keeps_wf(s: StoreView, data: ProduccionData)
    requires
        s.wf(),
    ensures
        create_production(s, data) is Ok ==> create_production(s, data)->Ok_0.0.wf(),
{
    if create_production(s, data) is Ok {
        let t = create_production(s, data)->Ok_0.0;
        let n = s.producciones.len();
        assert forall|k: int| 0 <= k < n implies #[trigger] t.producciones[k]
            == s.producciones[k] by {}
        assert(t.ids_fresh_and_unique());
    }
}

} // verus!
