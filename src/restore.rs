use vstd::prelude::*;

use crate::model::{Cuadrilla, Estado, Jornalero, Produccion, StoreView};
use crate::store::Store;

verus! {

/// The tables as read back from persistent storage: every identity in
/// `1..i32::MAX`, unique in its table, and the store's invariant holds.
pub open spec fn restorable(cs: Seq<Cuadrilla>, ws: Seq<Jornalero>, ps: Seq<Produccion>) -> bool {
    (StoreView {
        cuadrillas: cs,
        jornaleros: ws,
        producciones: ps,
        next_cuadrilla_id: i32::MAX as int,
        next_jornalero_id: i32::MAX as int,
        next_produccion_id: i32::MAX as int,
    }).wf()
}

/// `next` is one more than the largest of `ids`, or 1 where there are none.
pub open spec fn follows_all(ids: Seq<i32>, next: int) -> bool {
    &&& forall|k: int| 0 <= k < ids.len() ==> ids[k] < next
    &&& (ids.len() == 0 && next == 1) || exists|k: int| 0 <= k < ids.len() && ids[k] == next - 1
}

/// The identity after every one of `ids`, where all lie in `1..i32::MAX`.
fn next_identity(ids: &Vec<i32>) -> (r: Option<i32>)
    ensures
        r is Some <==> forall|k: int| 0 <= k < ids@.len() ==> 1 <= #[trigger] ids@[k] < i32::MAX,
        r matches Some(n) ==> follows_all(ids@, n as int),
{
    let mut top: i32 = 0;
    let mut i: usize = 0;
    while i < ids.len()
        invariant
            i <= ids@.len(),
            0 <= top < i32::MAX,
            forall|k: int| 0 <= k < i ==> 1 <= #[trigger] ids@[k] <= top,
            top == 0 ==> i == 0,
            top > 0 ==> exists|k: int| 0 <= k < i && ids@[k] == top,
        decreases ids.len() - i,
    {
        let id = ids[i];
        if id < 1 || id == i32::MAX {
            return None;
        }
        if id > top {
            top = id;
        }
        i += 1;
    }
    Some(top + 1)
}

/// No identity occurs twice.
fn all_distinct(ids: &Vec<i32>) -> (r: bool)
    ensures
        r <==> forall|a: int, b: int|
            0 <= a < b < ids@.len() ==> #[trigger] ids@[a] != #[trigger] ids@[b],
{
    let mut a: usize = 0;
    while a < ids.len()
        invariant
            a <= ids@.len(),
            forall|x: int, y: int|
                0 <= x < a && x < y < ids@.len() ==> #[trigger] ids@[x] != #[trigger] ids@[y],
        decreases ids.len() - a,
    {
        let mut b: usize = a + 1;
        while b < ids.len()
            invariant
                a < ids@.len(),
                a + 1 <= b <= ids@.len(),
                forall|x: int, y: int|
                    0 <= x < a && x < y < ids@.len() ==> #[trigger] ids@[x] != #[trigger] ids@[y],
                forall|y: int| a < y < b ==> ids@[a as int] != #[trigger] ids@[y],
            decreases ids.len() - b,
        {
            if ids[a] == ids[b] {
                return false;
            }
            b += 1;
        }
        a += 1;
    }
    true
}

/// The identities of a crew table, in order.
pub open spec fn crew_ids(cs: Seq<Cuadrilla>) -> Seq<i32> {
    cs.map_values(|c: Cuadrilla| c.id)
}

/// The identities of a worker table, in order.
pub open spec fn worker_ids(ws: Seq<Jornalero>) -> Seq<i32> {
    ws.map_values(|w: Jornalero| w.id)
}

/// The identities of a harvest-record table, in order.
pub open spec fn production_ids(ps: Seq<Produccion>) -> Seq<i32> {
    ps.map_values(|p: Produccion| p.id)
}

fn ids_of_crews(cs: &Vec<Cuadrilla>) -> (r: Vec<i32>)
    ensures
        r@ == crew_ids(cs@),
{
    let mut out: Vec<i32> = Vec::new();
    let mut i: usize = 0;
    while i < cs.len()
        invariant
            i <= cs@.len(),
            out@ == crew_ids(cs@.subrange(0, i as int)),
        decreases cs.len() - i,
    {
        out.push(cs[i].id);
        i += 1;
        proof {
            assert(out@ =~= crew_ids(cs@.subrange(0, i as int)));
        }
    }
    proof {
        assert(cs@.subrange(0, i as int) =~= cs@);
    }
    out
}

fn ids_of_workers(ws: &Vec<Jornalero>) -> (r: Vec<i32>)
    ensures
        r@ == worker_ids(ws@),
{
    let mut out: Vec<i32> = Vec::new();
    let mut i: usize = 0;
    while i < ws.len()
        invariant
            i <= ws@.len(),
            out@ == worker_ids(ws@.subrange(0, i as int)),
        decreases ws.len() - i,
    {
        out.push(ws[i].id);
        i += 1;
        proof {
            assert(out@ =~= worker_ids(ws@.subrange(0, i as int)));
        }
    }
    proof {
        assert(ws@.subrange(0, i as int) =~= ws@);
    }
    out
}

fn ids_of_productions(ps: &Vec<Produccion>) -> (r: Vec<i32>)
    ensures
        r@ == production_ids(ps@),
{
    let mut out: Vec<i32> = Vec::new();
    let mut i: usize = 0;
    while i < ps.len()
        invariant
            i <= ps@.len(),
            out@ == production_ids(ps@.subrange(0, i as int)),
        decreases ps.len() - i,
    {
        out.push(ps[i].id);
        i += 1;
        proof {
            assert(out@ =~= production_ids(ps@.subrange(0, i as int)));
        }
    }
    proof {
        assert(ps@.subrange(0, i as int) =~= ps@);
    }
    out
}

/// Checks that every crew's leader is a worker of that crew.
fn leaders_check(store: &Store) -> (r: bool)
    requires
        store@.ids_fresh_and_unique(),
    ensures
        r == store@.leaders_are_members(),
{
    let cs = store.crews();
    let mut i: usize = 0;
    while i < cs.len()
        invariant
            cs@ == store@.cuadrillas,
            store@.ids_fresh_and_unique(),
            i <= cs@.len(),
            forall|k: int|
                0 <= k < i && (#[trigger] cs@[k]).lider_cuadrilla_id is Some ==> {
                    let w = cs@[k].lider_cuadrilla_id->0;
                    store@.worker_exists(w) && store@.worker(w).cuadrilla_id == Some(cs@[k].id)
                },
        decreases cs.len() - i,
    {
        if let Some(w) = cs[i].lider_cuadrilla_id {
            match store.find_worker(w) {
                None => return false,
                Some(j) => {
                    proof {
                        store@.lemma_worker_at(j as int, w);
                    }
                    if store.workers()[j].cuadrilla_id != Some(cs[i].id) {
                        return false;
                    }
                },
            }
        }
        i += 1;
    }
    true
}

/// Checks that no inactive worker belongs to a crew.
fn inactive_check(store: &Store) -> (r: bool)
    ensures
        r == store@.inactive_unassigned(),
{
    let ws = store.workers();
    let mut i: usize = 0;
    while i < ws.len()
        invariant
            ws@ == store@.jornaleros,
            i <= ws@.len(),
            forall|k: int|
                0 <= k < i && (#[trigger] ws@[k]).estado == Estado::Inactivo ==> ws@[k].cuadrilla_id
                    is None,
        decreases ws.len() - i,
    {
        if ws[i].estado == Estado::Inactivo && ws[i].cuadrilla_id.is_some() {
            return false;
        }
        i += 1;
    }
    true
}

/// Checks that every worker's crew exists.
fn memberships_check(store: &Store) -> (r: bool)
    ensures
        r == store@.memberships_resolve(),
{
    let ws = store.workers();
    let mut i: usize = 0;
    while i < ws.len()
        invariant
            ws@ == store@.jornaleros,
            i <= ws@.len(),
            forall|k: int|
                0 <= k < i && (#[trigger] ws@[k]).cuadrilla_id is Some ==> store@.crew_exists(
                    ws@[k].cuadrilla_id->0,
                ),
        decreases ws.len() - i,
    {
        if let Some(c) = ws[i].cuadrilla_id {
            if store.find_crew(c).is_none() {
                return false;
            }
        }
        i += 1;
    }
    true
}

/// Rebuilds a store from tables read back from persistent storage. Each
/// table's next identity is one more than its largest. The tables are
/// refused exactly where they break the store's invariant.
pub fn restore_store(
    cuadrillas: Vec<Cuadrilla>,
    jornaleros: Vec<Jornalero>,
    producciones: Vec<Produccion>,
) -> (r: Option<Store>)
    ensures
        r is Some <==> restorable(cuadrillas@, jornaleros@, producciones@),
        r matches Some(st) ==> {
            &&& st.wf()
            &&& st@.cuadrillas == cuadrillas@
            &&& st@.jornaleros == jornaleros@
            &&& st@.producciones == producciones@
            &&& follows_all(crew_ids(cuadrillas@), st@.next_cuadrilla_id)
            &&& follows_all(worker_ids(jornaleros@), st@.next_jornalero_id)
            &&& follows_all(production_ids(producciones@), st@.next_produccion_id)
        },
{
    let ghost at_max = StoreView {
        cuadrillas: cuadrillas@,
        jornaleros: jornaleros@,
        producciones: producciones@,
        next_cuadrilla_id: i32::MAX as int,
        next_jornalero_id: i32::MAX as int,
        next_produccion_id: i32::MAX as int,
    };
    let crew_id_list = ids_of_crews(&cuadrillas);
    let worker_id_list = ids_of_workers(&jornaleros);
    let production_id_list = ids_of_productions(&producciones);
    let nc = next_identity(&crew_id_list);
    let nw = next_identity(&worker_id_list);
    let np = next_identity(&production_id_list);
    let distinct = all_distinct(&crew_id_list) && all_distinct(&worker_id_list) && all_distinct(
        &production_id_list,
    );
    if nc.is_none() || nw.is_none() || np.is_none() || !distinct {
        proof {
            if at_max.wf() {
                assert forall|k: int| 0 <= k < crew_id_list@.len() implies 1
                    <= #[trigger] crew_id_list@[k] < i32::MAX by {
                    assert(at_max.cuadrillas[k].id == crew_id_list@[k]);
                }
                assert forall|k: int| 0 <= k < worker_id_list@.len() implies 1
                    <= #[trigger] worker_id_list@[k] < i32::MAX by {
                    assert(at_max.jornaleros[k].id == worker_id_list@[k]);
                }
                assert forall|k: int| 0 <= k < production_id_list@.len() implies 1
                    <= #[trigger] production_id_list@[k] < i32::MAX by {
                    assert(at_max.producciones[k].id == production_id_list@[k]);
                }
                assert forall|a: int, b: int| 0 <= a < b < crew_id_list@.len() implies #[trigger]
                    crew_id_list@[a] != #[trigger] crew_id_list@[b] by {
                    assert(at_max.cuadrillas[a].id != at_max.cuadrillas[b].id);
                }
                assert forall|a: int, b: int| 0 <= a < b < worker_id_list@.len() implies #[trigger]
                    worker_id_list@[a] != #[trigger] worker_id_list@[b] by {
                    assert(at_max.jornaleros[a].id != at_max.jornaleros[b].id);
                }
                assert forall|a: int, b: int| 0 <= a < b < production_id_list@.len() implies #[trigger]
                    production_id_list@[a] != #[trigger] production_id_list@[b] by {
                    assert(at_max.producciones[a].id != at_max.producciones[b].id);
                }
            }
        }
        return None;
    }
    let nc = nc.unwrap();
    let nw = nw.unwrap();
    let np = np.unwrap();
    let store = Store::from_parts(cuadrillas, jornaleros, producciones, nc, nw, np);
    proof {
        let s = store@;
        assert(s.cuadrillas == at_max.cuadrillas);
        assert forall|k: int| 0 <= k < s.cuadrillas.len() implies 1 <= (#[trigger] s.cuadrillas[k]).id
            < s.next_cuadrilla_id by {
            assert(crew_id_list@[k] == s.cuadrillas[k].id);
        }
        assert forall|k: int| 0 <= k < s.jornaleros.len() implies 1 <= (#[trigger] s.jornaleros[k]).id
            < s.next_jornalero_id by {
            assert(worker_id_list@[k] == s.jornaleros[k].id);
        }
        assert forall|k: int| 0 <= k < s.producciones.len() implies 1 <= (#[trigger] s.producciones[k]).id
            < s.next_produccion_id by {
            assert(production_id_list@[k] == s.producciones[k].id);
        }
        assert forall|a: int, b: int| 0 <= a < b < s.cuadrillas.len() implies (#[trigger] s.cuadrillas[
            a]).id != (#[trigger] s.cuadrillas[b]).id by {
            assert(crew_id_list@[a] != crew_id_list@[b]);
        }
        assert forall|a: int, b: int| 0 <= a < b < s.jornaleros.len() implies (#[trigger] s.jornaleros[
            a]).id != (#[trigger] s.jornaleros[b]).id by {
            assert(worker_id_list@[a] != worker_id_list@[b]);
        }
        assert forall|a: int, b: int| 0 <= a < b < s.producciones.len() implies (#[trigger] s.producciones[
            a]).id != (#[trigger] s.producciones[b]).id by {
            assert(production_id_list@[a] != production_id_list@[b]);
        }
        assert(s.ids_fresh_and_unique());
        assert(at_max.ids_fresh_and_unique());
    }
    let consistent = leaders_check(&store) && inactive_check(&store) && memberships_check(&store);
    proof {
        lemma_invariant_ignores_next(store@, at_max);
    }
    if consistent {
        Some(store)
    } else {
        None
    }
}

/// The invariant beyond the identities reads the tables alone.
proof fn lemma_invariant_ignores_next(s: StoreView, t: StoreView)
    requires
        s.cuadrillas == t.cuadrillas,
        s.jornaleros == t.jornaleros,
        s.producciones == t.producciones,
    ensures
        s.leaders_are_members() == t.leaders_are_members(),
        s.inactive_unassigned() == t.inactive_unassigned(),
        s.memberships_resolve() == t.memberships_resolve(),
{
    assert forall|id: i32| #[trigger] s.worker_exists(id) == t.worker_exists(id) by {
        if s.worker_exists(id) {
            let i = s.worker_index(id);
            assert(t.jornaleros[i].id == id);
        }
        if t.worker_exists(id) {
            let i = t.worker_index(id);
            assert(s.jornaleros[i].id == id);
        }
    }
    assert forall|id: i32| #[trigger] s.worker_index(id) == t.worker_index(id) by {}
    assert forall|id: i32| #[trigger] s.crew_exists(id) == t.crew_exists(id) by {
        if s.crew_exists(id) {
            let i = s.crew_index(id);
            assert(t.cuadrillas[i].id == id);
        }
        if t.crew_exists(id) {
            let i = t.crew_index(id);
            assert(s.cuadrillas[i].id == id);
        }
    }
}

} // verus!
