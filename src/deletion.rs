use vstd::prelude::*;

use crate::invariants::{lemma_reassign_keeps_wf, lemma_remove_crew_keeps_wf};
use crate::rules::{self, CrewError};
use crate::store::Store;
use crate::text::{
    members_warning, members_warning_text, productions_warning, productions_warning_text,
};

verus! {

/// What deleting a crew would run into.
pub struct DeletionCheck {
    /// Harvest records reference the crew: an ordinary delete is refused.
    pub blocked: bool,
    /// How many harvest records reference the crew.
    pub production_count: usize,
    /// How many workers belong to the crew and would be released.
    pub worker_count: usize,
    /// One line per finding, the released workers first; none where the
    /// crew can be deleted without issues.
    pub warnings: Vec<String>,
}

/// The warnings for a crew with `workers` members and `productions`
/// harvest records.
pub open spec fn deletion_warnings(workers: nat, productions: nat) -> Seq<Seq<char>> {
    (if workers > 0 {
        seq![members_warning(workers)]
    } else {
        Seq::empty()
    }) + (if productions > 0 {
        seq![productions_warning(productions)]
    } else {
        Seq::empty()
    })
}

/// Reports, without changing anything, whether crew `id` can be deleted:
/// blocked exactly where harvest records reference it, with a warning for
/// the workers it would release.
pub fn get_cuadrilla_delete_warning(store: &Store, id: i32) -> (r: DeletionCheck)
    ensures
        r.production_count == store@.productions_of(id).len(),
        r.worker_count == store@.members(id).len(),
        r.blocked == (store@.productions_of(id).len() > 0),
        r.warnings@.map_values(|w: String| w@) == deletion_warnings(
            store@.members(id).len(),
            store@.productions_of(id).len(),
        ),
{
    let production_count = store.count_productions(id);
    let worker_count = store.count_members(id);
    let mut warnings: Vec<String> = Vec::new();
    if worker_count > 0 {
        warnings.push(members_warning_text(worker_count));
    }
    if production_count > 0 {
        warnings.push(productions_warning_text(production_count));
    }
    assert(warnings@.map_values(|w: String| w@) =~= deletion_warnings(
        worker_count as nat,
        production_count as nat,
    ));
    DeletionCheck { blocked: production_count > 0, production_count, worker_count, warnings }
}

/// Deletes crew `id` and releases its members, returning how many. Refused,
/// with nothing changed, while harvest records reference the crew.
pub fn delete_cuadrilla(store: &mut Store, id: i32) -> (r: Result<usize, CrewError>)
    requires
        old(store).wf(),
    ensures
        final(store).wf(),
        match rules::delete_crew(old(store)@, id) {
            Ok((t, n)) => r == Ok::<usize, CrewError>(n as usize) && final(store)@ == t,
            Err(e) => r == Err::<usize, CrewError>(e) && final(store)@ == old(store)@,
        },
{
    let production_count = store.count_productions(id);
    if production_count > 0 {
        return Err(CrewError::HasProductionDependency(production_count));
    }
    remove(store, id)
}

/// Deletes crew `id` whatever references it and releases its members,
/// returning how many. Harvest records that reference the crew are kept as
/// they are, with a reference to a crew that no longer exists.
pub fn force_delete_cuadrilla(store: &mut Store, id: i32) -> (r: Result<usize, CrewError>)
    requires
        old(store).wf(),
    ensures
        final(store).wf(),
        match rules::force_delete_crew(old(store)@, id) {
            Ok((t, n)) => r == Ok::<usize, CrewError>(n as usize) && final(store)@ == t,
            Err(e) => r == Err::<usize, CrewError>(e) && final(store)@ == old(store)@,
        },
{
    remove(store, id)
}

fn remove(store: &mut Store, id: i32) -> (r: Result<usize, CrewError>)
    requires
        old(store).wf(),
    ensures
        final(store).wf(),
        match rules::force_delete_crew(old(store)@, id) {
            Ok((t, n)) => r == Ok::<usize, CrewError>(n as usize) && final(store)@ == t,
            Err(e) => r == Err::<usize, CrewError>(e) && final(store)@ == old(store)@,
        },
{
    let ghost s = store@;
    let ci = match store.find_crew(id) {
        None => return Err(CrewError::CrewNotFound(id)),
        Some(i) => i,
    };
    proof {
        s.lemma_crew_at(ci as int, id);
        lemma_remove_crew_keeps_wf(s, id);
    }
    let n = store.release_members(id);
    store.remove_crew_at(ci);
    Ok(n)
}

/// Releases every member of crew `id` without deleting it and returns how
/// many there were; none is no error, also where the crew does not exist.
/// The crew's leader is among the released, so the crew is left without a
/// leader.
pub fn reassign_jornaleros_from_cuadrilla(store: &mut Store, id: i32) -> (r: usize)
    requires
        old(store).wf(),
    ensures
        final(store).wf(),
        r == rules::reassign_workers(old(store)@, id).1,
        final(store)@ == rules::reassign_workers(old(store)@, id).0,
{
    let ghost s = store@;
    proof {
        lemma_reassign_keeps_wf(s, id);
    }
    let n = store.release_members(id);
    match store.find_crew(id) {
        Some(ci) => {
            proof {
                s.lemma_crew_at(ci as int, id);
                rules::lemma_lead_crew_at(s.cuadrillas, ci as int, None);
            }
            store.set_leader_at(ci, None);
        },
        None => {
            proof {
                assert(rules::lead_crew(s.cuadrillas, id, None) =~= s.cuadrillas);
            }
        },
    }
    n
}

} // verus!
