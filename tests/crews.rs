use cuadrillas::{
    delete_cuadrilla, delete_jornalero, force_delete_cuadrilla, get_all_jornaleros,
    get_cuadrilla_by_id, get_cuadrilla_delete_warning, get_cuadrillas, get_inactive_jornaleros,
    get_jornalero_by_id, get_jornaleros, get_jornaleros_by_cuadrilla, get_produccion,
    post_cuadrilla, post_jornalero, post_produccion, put_cuadrilla, put_jornalero,
    reactivate_jornalero, reassign_jornaleros_from_cuadrilla, set_leader, CrewError,
    CuadrillaData, Estado, JornaleroData, ProduccionData, Store,
};

fn worker(nombre: &str, cuadrilla_id: Option<i32>) -> JornaleroData {
    JornaleroData {
        nombre: nombre.to_string(),
        edad: 30,
        estado: Estado::Activo,
        fecha_contratacion: "2025-01-15".to_string(),
        errores: None,
        cuadrilla_id,
    }
}

fn crew(lote: &str, lider: Option<i32>) -> CuadrillaData {
    CuadrillaData {
        id: None,
        lider_cuadrilla_id: lider,
        lote: lote.to_string(),
        variedad_id: None,
        temporada_id: None,
    }
}

fn harvest(cuadrilla_id: i32) -> ProduccionData {
    ProduccionData {
        cuadrilla_id,
        temporada_id: 1,
        cantidad: "12.50".to_string(),
        fecha: "2025-06-01".to_string(),
        tipo_empaque_id: None,
        tipo_uva_id: None,
        cliente_id: None,
        cajas_no_aceptadas: None,
    }
}

fn crew_of(store: &Store, id: i32) -> Option<i32> {
    get_jornalero_by_id(store, id).unwrap().cuadrilla_id
}

fn leader_of(store: &Store, id: i32) -> Option<i32> {
    get_cuadrilla_by_id(store, id).unwrap().lider_cuadrilla_id
}

#[test]
fn end_to_end_leader_lifecycle() {
    let mut store = Store::new();
    let w1 = post_jornalero(&mut store, worker("Ana", None)).unwrap();
    let created = post_cuadrilla(&mut store, crew("Lote 1", Some(w1))).unwrap();
    assert!(!created.leader_missing);
    let c1 = created.crew.id;
    assert_eq!(crew_of(&store, w1), Some(c1));
    assert_eq!(leader_of(&store, c1), Some(w1));

    set_leader(&mut store, c1, None).unwrap();
    assert_eq!(leader_of(&store, c1), None);
    assert_eq!(crew_of(&store, w1), None);

    assert!(!delete_jornalero(&mut store, w1).unwrap().crew_lost_leader);
    assert_eq!(get_jornalero_by_id(&store, w1).unwrap().estado, Estado::Inactivo);

    let w = reactivate_jornalero(&mut store, w1).unwrap();
    assert_eq!(w.estado, Estado::Activo);
    assert_eq!(w.cuadrilla_id, None);
}

#[test]
fn end_to_end_delete_crew_with_three_workers() {
    let mut store = Store::new();
    let c2 = post_cuadrilla(&mut store, crew("Lote 2", None)).unwrap().crew.id;
    for name in ["Ana", "Beto", "Carla"] {
        post_jornalero(&mut store, worker(name, Some(c2))).unwrap();
    }
    let check = get_cuadrilla_delete_warning(&store, c2);
    assert!(!check.blocked);
    assert_eq!(check.worker_count, 3);
    assert_eq!(check.production_count, 0);
    assert_eq!(check.warnings.len(), 1);
    assert!(check.warnings[0].starts_with("3 jornalero(s)"));
    assert!(check.warnings[0].contains('3'));

    assert_eq!(delete_cuadrilla(&mut store, c2), Ok(3));
    assert!(get_jornaleros_by_cuadrilla(&store, c2).is_empty());
    assert!(get_cuadrilla_by_id(&store, c2).is_none());
    assert!(get_all_jornaleros(&store).iter().all(|w| w.cuadrilla_id.is_none()));
}

#[test]
fn set_then_clear_leader_leaves_no_residue() {
    let mut store = Store::new();
    let c = post_cuadrilla(&mut store, crew("Lote 3", None)).unwrap().crew.id;
    let w = post_jornalero(&mut store, worker("Dario", None)).unwrap();
    set_leader(&mut store, c, Some(w)).unwrap();
    assert_eq!(crew_of(&store, w), Some(c));
    assert_eq!(leader_of(&store, c), Some(w));
    set_leader(&mut store, c, None).unwrap();
    assert_eq!(crew_of(&store, w), None);
    assert_eq!(leader_of(&store, c), None);
}

#[test]
fn changing_leader_detaches_the_previous_one() {
    let mut store = Store::new();
    let a = post_jornalero(&mut store, worker("Ana", None)).unwrap();
    let b = post_jornalero(&mut store, worker("Beto", None)).unwrap();
    let c = post_cuadrilla(&mut store, crew("Lote 4", Some(a))).unwrap().crew.id;
    set_leader(&mut store, c, Some(b)).unwrap();
    assert_eq!(crew_of(&store, a), None);
    assert_eq!(crew_of(&store, b), Some(c));
    assert_eq!(leader_of(&store, c), Some(b));
}

#[test]
fn setting_the_same_leader_changes_nothing() {
    let mut store = Store::new();
    let a = post_jornalero(&mut store, worker("Ana", None)).unwrap();
    let c = post_cuadrilla(&mut store, crew("Lote 5", Some(a))).unwrap().crew.id;
    assert_eq!(set_leader(&mut store, c, Some(a)).unwrap().lider_cuadrilla_id, Some(a));
    assert_eq!(crew_of(&store, a), Some(c));
    assert_eq!(leader_of(&store, c), Some(a));
}

#[test]
fn set_leader_errors_change_nothing() {
    let mut store = Store::new();
    let a = post_jornalero(&mut store, worker("Ana", None)).unwrap();
    let c = post_cuadrilla(&mut store, crew("Lote 6", Some(a))).unwrap().crew.id;
    assert_eq!(set_leader(&mut store, 99, Some(a)).err(), Some(CrewError::CrewNotFound(99)));
    assert_eq!(set_leader(&mut store, c, Some(77)).err(), Some(CrewError::LeaderNotFound(77)));
    assert_eq!(crew_of(&store, a), Some(c));
    assert_eq!(leader_of(&store, c), Some(a));
}

#[test]
fn a_leader_cannot_lead_two_crews() {
    let mut store = Store::new();
    let a = post_jornalero(&mut store, worker("Ana", None)).unwrap();
    let c1 = post_cuadrilla(&mut store, crew("Lote 7", Some(a))).unwrap().crew.id;
    let c2 = post_cuadrilla(&mut store, crew("Lote 8", None)).unwrap().crew.id;
    assert_eq!(
        set_leader(&mut store, c2, Some(a)).err(),
        Some(CrewError::LeaderReassignmentConflict { worker: a, crew: c1 })
    );
    assert_eq!(
        post_cuadrilla(&mut store, crew("Lote 9", Some(a))).err(),
        Some(CrewError::LeaderReassignmentConflict { worker: a, crew: c1 })
    );
    assert_eq!(get_cuadrillas(&store).len(), 2);
    assert_eq!(leader_of(&store, c2), None);
}

#[test]
fn an_inactive_worker_cannot_lead() {
    let mut store = Store::new();
    let a = post_jornalero(&mut store, worker("Ana", None)).unwrap();
    delete_jornalero(&mut store, a).unwrap();
    let c = post_cuadrilla(&mut store, crew("Lote 10", None)).unwrap().crew.id;
    assert_eq!(set_leader(&mut store, c, Some(a)).err(), Some(CrewError::InactiveWorker));
    assert_eq!(
        post_cuadrilla(&mut store, crew("Lote 11", Some(a))).err(),
        Some(CrewError::InactiveWorker)
    );
    assert_eq!(crew_of(&store, a), None);
}

#[test]
fn create_crew_with_unknown_leader_warns() {
    let mut store = Store::new();
    let created = post_cuadrilla(&mut store, crew("Lote 12", Some(42))).unwrap();
    assert!(created.leader_missing);
    let c = get_cuadrilla_by_id(&store, created.crew.id).unwrap();
    assert_eq!(c.lider_cuadrilla_id, None);
    assert_eq!(c.lote, "Lote 12");
}

#[test]
fn crew_identities_count_up_from_one() {
    let mut store = Store::new();
    assert_eq!(post_cuadrilla(&mut store, crew("A", None)).unwrap().crew.id, 1);
    assert_eq!(post_cuadrilla(&mut store, crew("B", None)).unwrap().crew.id, 2);
    assert_eq!(post_jornalero(&mut store, worker("Ana", None)), Ok(1));
}

#[test]
fn put_cuadrilla_updates_fields_and_leader() {
    let mut store = Store::new();
    let a = post_jornalero(&mut store, worker("Ana", None)).unwrap();
    let c = post_cuadrilla(&mut store, crew("Viejo", None)).unwrap().crew.id;
    let data = CuadrillaData {
        id: Some(c),
        lider_cuadrilla_id: Some(a),
        lote: "Nuevo".to_string(),
        variedad_id: Some(3),
        temporada_id: Some(4),
    };
    let row = put_cuadrilla(&mut store, c, data).unwrap();
    assert_eq!(row.lote, "Nuevo");
    assert_eq!(row.variedad_id, Some(3));
    assert_eq!(row.temporada_id, Some(4));
    assert_eq!(row.lider_cuadrilla_id, Some(a));
    assert_eq!(crew_of(&store, a), Some(c));
    assert_eq!(
        put_cuadrilla(&mut store, 50, crew("X", None)).err(),
        Some(CrewError::CrewNotFound(50))
    );
}

#[test]
fn deactivating_a_leader_clears_the_crew() {
    let mut store = Store::new();
    let a = post_jornalero(&mut store, worker("Ana", None)).unwrap();
    let c = post_cuadrilla(&mut store, crew("Lote 13", Some(a))).unwrap().crew.id;
    let outcome = delete_jornalero(&mut store, a).unwrap();
    assert!(outcome.crew_lost_leader);
    assert_eq!(outcome.worker.id, a);
    assert_eq!(leader_of(&store, c), None);
    let w = get_jornalero_by_id(&store, a).unwrap();
    assert_eq!(w.estado, Estado::Inactivo);
    assert_eq!(w.cuadrilla_id, None);
}

#[test]
fn deactivating_a_member_leaves_the_crew() {
    let mut store = Store::new();
    let c = post_cuadrilla(&mut store, crew("Lote 14", None)).unwrap().crew.id;
    let a = post_jornalero(&mut store, worker("Ana", Some(c))).unwrap();
    assert!(!delete_jornalero(&mut store, a).unwrap().crew_lost_leader);
    assert_eq!(crew_of(&store, a), None);
}

#[test]
fn lifecycle_errors() {
    let mut store = Store::new();
    let a = post_jornalero(&mut store, worker("Ana", None)).unwrap();
    assert_eq!(delete_jornalero(&mut store, 9).err(), Some(CrewError::WorkerNotFound(9)));
    assert_eq!(reactivate_jornalero(&mut store, 9).err(), Some(CrewError::WorkerNotFound(9)));
    assert_eq!(reactivate_jornalero(&mut store, a).err(), Some(CrewError::AlreadyActive(a)));
    delete_jornalero(&mut store, a).unwrap();
    assert_eq!(delete_jornalero(&mut store, a).err(), Some(CrewError::AlreadyInactive(a)));
}

#[test]
fn active_and_inactive_listings() {
    let mut store = Store::new();
    let a = post_jornalero(&mut store, worker("Ana", None)).unwrap();
    let b = post_jornalero(&mut store, worker("Beto", None)).unwrap();
    delete_jornalero(&mut store, a).unwrap();
    let active: Vec<i32> = get_jornaleros(&store).iter().map(|w| w.id).collect();
    let inactive: Vec<i32> = get_inactive_jornaleros(&store).iter().map(|w| w.id).collect();
    assert_eq!(active, vec![b]);
    assert_eq!(inactive, vec![a]);
    assert_eq!(get_all_jornaleros(&store).len(), 2);
}

#[test]
fn put_jornalero_refuses_to_move_a_leader() {
    let mut store = Store::new();
    let a = post_jornalero(&mut store, worker("Ana", None)).unwrap();
    let c1 = post_cuadrilla(&mut store, crew("Lote 15", Some(a))).unwrap().crew.id;
    let c2 = post_cuadrilla(&mut store, crew("Lote 16", None)).unwrap().crew.id;
    assert_eq!(
        put_jornalero(&mut store, a, worker("Ana", Some(c2))).err(),
        Some(CrewError::LeaderReassignmentConflict { worker: a, crew: c1 })
    );
    assert_eq!(
        put_jornalero(&mut store, a, worker("Ana", None)).err(),
        Some(CrewError::LeaderReassignmentConflict { worker: a, crew: c1 })
    );
    assert_eq!(crew_of(&store, a), Some(c1));
    let mut same = worker("Ana Maria", Some(c1));
    same.edad = 41;
    let w = put_jornalero(&mut store, a, same).unwrap();
    assert_eq!(w.nombre, "Ana Maria");
    assert_eq!(w.edad, 41);
    assert_eq!(w.cuadrilla_id, Some(c1));
}

#[test]
fn put_jornalero_moves_a_member_and_keeps_state() {
    let mut store = Store::new();
    let c1 = post_cuadrilla(&mut store, crew("Lote 17", None)).unwrap().crew.id;
    let c2 = post_cuadrilla(&mut store, crew("Lote 18", None)).unwrap().crew.id;
    let a = post_jornalero(&mut store, worker("Ana", Some(c1))).unwrap();
    let mut data = worker("Ana", Some(c2));
    data.estado = Estado::Inactivo;
    put_jornalero(&mut store, a, data).unwrap();
    let w = get_jornalero_by_id(&store, a).unwrap();
    assert_eq!(w.cuadrilla_id, Some(c2));
    assert_eq!(w.estado, Estado::Activo);
}

#[test]
fn put_jornalero_errors() {
    let mut store = Store::new();
    let a = post_jornalero(&mut store, worker("Ana", None)).unwrap();
    assert_eq!(
        put_jornalero(&mut store, 8, worker("X", None)).err(),
        Some(CrewError::WorkerNotFound(8))
    );
    assert_eq!(
        put_jornalero(&mut store, a, worker("Ana", Some(5))).err(),
        Some(CrewError::CrewNotFound(5))
    );
    let c = post_cuadrilla(&mut store, crew("Lote 19", None)).unwrap().crew.id;
    delete_jornalero(&mut store, a).unwrap();
    assert_eq!(
        put_jornalero(&mut store, a, worker("Ana", Some(c))).err(),
        Some(CrewError::InactiveWorker)
    );
    assert_eq!(crew_of(&store, a), None);
}

#[test]
fn post_jornalero_errors() {
    let mut store = Store::new();
    assert_eq!(post_jornalero(&mut store, worker("Ana", Some(3))), Err(CrewError::CrewNotFound(3)));
    let c = post_cuadrilla(&mut store, crew("Lote 20", None)).unwrap().crew.id;
    let mut data = worker("Beto", Some(c));
    data.estado = Estado::Inactivo;
    assert_eq!(post_jornalero(&mut store, data), Err(CrewError::InactiveWorker));
    assert!(get_all_jornaleros(&store).is_empty());
}

#[test]
fn production_blocks_deletion_regardless_of_workers() {
    let mut store = Store::new();
    let c = post_cuadrilla(&mut store, crew("Lote 21", None)).unwrap().crew.id;
    post_jornalero(&mut store, worker("Ana", Some(c))).unwrap();
    post_jornalero(&mut store, worker("Beto", Some(c))).unwrap();
    post_produccion(&mut store, harvest(c)).unwrap();
    let check = get_cuadrilla_delete_warning(&store, c);
    assert!(check.blocked);
    assert_eq!(check.production_count, 1);
    assert_eq!(check.worker_count, 2);
    assert_eq!(check.warnings.len(), 2);
    assert!(check.warnings[0].starts_with("2 jornalero(s)"));
    assert!(check.warnings[1].starts_with("1 registro(s) de producción"));

    let empty = post_cuadrilla(&mut store, crew("Lote 22", None)).unwrap().crew.id;
    post_produccion(&mut store, harvest(empty)).unwrap();
    post_produccion(&mut store, harvest(empty)).unwrap();
    let check = get_cuadrilla_delete_warning(&store, empty);
    assert!(check.blocked);
    assert_eq!(check.warnings.len(), 1);
    assert!(check.warnings[0].starts_with("2 registro(s)"));
}

#[test]
fn check_on_a_clear_crew_has_no_warnings() {
    let mut store = Store::new();
    let c = post_cuadrilla(&mut store, crew("Lote 23", None)).unwrap().crew.id;
    let check = get_cuadrilla_delete_warning(&store, c);
    assert!(!check.blocked);
    assert!(check.warnings.is_empty());
}

#[test]
fn warning_counts_are_written_in_decimal() {
    let mut store = Store::new();
    let c = post_cuadrilla(&mut store, crew("Lote 24", None)).unwrap().crew.id;
    for i in 0..12 {
        post_jornalero(&mut store, worker(&format!("W{}", i), Some(c))).unwrap();
    }
    let check = get_cuadrilla_delete_warning(&store, c);
    assert_eq!(
        check.warnings[0],
        "12 jornalero(s) serán removidos de la cuadrilla y quedarán disponibles para reasignación"
    );
}

#[test]
fn blocked_delete_changes_nothing() {
    let mut store = Store::new();
    let a = post_jornalero(&mut store, worker("Ana", None)).unwrap();
    let c = post_cuadrilla(&mut store, crew("Lote 25", Some(a))).unwrap().crew.id;
    post_jornalero(&mut store, worker("Beto", Some(c))).unwrap();
    post_produccion(&mut store, harvest(c)).unwrap();
    assert_eq!(delete_cuadrilla(&mut store, c), Err(CrewError::HasProductionDependency(1)));
    assert_eq!(leader_of(&store, c), Some(a));
    assert_eq!(get_jornaleros_by_cuadrilla(&store, c).len(), 2);
    assert_eq!(get_produccion(&store).len(), 1);
    assert_eq!(get_cuadrillas(&store).len(), 1);
}

#[test]
fn delete_missing_crew_is_not_found() {
    let mut store = Store::new();
    assert_eq!(delete_cuadrilla(&mut store, 4), Err(CrewError::CrewNotFound(4)));
    assert_eq!(force_delete_cuadrilla(&mut store, 4), Err(CrewError::CrewNotFound(4)));
}

#[test]
fn force_delete_then_reassign_finds_nobody() {
    let mut store = Store::new();
    let a = post_jornalero(&mut store, worker("Ana", None)).unwrap();
    let c = post_cuadrilla(&mut store, crew("Lote 26", Some(a))).unwrap().crew.id;
    post_jornalero(&mut store, worker("Beto", Some(c))).unwrap();
    post_produccion(&mut store, harvest(c)).unwrap();
    assert_eq!(force_delete_cuadrilla(&mut store, c), Ok(2));
    assert!(get_cuadrilla_by_id(&store, c).is_none());
    assert_eq!(crew_of(&store, a), None);
    assert_eq!(get_produccion(&store)[0].cuadrilla_id, c);
    assert_eq!(reassign_jornaleros_from_cuadrilla(&mut store, c), 0);
    // The dangling record still blocks an ordinary delete of that identity.
    assert_eq!(delete_cuadrilla(&mut store, c), Err(CrewError::HasProductionDependency(1)));
}

#[test]
fn reassign_releases_members_and_leader() {
    let mut store = Store::new();
    let a = post_jornalero(&mut store, worker("Ana", None)).unwrap();
    let c = post_cuadrilla(&mut store, crew("Lote 27", Some(a))).unwrap().crew.id;
    post_jornalero(&mut store, worker("Beto", Some(c))).unwrap();
    post_jornalero(&mut store, worker("Carla", Some(c))).unwrap();
    assert_eq!(reassign_jornaleros_from_cuadrilla(&mut store, c), 3);
    assert!(get_jornaleros_by_cuadrilla(&store, c).is_empty());
    assert_eq!(leader_of(&store, c), None);
    assert!(get_cuadrilla_by_id(&store, c).is_some());
    assert_eq!(reassign_jornaleros_from_cuadrilla(&mut store, c), 0);
}

#[test]
fn production_needs_an_existing_crew() {
    let mut store = Store::new();
    assert_eq!(post_produccion(&mut store, harvest(1)), Err(CrewError::CrewNotFound(1)));
    let c = post_cuadrilla(&mut store, crew("Lote 28", None)).unwrap().crew.id;
    assert_eq!(post_produccion(&mut store, harvest(c)), Ok(1));
    let rows = get_produccion(&store);
    assert_eq!(rows[0].cantidad, "12.50");
}
