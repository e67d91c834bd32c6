use cuadrillas::restore::restore_store;
use cuadrillas::{
    get_cuadrilla_delete_warning, get_jornalero_by_id, post_cuadrilla, post_jornalero, Cuadrilla,
    CuadrillaData, Estado, Jornalero, JornaleroData, Produccion,
};

fn crew_row(id: i32, lider: Option<i32>) -> Cuadrilla {
    Cuadrilla {
        id,
        lider_cuadrilla_id: lider,
        lote: format!("Lote {}", id),
        variedad_id: None,
        temporada_id: None,
    }
}

fn worker_row(id: i32, estado: Estado, cuadrilla_id: Option<i32>) -> Jornalero {
    Jornalero {
        id,
        nombre: format!("J{}", id),
        edad: 25,
        estado,
        fecha_contratacion: "2024-03-01".to_string(),
        errores: None,
        cuadrilla_id,
    }
}

fn record_row(id: i32, cuadrilla_id: i32) -> Produccion {
    Produccion {
        id,
        cuadrilla_id,
        temporada_id: 1,
        cantidad: "3".to_string(),
        fecha: "2024-05-05".to_string(),
        tipo_empaque_id: None,
        tipo_uva_id: None,
        cliente_id: None,
        cajas_no_aceptadas: None,
    }
}

#[test]
fn restore_accepts_consistent_tables() {
    let store = restore_store(
        vec![crew_row(4, Some(7)), crew_row(2, None)],
        vec![worker_row(7, Estado::Activo, Some(4)), worker_row(3, Estado::Inactivo, None)],
        vec![record_row(10, 2)],
    )
    .expect("consistent tables");
    assert_eq!(get_jornalero_by_id(&store, 7).unwrap().cuadrilla_id, Some(4));
    assert!(get_cuadrilla_delete_warning(&store, 2).blocked);
    assert_eq!(get_cuadrilla_delete_warning(&store, 4).worker_count, 1);
}

#[test]
fn restore_continues_identities_after_the_largest() {
    let mut store = restore_store(
        vec![crew_row(4, None), crew_row(2, None)],
        vec![worker_row(7, Estado::Activo, None)],
        Vec::new(),
    )
    .unwrap();
    let crew = CuadrillaData {
        id: None,
        lider_cuadrilla_id: None,
        lote: "Nuevo".to_string(),
        variedad_id: None,
        temporada_id: None,
    };
    assert_eq!(post_cuadrilla(&mut store, crew).unwrap().crew.id, 5);
    let worker = JornaleroData {
        nombre: "Nuevo".to_string(),
        edad: 20,
        estado: Estado::Activo,
        fecha_contratacion: "2025-01-01".to_string(),
        errores: None,
        cuadrilla_id: None,
    };
    assert_eq!(post_jornalero(&mut store, worker), Ok(8));
}

#[test]
fn restore_of_empty_tables_starts_at_one() {
    let mut store = restore_store(Vec::new(), Vec::new(), Vec::new()).unwrap();
    let worker = JornaleroData {
        nombre: "Ana".to_string(),
        edad: 20,
        estado: Estado::Activo,
        fecha_contratacion: "2025-01-01".to_string(),
        errores: None,
        cuadrilla_id: None,
    };
    assert_eq!(post_jornalero(&mut store, worker), Ok(1));
}

#[test]
fn restore_refuses_duplicate_identities() {
    assert!(restore_store(vec![crew_row(1, None), crew_row(1, None)], Vec::new(), Vec::new()).is_none());
    assert!(restore_store(
        Vec::new(),
        vec![worker_row(2, Estado::Activo, None), worker_row(2, Estado::Activo, None)],
        Vec::new()
    )
    .is_none());
}

#[test]
fn restore_refuses_identities_out_of_range() {
    assert!(restore_store(vec![crew_row(0, None)], Vec::new(), Vec::new()).is_none());
    assert!(restore_store(vec![crew_row(i32::MAX, None)], Vec::new(), Vec::new()).is_none());
    assert!(restore_store(Vec::new(), Vec::new(), vec![record_row(-3, 1)]).is_none());
}

#[test]
fn restore_refuses_a_leader_outside_the_crew() {
    assert!(restore_store(
        vec![crew_row(1, Some(5))],
        vec![worker_row(5, Estado::Activo, None)],
        Vec::new()
    )
    .is_none());
    assert!(restore_store(vec![crew_row(1, Some(5))], Vec::new(), Vec::new()).is_none());
}

#[test]
fn restore_refuses_an_inactive_member() {
    assert!(restore_store(
        vec![crew_row(1, None)],
        vec![worker_row(5, Estado::Inactivo, Some(1))],
        Vec::new()
    )
    .is_none());
}

#[test]
fn restore_refuses_a_membership_in_a_missing_crew() {
    assert!(restore_store(
        Vec::new(),
        vec![worker_row(5, Estado::Activo, Some(9))],
        Vec::new()
    )
    .is_none());
}

#[test]
fn restore_keeps_records_of_deleted_crews() {
    let store = restore_store(Vec::new(), Vec::new(), vec![record_row(1, 9)]).unwrap();
    assert!(get_cuadrilla_delete_warning(&store, 9).blocked);
}
