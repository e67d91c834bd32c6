//! Crew and worker bookkeeping for a seasonal farm-labour operation.
//!
//! The library keeps crews (`Cuadrilla`), workers (`Jornalero`) and harvest
//! records (`Produccion`) in an in-memory entity store and maintains, through
//! every operation, that a crew's leader is a member of that crew and that an
//! inactive worker belongs to no crew.
pub mod model;
pub mod rules;
pub mod store;
pub mod leadership;
pub mod invariants;
pub mod lifecycle;
pub mod text;
pub mod deletion;
pub mod queries;
pub mod laws;
pub mod pages;
pub mod diagnostics;
pub mod export;
pub mod oauth;
pub mod restore;

pub use deletion::{
    delete_cuadrilla, force_delete_cuadrilla, get_cuadrilla_delete_warning,
    reassign_jornaleros_from_cuadrilla, DeletionCheck,
};
pub use diagnostics::AppState;
pub use export::decode_excel_data;
pub use leadership::{post_cuadrilla, put_cuadrilla, set_leader};
pub use lifecycle::{delete_jornalero, post_jornalero, put_jornalero, reactivate_jornalero};
pub use model::{Cuadrilla, Estado, Jornalero, Produccion};
pub use pages::{create_error_page, create_success_page};
pub use queries::{
    get_all_jornaleros, get_cuadrilla_by_id, get_cuadrillas, get_inactive_jornaleros,
    get_jornalero_by_id, get_jornaleros, get_jornaleros_by_cuadrilla, get_produccion,
    post_produccion,
};
pub use rules::{CrewCreated, CrewError, CuadrillaData, Deactivation, JornaleroData, ProduccionData};
pub use store::Store;
