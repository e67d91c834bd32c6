use vstd::prelude::*;

use crate::model::{in_crew, produced_by, Cuadrilla, Estado, Jornalero, Produccion, StoreView};
use crate::rules::{
    lemma_filter_prefix_step, new_crew_row, new_production_row, new_worker_row, release_members,
    CuadrillaData, JornaleroData, ProduccionData,
};

verus! {

/// The entity store: crews, workers and harvest records, each table keyed
/// by a unique positive identity that the store hands out.
pub struct Store {
    cuadrillas: Vec<Cuadrilla>,
    jornaleros: Vec<Jornalero>,
    producciones: Vec<Produccion>,
    next_cuadrilla_id: i32,
    next_jornalero_id: i32,
    next_produccion_id: i32,
}

impl View for Store {
    type V = StoreView;

    closed spec fn view(&self) -> StoreView {
        StoreView {
            cuadrillas: self.cuadrillas@,
            jornaleros: self.jornaleros@,
            producciones: self.producciones@,
            next_cuadrilla_id: self.next_cuadrilla_id as int,
            next_jornalero_id: self.next_jornalero_id as int,
            next_produccion_id: self.next_produccion_id as int,
        }
    }
}

impl Store {
    pub open spec fn wf(&self) -> bool {
        self@.wf()
    }

    /// An empty store.
    pub fn new() -> (r: Store)
        ensures
            r@.cuadrillas.len() == 0,
            r@.jornaleros.len() == 0,
            r@.producciones.len() == 0,
            r@.next_cuadrilla_id == 1,
            r@.next_jornalero_id == 1,
            r@.next_produccion_id == 1,
            r.wf(),
    {
        Store {
            cuadrillas: Vec::new(),
            jornaleros: Vec::new(),
            producciones: Vec::new(),
            next_cuadrilla_id: 1,
            next_jornalero_id: 1,
            next_produccion_id: 1,
        }
    }

    /// The identity the next crew will get.
    pub fn next_cuadrilla_id_value(&self) -> (r: i32)
        ensures
            r == self@.next_cuadrilla_id,
    {
        self.next_cuadrilla_id
    }

    /// The identity the next worker will get.
    pub fn next_jornalero_id_value(&self) -> (r: i32)
        ensures
            r == self@.next_jornalero_id,
    {
        self.next_jornalero_id
    }

    /// The identity the next harvest record will get.
    pub fn next_produccion_id_value(&self) -> (r: i32)
        ensures
            r == self@.next_produccion_id,
    {
        self.next_produccion_id
    }

    /// A store holding exactly these tables and next identities.
    pub(crate) fn from_parts(
        cuadrillas: Vec<Cuadrilla>,
        jornaleros: Vec<Jornalero>,
        producciones: Vec<Produccion>,
        next_cuadrilla_id: i32,
        next_jornalero_id: i32,
        next_produccion_id: i32,
    ) -> (r: Store)
        ensures
            r@ == (StoreView {
                cuadrillas: cuadrillas@,
                jornaleros: jornaleros@,
                producciones: producciones@,
                next_cuadrilla_id: next_cuadrilla_id as int,
                next_jornalero_id: next_jornalero_id as int,
                next_produccion_id: next_produccion_id as int,
            }),
    {
        Store {
            cuadrillas,
            jornaleros,
            producciones,
            next_cuadrilla_id,
            next_jornalero_id,
            next_produccion_id,
        }
    }

    /// The crew table.
    pub fn crews(&self) -> (r: &Vec<Cuadrilla>)
        ensures
            r@ == self@.cuadrillas,
    {
        &self.cuadrillas
    }

    /// The worker table.
    pub fn workers(&self) -> (r: &Vec<Jornalero>)
        ensures
            r@ == self@.jornaleros,
    {
        &self.jornaleros
    }

    /// The harvest-record table.
    pub fn productions(&self) -> (r: &Vec<Produccion>)
        ensures
            r@ == self@.producciones,
    {
        &self.producciones
    }

    /// The position of crew `id`, if it exists.
    pub fn find_crew(&self, id: i32) -> (r: Option<usize>)
        ensures
            r is None <==> !self@.crew_exists(id),
            r matches Some(i) ==> i < self@.cuadrillas.len() && self@.cuadrillas[i as int].id == id,
    {
        let mut i: usize = 0;
        while i < self.cuadrillas.len()
            invariant
                i <= self.cuadrillas@.len(),
                forall|k: int| 0 <= k < i ==> (#[trigger] self.cuadrillas@[k]).id != id,
            decreases self.cuadrillas.len() - i,
        {
            if self.cuadrillas[i].id == id {
                return Some(i);
            }
            i += 1;
        }
        None
    }

    /// The position of worker `id`, if it exists.
    pub fn find_worker(&self, id: i32) -> (r: Option<usize>)
        ensures
            r is None <==> !self@.worker_exists(id),
            r matches Some(i) ==> i < self@.jornaleros.len() && self@.jornaleros[i as int].id == id,
    {
        let mut i: usize = 0;
        while i < self.jornaleros.len()
            invariant
                i <= self.jornaleros@.len(),
                forall|k: int| 0 <= k < i ==> (#[trigger] self.jornaleros@[k]).id != id,
            decreases self.jornaleros.len() - i,
        {
            if self.jornaleros[i].id == id {
                return Some(i);
            }
            i += 1;
        }
        None
    }

    /// The row of the crew registered last.
    pub fn last_crew(&self) -> (r: Cuadrilla)
        requires
            self@.cuadrillas.len() > 0,
        ensures
            r == self@.cuadrillas.last(),
    {
        self.cuadrillas[self.cuadrillas.len() - 1].duplicate()
    }

    /// The position of a crew that worker `w` leads, if any.
    pub fn find_led_crew(&self, w: i32) -> (r: Option<usize>)
        ensures
            r is None <==> !self@.leads_some_crew(w),
            r matches Some(i) ==> i < self@.cuadrillas.len()
                && self@.cuadrillas[i as int].lider_cuadrilla_id == Some(w),
    {
        let mut i: usize = 0;
        while i < self.cuadrillas.len()
            invariant
                i <= self.cuadrillas@.len(),
                forall|k: int|
                    0 <= k < i ==> (#[trigger] self.cuadrillas@[k]).lider_cuadrilla_id != Some(w),
            decreases self.cuadrillas.len() - i,
        {
            if self.cuadrillas[i].lider_cuadrilla_id == Some(w) {
                return Some(i);
            }
            i += 1;
        }
        None
    }

    /// Crew at position `i` led by `leader`.
    pub(crate) fn set_leader_at(&mut self, i: usize, leader: Option<i32>)
        requires
            i < old(self)@.cuadrillas.len(),
        ensures
            final(self)@ == (StoreView {
                cuadrillas: old(self)@.cuadrillas.update(
                    i as int,
                    Cuadrilla { lider_cuadrilla_id: leader, ..old(self)@.cuadrillas[i as int] },
                ),
                ..old(self)@
            }),
    {
        self.cuadrillas[i].lider_cuadrilla_id = leader;
    }

    /// Worker at position `i` placed in crew `crew`.
    pub(crate) fn set_crew_at(&mut self, i: usize, crew: Option<i32>)
        requires
            i < old(self)@.jornaleros.len(),
        ensures
            final(self)@ == (StoreView {
                jornaleros: old(self)@.jornaleros.update(
                    i as int,
                    Jornalero { cuadrilla_id: crew, ..old(self)@.jornaleros[i as int] },
                ),
                ..old(self)@
            }),
    {
        self.jornaleros[i].cuadrilla_id = crew;
    }

    /// Worker at position `i` given activity state `estado`.
    pub(crate) fn set_state_at(&mut self, i: usize, estado: Estado)
        requires
            i < old(self)@.jornaleros.len(),
        ensures
            final(self)@ == (StoreView {
                jornaleros: old(self)@.jornaleros.update(
                    i as int,
                    Jornalero { estado, ..old(self)@.jornaleros[i as int] },
                ),
                ..old(self)@
            }),
    {
        self.jornaleros[i].estado = estado;
    }
    /// Crew at position `i` with the descriptive fields of `data`.
    pub(crate) fn describe_crew_at(&mut self, i: usize, data: CuadrillaData)
        requires
            i < old(self)@.cuadrillas.len(),
        ensures
            final(self)@ == (StoreView {
                cuadrillas: old(self)@.cuadrillas.update(
                    i as int,
                    Cuadrilla {
                        lote: data.lote,
                        variedad_id: data.variedad_id,
                        temporada_id: data.temporada_id,
                        ..old(self)@.cuadrillas[i as int]
                    },
                ),
                ..old(self)@
            }),
    {
        self.cuadrillas[i].lote = data.lote;
        self.cuadrillas[i].variedad_id = data.variedad_id;
        self.cuadrillas[i].temporada_id = data.temporada_id;
        proof {
            assert(self.cuadrillas@ =~= old(self)@.cuadrillas.update(
                i as int,
                Cuadrilla {
                    lote: data.lote,
                    variedad_id: data.variedad_id,
                    temporada_id: data.temporada_id,
                    ..old(self)@.cuadrillas[i as int]
                },
            ));
        }
    }

    /// Appends a crew under the next crew identity, which it returns.
    pub(crate) fn insert_crew(&mut self, leader: Option<i32>, data: CuadrillaData) -> (id: i32)
        requires
            old(self)@.next_cuadrilla_id < i32::MAX,
        ensures
            id == old(self)@.next_cuadrilla_id,
            final(self)@ == (StoreView {
                cuadrillas: old(self)@.cuadrillas.push(new_crew_row(id, leader, data)),
                next_cuadrilla_id: old(self)@.next_cuadrilla_id + 1,
                ..old(self)@
            }),
    {
        let id = self.next_cuadrilla_id;
        self.cuadrillas.push(
            Cuadrilla {
                id,
                lider_cuadrilla_id: leader,
                lote: data.lote,
                variedad_id: data.variedad_id,
                temporada_id: data.temporada_id,
            },
        );
        self.next_cuadrilla_id = id + 1;
        id
    }

    /// Appends a worker under the next worker identity, which it returns.
    pub(crate) fn insert_worker(&mut self, data: JornaleroData) -> (id: i32)
        requires
            old(self)@.next_jornalero_id < i32::MAX,
        ensures
            id == old(self)@.next_jornalero_id,
            final(self)@ == (StoreView {
                jornaleros: old(self)@.jornaleros.push(new_worker_row(id, data)),
                next_jornalero_id: old(self)@.next_jornalero_id + 1,
                ..old(self)@
            }),
    {
        let id = self.next_jornalero_id;
        self.jornaleros.push(
            Jornalero {
                id,
                nombre: data.nombre,
                edad: data.edad,
                estado: data.estado,
                fecha_contratacion: data.fecha_contratacion,
                errores: data.errores,
                cuadrilla_id: data.cuadrilla_id,
            },
        );
        self.next_jornalero_id = id + 1;
        id
    }

    /// Appends a harvest record under the next record identity, which it returns.
    pub(crate) fn insert_production(&mut self, data: ProduccionData) -> (id: i32)
        requires
            old(self)@.next_produccion_id < i32::MAX,
        ensures
            id == old(self)@.next_produccion_id,
            final(self)@ == (StoreView {
                producciones: old(self)@.producciones.push(new_production_row(id, data)),
                next_produccion_id: old(self)@.next_produccion_id + 1,
                ..old(self)@
            }),
    {
        let id = self.next_produccion_id;
        self.producciones.push(
            Produccion {
                id,
                cuadrilla_id: data.cuadrilla_id,
                temporada_id: data.temporada_id,
                cantidad: data.cantidad,
                fecha: data.fecha,
                tipo_empaque_id: data.tipo_empaque_id,
                tipo_uva_id: data.tipo_uva_id,
                cliente_id: data.cliente_id,
                cajas_no_aceptadas: data.cajas_no_aceptadas,
            },
        );
        self.next_produccion_id = id + 1;
        id
    }
    /// Worker at position `i` with the fields of `data`, keeping its identity
    /// and activity state.
    pub(crate) fn rewrite_worker_at(&mut self, i: usize, data: JornaleroData)
        requires
            i < old(self)@.jornaleros.len(),
        ensures
            final(self)@ == (StoreView {
                jornaleros: old(self)@.jornaleros.update(
                    i as int,
                    Jornalero {
                        estado: old(self)@.jornaleros[i as int].estado,
                        ..new_worker_row(old(self)@.jornaleros[i as int].id, data)
                    },
                ),
                ..old(self)@
            }),
    {
        let id = self.jornaleros[i].id;
        let estado = self.jornaleros[i].estado;
        self.jornaleros.set(
            i,
            Jornalero {
                id,
                nombre: data.nombre,
                edad: data.edad,
                estado,
                fecha_contratacion: data.fecha_contratacion,
                errores: data.errores,
                cuadrilla_id: data.cuadrilla_id,
            },
        );
    }
    /// How many workers belong to crew `c`.
    pub fn count_members(&self, c: i32) -> (r: usize)
        ensures
            r == self@.members(c).len(),
    {
        let ghost pred = in_crew(c);
        let mut n: usize = 0;
        let mut i: usize = 0;
        while i < self.jornaleros.len()
            invariant
                i <= self.jornaleros@.len(),
                n == self.jornaleros@.subrange(0, i as int).filter(pred).len(),
                pred == in_crew(c),
                n <= i,
            decreases self.jornaleros.len() - i,
        {
            proof {
                lemma_filter_prefix_step(self.jornaleros@, i as int, pred);
            }
            if self.jornaleros[i].cuadrilla_id == Some(c) {
                n += 1;
            }
            i += 1;
        }
        proof {
            assert(self.jornaleros@.subrange(0, i as int) =~= self.jornaleros@);
        }
        n
    }

    /// How many harvest records reference crew `c`.
    pub fn count_productions(&self, c: i32) -> (r: usize)
        ensures
            r == self@.productions_of(c).len(),
    {
        let ghost pred = produced_by(c);
        let mut n: usize = 0;
        let mut i: usize = 0;
        while i < self.producciones.len()
            invariant
                i <= self.producciones@.len(),
                n == self.producciones@.subrange(0, i as int).filter(pred).len(),
                pred == produced_by(c),
                n <= i,
            decreases self.producciones.len() - i,
        {
            proof {
                lemma_filter_prefix_step(self.producciones@, i as int, pred);
            }
            if self.producciones[i].cuadrilla_id == c {
                n += 1;
            }
            i += 1;
        }
        proof {
            assert(self.producciones@.subrange(0, i as int) =~= self.producciones@);
        }
        n
    }

    /// Leaves every member of crew `c` unassigned and returns how many there were.
    pub(crate) fn release_members(&mut self, c: i32) -> (r: usize)
        ensures
            r == old(self)@.members(c).len(),
            final(self)@ == (StoreView {
                jornaleros: release_members(old(self)@.jornaleros, c),
                ..old(self)@
            }),
    {
        let ghost before = self.jornaleros@;
        let ghost pred = in_crew(c);
        let mut n: usize = 0;
        let mut i: usize = 0;
        while i < self.jornaleros.len()
            invariant
                i <= self.jornaleros@.len(),
                self.jornaleros@.len() == before.len(),
                self.cuadrillas == old(self).cuadrillas,
                self.producciones == old(self).producciones,
                self.next_cuadrilla_id == old(self).next_cuadrilla_id,
                self.next_jornalero_id == old(self).next_jornalero_id,
                self.next_produccion_id == old(self).next_produccion_id,
                before == old(self)@.jornaleros,
                forall|k: int|
                    0 <= k < i ==> #[trigger] self.jornaleros@[k] == release_members(before, c)[k],
                forall|k: int| i <= k < before.len() ==> #[trigger] self.jornaleros@[k] == before[k],
                n == before.subrange(0, i as int).filter(pred).len(),
                pred == in_crew(c),
                n <= i,
            decreases self.jornaleros.len() - i,
        {
            proof {
                lemma_filter_prefix_step(before, i as int, pred);
            }
            if self.jornaleros[i].cuadrilla_id == Some(c) {
                self.jornaleros[i].cuadrilla_id = None;
                n += 1;
            }
            i += 1;
        }
        proof {
            assert(before.subrange(0, i as int) =~= before);
            assert(self.jornaleros@ =~= release_members(before, c));
        }
        n
    }

    /// Removes the crew at position `i`.
    pub(crate) fn remove_crew_at(&mut self, i: usize)
        requires
            i < old(self)@.cuadrillas.len(),
        ensures
            final(self)@ == (StoreView {
                cuadrillas: old(self)@.cuadrillas.remove(i as int),
                ..old(self)@
            }),
    {
        self.cuadrillas.remove(i);
    }
}

} // verus!
