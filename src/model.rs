use vstd::prelude::*;

verus! {

/// Activity state of a worker. Deactivation is a soft delete.
#[derive(Clone, Copy, Debug, PartialEq, Eq, Structural)]
pub enum Estado {
    Activo,
    Inactivo,
}

/// A work crew.
#[derive(Debug)]
pub struct Cuadrilla {
    pub id: i32,
    /// The worker who leads the crew, if any.
    pub lider_cuadrilla_id: Option<i32>,
    /// Free-text plot label.
    pub lote: String,
    pub variedad_id: Option<i32>,
    pub temporada_id: Option<i32>,
}

/// A field worker.
#[derive(Debug)]
pub struct Jornalero {
    pub id: i32,
    pub nombre: String,
    pub edad: i32,
    pub estado: Estado,
    /// Hire date as written by the caller (`YYYY-MM-DD`).
    pub fecha_contratacion: String,
    pub errores: Option<i32>,
    /// The crew the worker belongs to; `None` means unassigned.
    pub cuadrilla_id: Option<i32>,
}

/// A harvest record attributed to a crew.
#[derive(Debug)]
pub struct Produccion {
    pub id: i32,
    pub cuadrilla_id: i32,
    pub temporada_id: i32,
    /// Quantity as decimal text.
    pub cantidad: String,
    /// Date as written by the caller (`YYYY-MM-DD`).
    pub fecha: String,
    pub tipo_empaque_id: Option<i32>,
    pub tipo_uva_id: Option<i32>,
    pub cliente_id: Option<i32>,
    pub cajas_no_aceptadas: Option<i32>,
}

impl Cuadrilla {
    /// A copy of the row.
    pub fn duplicate(&self) -> (r: Cuadrilla)
        ensures
            r == *self,
    {
        Cuadrilla {
            id: self.id,
            lider_cuadrilla_id: self.lider_cuadrilla_id,
            lote: self.lote.clone(),
            variedad_id: self.variedad_id,
            temporada_id: self.temporada_id,
        }
    }
}

impl Jornalero {
    /// A copy of the row.
    pub fn duplicate(&self) -> (r: Jornalero)
        ensures
            r == *self,
    {
        Jornalero {
            id: self.id,
            nombre: self.nombre.clone(),
            edad: self.edad,
            estado: self.estado,
            fecha_contratacion: self.fecha_contratacion.clone(),
            errores: self.errores,
            cuadrilla_id: self.cuadrilla_id,
        }
    }
}

impl Produccion {
    /// A copy of the row.
    pub fn duplicate(&self) -> (r: Produccion)
        ensures
            r == *self,
    {
        Produccion {
            id: self.id,
            cuadrilla_id: self.cuadrilla_id,
            temporada_id: self.temporada_id,
            cantidad: self.cantidad.clone(),
            fecha: self.fecha.clone(),
            tipo_empaque_id: self.tipo_empaque_id,
            tipo_uva_id: self.tipo_uva_id,
            cliente_id: self.cliente_id,
            cajas_no_aceptadas: self.cajas_no_aceptadas,
        }
    }
}

/// A worker belongs to crew `c`.
pub open spec fn in_crew(c: i32) -> spec_fn(Jornalero) -> bool {
    |w: Jornalero| w.cuadrilla_id == Some(c)
}

/// A harvest record references crew `c`.
pub open spec fn produced_by(c: i32) -> spec_fn(Produccion) -> bool {
    |p: Produccion| p.cuadrilla_id == c
}

/// The contents of the entity store: the three tables and the next identity
/// each table hands out.
pub struct StoreView {
    pub cuadrillas: Seq<Cuadrilla>,
    pub jornaleros: Seq<Jornalero>,
    pub producciones: Seq<Produccion>,
    pub next_cuadrilla_id: int,
    pub next_jornalero_id: int,
    pub next_produccion_id: int,
}

impl StoreView {
    pub open spec fn crew_exists(self, id: i32) -> bool {
        exists|i: int| 0 <= i < self.cuadrillas.len() && (#[trigger] self.cuadrillas[i]).id == id
    }

    pub open spec fn crew_index(self, id: i32) -> int {
        choose|i: int| 0 <= i < self.cuadrillas.len() && (#[trigger] self.cuadrillas[i]).id == id
    }

    /// The crew with identity `id` (meaningful where `crew_exists(id)`).
    pub open spec fn crew(self, id: i32) -> Cuadrilla {
        self.cuadrillas[self.crew_index(id)]
    }

    pub open spec fn worker_exists(self, id: i32) -> bool {
        exists|i: int| 0 <= i < self.jornaleros.len() && (#[trigger] self.jornaleros[i]).id == id
    }

    pub open spec fn worker_index(self, id: i32) -> int {
        choose|i: int| 0 <= i < self.jornaleros.len() && (#[trigger] self.jornaleros[i]).id == id
    }

    /// The worker with identity `id` (meaningful where `worker_exists(id)`).
    pub open spec fn worker(self, id: i32) -> Jornalero {
        self.jornaleros[self.worker_index(id)]
    }

    /// Some crew names worker `w` as its leader.
    pub open spec fn leads_some_crew(self, w: i32) -> bool {
        exists|i: int|
            0 <= i < self.cuadrillas.len() && (#[trigger] self.cuadrillas[i]).lider_cuadrilla_id
                == Some(w)
    }

    /// The crew that worker `w` leads (meaningful where `leads_some_crew(w)`).
    pub open spec fn led_crew(self, w: i32) -> i32 {
        self.cuadrillas[choose|i: int|
            0 <= i < self.cuadrillas.len() && (#[trigger] self.cuadrillas[i]).lider_cuadrilla_id
                == Some(w)].id
    }

    /// The workers whose crew is `c`.
    pub open spec fn members(self, c: i32) -> Seq<Jornalero> {
        self.jornaleros.filter(in_crew(c))
    }

    /// The harvest records that reference crew `c`.
    pub open spec fn productions_of(self, c: i32) -> Seq<Produccion> {
        self.producciones.filter(produced_by(c))
    }

    pub open spec fn ids_fresh_and_unique(self) -> bool {
        &&& 1 <= self.next_cuadrilla_id <= i32::MAX
        &&& 1 <= self.next_jornalero_id <= i32::MAX
        &&& 1 <= self.next_produccion_id <= i32::MAX
        &&& forall|i: int|
            0 <= i < self.cuadrillas.len() ==> 1 <= (#[trigger] self.cuadrillas[i]).id
                < self.next_cuadrilla_id
        &&& forall|i: int|
            0 <= i < self.jornaleros.len() ==> 1 <= (#[trigger] self.jornaleros[i]).id
                < self.next_jornalero_id
        &&& forall|i: int|
            0 <= i < self.producciones.len() ==> 1 <= (#[trigger] self.producciones[i]).id
                < self.next_produccion_id
        &&& forall|i: int, j: int|
            0 <= i < j < self.cuadrillas.len() ==> (#[trigger] self.cuadrillas[i]).id
                != (#[trigger] self.cuadrillas[j]).id
        &&& forall|i: int, j: int|
            0 <= i < j < self.jornaleros.len() ==> (#[trigger] self.jornaleros[i]).id
                != (#[trigger] self.jornaleros[j]).id
        &&& forall|i: int, j: int|
            0 <= i < j < self.producciones.len() ==> (#[trigger] self.producciones[i]).id
                != (#[trigger] self.producciones[j]).id
    }

    /// A crew's leader, if set, is an existing worker whose crew is that crew.
    pub open spec fn leaders_are_members(self) -> bool {
        forall|i: int|
            0 <= i < self.cuadrillas.len() && (#[trigger] self.cuadrillas[i]).lider_cuadrilla_id
                is Some ==> {
                let w = self.cuadrillas[i].lider_cuadrilla_id->0;
                self.worker_exists(w) && self.worker(w).cuadrilla_id == Some(self.cuadrillas[i].id)
            }
    }

    /// An inactive worker belongs to no crew.
    pub open spec fn inactive_unassigned(self) -> bool {
        forall|i: int|
            0 <= i < self.jornaleros.len() && (#[trigger] self.jornaleros[i]).estado
                == Estado::Inactivo ==> self.jornaleros[i].cuadrilla_id is None
    }

    /// A worker's crew, if set, is an existing crew.
    pub open spec fn memberships_resolve(self) -> bool {
        forall|i: int|
            0 <= i < self.jornaleros.len() && (#[trigger] self.jornaleros[i]).cuadrilla_id
                is Some ==> self.crew_exists(self.jornaleros[i].cuadrilla_id->0)
    }

    /// Under unique identities, a crew found at `i` is the crew `crew(id)`.
    pub proof fn lemma_crew_at(self, i: int, id: i32)
        requires
            self.ids_fresh_and_unique(),
            0 <= i < self.cuadrillas.len(),
            self.cuadrillas[i].id == id,
        ensures
            self.crew_exists(id),
            self.crew_index(id) == i,
            self.crew(id) == self.cuadrillas[i],
    {
        let j = self.crew_index(id);
        assert(self.cuadrillas[j].id == id);
        if j < i {
            assert(self.cuadrillas[j].id != self.cuadrillas[i].id);
        } else if i < j {
            assert(self.cuadrillas[i].id != self.cuadrillas[j].id);
        }
    }

    /// Under unique identities, a worker found at `i` is the worker `worker(id)`.
    pub proof fn lemma_worker_at(self, i: int, id: i32)
        requires
            self.ids_fresh_and_unique(),
            0 <= i < self.jornaleros.len(),
            self.jornaleros[i].id == id,
        ensures
            self.worker_exists(id),
            self.worker_index(id) == i,
            self.worker(id) == self.jornaleros[i],
    {
        let j = self.worker_index(id);
        assert(self.jornaleros[j].id == id);
        if j < i {
            assert(self.jornaleros[j].id != self.jornaleros[i].id);
        } else if i < j {
            assert(self.jornaleros[i].id != self.jornaleros[j].id);
        }
    }

    /// A worker leads at most one crew: the one they belong to.
    pub proof fn lemma_led_crew_at(self, i: int, w: i32)
        requires
            self.wf(),
            0 <= i < self.cuadrillas.len(),
            self.cuadrillas[i].lider_cuadrilla_id == Some(w),
        ensures
            self.leads_some_crew(w),
            self.led_crew(w) == self.cuadrillas[i].id,
            self.worker_exists(w),
            self.worker(w).cuadrilla_id == Some(self.led_crew(w)),
    {
        let j = choose|j: int|
            0 <= j < self.cuadrillas.len() && (#[trigger] self.cuadrillas[j]).lider_cuadrilla_id
                == Some(w);
        assert(self.cuadrillas[j].lider_cuadrilla_id is Some);
        assert(self.cuadrillas[i].lider_cuadrilla_id is Some);
    }

    /// The store's invariant.
    pub open spec fn wf(self) -> bool {
        &&& self.ids_fresh_and_unique()
        &&& self.leaders_are_members()
        &&& self.inactive_unassigned()
        &&& self.memberships_resolve()
    }
}

} // verus!
