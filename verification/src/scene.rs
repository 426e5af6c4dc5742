//! The scene graph: imported objects, their meshes, and stable mesh ids.
//!
//! The graph owns every imported object. Each mesh carries a process-unique
//! id drawn from a single monotonically increasing counter owned by the
//! graph; ids are assigned on insertion and never reused, even after
//! deletion, so the UI can track meshes across mutations. Deletion on an
//! invalid index fails and leaves the graph untouched.

use vstd::prelude::*;

use crate::bounding::BoundingSphere;
use crate::fixed::SCALE;
use crate::material::{MaterialDesc, RawMaterial};

verus! {

/// Errors of scene-graph mutations.
#[derive(Clone, Copy, Debug, PartialEq, Eq, Structural)]
pub enum SceneError {
    IndexOutOfRange,
}

/// A fixed-point model transform in column-major order.
#[derive(Clone, Copy, Debug)]
pub struct Mat4Fx {
    pub m: [i64; 16],
}

impl Mat4Fx {
    /// The identity transform: `SCALE` on the diagonal, zero elsewhere.
    pub fn identity() -> (r: Mat4Fx)
        ensures
            forall|i: int|
                0 <= i < 16 ==> r.m@[i] == (if i % 5 == 0 {
                    SCALE as int
                } else {
                    0
                }),
    {
        let m: [i64; 16] = [
            SCALE,
            0,
            0,
            0,
            0,
            SCALE,
            0,
            0,
            0,
            0,
            SCALE,
            0,
            0,
            0,
            0,
            SCALE,
        ];
        Mat4Fx { m }
    }
}

/// One renderable mesh: interleaved vertex data (position, normal and
/// texture coordinates per vertex), the index buffer, its resolved material
/// and bounding sphere, and the per-mesh UI flags. The id is assigned by
/// the scene graph on insertion.
#[derive(Clone, Debug)]
pub struct MeshDesc {
    pub name: String,
    pub mesh_id: usize,
    pub vertex_data: Vec<i64>,
    pub indices: Vec<u32>,
    pub element_count: usize,
    pub model_matrix: Mat4Fx,
    pub material_id: usize,
    pub mat_desc: MaterialDesc,
    pub show: bool,
    pub highlight: bool,
    pub bounding_sphere: BoundingSphere,
}

/// One imported object: its meshes in order, and the raw material records
/// retained for reference.
#[derive(Clone, Debug)]
pub struct ObjDesc {
    pub name: String,
    pub meshes: Vec<MeshDesc>,
    pub materials: Vec<RawMaterial>,
}

/// The scene graph. `next_id` is the single id counter shared across the
/// whole graph.
pub struct SceneGraph {
    pub objs: Vec<ObjDesc>,
    pub next_id: usize,
}

impl SceneGraph {
    /// `(o, m)` addresses a mesh of the graph.
    pub open spec fn valid_mesh_index(self, o: int, m: int) -> bool {
        &&& 0 <= o < self.objs@.len()
        &&& 0 <= m < self.objs@[o].meshes@.len()
    }

    /// Some mesh of the graph carries this id.
    pub open spec fn has_mesh(self, mesh_id: usize) -> bool {
        exists|o: int, m: int|
            self.valid_mesh_index(o, m) && #[trigger] self.objs@[o].meshes@[m].mesh_id == mesh_id
    }

    /// Well-formed graph: every mesh id is below the counter, and no two
    /// meshes share an id.
    pub open spec fn wf(self) -> bool {
        &&& forall|o: int, m: int|
            self.valid_mesh_index(o, m) ==> #[trigger] self.objs@[o].meshes@[m].mesh_id
                < self.next_id
        &&& forall|o1: int, m1: int, o2: int, m2: int|
            #![trigger self.objs@[o1].meshes@[m1].mesh_id, self.objs@[o2].meshes@[m2].mesh_id]
            self.valid_mesh_index(o1, m1) && self.valid_mesh_index(o2, m2) && (o1 != o2 || m1
                != m2) ==> self.objs@[o1].meshes@[m1].mesh_id != self.objs@[o2].meshes@[m2].mesh_id
    }

    /// An empty graph whose counter starts at one.
    pub fn new() -> (g: SceneGraph)
        ensures
            g.objs@.len() == 0,
            g.next_id == 1,
            g.wf(),
    {
        SceneGraph { objs: Vec::new(), next_id: 1 }
    }

    /// Append an object; every contained mesh receives the next value of
    /// the id counter, in order. Nothing else changes.
    pub fn add_object(&mut self, obj: ObjDesc)
        requires
            old(self).wf(),
            old(self).next_id + obj.meshes@.len() <= usize::MAX,
        ensures
            final(self).objs@.len() == old(self).objs@.len() + 1,
            forall|o: int|
                0 <= o < old(self).objs@.len() ==> final(self).objs@[o] == old(self).objs@[o],
            final(self).objs@.last().name == obj.name,
            final(self).objs@.last().materials == obj.materials,
            final(self).objs@.last().meshes@.len() == obj.meshes@.len(),
            forall|m: int|
                0 <= m < obj.meshes@.len() ==> final(self).objs@.last().meshes@[m] == (MeshDesc {
                    mesh_id: (old(self).next_id + m) as usize,
                    ..obj.meshes@[m]
                }),
            final(self).next_id == old(self).next_id + obj.meshes@.len(),
            final(self).wf(),
    {
        let ghost orig = obj;
        let ghost entry_next = self.next_id as int;
        let mut obj = obj;
        let mut i: usize = 0;
        while i < obj.meshes.len()
            invariant
                0 <= i <= obj.meshes@.len(),
                obj.meshes@.len() == orig.meshes@.len(),
                obj.name == orig.name,
                obj.materials == orig.materials,
                self.objs == old(self).objs,
                self.next_id == entry_next + i,
                entry_next + orig.meshes@.len() <= usize::MAX,
                forall|m: int|
                    0 <= m < i ==> obj.meshes@[m] == (MeshDesc {
                        mesh_id: (entry_next + m) as usize,
                        ..orig.meshes@[m]
                    }),
                forall|m: int| i <= m < obj.meshes@.len() ==> obj.meshes@[m] == orig.meshes@[m],
            decreases obj.meshes@.len() - i,
        {
            let id = self.next_id;
            set_mesh_id(&mut obj.meshes[i], id);
            self.next_id = id + 1;
            i = i + 1;
        }
        self.objs.push(obj);

        proof {
            lemma_add_object_wf(*old(self), *self, orig);
        }
    }

    /// Remove one mesh of one object. On an invalid index the graph is
    /// unchanged and the error says so.
    pub fn delete_mesh(&mut self, object_index: usize, mesh_index: usize) -> (r: Result<
        (),
        SceneError,
    >)
        requires
            old(self).wf(),
        ensures
            r is Ok <==> object_index < old(self).objs@.len() && mesh_index < old(
                self,
            ).objs@[object_index as int].meshes@.len(),
            r is Err ==> *final(self) == *old(self) && r == Err::<(), SceneError>(
                SceneError::IndexOutOfRange,
            ),
            r is Ok ==> {
                &&& final(self).objs@.len() == old(self).objs@.len()
                &&& final(self).next_id == old(self).next_id
                &&& forall|o: int|
                    0 <= o < old(self).objs@.len() && o != object_index ==> final(self).objs@[o]
                        == old(self).objs@[o]
                &&& final(self).objs@[object_index as int].name == old(
                    self,
                ).objs@[object_index as int].name
                &&& final(self).objs@[object_index as int].materials == old(
                    self,
                ).objs@[object_index as int].materials
                &&& final(self).objs@[object_index as int].meshes@ == old(
                    self,
                ).objs@[object_index as int].meshes@.remove(mesh_index as int)
            },
            final(self).wf(),
    {
        if object_index >= self.objs.len() {
            return Err(SceneError::IndexOutOfRange);
        }
        if mesh_index >= self.objs[object_index].meshes.len() {
            return Err(SceneError::IndexOutOfRange);
        }
        let obj = &mut self.objs[object_index];
        obj.meshes.remove(mesh_index);
        proof {
            lemma_delete_mesh_wf(*old(self), *self, object_index as int, mesh_index as int);
        }
        Ok(())
    }

    /// Remove one whole object. On an invalid index the graph is unchanged
    /// and the error says so.
    pub fn delete_object(&mut self, object_index: usize) -> (r: Result<(), SceneError>)
        requires
            old(self).wf(),
        ensures
            r is Ok <==> object_index < old(self).objs@.len(),
            r is Err ==> *final(self) == *old(self) && r == Err::<(), SceneError>(
                SceneError::IndexOutOfRange,
            ),
            r is Ok ==> {
                &&& final(self).objs@ == old(self).objs@.remove(object_index as int)
                &&& final(self).next_id == old(self).next_id
            },
            final(self).wf(),
    {
        if object_index >= self.objs.len() {
            return Err(SceneError::IndexOutOfRange);
        }
        self.objs.remove(object_index);
        proof {
            lemma_delete_object_wf(*old(self), *self, object_index as int);
        }
        Ok(())
    }
}

impl SceneGraph {
    /// Set the `show` flag of the mesh carrying this id, in place; reports
    /// whether such a mesh exists. No other field of any mesh changes.
    pub fn set_visibility(&mut self, mesh_id: usize, value: bool) -> (found: bool)
        requires
            old(self).wf(),
        ensures
            found == old(self).has_mesh(mesh_id),
            final(self).next_id == old(self).next_id,
            final(self).objs@.len() == old(self).objs@.len(),
            forall|o: int|
                0 <= o < old(self).objs@.len() ==> #[trigger] final(self).objs@[o].name == old(
                    self,
                ).objs@[o].name && final(self).objs@[o].materials == old(self).objs@[o].materials
                    && final(self).objs@[o].meshes@.len() == old(self).objs@[o].meshes@.len(),
            forall|o: int, m: int|
                old(self).valid_mesh_index(o, m) ==> #[trigger] final(self).objs@[o].meshes@[m]
                    == (MeshDesc {
                    show: if old(self).objs@[o].meshes@[m].mesh_id == mesh_id {
                        value
                    } else {
                        old(self).objs@[o].meshes@[m].show
                    },
                    ..old(self).objs@[o].meshes@[m]
                }),
            final(self).wf(),
    {
        let mut found = false;
        let mut o: usize = 0;
        let n = self.objs.len();
        while o < n
            invariant
                0 <= o <= n,
                n == self.objs@.len(),
                self.objs@.len() == old(self).objs@.len(),
                self.next_id == old(self).next_id,
                forall|oo: int|
                    o <= oo < self.objs@.len() ==> #[trigger] self.objs@[oo] == old(
                        self,
                    ).objs@[oo],
                forall|oo: int|
                    0 <= oo < o ==> #[trigger] self.objs@[oo].name == old(self).objs@[oo].name
                        && self.objs@[oo].materials == old(self).objs@[oo].materials
                        && self.objs@[oo].meshes@.len() == old(self).objs@[oo].meshes@.len(),
                forall|oo: int, m: int|
                    0 <= oo < o && 0 <= m < old(self).objs@[oo].meshes@.len()
                        ==> #[trigger] self.objs@[oo].meshes@[m] == (MeshDesc {
                        show: if old(self).objs@[oo].meshes@[m].mesh_id == mesh_id {
                            value
                        } else {
                            old(self).objs@[oo].meshes@[m].show
                        },
                        ..old(self).objs@[oo].meshes@[m]
                    }),
                found == exists|oo: int, m: int|
                    0 <= oo < o && 0 <= m < old(self).objs@[oo].meshes@.len() && #[trigger] old(
                        self,
                    ).objs@[oo].meshes@[m].mesh_id == mesh_id,
            decreases n - o,
        {
            let f = set_show_in_obj(&mut self.objs[o], mesh_id, value);
            found = found || f;
            o = o + 1;
        }
        proof {
            assert forall|bo: int|
                0 <= bo < old(self).objs@.len() implies #[trigger] self.objs@[bo].meshes@.len()
                == old(self).objs@[bo].meshes@.len() by {
                assert(self.objs@[bo].name == old(self).objs@[bo].name);
            }
            assert forall|bo: int, bm: int|
                old(self).valid_mesh_index(bo, bm) implies #[trigger] self.objs@[bo].meshes@[bm].mesh_id
                == old(self).objs@[bo].meshes@[bm].mesh_id by {
                assert(0 <= bo < old(self).objs@.len() && 0 <= bm < old(self).objs@[bo].meshes@.len());
                assert(self.objs@[bo].meshes@[bm].mesh_id == old(self).objs@[bo].meshes@[bm].mesh_id);
            }
            lemma_flags_preserve_wf(*old(self), *self);
            if found {
                assert(old(self).has_mesh(mesh_id));
            }
            if old(self).has_mesh(mesh_id) {
                let (wo, wm) = choose|wo: int, wm: int|
                    old(self).valid_mesh_index(wo, wm) && #[trigger] old(
                        self,
                    ).objs@[wo].meshes@[wm].mesh_id == mesh_id;
                assert(0 <= wo < o && 0 <= wm < old(self).objs@[wo].meshes@.len() && old(
                    self,
                ).objs@[wo].meshes@[wm].mesh_id == mesh_id);
            }
        }
        found
    }

    /// Set the `highlight` flag of the mesh carrying this id, in place;
    /// reports whether such a mesh exists. No other field of any mesh
    /// changes.
    pub fn set_highlight(&mut self, mesh_id: usize, value: bool) -> (found: bool)
        requires
            old(self).wf(),
        ensures
            found == old(self).has_mesh(mesh_id),
            final(self).next_id == old(self).next_id,
            final(self).objs@.len() == old(self).objs@.len(),
            forall|o: int|
                0 <= o < old(self).objs@.len() ==> #[trigger] final(self).objs@[o].name == old(
                    self,
                ).objs@[o].name && final(self).objs@[o].materials == old(self).objs@[o].materials
                    && final(self).objs@[o].meshes@.len() == old(self).objs@[o].meshes@.len(),
            forall|o: int, m: int|
                old(self).valid_mesh_index(o, m) ==> #[trigger] final(self).objs@[o].meshes@[m]
                    == (MeshDesc {
                    highlight: if old(self).objs@[o].meshes@[m].mesh_id == mesh_id {
                        value
                    } else {
                        old(self).objs@[o].meshes@[m].highlight
                    },
                    ..old(self).objs@[o].meshes@[m]
                }),
            final(self).wf(),
    {
        let mut found = false;
        let mut o: usize = 0;
        let n = self.objs.len();
        while o < n
            invariant
                0 <= o <= n,
                n == self.objs@.len(),
                self.objs@.len() == old(self).objs@.len(),
                self.next_id == old(self).next_id,
                forall|oo: int|
                    o <= oo < self.objs@.len() ==> #[trigger] self.objs@[oo] == old(
                        self,
                    ).objs@[oo],
                forall|oo: int|
                    0 <= oo < o ==> #[trigger] self.objs@[oo].name == old(self).objs@[oo].name
                        && self.objs@[oo].materials == old(self).objs@[oo].materials
                        && self.objs@[oo].meshes@.len() == old(self).objs@[oo].meshes@.len(),
                forall|oo: int, m: int|
                    0 <= oo < o && 0 <= m < old(self).objs@[oo].meshes@.len()
                        ==> #[trigger] self.objs@[oo].meshes@[m] == (MeshDesc {
                        highlight: if old(self).objs@[oo].meshes@[m].mesh_id == mesh_id {
                            value
                        } else {
                            old(self).objs@[oo].meshes@[m].highlight
                        },
                        ..old(self).objs@[oo].meshes@[m]
                    }),
                found == exists|oo: int, m: int|
                    0 <= oo < o && 0 <= m < old(self).objs@[oo].meshes@.len() && #[trigger] old(
                        self,
                    ).objs@[oo].meshes@[m].mesh_id == mesh_id,
            decreases n - o,
        {
            let f = set_highlight_in_obj(&mut self.objs[o], mesh_id, value);
            found = found || f;
            o = o + 1;
        }
        proof {
            assert forall|bo: int|
                0 <= bo < old(self).objs@.len() implies #[trigger] self.objs@[bo].meshes@.len()
                == old(self).objs@[bo].meshes@.len() by {
                assert(self.objs@[bo].name == old(self).objs@[bo].name);
            }
            assert forall|bo: int, bm: int|
                old(self).valid_mesh_index(bo, bm) implies #[trigger] self.objs@[bo].meshes@[bm].mesh_id
                == old(self).objs@[bo].meshes@[bm].mesh_id by {
                assert(0 <= bo < old(self).objs@.len() && 0 <= bm < old(self).objs@[bo].meshes@.len());
                assert(self.objs@[bo].meshes@[bm].mesh_id == old(self).objs@[bo].meshes@[bm].mesh_id);
            }
            lemma_flags_preserve_wf(*old(self), *self);
            if found {
                assert(old(self).has_mesh(mesh_id));
            }
            if old(self).has_mesh(mesh_id) {
                let (wo, wm) = choose|wo: int, wm: int|
                    old(self).valid_mesh_index(wo, wm) && #[trigger] old(
                        self,
                    ).objs@[wo].meshes@[wm].mesh_id == mesh_id;
                assert(0 <= wo < o && 0 <= wm < old(self).objs@[wo].meshes@.len() && old(
                    self,
                ).objs@[wo].meshes@[wm].mesh_id == mesh_id);
            }
        }
        found
    }

    /// Find the mesh carrying this id by linear scan.
    pub fn find_mesh(&self, mesh_id: usize) -> (r: Option<&MeshDesc>)
        ensures
            match r {
                Option::Some(mesh) => mesh.mesh_id == mesh_id && exists|o: int, m: int|
                    self.valid_mesh_index(o, m) && #[trigger] self.objs@[o].meshes@[m] == *mesh,
                Option::None => !self.has_mesh(mesh_id),
            },
    {
        let mut o: usize = 0;
        let n = self.objs.len();
        while o < n
            invariant
                0 <= o <= n,
                n == self.objs@.len(),
                forall|oo: int, m: int|
                    0 <= oo < o && 0 <= m < self.objs@[oo].meshes@.len()
                        ==> #[trigger] self.objs@[oo].meshes@[m].mesh_id != mesh_id,
            decreases n - o,
        {
            let r = find_in_obj(&self.objs[o], mesh_id);
            if let Option::Some(mesh) = r {
                return Option::Some(mesh);
            }
            o = o + 1;
        }
        Option::None
    }
}

/// Set the `show` flag of every mesh of one object that carries the id.
fn set_show_in_obj(obj: &mut ObjDesc, mesh_id: usize, value: bool) -> (found: bool)
    ensures
        found == exists|m: int|
            0 <= m < old(obj).meshes@.len() && #[trigger] old(obj).meshes@[m].mesh_id == mesh_id,
        final(obj).name == old(obj).name,
        final(obj).materials == old(obj).materials,
        final(obj).meshes@.len() == old(obj).meshes@.len(),
        forall|m: int|
            0 <= m < old(obj).meshes@.len() ==> #[trigger] final(obj).meshes@[m] == (MeshDesc {
                show: if old(obj).meshes@[m].mesh_id == mesh_id {
                    value
                } else {
                    old(obj).meshes@[m].show
                },
                ..old(obj).meshes@[m]
            }),
{
    let mut found = false;
    let mut m: usize = 0;
    let n = obj.meshes.len();
    while m < n
        invariant
            0 <= m <= n,
            n == obj.meshes@.len(),
            obj.meshes@.len() == old(obj).meshes@.len(),
            obj.name == old(obj).name,
            obj.materials == old(obj).materials,
            forall|mm: int| m <= mm < obj.meshes@.len() ==> obj.meshes@[mm] == old(obj).meshes@[mm],
            forall|mm: int|
                0 <= mm < m ==> #[trigger] obj.meshes@[mm] == (MeshDesc {
                    show: if old(obj).meshes@[mm].mesh_id == mesh_id {
                        value
                    } else {
                        old(obj).meshes@[mm].show
                    },
                    ..old(obj).meshes@[mm]
                }),
            found == exists|mm: int|
                0 <= mm < m && #[trigger] old(obj).meshes@[mm].mesh_id == mesh_id,
        decreases n - m,
    {
        if obj.meshes[m].mesh_id == mesh_id {
            set_mesh_show(&mut obj.meshes[m], value);
            found = true;
        }
        m = m + 1;
    }
    found
}

/// Set the `highlight` flag of every mesh of one object that carries the id.
fn set_highlight_in_obj(obj: &mut ObjDesc, mesh_id: usize, value: bool) -> (found: bool)
    ensures
        found == exists|m: int|
            0 <= m < old(obj).meshes@.len() && #[trigger] old(obj).meshes@[m].mesh_id == mesh_id,
        final(obj).name == old(obj).name,
        final(obj).materials == old(obj).materials,
        final(obj).meshes@.len() == old(obj).meshes@.len(),
        forall|m: int|
            0 <= m < old(obj).meshes@.len() ==> #[trigger] final(obj).meshes@[m] == (MeshDesc {
                highlight: if old(obj).meshes@[m].mesh_id == mesh_id {
                    value
                } else {
                    old(obj).meshes@[m].highlight
                },
                ..old(obj).meshes@[m]
            }),
{
    let mut found = false;
    let mut m: usize = 0;
    let n = obj.meshes.len();
    while m < n
        invariant
            0 <= m <= n,
            n == obj.meshes@.len(),
            obj.meshes@.len() == old(obj).meshes@.len(),
            obj.name == old(obj).name,
            obj.materials == old(obj).materials,
            forall|mm: int| m <= mm < obj.meshes@.len() ==> obj.meshes@[mm] == old(obj).meshes@[mm],
            forall|mm: int|
                0 <= mm < m ==> #[trigger] obj.meshes@[mm] == (MeshDesc {
                    highlight: if old(obj).meshes@[mm].mesh_id == mesh_id {
                        value
                    } else {
                        old(obj).meshes@[mm].highlight
                    },
                    ..old(obj).meshes@[mm]
                }),
            found == exists|mm: int|
                0 <= mm < m && #[trigger] old(obj).meshes@[mm].mesh_id == mesh_id,
        decreases n - m,
    {
        if obj.meshes[m].mesh_id == mesh_id {
            set_mesh_highlight(&mut obj.meshes[m], value);
            found = true;
        }
        m = m + 1;
    }
    found
}

/// Find a mesh by id within one object.
fn find_in_obj(obj: &ObjDesc, mesh_id: usize) -> (r: Option<&MeshDesc>)
    ensures
        match r {
            Option::Some(mesh) => mesh.mesh_id == mesh_id && exists|m: int|
                0 <= m < obj.meshes@.len() && #[trigger] obj.meshes@[m] == *mesh,
            Option::None => forall|m: int|
                0 <= m < obj.meshes@.len() ==> #[trigger] obj.meshes@[m].mesh_id != mesh_id,
        },
{
    let mut m: usize = 0;
    let n = obj.meshes.len();
    while m < n
        invariant
            0 <= m <= n,
            n == obj.meshes@.len(),
            forall|mm: int| 0 <= mm < m ==> #[trigger] obj.meshes@[mm].mesh_id != mesh_id,
        decreases n - m,
    {
        if obj.meshes[m].mesh_id == mesh_id {
            return Option::Some(&obj.meshes[m]);
        }
        m = m + 1;
    }
    Option::None
}

/// A change that keeps every mesh id in place keeps the graph well-formed.
proof fn lemma_flags_preserve_wf(pre: SceneGraph, post: SceneGraph)
    requires
        pre.wf(),
        post.next_id == pre.next_id,
        post.objs@.len() == pre.objs@.len(),
        forall|o: int|
            0 <= o < pre.objs@.len() ==> #[trigger] post.objs@[o].meshes@.len()
                == pre.objs@[o].meshes@.len(),
        forall|o: int, m: int|
            pre.valid_mesh_index(o, m) ==> #[trigger] post.objs@[o].meshes@[m].mesh_id
                == pre.objs@[o].meshes@[m].mesh_id,
    ensures
        post.wf(),
{
    assert forall|o: int, m: int| post.valid_mesh_index(o, m) implies #[trigger] post.objs@[o].meshes@[m].mesh_id < post.next_id by {
        assert(pre.valid_mesh_index(o, m));
    }
    assert forall|o1: int, m1: int, o2: int, m2: int|
        #![trigger post.objs@[o1].meshes@[m1].mesh_id, post.objs@[o2].meshes@[m2].mesh_id]
        post.valid_mesh_index(o1, m1) && post.valid_mesh_index(o2, m2) && (o1 != o2 || m1
            != m2) implies post.objs@[o1].meshes@[m1].mesh_id != post.objs@[o2].meshes@[m2].mesh_id by {
        assert(pre.valid_mesh_index(o1, m1));
        assert(pre.valid_mesh_index(o2, m2));
        assert(post.objs@[o1].meshes@[m1].mesh_id == pre.objs@[o1].meshes@[m1].mesh_id);
        assert(post.objs@[o2].meshes@[m2].mesh_id == pre.objs@[o2].meshes@[m2].mesh_id);
    }
}

/// Set the `show` flag, leaving every other field alone.
fn set_mesh_show(mesh: &mut MeshDesc, value: bool)
    ensures
        *final(mesh) == (MeshDesc { show: value, ..*old(mesh) }),
{
    mesh.show = value;
}

/// Set the `highlight` flag, leaving every other field alone.
fn set_mesh_highlight(mesh: &mut MeshDesc, value: bool)
    ensures
        *final(mesh) == (MeshDesc { highlight: value, ..*old(mesh) }),
{
    mesh.highlight = value;
}

/// Law: in a well-formed graph no two meshes share an id, and every id
/// lies below the counter, so an id handed out once is never assigned
/// again.
pub proof fn lemma_mesh_ids_unique(g: SceneGraph, o1: int, m1: int, o2: int, m2: int)
    requires
        g.wf(),
        g.valid_mesh_index(o1, m1),
        g.valid_mesh_index(o2, m2),
        o1 != o2 || m1 != m2,
    ensures
        g.objs@[o1].meshes@[m1].mesh_id != g.objs@[o2].meshes@[m2].mesh_id,
        g.objs@[o1].meshes@[m1].mesh_id < g.next_id,
{
}

/// Assign a mesh id, leaving every other field alone.
fn set_mesh_id(mesh: &mut MeshDesc, id: usize)
    ensures
        *final(mesh) == (MeshDesc { mesh_id: id, ..*old(mesh) }),
{
    mesh.mesh_id = id;
}

/// Appending an object with freshly assigned consecutive ids keeps the
/// graph well-formed.
proof fn lemma_add_object_wf(pre: SceneGraph, post: SceneGraph, orig: ObjDesc)
    requires
        pre.wf(),
        post.objs@.len() == pre.objs@.len() + 1,
        forall|o: int| 0 <= o < pre.objs@.len() ==> post.objs@[o] == pre.objs@[o],
        post.objs@.last().meshes@.len() == orig.meshes@.len(),
        forall|m: int|
            0 <= m < orig.meshes@.len() ==> post.objs@.last().meshes@[m] == (MeshDesc {
                mesh_id: (pre.next_id + m) as usize,
                ..orig.meshes@[m]
            }),
        pre.next_id + orig.meshes@.len() <= usize::MAX,
        post.next_id == pre.next_id + orig.meshes@.len(),
    ensures
        post.wf(),
{
    let last = pre.objs@.len() as int;
    assert forall|o: int, m: int| post.valid_mesh_index(o, m) implies #[trigger] post.objs@[o].meshes@[m].mesh_id < post.next_id by {
        if o < last {
            assert(pre.valid_mesh_index(o, m));
        }
    }
    assert forall|o1: int, m1: int, o2: int, m2: int|
        #![trigger post.objs@[o1].meshes@[m1].mesh_id, post.objs@[o2].meshes@[m2].mesh_id]
        post.valid_mesh_index(o1, m1) && post.valid_mesh_index(o2, m2) && (o1 != o2 || m1
            != m2) implies post.objs@[o1].meshes@[m1].mesh_id != post.objs@[o2].meshes@[m2].mesh_id by {
        if o1 < last && o2 < last {
            assert(pre.valid_mesh_index(o1, m1));
            assert(pre.valid_mesh_index(o2, m2));
        } else if o1 < last && o2 == last {
            assert(pre.valid_mesh_index(o1, m1));
            assert(pre.objs@[o1].meshes@[m1].mesh_id < pre.next_id);
        } else if o1 == last && o2 < last {
            assert(pre.valid_mesh_index(o2, m2));
            assert(pre.objs@[o2].meshes@[m2].mesh_id < pre.next_id);
        }
    }
}

/// Removing a mesh keeps the graph well-formed.
proof fn lemma_delete_mesh_wf(pre: SceneGraph, post: SceneGraph, oi: int, mi: int)
    requires
        pre.wf(),
        pre.valid_mesh_index(oi, mi),
        post.objs@.len() == pre.objs@.len(),
        post.next_id == pre.next_id,
        forall|o: int| 0 <= o < pre.objs@.len() && o != oi ==> post.objs@[o] == pre.objs@[o],
        post.objs@[oi].meshes@ == pre.objs@[oi].meshes@.remove(mi),
    ensures
        post.wf(),
{
    assert forall|o: int, m: int| post.valid_mesh_index(o, m) implies #[trigger] post.objs@[o].meshes@[m].mesh_id < post.next_id by {
        let mm = if o == oi && m >= mi {
            m + 1
        } else {
            m
        };
        assert(pre.valid_mesh_index(o, mm));
        assert(post.objs@[o].meshes@[m] == pre.objs@[o].meshes@[mm]);
    }
    assert forall|o1: int, m1: int, o2: int, m2: int|
        #![trigger post.objs@[o1].meshes@[m1].mesh_id, post.objs@[o2].meshes@[m2].mesh_id]
        post.valid_mesh_index(o1, m1) && post.valid_mesh_index(o2, m2) && (o1 != o2 || m1
            != m2) implies post.objs@[o1].meshes@[m1].mesh_id != post.objs@[o2].meshes@[m2].mesh_id by {
        let n1 = if o1 == oi && m1 >= mi {
            m1 + 1
        } else {
            m1
        };
        let n2 = if o2 == oi && m2 >= mi {
            m2 + 1
        } else {
            m2
        };
        assert(pre.valid_mesh_index(o1, n1));
        assert(pre.valid_mesh_index(o2, n2));
        assert(post.objs@[o1].meshes@[m1] == pre.objs@[o1].meshes@[n1]);
        assert(post.objs@[o2].meshes@[m2] == pre.objs@[o2].meshes@[n2]);
    }
}

/// Removing an object keeps the graph well-formed.
proof fn lemma_delete_object_wf(pre: SceneGraph, post: SceneGraph, oi: int)
    requires
        pre.wf(),
        0 <= oi < pre.objs@.len(),
        post.objs@ == pre.objs@.remove(oi),
        post.next_id == pre.next_id,
    ensures
        post.wf(),
{
    assert forall|o: int, m: int| post.valid_mesh_index(o, m) implies #[trigger] post.objs@[o].meshes@[m].mesh_id < post.next_id by {
        let oo = if o >= oi {
            o + 1
        } else {
            o
        };
        assert(pre.valid_mesh_index(oo, m));
        assert(post.objs@[o] == pre.objs@[oo]);
    }
    assert forall|o1: int, m1: int, o2: int, m2: int|
        #![trigger post.objs@[o1].meshes@[m1].mesh_id, post.objs@[o2].meshes@[m2].mesh_id]
        post.valid_mesh_index(o1, m1) && post.valid_mesh_index(o2, m2) && (o1 != o2 || m1
            != m2) implies post.objs@[o1].meshes@[m1].mesh_id != post.objs@[o2].meshes@[m2].mesh_id by {
        let u1 = if o1 >= oi {
            o1 + 1
        } else {
            o1
        };
        let u2 = if o2 >= oi {
            o2 + 1
        } else {
            o2
        };
        assert(pre.valid_mesh_index(u1, m1));
        assert(pre.valid_mesh_index(u2, m2));
        assert(post.objs@[o1] == pre.objs@[u1]);
        assert(post.objs@[o2] == pre.objs@[u2]);
    }
}

} // verus!
