//! Meshes and their GPU mirrors. CPU-side vertex data is carried as packed
//! bytes at a fixed stride, with the vertex layout kept beside it; the GPU
//! mirror records the buffers the backend must hold.
use vstd::prelude::*;
use crate::assets::RenderAsset;
use crate::buffer::{IndexFormatModel, Indices};
use crate::pipeline::{PrimitiveTopologyModel, VertexBufferLayoutDesc};

verus! {

/// A mesh: its topology, its packed vertex bytes, the layout they follow,
/// and its indices, if indexed.
pub struct Mesh {
    pub primitive_topology: PrimitiveTopologyModel,
    pub layout: VertexBufferLayoutDesc,
    pub vertex_data: Vec<u8>,
    pub indices: Option<Indices>,
}

impl Mesh {
    /// The vertex bytes fill whole vertices.
    pub open spec fn wf(&self) -> bool {
        &&& self.layout.array_stride > 0
        &&& self.vertex_data@.len() % (self.layout.array_stride as nat) == 0
    }

    pub open spec fn vertex_count_spec(&self) -> nat {
        self.vertex_data@.len() / (self.layout.array_stride as nat)
    }

    pub fn new(primitive_topology: PrimitiveTopologyModel, layout: VertexBufferLayoutDesc) -> (r: Self)
        requires
            layout.array_stride > 0,
        ensures
            r.wf(),
            r.primitive_topology == primitive_topology,
            r.layout == layout,
            r.vertex_data@.len() == 0,
            r.indices is None,
    {
        proof {
            assert(0int % (layout.array_stride as int) == 0) by (nonlinear_arith)
                requires
                    layout.array_stride > 0,
            ;
        }
        Mesh { primitive_topology, layout, vertex_data: Vec::new(), indices: None }
    }

    pub fn new_with(
        primitive_topology: PrimitiveTopologyModel,
        layout: VertexBufferLayoutDesc,
        vertex_data: Vec<u8>,
        indices: Option<Indices>,
    ) -> (r: Self)
        requires
            layout.array_stride > 0,
            vertex_data@.len() % (layout.array_stride as nat) == 0,
        ensures
            r.wf(),
            r.primitive_topology == primitive_topology,
            r.layout == layout,
            r.vertex_data@ == vertex_data@,
            r.indices == indices,
    {
        Mesh { primitive_topology, layout, vertex_data, indices }
    }

    pub fn get_vertex_buffer_bytes(&self) -> (r: &Vec<u8>)
        ensures
            r@ == self.vertex_data@,
    {
        &self.vertex_data
    }

    pub fn set_vertices(&mut self, vertex_data: Vec<u8>)
        requires
            vertex_data@.len() % (old(self).layout.array_stride as nat) == 0,
        ensures
            *final(self) == (Mesh { vertex_data, ..*old(self) }),
    {
        self.vertex_data = vertex_data;
    }

    /// Appends more packed vertices.
    pub fn push_vertices(&mut self, more: &Vec<u8>)
        requires
            old(self).wf(),
            more@.len() % (old(self).layout.array_stride as nat) == 0,
        ensures
            final(self).wf(),
            final(self).vertex_data@ == old(self).vertex_data@ + more@,
            final(self).layout == old(self).layout,
            final(self).primitive_topology == old(self).primitive_topology,
            final(self).indices == old(self).indices,
    {
        let n = more.len();
        for i in 0..n
            invariant
                n == more@.len(),
                self.layout == old(self).layout,
                self.primitive_topology == old(self).primitive_topology,
                self.indices == old(self).indices,
                self.vertex_data@ == old(self).vertex_data@ + more@.subrange(0, i as int),
        {
            self.vertex_data.push(more[i]);
            proof {
                assert(self.vertex_data@ =~= old(self).vertex_data@ + more@.subrange(0, i + 1));
            }
        }
        proof {
            assert(more@.subrange(0, n as int) =~= more@);
            let a = old(self).vertex_data@.len() as int;
            let b = more@.len() as int;
            let st = old(self).layout.array_stride as int;
            vstd::arithmetic::div_mod::lemma_add_mod_noop(a, b, st);
            vstd::arithmetic::div_mod::lemma_small_mod(0nat, old(self).layout.array_stride as nat);
            assert((a + b) % st == 0);
        }
    }

    pub fn get_indices(&self) -> (r: Option<&Indices>)
        ensures
            match r {
                Some(i) => self.indices is Some && *i == self.indices.unwrap(),
                None => self.indices is None,
            },
    {
        self.indices.as_ref()
    }

    pub fn set_indices(&mut self, indices: Indices)
        ensures
            *final(self) == (Mesh { indices: Some(indices), ..*old(self) }),
    {
        self.indices = Some(indices);
    }

    pub fn get_primitive_topology(&self) -> (r: PrimitiveTopologyModel)
        ensures
            r == self.primitive_topology,
    {
        self.primitive_topology
    }

    pub fn get_vertex_buffer_layout(&self) -> (r: VertexBufferLayoutDesc)
        ensures
            r == self.layout,
    {
        self.layout
    }

    pub fn vertex_size(&self) -> (r: u64)
        ensures
            r == self.layout.array_stride,
    {
        self.layout.array_stride
    }

    pub fn vertex_count(&self) -> (r: usize)
        requires
            self.wf(),
        ensures
            r == self.vertex_count_spec(),
    {
        proof {
            assert(self.vertex_data.len() == self.vertex_data@.len());
            let dl = self.vertex_data@.len() as int;
            let st = self.layout.array_stride as int;
            assert(dl / st <= dl && 0 <= dl / st) by (nonlinear_arith)
                requires
                    st > 0,
                    dl >= 0,
            ;
        }
        let cnt = self.vertex_data.len() as u64 / self.layout.array_stride;
        cnt as usize
    }
}

/// How a GPU mesh draws: through an index buffer or straight from vertices.
#[derive(Clone, Copy, PartialEq, Eq, Structural, Debug)]
pub enum GpuMeshAssembly {
    Indexed { index_count: usize, index_format: IndexFormatModel },
    NonIndexed { vertex_count: usize },
}

/// The GPU mirror of a mesh: the vertex buffer the backend holds, plus how to
/// assemble primitives from it.
#[derive(Clone, Copy, PartialEq, Eq, Structural, Debug)]
pub struct GpuMesh {
    pub vertex_buffer_layout: VertexBufferLayoutDesc,
    pub vertex_buffer_size: u64,
    pub assembly: GpuMeshAssembly,
    pub primitive_topology: PrimitiveTopologyModel,
}

/// What the GPU mirror of `mesh` is.
pub open spec fn gpu_mesh_of(mesh: &Mesh) -> GpuMesh {
    GpuMesh {
        vertex_buffer_layout: mesh.layout,
        vertex_buffer_size: mesh.vertex_data@.len() as u64,
        assembly: match mesh.indices {
            Some(inds) => GpuMeshAssembly::Indexed {
                index_count: crate::buffer::indices_view(inds).len() as usize,
                index_format: if inds is U16 {
                    IndexFormatModel::Uint16
                } else {
                    IndexFormatModel::Uint32
                },
            },
            None => GpuMeshAssembly::NonIndexed { vertex_count: mesh.vertex_count_spec() as usize },
        },
        primitive_topology: mesh.primitive_topology,
    }
}

impl GpuMesh {
    /// Builds the GPU mirror of a mesh: an indexed mesh draws its index
    /// count, a non-indexed one its vertex count.
    pub fn from_mesh(mesh: &Mesh) -> (r: GpuMesh)
        requires
            mesh.wf(),
            mesh.vertex_data@.len() <= u64::MAX,
        ensures
            r == gpu_mesh_of(mesh),
    {
        let assembly = match &mesh.indices {
            Some(inds) => GpuMeshAssembly::Indexed {
                index_count: inds.len(),
                index_format: inds.format(),
            },
            None => GpuMeshAssembly::NonIndexed { vertex_count: mesh.vertex_count() },
        };
        GpuMesh {
            vertex_buffer_layout: mesh.layout,
            vertex_buffer_size: mesh.vertex_data.len() as u64,
            assembly,
            primitive_topology: mesh.primitive_topology,
        }
    }
}

impl RenderAsset for Mesh {
    type Prepared = GpuMesh;

    open spec fn prepare_spec(&self) -> Option<GpuMesh> {
        if self.wf() && self.vertex_data@.len() <= u64::MAX {
            Some(gpu_mesh_of(self))
        } else {
            None
        }
    }

    open spec fn should_prepare_spec(&self) -> bool {
        true
    }

    /// A mesh is always preparable; its GPU mirror is rebuilt from scratch.
    fn prepare(&self) -> (r: Option<GpuMesh>)
        ensures
            r == self.prepare_spec(),
    {
        proof {
            assert(self.vertex_data.len() == self.vertex_data@.len());
        }
        if self.layout.array_stride == 0 {
            return None;
        }
        if (self.vertex_data.len() as u64) % self.layout.array_stride != 0 {
            return None;
        }
        Some(GpuMesh::from_mesh(self))
    }

    fn should_prepare(&self) -> (r: bool)
        ensures
            r == self.should_prepare_spec(),
    {
        true
    }
}

/// A mesh that grows by absorbing other meshes: each added mesh's vertices
/// are appended and its indices, shifted past the vertices already in the
/// batch, are merged after them.
pub struct BatchMesh {
    pub indexed: bool,
    pub inner_mesh: Mesh,
}

impl BatchMesh {
    pub fn new(primitive_topology: PrimitiveTopologyModel, layout: VertexBufferLayoutDesc, indexed: bool) -> (r: Self)
        requires
            layout.array_stride > 0,
        ensures
            r.inner_mesh.wf(),
            r.indexed == indexed,
            r.inner_mesh.primitive_topology == primitive_topology,
            r.inner_mesh.layout == layout,
            r.inner_mesh.vertex_data@.len() == 0,
            r.inner_mesh.indices is None,
    {
        BatchMesh { indexed, inner_mesh: Mesh::new(primitive_topology, layout) }
    }

    /// Absorbs one mesh. The batch's index policy must match the incoming
    /// mesh: an indexed batch takes indexed meshes, a non-indexed batch takes
    /// non-indexed ones. Each incoming index is shifted by the count of
    /// vertices already in the batch, so the merged indices address the
    /// incoming mesh's own vertex copies, appended after the batch's.
    pub fn add(&mut self, mesh: Mesh)
        requires
            old(self).inner_mesh.wf(),
            mesh.wf(),
            mesh.layout == old(self).inner_mesh.layout,
            old(self).inner_mesh.indices is Some || mesh.indices is None || old(self).indexed,
            old(self).inner_mesh.indices is Some ==> mesh.indices is Some,
            old(self).indexed ==> mesh.indices is Some,
            !old(self).indexed && old(self).inner_mesh.indices is None ==> mesh.indices is None,
            old(self).inner_mesh.vertex_count_spec() <= u32::MAX,
            mesh.indices is Some ==> {
                let inds = mesh.indices.unwrap();
                forall|i: int| 0 <= i < crate::buffer::indices_view(inds).len()
                    ==> #[trigger] crate::buffer::indices_view(inds)[i] + crate::buffer::shift_amount(
                        inds,
                        old(self).inner_mesh.vertex_count_spec() as u32,
                    ) <= crate::buffer::index_width_max(inds)
            },
        ensures
            final(self).indexed == old(self).indexed,
            final(self).inner_mesh.wf(),
            final(self).inner_mesh.layout == old(self).inner_mesh.layout,
            final(self).inner_mesh.primitive_topology == old(self).inner_mesh.primitive_topology,
            final(self).inner_mesh.vertex_data@ == old(self).inner_mesh.vertex_data@
                + mesh.vertex_data@,
            final(self).inner_mesh.indices is Some <==> (old(self).inner_mesh.indices is Some
                || mesh.indices is Some),
            old(self).inner_mesh.indices is Some && mesh.indices is Some ==> {
                let prior = crate::buffer::indices_view(old(self).inner_mesh.indices.unwrap());
                let incoming = crate::buffer::indices_view(mesh.indices.unwrap());
                let sh = crate::buffer::shift_amount(
                    mesh.indices.unwrap(),
                    old(self).inner_mesh.vertex_count_spec() as u32,
                );
                let merged = crate::buffer::indices_view(final(self).inner_mesh.indices.unwrap());
                &&& (final(self).inner_mesh.indices.unwrap() is U16
                    <==> old(self).inner_mesh.indices.unwrap() is U16)
                &&& merged.len() == prior.len() + incoming.len()
                &&& forall|i: int| 0 <= i < prior.len() ==> #[trigger] merged[i] == prior[i]
                &&& forall|i: int| 0 <= i < incoming.len()
                    ==> #[trigger] merged[prior.len() + i] == crate::buffer::truncate_index(
                        old(self).inner_mesh.indices.unwrap(),
                        incoming[i] + sh,
                    )
            },
            old(self).inner_mesh.indices is None && mesh.indices is Some ==> {
                let incoming = crate::buffer::indices_view(mesh.indices.unwrap());
                let sh = crate::buffer::shift_amount(
                    mesh.indices.unwrap(),
                    old(self).inner_mesh.vertex_count_spec() as u32,
                );
                let merged = crate::buffer::indices_view(final(self).inner_mesh.indices.unwrap());
                &&& (final(self).inner_mesh.indices.unwrap() is U16
                    <==> mesh.indices.unwrap() is U16)
                &&& merged.len() == incoming.len()
                &&& forall|i: int| 0 <= i < incoming.len() ==> #[trigger] merged[i] == incoming[i]
                    + sh
            },
    {
        // the shift that makes incoming indices address the vertex copies
        // appended after the vertices already in the batch
        let offset = self.inner_mesh.vertex_count() as u32;
        let Mesh { primitive_topology: _, layout: _, vertex_data, indices } = mesh;
        self.inner_mesh.push_vertices(&vertex_data);

        let has_inner = self.inner_mesh.indices.is_some();
        if has_inner {
            match indices {
                Some(mut inds) => {
                    inds.shift(offset);
                    match &mut self.inner_mesh.indices {
                        Some(inner_indices) => {
                            inner_indices.extend(inds);
                        },
                        None => {
                            proof {
                                assert(false);
                            }
                        },
                    }
                },
                None => {
                    proof {
                        assert(false);
                    }
                },
            }
        } else {
            match indices {
                Some(mut inds) => {
                    inds.shift(offset);
                    self.inner_mesh.set_indices(inds);
                },
                None => {},
            }
        }
    }
}

impl RenderAsset for BatchMesh {
    type Prepared = GpuMesh;

    open spec fn prepare_spec(&self) -> Option<GpuMesh> {
        self.inner_mesh.prepare_spec()
    }

    open spec fn should_prepare_spec(&self) -> bool {
        true
    }

    fn prepare(&self) -> (r: Option<GpuMesh>)
        ensures
            r == self.prepare_spec(),
    {
        self.inner_mesh.prepare()
    }

    fn should_prepare(&self) -> (r: bool)
        ensures
            r == self.should_prepare_spec(),
    {
        true
    }
}

} // verus!
