//! Index buffers and the vertex layouts of the built-in vertex kinds.
use vstd::prelude::*;
use crate::pipeline::VertexBufferLayoutDesc;

verus! {

#[derive(Clone, Copy, PartialEq, Eq, Structural, Debug)]
pub enum IndexFormatModel {
    Uint16,
    Uint32,
}

/// A mesh's index list, either 16-bit or 32-bit.
pub enum Indices {
    U16(Vec<u16>),
    U32(Vec<u32>),
}

/// The index values regardless of width.
pub open spec fn indices_view(inds: Indices) -> Seq<int> {
    match inds {
        Indices::U16(v) => v@.map(|i: int, x: u16| x as int),
        Indices::U32(v) => v@.map(|i: int, x: u32| x as int),
    }
}

impl Indices {
    pub fn len(&self) -> (r: usize)
        ensures
            r == indices_view(*self).len(),
    {
        match self {
            Indices::U16(vec) => vec.len(),
            Indices::U32(vec) => vec.len(),
        }
    }

    /// Adds `offset` to every index; the offset is truncated to the index
    /// width first, and every shifted index must still fit that width.
    pub fn shift(&mut self, offset: u32)
        requires
            forall|i: int| 0 <= i < indices_view(*old(self)).len()
                ==> #[trigger] indices_view(*old(self))[i] + shift_amount(*old(self), offset)
                    <= index_width_max(*old(self)),
        ensures
            indices_view(*final(self)).len() == indices_view(*old(self)).len(),
            (*final(self)) is U16 <==> (*old(self)) is U16,
            forall|i: int| 0 <= i < indices_view(*old(self)).len()
                ==> #[trigger] indices_view(*final(self))[i] == indices_view(*old(self))[i]
                    + shift_amount(*old(self), offset),
    {
        match self {
            Indices::U16(vec) => {
                let n = vec.len();
                let off = offset as u16;
                proof {
                    assert forall|i: int| 0 <= i < vec@.len() implies vec@[i] + off <= u16::MAX by {
                        assert(indices_view(*old(self))[i] == vec@[i] as int);
                    }
                }
                for k in 0..n
                    invariant
                        n == vec@.len(),
                        off == offset as u16,
                        forall|i: int| 0 <= i < n ==> (#[trigger] (*old(self))->U16_0@[i]) + off
                            <= u16::MAX,
                        forall|i: int| k <= i < n ==> #[trigger] vec@[i] == (*old(self))->U16_0@[i],
                        forall|i: int| 0 <= i < k ==> #[trigger] vec@[i] == (*old(self))->U16_0@[i]
                            + off,
                {
                    let v = vec[k];
                    vec.set(k, v + off);
                }
            },
            Indices::U32(vec) => {
                let n = vec.len();
                proof {
                    assert forall|i: int| 0 <= i < vec@.len() implies vec@[i] + offset <= u32::MAX by {
                        assert(indices_view(*old(self))[i] == vec@[i] as int);
                    }
                }
                for k in 0..n
                    invariant
                        n == vec@.len(),
                        forall|i: int| 0 <= i < n ==> (#[trigger] (*old(self))->U32_0@[i]) + offset
                            <= u32::MAX,
                        forall|i: int| k <= i < n ==> #[trigger] vec@[i] == (*old(self))->U32_0@[i],
                        forall|i: int| 0 <= i < k ==> #[trigger] vec@[i] == (*old(self))->U32_0@[i]
                            + offset,
                {
                    let v = vec[k];
                    vec.set(k, v + offset);
                }
            },
        }
        proof {
            assert forall|i: int| 0 <= i < indices_view(*old(self)).len()
                implies #[trigger] indices_view(*final(self))[i] == indices_view(*old(self))[i]
                + shift_amount(*old(self), offset) by {}
        }
    }

    /// Appends another index list, converting its width to this list's where
    /// they differ; converted values are truncated as the width demands.
    pub fn extend(&mut self, other: Indices)
        ensures
            (*final(self)) is U16 <==> (*old(self)) is U16,
            indices_view(*final(self)).len() == indices_view(*old(self)).len() + indices_view(
                other,
            ).len(),
            forall|i: int| 0 <= i < indices_view(*old(self)).len()
                ==> #[trigger] indices_view(*final(self))[i] == indices_view(*old(self))[i],
            forall|i: int| 0 <= i < indices_view(other).len()
                ==> #[trigger] indices_view(*final(self))[indices_view(*old(self)).len() + i]
                    == truncate_index(*old(self), indices_view(other)[i]),
    {
        match (self, other) {
            (Indices::U16(vs), Indices::U16(vo)) => {
                let n = vo.len();
                for k in 0..n
                    invariant
                        n == vo@.len(),
                        vs@ == (*old(self))->U16_0@ + vo@.subrange(0, k as int),
                {
                    vs.push(vo[k]);
                    proof {
                        assert(vs@ =~= (*old(self))->U16_0@ + vo@.subrange(0, k + 1));
                    }
                }
                proof {
                    assert(vo@.subrange(0, n as int) =~= vo@);
                }
            },
            (Indices::U32(vs), Indices::U32(vo)) => {
                let n = vo.len();
                for k in 0..n
                    invariant
                        n == vo@.len(),
                        vs@ == (*old(self))->U32_0@ + vo@.subrange(0, k as int),
                {
                    vs.push(vo[k]);
                    proof {
                        assert(vs@ =~= (*old(self))->U32_0@ + vo@.subrange(0, k + 1));
                    }
                }
                proof {
                    assert(vo@.subrange(0, n as int) =~= vo@);
                }
            },
            (Indices::U16(vs), Indices::U32(vo)) => {
                let n = vo.len();
                for k in 0..n
                    invariant
                        n == vo@.len(),
                        vs@.len() == (*old(self))->U16_0@.len() + k,
                        forall|i: int| 0 <= i < (*old(self))->U16_0@.len()
                            ==> #[trigger] vs@[i] == (*old(self))->U16_0@[i],
                        forall|i: int| 0 <= i < k
                            ==> #[trigger] vs@[(*old(self))->U16_0@.len() + i] == (vo@[i] as u16),
                {
                    #[verifier::truncate]
                    let t = vo[k] as u16;
                    vs.push(t);
                }
            },
            (Indices::U32(vs), Indices::U16(vo)) => {
                let n = vo.len();
                for k in 0..n
                    invariant
                        n == vo@.len(),
                        vs@.len() == (*old(self))->U32_0@.len() + k,
                        forall|i: int| 0 <= i < (*old(self))->U32_0@.len()
                            ==> #[trigger] vs@[i] == (*old(self))->U32_0@[i],
                        forall|i: int| 0 <= i < k
                            ==> #[trigger] vs@[(*old(self))->U32_0@.len() + i] == (vo@[i] as u32),
                {
                    let t = vo[k] as u32;
                    vs.push(t);
                }
            },
        }
    }

    /// Which index format the list needs at draw time.
    pub fn format(&self) -> (r: IndexFormatModel)
        ensures
            r == (if *self is U16 {
                IndexFormatModel::Uint16
            } else {
                IndexFormatModel::Uint32
            }),
    {
        match self {
            Indices::U16(_) => IndexFormatModel::Uint16,
            Indices::U32(_) => IndexFormatModel::Uint32,
        }
    }
}

/// The amount `shift` really adds: the offset truncated to the index width.
pub open spec fn shift_amount(inds: Indices, offset: u32) -> int {
    match inds {
        Indices::U16(_) => (offset as u16) as int,
        Indices::U32(_) => offset as int,
    }
}

/// The largest value the list's index width can hold.
pub open spec fn index_width_max(inds: Indices) -> int {
    match inds {
        Indices::U16(_) => u16::MAX as int,
        Indices::U32(_) => u32::MAX as int,
    }
}

/// A value as it lands in the list's index width.
pub open spec fn truncate_index(inds: Indices, v: int) -> int {
    match inds {
        Indices::U16(_) => (v as u16) as int,
        Indices::U32(_) => (v as u32) as int,
    }
}

/// The layout of the textured 2D vertex: position (3 floats) and texture
/// coordinates (2 floats).
pub fn vertex_layout() -> (r: VertexBufferLayoutDesc)
    ensures
        r == (VertexBufferLayoutDesc { array_stride: 20, step_instance: false, attribute_count: 2 }),
{
    VertexBufferLayoutDesc { array_stride: 20, step_instance: false, attribute_count: 2 }
}

/// The layout of the colored sprite vertex: position, texture coordinates and
/// color (3 + 2 + 4 floats).
pub fn vertex_c_layout() -> (r: VertexBufferLayoutDesc)
    ensures
        r == (VertexBufferLayoutDesc { array_stride: 36, step_instance: false, attribute_count: 3 }),
{
    VertexBufferLayoutDesc { array_stride: 36, step_instance: false, attribute_count: 3 }
}

/// The layout of the bare vertex: position only.
pub fn vertex_base_layout() -> (r: VertexBufferLayoutDesc)
    ensures
        r == (VertexBufferLayoutDesc { array_stride: 12, step_instance: false, attribute_count: 1 }),
{
    VertexBufferLayoutDesc { array_stride: 12, step_instance: false, attribute_count: 1 }
}

/// The layout of the texture-array vertex: position, 3D texture coordinates
/// and color (3 + 3 + 4 floats).
pub fn vertex_tex3_layout() -> (r: VertexBufferLayoutDesc)
    ensures
        r == (VertexBufferLayoutDesc { array_stride: 40, step_instance: false, attribute_count: 3 }),
{
    VertexBufferLayoutDesc { array_stride: 40, step_instance: false, attribute_count: 3 }
}

} // verus!
