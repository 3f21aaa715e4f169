//! Uniform buffers over serialized byte records.
//!
//! Two strategies coexist: a single-instance buffer, sized once at creation
//! and updated byte-exactly, never resized; and a frame-scoped dynamic
//! buffer that packs one record per entity at a fixed stride, cleared and
//! rebuilt every frame, whose offsets are valid only for the frame that
//! produced them.
use vstd::prelude::*;

verus! {

/// The dynamic-offset alignment: each packed record starts at a multiple of
/// the buffer's stride, itself a multiple of this alignment.
pub const UNIFORM_ALIGN: u32 = 256;

/// Serialized size of a model (transform) uniform: one 4x4 matrix.
pub const MODEL_UNIFORM_SIZE: u64 = 64;

/// Serialized size of a camera uniform: view-projection, view and projection
/// matrices.
pub const CAMERA_UNIFORMS_SIZE: u64 = 192;

/// Serialized size of a radius uniform: one scalar.
pub const RADIUS_UNIFORM_SIZE: u64 = 4;

/// Serialized size of a color uniform: one 4-component vector.
pub const COLOR_UNIFORM_SIZE: u64 = 16;

/// A single-instance uniform buffer: its size is fixed at creation to the
/// exact serialized size of its value and every update is byte-exact.
pub struct UniformBuffer {
    pub data: Vec<u8>,
}

impl UniformBuffer {
    pub fn new_init(init: Vec<u8>) -> (r: Self)
        ensures
            r.data@ == init@,
    {
        UniformBuffer { data: init }
    }

    /// Writes a new value into the existing buffer; the value must have the
    /// buffer's exact size, since the buffer is never resized.
    pub fn update(&mut self, val: &Vec<u8>)
        requires
            val@.len() == old(self).data@.len(),
        ensures
            final(self).data@ == val@,
    {
        let n = val.len();
        for i in 0..n
            invariant
                n == val@.len() == self.data@.len(),
                forall|j: int| 0 <= j < i ==> self.data@[j] == val@[j],
                forall|j: int| i <= j < n ==> self.data@[j] == old(self).data@[j],
        {
            self.data.set(i, val[i]);
        }
        proof {
            assert(self.data@ =~= val@);
        }
    }
}

/// A record padded with zero bytes to the buffer's stride.
pub open spec fn pad_record(rec: Seq<u8>, stride: nat) -> Seq<u8> {
    rec + Seq::new((stride - rec.len()) as nat, |i: int| 0u8)
}

/// The byte image of `records` packed one after another at `stride`.
pub open spec fn packed_records(records: Seq<Seq<u8>>, stride: nat) -> Seq<u8>
    decreases records.len(),
{
    if records.len() == 0 {
        Seq::empty()
    } else {
        packed_records(records.drop_last(), stride) + pad_record(records.last(), stride)
    }
}

pub proof fn lemma_packed_records_len(records: Seq<Seq<u8>>, stride: nat)
    requires
        forall|i: int| 0 <= i < records.len() ==> (#[trigger] records[i]).len() <= stride,
    ensures
        packed_records(records, stride).len() == records.len() * stride,
    decreases records.len(),
{
    if records.len() > 0 {
        lemma_packed_records_len(records.drop_last(), stride);
        assert((records.len() - 1) * stride + stride == records.len() * stride) by (nonlinear_arith);
    }
}

/// Dynamic uniform offset validity: in the packed image, the offset of record
/// `i` addresses exactly that record's bytes, and offsets of distinct records
/// never collide.
pub proof fn lemma_packed_record_roundtrip(records: Seq<Seq<u8>>, stride: nat, i: int)
    requires
        stride > 0,
        forall|k: int| 0 <= k < records.len() ==> (#[trigger] records[k]).len() <= stride,
        0 <= i < records.len(),
    ensures
        packed_records(records, stride).subrange(i * stride, i * stride + records[i].len() as int)
            == records[i],
        forall|j: int| 0 <= j < records.len() && j != i ==> #[trigger] (j * stride) != i * stride,
    decreases records.len(),
{
    lemma_packed_records_len(records, stride);
    assert forall|j: int| 0 <= j < records.len() && j != i implies #[trigger] (j * stride) != i * stride by {
        assert(j * stride != i * stride) by (nonlinear_arith)
            requires
                stride > 0,
                i != j,
        ;
    }
    let packed = packed_records(records, stride);
    let prefix = packed_records(records.drop_last(), stride);
    assert(0 <= i * stride && i * stride + stride <= records.len() * stride) by (nonlinear_arith)
        requires
            0 <= i < records.len(),
            stride > 0,
    ;
    if i == records.len() - 1 {
        lemma_packed_records_len(records.drop_last(), stride);
        assert(prefix.len() == i * stride) by (nonlinear_arith)
            requires
                prefix.len() == (records.len() - 1) * stride,
                i == records.len() - 1,
        ;
        assert(packed.subrange(i * stride, i * stride + records[i].len() as int)
            =~= records[i]);
    } else {
        lemma_packed_record_roundtrip(records.drop_last(), stride, i);
        lemma_packed_records_len(records.drop_last(), stride);
        assert((i + 1) * stride <= (records.len() - 1) * stride) by (nonlinear_arith)
            requires
                0 <= i < records.len() - 1,
                stride > 0,
        ;
        assert(i * stride + stride == (i + 1) * stride) by (nonlinear_arith);
        assert(i * stride + records[i].len() <= (i + 1) * stride);
        assert(records.drop_last()[i] == records[i]);
        assert(packed.subrange(i * stride, i * stride + records[i].len() as int)
            =~= prefix.subrange(i * stride, i * stride + records[i].len() as int));
    }
}

/// A frame-scoped, append-only dynamic uniform buffer: one packed record per
/// pushed value, each at a fixed stride.
pub struct DynamicUniforms {
    pub data: Vec<u8>,
    pub stride: u32,
}

impl DynamicUniforms {
    pub open spec fn wf(&self) -> bool {
        &&& self.stride > 0
        &&& self.data@.len() % (self.stride as nat) == 0
        &&& self.data@.len() <= u32::MAX
    }

    /// How many records the buffer holds this frame.
    pub open spec fn count_spec(&self) -> nat {
        self.data@.len() / (self.stride as nat)
    }

    pub fn new(stride: u32) -> (r: Self)
        requires
            stride > 0,
        ensures
            r.wf(),
            r.stride == stride,
            r.data@.len() == 0,
    {
        proof {
            assert(0int % (stride as int) == 0) by (nonlinear_arith)
                requires
                    stride > 0,
            ;
        }
        DynamicUniforms { data: Vec::new(), stride }
    }

    /// Drops every record; offsets handed out before this are stale and must
    /// never be used to read this frame's buffer.
    pub fn clear(&mut self)
        ensures
            old(self).stride > 0 ==> final(self).wf(),
            final(self).stride == old(self).stride,
            final(self).data@.len() == 0,
    {
        proof {
            if self.stride > 0 {
                assert(0int % (self.stride as int) == 0) by (nonlinear_arith)
                    requires
                        self.stride > 0,
                ;
            }
        }
        self.data.clear();
    }

    /// Appends one serialized record, zero-padded to the stride, and returns
    /// the byte offset where it starts.
    pub fn push(&mut self, record: &Vec<u8>) -> (offset: u32)
        requires
            old(self).wf(),
            record@.len() <= old(self).stride,
            old(self).data@.len() + old(self).stride <= u32::MAX,
        ensures
            final(self).wf(),
            final(self).stride == old(self).stride,
            offset == old(self).data@.len(),
            offset == old(self).count_spec() * old(self).stride,
            final(self).data@ == old(self).data@ + pad_record(record@, old(self).stride as nat),
            final(self).count_spec() == old(self).count_spec() + 1,
    {
        let offset = self.data.len() as u32;
        let n = record.len();
        let stride = self.stride as usize;
        let ghost mid = self.data@ + record@;
        for i in 0..n
            invariant
                n == record@.len() <= stride,
                self.stride == old(self).stride,
                stride == self.stride as usize,
                self.data@ == old(self).data@ + record@.subrange(0, i as int),
        {
            self.data.push(record[i]);
            proof {
                assert(record@.subrange(0, i + 1 as int).drop_last() =~= record@.subrange(0, i as int));
                assert(self.data@ =~= old(self).data@ + record@.subrange(0, i + 1 as int));
            }
        }
        proof {
            assert(record@.subrange(0, n as int) =~= record@);
        }
        let mut i = n;
        while i < stride
            invariant
                n <= i <= stride,
                self.stride == old(self).stride,
                stride == self.stride as usize,
                n == record@.len(),
                self.data@ == old(self).data@ + record@ + Seq::new((i - n) as nat, |k: int| 0u8),
            decreases stride - i,
        {
            self.data.push(0u8);
            proof {
                assert(self.data@ =~= old(self).data@ + record@ + Seq::new(
                    (i + 1 - n) as nat,
                    |k: int| 0u8,
                ));
            }
            i = i + 1;
        }
        proof {
            let dlen = old(self).data@.len() as int;
            let st = old(self).stride as int;
            let cnt = old(self).count_spec() as int;
            assert(self.data@ =~= old(self).data@ + pad_record(record@, old(self).stride as nat));
            assert(self.data@.len() == dlen + st);
            assert(cnt * st == dlen) by (nonlinear_arith)
                requires
                    st > 0,
                    dlen % st == 0,
                    cnt == dlen / st,
            ;
            assert(dlen + st == (cnt + 1) * st) by (nonlinear_arith)
                requires
                    dlen == cnt * st,
            ;
            vstd::arithmetic::div_mod::lemma_mod_multiples_basic(cnt + 1, st);
            vstd::arithmetic::div_mod::lemma_div_by_multiple(cnt + 1, st);
        }
        offset
    }

    /// Reads `len` bytes back from `offset`; with the offset a push returned,
    /// this reproduces the pushed record's bytes.
    pub fn read_at(&self, offset: u32, len: usize) -> (r: Vec<u8>)
        requires
            offset + len <= self.data@.len(),
        ensures
            r@ == self.data@.subrange(offset as int, offset as int + len as int),
    {
        let mut r: Vec<u8> = Vec::new();
        let dl = self.data.len();
        proof {
            assert(dl == self.data@.len());
        }
        let start = offset as usize;
        for i in 0..len
            invariant
                start == offset,
                dl == self.data@.len(),
                start + len <= dl,
                r@ == self.data@.subrange(start as int, start as int + i as int),
        {
            r.push(self.data[start + i]);
            proof {
                assert(r@ =~= self.data@.subrange(start as int, start as int + i + 1 as int));
            }
        }
        r
    }
}

/// The per-entity records of one frame, in entity iteration order.
pub open spec fn record_bytes(records: Seq<(u64, Vec<u8>)>) -> Seq<Seq<u8>> {
    records.map(|i: int, r: (u64, Vec<u8>)| r.1@)
}

/// The per-frame rebuild of one component's dynamic uniforms: clears the
/// batch, packs every entity's serialized record in iteration order, and
/// hands back each entity's fresh offset, replacing any prior one.
pub fn rebuild_component_uniforms(
    uniforms: &mut DynamicUniforms,
    records: &Vec<(u64, Vec<u8>)>,
) -> (ids: Vec<(u64, u32)>)
    requires
        old(uniforms).wf(),
        forall|i: int| 0 <= i < records@.len() ==> (#[trigger] records@[i]).1@.len()
            <= old(uniforms).stride,
        records@.len() * old(uniforms).stride <= u32::MAX,
    ensures
        final(uniforms).wf(),
        final(uniforms).stride == old(uniforms).stride,
        final(uniforms).data@ == packed_records(record_bytes(records@), old(uniforms).stride as nat),
        final(uniforms).count_spec() == records@.len(),
        ids@.len() == records@.len(),
        forall|i: int| 0 <= i < records@.len() ==> #[trigger] ids@[i]
            == (records@[i].0, (i * old(uniforms).stride) as u32),
{
    let ghost stride = uniforms.stride as nat;
    uniforms.clear();
    let mut ids: Vec<(u64, u32)> = Vec::new();
    let n = records.len();
    proof {
        assert(record_bytes(records@.subrange(0, 0)) =~= Seq::<Seq<u8>>::empty());
        assert(uniforms.data@ =~= packed_records(record_bytes(records@.subrange(0, 0)), stride));
    }
    for i in 0..n
        invariant
            n == records@.len(),
            uniforms.wf(),
            uniforms.stride == old(uniforms).stride,
            stride == uniforms.stride as nat,
            forall|k: int| 0 <= k < records@.len() ==> (#[trigger] records@[k]).1@.len()
                <= uniforms.stride,
            records@.len() * uniforms.stride <= u32::MAX,
            uniforms.data@ == packed_records(record_bytes(records@.subrange(0, i as int)), stride),
            uniforms.count_spec() == i,
            uniforms.data@.len() == i * uniforms.stride,
            ids@.len() == i,
            forall|k: int| 0 <= k < i ==> #[trigger] ids@[k]
                == (records@[k].0, (k * uniforms.stride) as u32),
    {
        proof {
            assert(i * uniforms.stride + uniforms.stride == (i + 1) * uniforms.stride)
                by (nonlinear_arith);
            assert((i + 1) * uniforms.stride <= records@.len() * uniforms.stride)
                by (nonlinear_arith)
                requires
                    i + 1 <= records@.len(),
                    uniforms.stride > 0,
            ;
        }
        let offset = uniforms.push(&records[i].1);
        ids.push((records[i].0, offset));
        proof {
            let sub1 = records@.subrange(0, i + 1 as int);
            assert(record_bytes(sub1).drop_last() =~= record_bytes(records@.subrange(0, i as int)));
            assert(record_bytes(sub1).last() == records@[i as int].1@);
            assert(uniforms.data@ =~= packed_records(record_bytes(sub1), stride));
        }
    }
    proof {
        assert(records@.subrange(0, n as int) =~= records@);
    }
    ids
}

} // verus!
