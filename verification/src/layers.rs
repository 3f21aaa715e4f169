//! Render layer masks: a camera draws an entity only when their layer masks
//! intersect; a missing mask on either side means membership in the default
//! layer.
use vstd::prelude::*;

verus! {

/// A set of render layers, one bit per layer.
pub type LayerMask = u32;

/// A single layer index, valid in `0..32`.
pub type Layer = u8;

pub const NUM_LAYERS: usize = 32;

pub const DEFAULT_LAYER: Layer = 1;

pub const DEFAULT_LAYER_MASK: LayerMask = 2;

/// Whether `mask` has the bit for `layer` set.
pub open spec fn mask_contains(mask: LayerMask, layer: Layer) -> bool {
    mask & (1u32 << layer) != 0
}

/// The layer masks of two sets of render layers intersect.
pub open spec fn masks_intersect(m1: LayerMask, m2: LayerMask) -> bool {
    m1 & m2 != 0
}

#[derive(Clone, Copy, PartialEq, Eq, Structural, Debug)]
pub struct RenderLayers(pub LayerMask);

impl Default for RenderLayers {
    /// A fresh entity or camera belongs to the default layer alone.
    fn default() -> (r: Self)
        ensures
            r.0 == DEFAULT_LAYER_MASK,
    {
        RenderLayers(DEFAULT_LAYER_MASK)
    }
}

impl RenderLayers {
    /// Membership in no layer at all.
    pub fn empty() -> (r: Self)
        ensures
            r.0 == 0,
            forall|l: Layer| !mask_contains(r.0, l),
    {
        proof {
            assert forall|l: Layer| !mask_contains(0u32, l) by {
                assert(0u32 & (1u32 << l) == 0) by (bit_vector);
            }
        }
        RenderLayers(0)
    }

    /// Adds `layer` to the set.
    pub fn with(&mut self, layer: Layer)
        requires
            (layer as usize) < NUM_LAYERS,
        ensures
            final(self).0 == old(self).0 | (1u32 << layer),
            forall|l: Layer|
                #![trigger mask_contains(final(self).0, l)]
                #![trigger mask_contains(old(self).0, l)]
                mask_contains(final(self).0, l) <==> (mask_contains(old(self).0, l) || l == layer),
    {
        proof {
            let m = self.0;
            assert forall|l: Layer|
                mask_contains(m | (1u32 << layer), l) <==> (mask_contains(m, l) || l == layer) by {
                assert((((m | (1u32 << layer)) & (1u32 << l)) != 0) <==> (((m & (1u32 << l)) != 0)
                    || l == layer)) by (bit_vector)
                    requires
                        layer < 32,
                ;
            }
        }
        self.0 = self.0 | (1u32 << layer);
    }

    /// Removes `layer` from the set.
    pub fn without(&mut self, layer: Layer)
        requires
            (layer as usize) < NUM_LAYERS,
        ensures
            final(self).0 == old(self).0 & reverse_bits_spec(1u32 << layer),
            forall|l: Layer|
                #![trigger mask_contains(final(self).0, l)]
                #![trigger mask_contains(old(self).0, l)]
                mask_contains(final(self).0, l) <==> (mask_contains(old(self).0, l) && l != layer),
    {
        proof {
            let m = self.0;
            assert forall|l: Layer|
                mask_contains(m & reverse_bits_spec(1u32 << layer), l) <==> (mask_contains(m, l)
                    && l != layer) by {
                assert((((m & ((1u32 << layer) ^ 0xffff_ffffu32)) & (1u32 << l)) != 0) <==> (((m & (
                1u32 << l)) != 0) && l != layer)) by (bit_vector)
                    requires
                        layer < 32,
                ;
            }
        }
        self.0 = self.0 & reverse_bits(1u32 << layer);
    }

    /// Adds every layer in `layers` to the set.
    pub fn with_layers(&mut self, layers: &[Layer])
        requires
            forall|i: int| 0 <= i < layers@.len() ==> (#[trigger] layers@[i] as usize) < NUM_LAYERS,
        ensures
            forall|l: Layer| mask_contains(final(self).0, l)
                <==> (mask_contains(old(self).0, l) || layers@.contains(l)),
    {
        let ghost orig = self.0;
        for k in 0..layers.len()
            invariant
                forall|i: int| 0 <= i < layers@.len() ==> (#[trigger] layers@[i] as usize) < NUM_LAYERS,
                forall|l: Layer|
                    #![trigger mask_contains(self.0, l)]
                    #![trigger mask_contains(orig, l)]
                    mask_contains(self.0, l)
                    <==> (mask_contains(orig, l) || layers@.subrange(0, k as int).contains(l)),
        {
            self.with(layers[k]);
            proof {
                assert forall|l: Layer|
                    #![trigger layers@.subrange(0, k + 1 as int).contains(l)]
                    #![trigger layers@.subrange(0, k as int).contains(l)]
                    layers@.subrange(0, k + 1 as int).contains(l)
                    <==> (layers@.subrange(0, k as int).contains(l) || l == layers@[k as int]) by {
                    let s = layers@;
                    if s.subrange(0, k + 1 as int).contains(l) {
                        let i = choose|i: int| 0 <= i < k + 1 && #[trigger] s.subrange(0, k + 1 as int)[i] == l;
                        if i < k {
                            assert(s.subrange(0, k as int)[i] == l);
                        }
                    }
                    if s.subrange(0, k as int).contains(l) {
                        let i = choose|i: int| 0 <= i < k && #[trigger] s.subrange(0, k as int)[i] == l;
                        assert(s.subrange(0, k + 1 as int)[i] == l);
                    }
                    if l == s[k as int] {
                        assert(s.subrange(0, k + 1 as int)[k as int] == l);
                    }
                }
            }
        }
        proof {
            assert(layers@.subrange(0, layers@.len() as int) =~= layers@);
        }
    }

    /// Removes every layer in `layers` from the set; layers not listed keep
    /// their membership.
    pub fn without_layers(&mut self, layers: &[Layer])
        requires
            forall|i: int| 0 <= i < layers@.len() ==> (#[trigger] layers@[i] as usize) < NUM_LAYERS,
        ensures
            forall|l: Layer| mask_contains(final(self).0, l)
                <==> (mask_contains(old(self).0, l) && !layers@.contains(l)),
    {
        let ghost orig = self.0;
        for k in 0..layers.len()
            invariant
                forall|i: int| 0 <= i < layers@.len() ==> (#[trigger] layers@[i] as usize) < NUM_LAYERS,
                forall|l: Layer|
                    #![trigger mask_contains(self.0, l)]
                    #![trigger mask_contains(orig, l)]
                    mask_contains(self.0, l)
                    <==> (mask_contains(orig, l) && !layers@.subrange(0, k as int).contains(l)),
        {
            self.without(layers[k]);
            proof {
                assert forall|l: Layer|
                    #![trigger layers@.subrange(0, k + 1 as int).contains(l)]
                    #![trigger layers@.subrange(0, k as int).contains(l)]
                    layers@.subrange(0, k + 1 as int).contains(l)
                    <==> (layers@.subrange(0, k as int).contains(l) || l == layers@[k as int]) by {
                    let s = layers@;
                    if s.subrange(0, k + 1 as int).contains(l) {
                        let i = choose|i: int| 0 <= i < k + 1 && #[trigger] s.subrange(0, k + 1 as int)[i] == l;
                        if i < k {
                            assert(s.subrange(0, k as int)[i] == l);
                        }
                    }
                    if s.subrange(0, k as int).contains(l) {
                        let i = choose|i: int| 0 <= i < k && #[trigger] s.subrange(0, k as int)[i] == l;
                        assert(s.subrange(0, k + 1 as int)[i] == l);
                    }
                    if l == s[k as int] {
                        assert(s.subrange(0, k + 1 as int)[k as int] == l);
                    }
                }
            }
        }
        proof {
            assert(layers@.subrange(0, layers@.len() as int) =~= layers@);
        }
    }

    /// Whether the two sets share a layer.
    pub fn intersects(&self, other: &Self) -> (r: bool)
        ensures
            r == masks_intersect(self.0, other.0),
    {
        (self.0 & other.0) != 0
    }

    /// Whether `layer` is in the set.
    pub fn contains(&self, layer: Layer) -> (r: bool)
        requires
            (layer as usize) < NUM_LAYERS,
        ensures
            r == mask_contains(self.0, layer),
    {
        (self.0 & (1u32 << layer)) != 0
    }
}

pub open spec fn reverse_bits_spec(a: u32) -> u32 {
    a ^ 0xffff_ffffu32
}

/// Flips every bit of the mask.
fn reverse_bits(a: u32) -> (r: u32)
    ensures
        r == reverse_bits_spec(a),
{
    a ^ u32::MAX
}

/// Whether an entity with mask `layers1` is seen by a camera with mask
/// `layers2`: a missing mask on either side stands for the default layer.
pub open spec fn spec_layers_intersect(layers1: Option<RenderLayers>, layers2: Option<RenderLayers>) -> bool {
    match (layers1, layers2) {
        (None, None) => true,
        (None, Some(l2)) => mask_contains(l2.0, DEFAULT_LAYER),
        (Some(l1), None) => mask_contains(l1.0, DEFAULT_LAYER),
        (Some(l1), Some(l2)) => masks_intersect(l1.0, l2.0),
    }
}

pub fn layers_intersect(layers1: Option<&RenderLayers>, layers2: Option<&RenderLayers>) -> (r: bool)
    ensures
        r == spec_layers_intersect(
            match layers1 { Some(l) => Some(*l), None => None },
            match layers2 { Some(l) => Some(*l), None => None },
        ),
{
    match (layers1, layers2) {
        (None, None) => true,
        (None, Some(l2)) => l2.contains(DEFAULT_LAYER),
        (Some(l1), None) => l1.contains(DEFAULT_LAYER),
        (Some(l1), Some(l2)) => l1.intersects(l2),
    }
}

} // verus!
