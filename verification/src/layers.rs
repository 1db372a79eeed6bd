//! Render layers: the tag that decides which camera draws which entity.
//!
//! The engine keeps a layer set as a bit mask. This module holds the few facts
//! about that mask which the rest of the crate relies on, and a tag type built
//! on top of them whose meaning is a plain set of layer numbers.

use bevy::camera::visibility::RenderLayers;
use vstd::prelude::*;

verus! {

/// The engine's layer mask. Nothing inside it is visible to the proofs; what
/// they know of a mask is what [`layer_bits`] says.
#[verifier::external_type_specification]
#[verifier::external_body]
pub struct ExRenderLayers(bevy::camera::visibility::RenderLayers);

/// The blocks of a mask as `RenderLayers::bits` returns them: block `i` has
/// bit `k` set when the mask holds layer `64 * i + k`.
pub uninterp spec fn layer_bits(mask: RenderLayers) -> Seq<u64>;

/// Two block lists have a bit in common at the same position.
pub open spec fn blocks_overlap(a: Seq<u64>, b: Seq<u64>) -> bool {
    exists|i: int| 0 <= i < a.len() && i < b.len() && #[trigger] (a[i] & b[i]) != 0
}

/// Layers are numbered from 0. The engine builds the mask of a single layer
/// only for layers below this limit.
pub const LAYER_LIMIT: usize = 64;

/// Calls `RenderLayers::layer`. Trusted: for a layer below 64 the mask is one
/// block with only that layer's bit set. The engine panics on any other layer,
/// which the precondition rules out.
#[verifier::external_body]
fn engine_layer(n: usize) -> (mask: RenderLayers)
    requires
        n < LAYER_LIMIT,
    ensures
        layer_bits(mask) == seq![1u64 << n],
{
    RenderLayers::layer(n)
}

/// Calls `RenderLayers::intersects`. Trusted: the engine answers `true` when
/// some block position holds a common bit, and also when both arguments are
/// one and the same mask; in every other case it answers `false`.
#[verifier::external_body]
fn engine_intersects(a: &RenderLayers, b: &RenderLayers) -> (hit: bool)
    ensures
        blocks_overlap(layer_bits(*a), layer_bits(*b)) ==> hit,
        hit ==> blocks_overlap(layer_bits(*a), layer_bits(*b)) || layer_bits(*a) == layer_bits(*b),
{
    a.intersects(b)
}

/// Calls `==` on two masks. Trusted: the engine compares the block lists.
#[verifier::external_body]
fn engine_same_mask(a: &RenderLayers, b: &RenderLayers) -> (same: bool)
    ensures
        same == (layer_bits(*a) == layer_bits(*b)),
{
    a == b
}

/// Distinct layers below 64 have distinct, non-overlapping bits.
proof fn lemma_layer_bit(i: usize, j: usize)
    requires
        i < 64,
        j < 64,
    ensures
        (1u64 << i) != 0,
        ((1u64 << i) & (1u64 << j)) != 0 <==> i == j,
        (1u64 << i) == (1u64 << j) <==> i == j,
{
    assert((1u64 << i) != 0) by (bit_vector)
        requires
            i < 64,
    ;
    assert(((1u64 << i) & (1u64 << j)) != 0 <==> i == j) by (bit_vector)
        requires
            i < 64,
            j < 64,
    ;
    assert((1u64 << i) == (1u64 << j) <==> i == j) by (bit_vector)
        requires
            i < 64,
            j < 64,
    ;
}

/// The render-layer tag of an entity or a camera: a single layer, kept together
/// with the engine's mask for it.
///
/// Its view is the set of layers that the tag stands for.
#[derive(Debug, PartialEq, Eq)]
pub struct Layers {
    index: usize,
    mask: RenderLayers,
}

impl View for Layers {
    type V = Set<nat>;

    open spec fn view(&self) -> Set<nat> {
        set![self.layer_index()]
    }
}

impl Layers {
    #[verifier::type_invariant]
    spec fn inv(self) -> bool {
        &&& self.index < LAYER_LIMIT
        &&& layer_bits(self.mask) == seq![1u64 << self.index]
    }

    /// The layer that the tag names.
    pub closed spec fn layer_index(&self) -> nat {
        self.index as nat
    }

    /// The tag for layer `n`.
    pub fn layer(n: usize) -> (tag: Layers)
        requires
            n < LAYER_LIMIT,
        ensures
            tag.layer_index() == n,
    {
        Layers { index: n, mask: engine_layer(n) }
    }

    /// The layer that the tag names.
    pub fn index(&self) -> (n: usize)
        ensures
            n == self.layer_index(),
            n < LAYER_LIMIT,
    {
        proof {
            use_type_invariant(self);
        }
        self.index
    }

    /// The engine's mask for the tag, to attach to an engine entity: one block
    /// with the bit of the tag's layer.
    pub fn mask(&self) -> (mask: &RenderLayers)
        ensures
            self.layer_index() < LAYER_LIMIT,
            layer_bits(*mask) == seq![1u64 << (self.layer_index() as u64)],
    {
        proof {
            use_type_invariant(self);
        }
        &self.mask
    }

    /// The engine's visibility test: do the two tags share a layer?
    pub fn intersects(&self, other: &Layers) -> (hit: bool)
        ensures
            hit == !self@.disjoint(other@),
            hit == (self.layer_index() == other.layer_index()),
    {
        let hit = engine_intersects(&self.mask, &other.mask);
        proof {
            use_type_invariant(self);
            use_type_invariant(other);
            lemma_layer_bit(self.index, other.index);
            let a = layer_bits(self.mask);
            let b = layer_bits(other.mask);
            if self.index == other.index {
                assert((a[0] & b[0]) != 0);
                assert(blocks_overlap(a, b));
                assert(self@.contains(self.index as nat) && other@.contains(self.index as nat));
            } else {
                assert(a != b) by {
                    assert(a[0] != b[0]);
                }
                assert(!blocks_overlap(a, b));
                assert(self@.disjoint(other@));
            }
        }
        hit
    }

    /// The engine's equality test: do the two tags name the same layers?
    pub fn same_layers(&self, other: &Layers) -> (same: bool)
        ensures
            same == (self@ == other@),
            same == (self.layer_index() == other.layer_index()),
    {
        let same = engine_same_mask(&self.mask, &other.mask);
        proof {
            use_type_invariant(self);
            use_type_invariant(other);
            lemma_layer_bit(self.index, other.index);
            let a = layer_bits(self.mask);
            let b = layer_bits(other.mask);
            if self.index == other.index {
                assert(a =~= b);
            } else {
                assert(a[0] != b[0]);
                assert(self@.contains(self.index as nat) && !other@.contains(self.index as nat));
            }
        }
        same
    }
}

} // verus!
