//! Physics layers: which bodies collide, bounce and rub against each other.
//!
//! A layer mask is a set of up to 32 layers held as the bits of a `u32`, with
//! the engine's render-layer semantics: a layer `n` is the bit `1 << n`, and
//! two masks meet when they share a bit.

use vstd::prelude::*;

verus! {

/// The number of layers that a mask can hold.
pub const TOTAL_LAYERS: u8 = 32;

/// A set of layers, bit `n` standing for layer `n`.
#[derive(Clone, Copy, Debug, PartialEq, Eq, Structural, Hash)]
pub struct LayerMask {
    pub bits: u32,
}

impl LayerMask {
    /// The mask that holds no layer.
    pub fn none() -> (m: LayerMask)
        ensures
            m.bits == 0,
    {
        LayerMask { bits: 0 }
    }

    /// The mask that holds exactly layer `n`.
    pub fn layer(n: u8) -> (m: LayerMask)
        requires
            n < TOTAL_LAYERS,
        ensures
            m.bits == 1u32 << n,
    {
        let m = LayerMask::none().with(n);
        assert((0u32 | (1u32 << n)) == (1u32 << n)) by (bit_vector);
        m
    }

    /// This mask with layer `n` added.
    pub fn with(self, n: u8) -> (m: LayerMask)
        requires
            n < TOTAL_LAYERS,
        ensures
            m.bits == self.bits | (1u32 << n),
    {
        LayerMask { bits: self.bits | (1u32 << n) }
    }

    /// Whether the two masks share a layer.
    pub fn intersects(&self, other: &LayerMask) -> (b: bool)
        ensures
            b == (self.bits & other.bits != 0),
    {
        (self.bits & other.bits) > 0
    }
}

/// Whether layer `n` is in a mask of bits `bits`.
pub open spec fn holds_layer(bits: u32, n: u32) -> bool {
    (bits >> n) & 1u32 == 1u32
}

/// What a contact between two bodies does.
#[derive(Clone, Copy, Debug, PartialEq, Eq, Structural)]
pub struct Contact {
    /// The bodies bounce off each other.
    pub bounce: bool,
    /// The bodies rub against each other.
    pub friction: bool,
}

/// The layers of a body: those it collides in, bounces in and rubs in.
#[derive(Clone, Copy, Debug, PartialEq, Eq, Structural)]
pub struct PhysicsLayers {
    pub collision: LayerMask,
    pub bounciness: LayerMask,
    pub friction: LayerMask,
}

/// Whether two bodies of these layers touch when their boxes meet, and with
/// which effects.
pub open spec fn contact_of(a: PhysicsLayers, b: PhysicsLayers) -> Option<Contact> {
    if a.collision.bits & b.collision.bits == 0 {
        None
    } else {
        Some(Contact {
            bounce: a.bounciness.bits & b.bounciness.bits != 0,
            friction: a.friction.bits & b.friction.bits != 0,
        })
    }
}

impl PhysicsLayers {
    /// The ball: collides, bounces and rubs in layers 1 and 2.
    pub fn ball() -> (p: PhysicsLayers)
        ensures
            p.collision.bits == 6,
            p.bounciness.bits == 6,
            p.friction.bits == 6,
    {
        let m = LayerMask::layer(1).with(2);
        assert((1u32 << 1u8) | (1u32 << 2u8) == 6u32) by (bit_vector);
        PhysicsLayers { collision: m, bounciness: m, friction: m }
    }

    /// A paddle: collides in layers 1, 3 and 4, bounces and rubs in layer 1.
    pub fn player() -> (p: PhysicsLayers)
        ensures
            p.collision.bits == 26,
            p.bounciness.bits == 2,
            p.friction.bits == 2,
    {
        let c = LayerMask::layer(1).with(3).with(4);
        let l = LayerMask::layer(1);
        assert(((1u32 << 1u8) | (1u32 << 3u8)) | (1u32 << 4u8) == 26u32) by (bit_vector);
        assert(1u32 << 1u8 == 2u32) by (bit_vector);
        PhysicsLayers { collision: c, bounciness: l, friction: l }
    }

    /// A wall: collides in layers 2 and 3, bounces and rubs in layer 2.
    pub fn boundary() -> (p: PhysicsLayers)
        ensures
            p.collision.bits == 12,
            p.bounciness.bits == 4,
            p.friction.bits == 4,
    {
        let c = LayerMask::layer(2).with(3);
        let l = LayerMask::layer(2);
        assert((1u32 << 2u8) | (1u32 << 3u8) == 12u32) by (bit_vector);
        assert(1u32 << 2u8 == 4u32) by (bit_vector);
        PhysicsLayers { collision: c, bounciness: l, friction: l }
    }

    /// The middle line: collides in layer 4 only, and never bounces or rubs.
    pub fn separate() -> (p: PhysicsLayers)
        ensures
            p.collision.bits == 16,
            p.bounciness.bits == 0,
            p.friction.bits == 0,
    {
        let c = LayerMask::layer(4);
        assert(1u32 << 4u8 == 16u32) by (bit_vector);
        PhysicsLayers { collision: c, bounciness: LayerMask::none(), friction: LayerMask::none() }
    }

    /// Whether a body of these layers touches one of `other`'s layers, and
    /// whether the contact bounces and rubs: `None` when their collision
    /// layers are disjoint.
    pub fn contact(&self, other: &PhysicsLayers) -> (c: Option<Contact>)
        ensures
            c == contact_of(*self, *other),
    {
        if !self.collision.intersects(&other.collision) {
            return None;
        }
        Some(Contact {
            bounce: self.bounciness.intersects(&other.bounciness),
            friction: self.friction.intersects(&other.friction),
        })
    }
}

/// A contact is the same whichever of the two bodies is taken first.
pub proof fn lemma_contact_symmetric(a: PhysicsLayers, b: PhysicsLayers)
    ensures
        contact_of(a, b) == contact_of(b, a),
{
    let (x, y) = (a.collision.bits, b.collision.bits);
    let (p, q) = (a.bounciness.bits, b.bounciness.bits);
    let (r, s) = (a.friction.bits, b.friction.bits);
    assert(x & y == y & x) by (bit_vector);
    assert(p & q == q & p) by (bit_vector);
    assert(r & s == s & r) by (bit_vector);
}

/// A mask with layer `n` added holds layer `n` and every layer it held.
pub proof fn lemma_with_adds_layer(bits: u32, n: u32, k: u32)
    requires
        n < 32,
        k < 32,
    ensures
        holds_layer(bits | (1u32 << n), n),
        holds_layer(bits, k) ==> holds_layer(bits | (1u32 << n), k),
        k != n ==> (holds_layer(bits | (1u32 << n), k) == holds_layer(bits, k)),
{
    assert(holds_layer(bits | (1u32 << n), n)) by (bit_vector)
        requires n < 32;
    assert(holds_layer(bits, k) ==> holds_layer(bits | (1u32 << n), k)) by (bit_vector)
        requires n < 32, k < 32;
    assert(k != n ==> (holds_layer(bits | (1u32 << n), k) == holds_layer(bits, k))) by (bit_vector)
        requires n < 32, k < 32;
}

/// Two masks intersect exactly when some layer is in both.
pub proof fn lemma_intersects_shared_layer(a: u32, b: u32)
    ensures
        (a & b != 0) == (exists|n: u32| n < 32 && holds_layer(a, n) && holds_layer(b, n)),
{
    if a & b != 0 {
        let n = choose_low_bit(a & b, 0);
        assert(holds_layer(a, n) && holds_layer(b, n)) by (bit_vector)
            requires holds_layer(a & b, n), n < 32;
    }
    assert forall|n: u32| n < 32 && holds_layer(a, n) && holds_layer(b, n) implies a & b != 0 by {
        assert(a & b != 0) by (bit_vector)
            requires n < 32, holds_layer(a, n), holds_layer(b, n);
    }
}

/// A layer held by a nonzero mask, searched from layer `i` upwards.
proof fn choose_low_bit(x: u32, i: u32) -> (n: u32)
    requires
        x != 0,
        i <= 32,
        forall|j: u32| j < i ==> !holds_layer(x, j),
    ensures
        n < 32,
        holds_layer(x, n),
    decreases 32 - i,
{
    if i == 32 {
        assert(x == 0) by (bit_vector)
            requires
                !holds_layer(x, 0u32),
                !holds_layer(x, 1u32),
                !holds_layer(x, 2u32),
                !holds_layer(x, 3u32),
                !holds_layer(x, 4u32),
                !holds_layer(x, 5u32),
                !holds_layer(x, 6u32),
                !holds_layer(x, 7u32),
                !holds_layer(x, 8u32),
                !holds_layer(x, 9u32),
                !holds_layer(x, 10u32),
                !holds_layer(x, 11u32),
                !holds_layer(x, 12u32),
                !holds_layer(x, 13u32),
                !holds_layer(x, 14u32),
                !holds_layer(x, 15u32),
                !holds_layer(x, 16u32),
                !holds_layer(x, 17u32),
                !holds_layer(x, 18u32),
                !holds_layer(x, 19u32),
                !holds_layer(x, 20u32),
                !holds_layer(x, 21u32),
                !holds_layer(x, 22u32),
                !holds_layer(x, 23u32),
                !holds_layer(x, 24u32),
                !holds_layer(x, 25u32),
                !holds_layer(x, 26u32),
                !holds_layer(x, 27u32),
                !holds_layer(x, 28u32),
                !holds_layer(x, 29u32),
                !holds_layer(x, 30u32),
                !holds_layer(x, 31u32);
        0
    } else if holds_layer(x, i) {
        i
    } else {
        choose_low_bit(x, (i + 1) as u32)
    }
}

} // verus!
