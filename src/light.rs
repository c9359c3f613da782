//! The light buffer: one GPU uniform block holding fixed-capacity arrays of
//! ambient, directional, point and spot lights, followed by a header of
//! active counts. Every write into it is planned here as an offset and bytes.

use vstd::endian::{endianness, Endian};
use vstd::prelude::*;

verus! {

/// The kinds of light, in the order in which their arrays sit in the buffer.
#[derive(Clone, Copy, Debug, PartialEq, Eq, Structural)]
pub enum LightKind {
    Ambient,
    Directional,
    Point,
    Spot,
}

pub const MAX_AMBIENT_LIGHTS: usize = 1;

pub const MAX_DIRECTIONAL_LIGHTS: usize = 10;

pub const MAX_POINT_LIGHTS: usize = 256;

pub const MAX_SPOT_LIGHTS: usize = 256;

/// Bytes of an ambient uniform: rgb colour and strength.
pub const AMBIENT_UNIFORM_SIZE: usize = 16;

/// Bytes of a directional uniform: colour and strength, direction, one word of padding.
pub const DIRECTIONAL_UNIFORM_SIZE: usize = 32;

/// Bytes of a point uniform: colour, attenuation and position, each padded to four words.
pub const POINT_UNIFORM_SIZE: usize = 48;

/// Bytes of a spot uniform: a point uniform, then direction and the cosine of the cutoff.
pub const SPOT_UNIFORM_SIZE: usize = 64;

/// Bytes of the trailing header: four 32-bit active counts.
pub const COUNT_HEADER_SIZE: usize = 16;

/// Where each array of the buffer starts, and where the header starts.
pub const AMBIENT_SECTION_OFFSET: usize = 0;

pub const DIRECTIONAL_SECTION_OFFSET: usize = AMBIENT_SECTION_OFFSET + MAX_AMBIENT_LIGHTS
    * AMBIENT_UNIFORM_SIZE;

pub const POINT_SECTION_OFFSET: usize = DIRECTIONAL_SECTION_OFFSET + MAX_DIRECTIONAL_LIGHTS
    * DIRECTIONAL_UNIFORM_SIZE;

pub const SPOT_SECTION_OFFSET: usize = POINT_SECTION_OFFSET + MAX_POINT_LIGHTS
    * POINT_UNIFORM_SIZE;

pub const COUNT_HEADER_OFFSET: usize = SPOT_SECTION_OFFSET + MAX_SPOT_LIGHTS * SPOT_UNIFORM_SIZE;

/// Size of the whole buffer.
pub const LIGHT_BUFFER_SIZE: usize = COUNT_HEADER_OFFSET + COUNT_HEADER_SIZE;

impl LightKind {
    /// How many slots the buffer has for this kind.
    pub open spec fn capacity_spec(self) -> nat {
        match self {
            LightKind::Ambient => MAX_AMBIENT_LIGHTS as nat,
            LightKind::Directional => MAX_DIRECTIONAL_LIGHTS as nat,
            LightKind::Point => MAX_POINT_LIGHTS as nat,
            LightKind::Spot => MAX_SPOT_LIGHTS as nat,
        }
    }

    /// Bytes of one uniform of this kind.
    pub open spec fn uniform_size_spec(self) -> nat {
        match self {
            LightKind::Ambient => AMBIENT_UNIFORM_SIZE as nat,
            LightKind::Directional => DIRECTIONAL_UNIFORM_SIZE as nat,
            LightKind::Point => POINT_UNIFORM_SIZE as nat,
            LightKind::Spot => SPOT_UNIFORM_SIZE as nat,
        }
    }

    /// The kind whose array comes right before this one, if any.
    pub open spec fn previous(self) -> Option<LightKind> {
        match self {
            LightKind::Ambient => None,
            LightKind::Directional => Some(LightKind::Ambient),
            LightKind::Point => Some(LightKind::Directional),
            LightKind::Spot => Some(LightKind::Point),
        }
    }

    /// The kind whose array comes right after this one, if any.
    pub open spec fn next(self) -> Option<LightKind> {
        match self {
            LightKind::Ambient => Some(LightKind::Directional),
            LightKind::Directional => Some(LightKind::Point),
            LightKind::Point => Some(LightKind::Spot),
            LightKind::Spot => None,
        }
    }

    /// Position of the kind in the buffer's order.
    pub open spec fn rank(self) -> nat {
        match self {
            LightKind::Ambient => 0,
            LightKind::Directional => 1,
            LightKind::Point => 2,
            LightKind::Spot => 3,
        }
    }

    /// Bytes of the whole array of this kind.
    pub open spec fn section_size(self) -> nat {
        self.capacity_spec() * self.uniform_size_spec()
    }

    /// Where the array of this kind starts: the sum of the sizes of all arrays before it.
    pub open spec fn section_start(self) -> nat
        decreases self.rank(),
    {
        match self.previous() {
            None => 0,
            Some(p) => {
                if p.rank() < self.rank() {
                    p.section_start() + p.section_size()
                } else {
                    0
                }
            },
        }
    }

    pub fn capacity(&self) -> (r: usize)
        ensures
            r == self.capacity_spec(),
    {
        match self {
            LightKind::Ambient => MAX_AMBIENT_LIGHTS,
            LightKind::Directional => MAX_DIRECTIONAL_LIGHTS,
            LightKind::Point => MAX_POINT_LIGHTS,
            LightKind::Spot => MAX_SPOT_LIGHTS,
        }
    }

    pub fn uniform_size(&self) -> (r: usize)
        ensures
            r == self.uniform_size_spec(),
    {
        match self {
            LightKind::Ambient => AMBIENT_UNIFORM_SIZE,
            LightKind::Directional => DIRECTIONAL_UNIFORM_SIZE,
            LightKind::Point => POINT_UNIFORM_SIZE,
            LightKind::Spot => SPOT_UNIFORM_SIZE,
        }
    }
}

/// Byte offset of slot `index` of `kind`: the start of its array plus `index` uniforms.
pub open spec fn slot_offset(kind: LightKind, index: nat) -> nat {
    kind.section_start() + index * kind.uniform_size_spec()
}

/// Byte offset of the count header: right after the last spot slot.
pub open spec fn count_header_offset() -> nat {
    LightKind::Spot.section_start() + LightKind::Spot.section_size()
}

/// The section starts and the header offset that the capacities and uniform
/// sizes give, equal to the named constants.
pub proof fn lemma_layout_constants()
    ensures
        LightKind::Ambient.section_start() == AMBIENT_SECTION_OFFSET,
        LightKind::Directional.section_start() == DIRECTIONAL_SECTION_OFFSET,
        LightKind::Point.section_start() == POINT_SECTION_OFFSET,
        LightKind::Spot.section_start() == SPOT_SECTION_OFFSET,
        count_header_offset() == COUNT_HEADER_OFFSET,
        DIRECTIONAL_SECTION_OFFSET == 16,
        POINT_SECTION_OFFSET == 336,
        SPOT_SECTION_OFFSET == 12624,
        COUNT_HEADER_OFFSET == 29008,
        LIGHT_BUFFER_SIZE == 29024,
{
    assert(LightKind::Ambient.section_start() == 0);
    assert(LightKind::Directional.section_start() == 16);
    assert(LightKind::Point.section_start() == 336);
    assert(LightKind::Spot.section_start() == 12624);
}

/// The layout is contiguous: slot `index + 1` of a kind starts where slot
/// `index` ends, the first slot of the next kind starts where the last slot of
/// this kind ends, and the count header starts where the last spot slot ends.
pub proof fn lemma_layout_contiguous(kind: LightKind, index: nat)
    requires
        index < kind.capacity_spec(),
    ensures
        slot_offset(kind, index + 1) == slot_offset(kind, index) + kind.uniform_size_spec(),
        index + 1 == kind.capacity_spec() ==> match kind.next() {
            Some(n) => slot_offset(n, 0) == slot_offset(kind, index) + kind.uniform_size_spec(),
            None => count_header_offset() == slot_offset(kind, index) + kind.uniform_size_spec(),
        },
{
    lemma_layout_constants();
    assert(slot_offset(kind, index + 1) == slot_offset(kind, index) + kind.uniform_size_spec())
        by (nonlinear_arith);
}

/// No two slots overlap, and none overlaps the count header: of two distinct
/// slots, one ends at or before the other starts.
pub proof fn lemma_slots_disjoint(k1: LightKind, i1: nat, k2: LightKind, i2: nat)
    requires
        i1 < k1.capacity_spec(),
        i2 < k2.capacity_spec(),
        k1 != k2 || i1 != i2,
    ensures
        slot_offset(k1, i1) + k1.uniform_size_spec() <= slot_offset(k2, i2) || slot_offset(k2, i2)
            + k2.uniform_size_spec() <= slot_offset(k1, i1),
        slot_offset(k1, i1) + k1.uniform_size_spec() <= count_header_offset(),
{
    lemma_layout_constants();
    let s1 = k1.uniform_size_spec();
    let s2 = k2.uniform_size_spec();
    assert(i1 * s1 + s1 <= k1.capacity_spec() * s1) by (nonlinear_arith)
        requires
            i1 < k1.capacity_spec(),
    ;
    assert(i2 * s2 + s2 <= k2.capacity_spec() * s2) by (nonlinear_arith)
        requires
            i2 < k2.capacity_spec(),
    ;
    if k1 == k2 {
        if i1 < i2 {
            assert(i1 * s1 + s1 <= i2 * s1) by (nonlinear_arith)
                requires
                    i1 < i2,
            ;
        } else {
            assert(i2 * s1 + s1 <= i1 * s1) by (nonlinear_arith)
                requires
                    i2 < i1,
            ;
        }
    }
}

/// A write into the light buffer: `data` goes at byte `offset`.
pub struct BufferWrite {
    pub offset: u64,
    pub data: Vec<u8>,
}

/// The four bytes of a word, least significant first.
pub open spec fn word_le_bytes(w: u32) -> Seq<u8> {
    seq![(w & 0xff) as u8, ((w >> 8) & 0xff) as u8, ((w >> 16) & 0xff) as u8, ((w >> 24) & 0xff) as u8]
}

/// The four bytes of a word as the machine stores it.
pub open spec fn word_native_bytes(w: u32) -> Seq<u8> {
    match endianness() {
        Endian::Little => word_le_bytes(w),
        Endian::Big => word_le_bytes(w).reverse(),
    }
}

/// The bytes of a sequence of words as the machine stores them, word after word.
pub open spec fn words_native_bytes(ws: Seq<u32>) -> Seq<u8>
    decreases ws.len(),
{
    if ws.len() == 0 {
        Seq::empty()
    } else {
        words_native_bytes(ws.drop_last()) + word_native_bytes(ws.last())
    }
}

/// Relies on bytemuck::cast_slice from `u32` to `u8`: it never fails for this pair
/// and reinterprets the words' memory, so each word gives its four bytes in the
/// machine's byte order.
#[verifier::external_body]
fn words_to_bytes(words: &[u32]) -> (r: Vec<u8>)
    ensures
        r@ == words_native_bytes(words@),
{
    bytemuck::cast_slice::<u32, u8>(words).to_vec()
}

/// Four bytes per word.
pub proof fn lemma_words_native_bytes_len(ws: Seq<u32>)
    ensures
        words_native_bytes(ws).len() == 4 * ws.len(),
    decreases ws.len(),
{
    if ws.len() > 0 {
        lemma_words_native_bytes_len(ws.drop_last());
    }
}

/// The bytes of a uniform given as 32-bit words (each a float's bits or an integer).
pub fn uniform_bytes(words: &[u32]) -> (r: Vec<u8>)
    ensures
        r@ == words_native_bytes(words@),
        r@.len() == 4 * words@.len(),
{
    proof {
        lemma_words_native_bytes_len(words@);
    }
    words_to_bytes(words)
}

/// Ambient or base uniform: the colour's three words, then the strength.
pub fn base_light_uniform(color: [u32; 3], strength: u32) -> (r: [u32; 4])
    ensures
        r@ == seq![color[0], color[1], color[2], strength],
{
    [color[0], color[1], color[2], strength]
}

/// Directional uniform: the base uniform, the direction, one zero word of padding.
pub fn directional_light_uniform(base: [u32; 4], direction: [u32; 3]) -> (r: [u32; 8])
    ensures
        r@ == base@ + direction@ + seq![0u32],
{
    let r = [base[0], base[1], base[2], base[3], direction[0], direction[1], direction[2], 0];
    assert(r@ =~= base@ + direction@ + seq![0u32]);
    r
}

/// Point uniform: colour, attenuation (constant, linear, exponential) and
/// position, each followed by one zero word of padding.
pub fn point_light_uniform(color: [u32; 3], attenuation: [u32; 3], position: [u32; 3]) -> (r: [u32; 12])
    ensures
        r@ == color@ + seq![0u32] + attenuation@ + seq![0u32] + position@ + seq![0u32],
{
    let r = [
        color[0],
        color[1],
        color[2],
        0,
        attenuation[0],
        attenuation[1],
        attenuation[2],
        0,
        position[0],
        position[1],
        position[2],
        0,
    ];
    assert(r@ =~= color@ + seq![0u32] + attenuation@ + seq![0u32] + position@ + seq![0u32]);
    r
}

/// Spot uniform: the point uniform, the direction, the cosine of the cutoff angle.
pub fn spot_light_uniform(point: [u32; 12], direction: [u32; 3], cutoff_cos: u32) -> (r: [u32; 16])
    ensures
        r@ == point@ + direction@ + seq![cutoff_cos],
{
    let r = [
        point[0],
        point[1],
        point[2],
        point[3],
        point[4],
        point[5],
        point[6],
        point[7],
        point[8],
        point[9],
        point[10],
        point[11],
        direction[0],
        direction[1],
        direction[2],
        cutoff_cos,
    ];
    assert(r@ =~= point@ + direction@ + seq![cutoff_cos]);
    r
}

/// A light that can give the bytes of its uniform.
pub trait Light {
    fn buffer_data(&self) -> Vec<u8>;
}

/// The CPU side of the light buffer: the active count of each kind. The slots
/// themselves live on the GPU; this plans each write into them.
pub struct LightBufferManager {
    pub ambient_count: u32,
    pub directional_count: u32,
    pub point_count: u32,
    pub spot_count: u32,
}

impl LightBufferManager {
    /// A manager with no active light.
    pub fn new() -> (r: Self)
        ensures
            r.ambient_count == 0,
            r.directional_count == 0,
            r.point_count == 0,
            r.spot_count == 0,
    {
        LightBufferManager { ambient_count: 0, directional_count: 0, point_count: 0, spot_count: 0 }
    }

    /// What the buffer holds when it is created: every slot and count zero.
    pub fn initial_contents() -> (r: Vec<u8>)
        ensures
            r@.len() == count_header_offset() + COUNT_HEADER_SIZE,
            forall|i: int| 0 <= i < r@.len() ==> r@[i] == 0,
    {
        proof {
            lemma_layout_constants();
        }
        let mut r: Vec<u8> = Vec::new();
        while r.len() < LIGHT_BUFFER_SIZE
            invariant
                r@.len() <= LIGHT_BUFFER_SIZE,
                forall|i: int| 0 <= i < r@.len() ==> r@[i] == 0,
            decreases LIGHT_BUFFER_SIZE - r@.len(),
        {
            r.push(0);
        }
        r
    }

    /// Byte offset of slot `index` of `kind`; with `index` equal to the kind's
    /// capacity, the offset just past its array.
    pub fn calculate_buffer_offset(kind: &LightKind, index: usize) -> (r: usize)
        requires
            index <= kind.capacity_spec(),
        ensures
            r == slot_offset(*kind, index as nat),
    {
        proof {
            lemma_layout_constants();
        }
        assert(index * 16 == 16 * index && index * 32 == 32 * index && index * 48 == 48 * index
            && index * 64 == 64 * index) by (nonlinear_arith);
        match kind {
            LightKind::Ambient => AMBIENT_SECTION_OFFSET + AMBIENT_UNIFORM_SIZE * index,
            LightKind::Directional => DIRECTIONAL_SECTION_OFFSET + DIRECTIONAL_UNIFORM_SIZE * index,
            LightKind::Point => POINT_SECTION_OFFSET + POINT_UNIFORM_SIZE * index,
            LightKind::Spot => SPOT_SECTION_OFFSET + SPOT_UNIFORM_SIZE * index,
        }
    }

    /// The write that puts a light's uniform `data` into slot `index` of `kind`.
    /// It stays within that slot.
    pub fn update_light_buffer(&self, kind: LightKind, index: usize, data: Vec<u8>) -> (w: BufferWrite)
        requires
            index < kind.capacity_spec(),
            data@.len() == kind.uniform_size_spec(),
        ensures
            w.offset == slot_offset(kind, index as nat),
            w.data@ == data@,
            w.offset + w.data@.len() == slot_offset(kind, index as nat + 1),
    {
        let offset = Self::calculate_buffer_offset(&kind, index);
        assert(slot_offset(kind, index as nat + 1) == slot_offset(kind, index as nat)
            + kind.uniform_size_spec()) by (nonlinear_arith);
        BufferWrite { offset: offset as u64, data }
    }

    /// The write that puts the four active counts into the header, in the order
    /// ambient, directional, point, spot.
    pub fn update_light_counts(&self) -> (w: BufferWrite)
        ensures
            w.offset == count_header_offset(),
            w.data@ == words_native_bytes(self.counts()),
            w.data@.len() == COUNT_HEADER_SIZE,
    {
        let offset = Self::calculate_buffer_offset(&LightKind::Spot, MAX_SPOT_LIGHTS);
        proof {
            lemma_layout_constants();
        }
        let counts = [self.ambient_count, self.directional_count, self.point_count, self.spot_count];
        assert(counts@ =~= self.counts());
        let data = uniform_bytes(&counts);
        BufferWrite { offset: offset as u64, data }
    }

    /// The active counts in header order.
    pub open spec fn counts(&self) -> Seq<u32> {
        seq![self.ambient_count, self.directional_count, self.point_count, self.spot_count]
    }
}

} // verus!
