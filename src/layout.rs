//! Byte layout of the uniform blocks the shaders declare.

use vstd::prelude::*;

verus! {

/// Size in bytes of the simulation parameter block the shader declares.
pub const SIM_PARAMS_SIZE: usize = 32;

/// Size in bytes of the camera block the automaton shader declares.
pub const CAMERA_SIZE: usize = 16;

/// Little-endian bytes of a 32-bit word, as the GPU reads a `u32` or `f32`.
pub open spec fn le32(v: u32) -> Seq<u8> {
    seq![
        (v % 256) as u8,
        ((v / 256) % 256) as u8,
        ((v / 65536) % 256) as u8,
        (v / 16777216) as u8,
    ]
}

/// A block of consecutive 32-bit fields: field `i` occupies bytes
/// `4 * i .. 4 * i + 4`.
pub open spec fn block_layout(words: Seq<u32>, bytes: Seq<u8>) -> bool {
    &&& bytes.len() == 4 * words.len()
    &&& forall|i: int, j: int|
        0 <= i < words.len() && 0 <= j < 4 ==> #[trigger] bytes[4 * i + j] == le32(
            #[trigger] words[i],
        )[j]
}

fn push_le32(out: &mut Vec<u8>, v: u32)
    ensures
        final(out)@ == old(out)@ + le32(v),
{
    out.push((v % 256) as u8);
    out.push(((v / 256) % 256) as u8);
    out.push(((v / 65536) % 256) as u8);
    out.push((v / 16777216) as u8);
    assert(final(out)@ =~= old(out)@ + le32(v));
}

/// Serialises 32-bit fields into the byte block that a uniform buffer holds.
pub fn encode_words(words: &Vec<u32>) -> (r: Vec<u8>)
    requires
        4 * words.len() <= usize::MAX,
    ensures
        block_layout(words@, r@),
{
    let mut out: Vec<u8> = Vec::new();
    let mut k: usize = 0;
    while k < words.len()
        invariant
            k <= words.len(),
            4 * words.len() <= usize::MAX,
            block_layout(words@.subrange(0, k as int), out@),
        decreases words.len() - k,
    {
        let ghost before = out@;
        push_le32(&mut out, words[k]);
        k = k + 1;
        assert forall|i: int, j: int|
            0 <= i < k && 0 <= j < 4 implies #[trigger] out@[4 * i + j] == le32(
            #[trigger] words@.subrange(0, k as int)[i],
        )[j] by {
            if i < k - 1 {
                assert(words@.subrange(0, k as int)[i] == words@.subrange(0, k - 1)[i]);
                assert(out@[4 * i + j] == before[4 * i + j]);
            }
        }
    }
    assert(words@.subrange(0, words.len() as int) =~= words@);
    out
}

/// Parameters of the flocking simulation, in the field order of the shader's
/// parameter block. The live element count is a `u32`; every other field is
/// the IEEE-754 bit pattern of the shader's `f32`.
#[derive(Clone, Copy, Debug, PartialEq, Eq, Structural)]
pub struct SimParams {
    pub num_particles: u32,
    pub delta_time_bits: u32,
    pub separation_distance_bits: u32,
    pub alignment_distance_bits: u32,
    pub cohesion_distance_bits: u32,
    pub separation_scale_bits: u32,
    pub alignment_scale_bits: u32,
    pub cohesion_scale_bits: u32,
}

impl SimParams {
    /// The fields in block order.
    pub open spec fn fields(self) -> Seq<u32> {
        seq![
            self.num_particles,
            self.delta_time_bits,
            self.separation_distance_bits,
            self.alignment_distance_bits,
            self.cohesion_distance_bits,
            self.separation_scale_bits,
            self.alignment_scale_bits,
            self.cohesion_scale_bits,
        ]
    }

    /// The parameter block exactly as the uniform buffer must hold it.
    pub fn to_bytes(&self) -> (r: Vec<u8>)
        ensures
            r@.len() == SIM_PARAMS_SIZE,
            block_layout(self.fields(), r@),
    {
        let words: Vec<u32> = vec![
            self.num_particles,
            self.delta_time_bits,
            self.separation_distance_bits,
            self.alignment_distance_bits,
            self.cohesion_distance_bits,
            self.separation_scale_bits,
            self.alignment_scale_bits,
            self.cohesion_scale_bits,
        ];
        assert(words@ =~= self.fields());
        encode_words(&words)
    }
}

/// Placement of the automaton texture in clip space: the quad's origin and
/// scale, each an `(x, y)` pair of `f32` bit patterns.
#[derive(Clone, Copy, Debug, PartialEq, Eq, Structural)]
pub struct CameraParams {
    pub origin_x_bits: u32,
    pub origin_y_bits: u32,
    pub scale_x_bits: u32,
    pub scale_y_bits: u32,
}

impl CameraParams {
    /// The fields in block order.
    pub open spec fn fields(self) -> Seq<u32> {
        seq![self.origin_x_bits, self.origin_y_bits, self.scale_x_bits, self.scale_y_bits]
    }

    /// The camera block exactly as the uniform buffer must hold it.
    pub fn to_bytes(&self) -> (r: Vec<u8>)
        ensures
            r@.len() == CAMERA_SIZE,
            block_layout(self.fields(), r@),
    {
        let words: Vec<u32> = vec![
            self.origin_x_bits,
            self.origin_y_bits,
            self.scale_x_bits,
            self.scale_y_bits,
        ];
        assert(words@ =~= self.fields());
        encode_words(&words)
    }
}

} // verus!
