//! The material record and its image in a uniform block.

use crate::error::MaterialError;
use crate::layout::{
    block_size, frame_offset, BLOCK_SIZE, COLOR_OFFSET, FRAME_OFFSET, SCALAR_SIZE,
};
use vstd::prelude::*;

verus! {

/// Whether `bits`, read as an IEEE-754 binary32 number, is neither an infinity nor a NaN:
/// its eight exponent bits are not all set.
pub open spec fn is_finite_bits(bits: u32) -> bool {
    (bits / 0x80_0000) % 0x100 != 0xff
}

/// The four bytes of `x`, least significant first.
pub open spec fn le_bytes(x: u32) -> Seq<u8> {
    seq![
        (x % 0x100) as u8,
        ((x / 0x100) % 0x100) as u8,
        ((x / 0x1_0000) % 0x100) as u8,
        (x / 0x100_0000) as u8,
    ]
}

/// The number whose bytes, least significant first, are the four bytes of `bytes` from
/// `at` on.
pub open spec fn le_value(bytes: Seq<u8>, at: int) -> u32 {
    (bytes[at] + 0x100 * bytes[at + 1] + 0x1_0000 * bytes[at + 2] + 0x100_0000 * bytes[at
        + 3]) as u32
}

/// `n` zero bytes.
pub open spec fn zeros(n: nat) -> Seq<u8> {
    Seq::new(n, |i: int| 0u8)
}

/// A colour in linear RGBA. Each component is kept as the bit pattern of a binary32
/// number, and every component is finite.
#[derive(Clone, Copy, Debug, PartialEq, Eq, Structural)]
pub struct LinearRgba {
    r: u32,
    g: u32,
    b: u32,
    a: u32,
}

impl View for LinearRgba {
    type V = (u32, u32, u32, u32);

    /// The bit patterns of red, green, blue and alpha.
    closed spec fn view(&self) -> (u32, u32, u32, u32) {
        (self.r, self.g, self.b, self.a)
    }
}

impl LinearRgba {
    #[verifier::type_invariant]
    spec fn components_finite(self) -> bool {
        &&& is_finite_bits(self.r)
        &&& is_finite_bits(self.g)
        &&& is_finite_bits(self.b)
        &&& is_finite_bits(self.a)
    }

    /// Whether all four components are finite. Every colour that the program holds is.
    pub closed spec fn is_finite(self) -> bool {
        self.components_finite()
    }

    /// The colour with the given component bit patterns, if all four are finite.
    pub fn from_bits(r: u32, g: u32, b: u32, a: u32) -> (color: Option<LinearRgba>)
        ensures
            color is Some <==> is_finite_bits(r) && is_finite_bits(g) && is_finite_bits(b)
                && is_finite_bits(a),
            color is Some ==> color->0@ == (r, g, b, a) && color->0.is_finite(),
    {
        if finite(r) && finite(g) && finite(b) && finite(a) {
            Some(LinearRgba { r, g, b, a })
        } else {
            None
        }
    }

    /// The bit patterns of red, green, blue and alpha.
    pub fn to_bits(&self) -> (bits: (u32, u32, u32, u32))
        ensures
            bits == self@,
            is_finite_bits(bits.0) && is_finite_bits(bits.1) && is_finite_bits(bits.2)
                && is_finite_bits(bits.3),
    {
        proof {
            use_type_invariant(self);
        }
        (self.r, self.g, self.b, self.a)
    }

    /// A colour is determined by its components, and it is finite exactly if they are.
    pub proof fn lemma_view(self, other: LinearRgba)
        ensures
            self@ == other@ ==> self == other,
            self.is_finite() <==> is_finite_bits(self@.0) && is_finite_bits(self@.1)
                && is_finite_bits(self@.2) && is_finite_bits(self@.3),
    {
    }
}

/// Whether `bits` is the pattern of a finite binary32 number.
pub fn finite(bits: u32) -> (yes: bool)
    ensures
        yes == is_finite_bits(bits),
{
    (bits / 0x80_0000) % 0x100 != 0xff
}

/// Appends the four bytes of `x`, least significant first.
fn push_le(out: &mut Vec<u8>, x: u32)
    ensures
        final(out)@ == old(out)@ + le_bytes(x),
{
    out.push((x % 0x100) as u8);
    out.push(((x / 0x100) % 0x100) as u8);
    out.push(((x / 0x1_0000) % 0x100) as u8);
    out.push((x / 0x100_0000) as u8);
    assert(out@ =~= old(out)@ + le_bytes(x));
}

/// Appends zero bytes until `out` is `len` bytes long.
fn pad_to(out: &mut Vec<u8>, len: usize)
    requires
        old(out)@.len() <= len,
    ensures
        final(out)@ == old(out)@ + zeros((len - old(out)@.len()) as nat),
{
    assert(out@ =~= old(out)@ + zeros(0));
    while out.len() < len
        invariant
            old(out)@.len() <= out@.len() <= len,
            out@ == old(out)@ + zeros((out@.len() - old(out)@.len()) as nat),
        decreases len - out@.len(),
    {
        out.push(0u8);
        assert(out@ =~= old(out)@ + zeros((out@.len() - old(out)@.len()) as nat));
    }
}

/// Reads the four bytes of `bytes` from `at` on as a number, least significant first.
fn read_le(bytes: &[u8], at: usize) -> (x: u32)
    requires
        at + 4 <= bytes@.len(),
    ensures
        x == le_value(bytes@, at as int),
{
    let b0: u32 = bytes[at] as u32;
    let b1: u32 = bytes[at + 1] as u32;
    let b2: u32 = bytes[at + 2] as u32;
    let b3: u32 = bytes[at + 3] as u32;
    b0 + 0x100 * b1 + 0x1_0000 * b2 + 0x100_0000 * b3
}

/// The material: a colour and the number of the frame that it was last extracted for.
#[derive(Clone, Copy, Debug, PartialEq, Eq, Structural)]
pub struct ShaderMaterial {
    pub color: LinearRgba,
    pub frame: u32,
}

/// The colour components that a block holds, as bit patterns.
pub open spec fn block_color(bytes: Seq<u8>) -> (u32, u32, u32, u32) {
    (
        le_value(bytes, COLOR_OFFSET as int),
        le_value(bytes, COLOR_OFFSET + 4),
        le_value(bytes, COLOR_OFFSET + 8),
        le_value(bytes, COLOR_OFFSET + 12),
    )
}

/// The frame counter that a block holds.
pub open spec fn block_frame(bytes: Seq<u8>) -> u32 {
    le_value(bytes, FRAME_OFFSET as int)
}

/// Whether a block holds only finite colour components.
pub open spec fn block_is_finite(bytes: Seq<u8>) -> bool {
    &&& is_finite_bits(block_color(bytes).0)
    &&& is_finite_bits(block_color(bytes).1)
    &&& is_finite_bits(block_color(bytes).2)
    &&& is_finite_bits(block_color(bytes).3)
}

impl ShaderMaterial {
    /// The material one frame later: the same colour, and the frame counter one higher.
    /// A counter that has reached the largest value stays there, so that it never
    /// decreases.
    pub open spec fn advanced(self) -> ShaderMaterial {
        ShaderMaterial {
            color: self.color,
            frame: if self.frame < u32::MAX {
                (self.frame + 1) as u32
            } else {
                self.frame
            },
        }
    }

    /// The material `frames` frames later.
    pub open spec fn advanced_by(self, frames: nat) -> ShaderMaterial
        decreases frames,
    {
        if frames == 0 {
            self
        } else {
            self.advanced_by((frames - 1) as nat).advanced()
        }
    }

    /// Moves the material on by one frame.
    pub fn advance(&mut self)
        ensures
            *final(self) == old(self).advanced(),
            final(self).frame >= old(self).frame,
    {
        if self.frame < u32::MAX {
            self.frame = self.frame + 1;
        }
    }

    /// A copy of the material that shares nothing with it.
    pub fn extract_asset(&self) -> (snapshot: ShaderMaterial)
        ensures
            snapshot == *self,
    {
        *self
    }

    /// The frame counter goes up by one with every frame and never comes down: after
    /// `frames` frames it has grown by `frames`, or stands at the largest value if that
    /// is less. The colour stays as it was.
    pub proof fn lemma_frames_counted(self, frames: nat)
        ensures
            self.advanced_by(frames).color == self.color,
            self.advanced_by(frames).frame == if self.frame + frames <= u32::MAX {
                self.frame + frames
            } else {
                u32::MAX as int
            },
            self.advanced_by(frames).frame >= self.frame,
            self.advanced_by(frames + 1).frame >= self.advanced_by(frames).frame,
        decreases frames,
    {
        if frames > 0 {
            self.lemma_frames_counted((frames - 1) as nat);
        }
        assert(self.advanced_by(frames + 1) == self.advanced_by(frames).advanced());
    }

    /// The material's uniform block: the four colour components, the frame counter, and
    /// zero bytes up to the block's size, every number least significant byte first.
    pub open spec fn std140_bytes(self) -> Seq<u8> {
        le_bytes(self.color@.0) + le_bytes(self.color@.1) + le_bytes(self.color@.2) + le_bytes(
            self.color@.3,
        ) + le_bytes(self.frame) + zeros((BLOCK_SIZE - FRAME_OFFSET - SCALAR_SIZE) as nat)
    }

    /// Whether `bytes` is a block of the declared size that holds this material's colour
    /// and frame counter. The padding bytes are not looked at.
    pub open spec fn is_read_from(self, bytes: Seq<u8>) -> bool {
        &&& bytes.len() == BLOCK_SIZE
        &&& self.color@ == block_color(bytes)
        &&& self.frame == block_frame(bytes)
    }

    /// Writes the material as a uniform block.
    pub fn as_std140_bytes(&self) -> (bytes: Vec<u8>)
        ensures
            bytes@ == self.std140_bytes(),
            bytes@.len() == BLOCK_SIZE,
    {
        let bits: (u32, u32, u32, u32) = self.color.to_bits();
        let mut out: Vec<u8> = Vec::new();
        pad_to(&mut out, COLOR_OFFSET);
        push_le(&mut out, bits.0);
        push_le(&mut out, bits.1);
        push_le(&mut out, bits.2);
        push_le(&mut out, bits.3);
        pad_to(&mut out, frame_offset());
        push_le(&mut out, self.frame);
        pad_to(&mut out, block_size());
        assert(out@ =~= self.std140_bytes());
        out
    }

    /// Reads a material from a uniform block. A block of another size than the declared
    /// one is an invalid layout; a block with a colour component that is not finite holds
    /// no material.
    pub fn from_std140_bytes(bytes: &[u8]) -> (read: Result<ShaderMaterial, MaterialError>)
        ensures
            read is Ok <==> bytes@.len() == BLOCK_SIZE && block_is_finite(bytes@),
            read matches Ok(material) ==> material.is_read_from(bytes@),
            read matches Err(e) ==> (e == MaterialError::InvalidLayout <==> bytes@.len()
                != BLOCK_SIZE),
            read matches Err(e) ==> (e == MaterialError::NonFiniteColor <==> bytes@.len()
                == BLOCK_SIZE),
    {
        if bytes.len() != block_size() {
            return Err(MaterialError::InvalidLayout);
        }
        let r: u32 = read_le(bytes, COLOR_OFFSET);
        let g: u32 = read_le(bytes, COLOR_OFFSET + 4);
        let b: u32 = read_le(bytes, COLOR_OFFSET + 8);
        let a: u32 = read_le(bytes, COLOR_OFFSET + 12);
        let frame: u32 = read_le(bytes, frame_offset());
        match LinearRgba::from_bits(r, g, b, a) {
            Some(color) => Ok(ShaderMaterial { color, frame }),
            None => Err(MaterialError::NonFiniteColor),
        }
    }

    /// Reading a material's block gives back the material, bit for bit: the block has the
    /// declared size, it holds the material's colour and frame counter, and any material
    /// read from it is the one that was written.
    pub proof fn lemma_round_trip(self, other: ShaderMaterial)
        requires
            self.color.is_finite(),
        ensures
            self.is_read_from(self.std140_bytes()),
            block_is_finite(self.std140_bytes()),
            other.is_read_from(self.std140_bytes()) ==> other == self,
    {
        lemma_le_round_trip(self.color@.0);
        lemma_le_round_trip(self.color@.1);
        lemma_le_round_trip(self.color@.2);
        lemma_le_round_trip(self.color@.3);
        lemma_le_round_trip(self.frame);
        self.color.lemma_view(other.color);
    }
}

/// The bytes of a number give the number back.
pub proof fn lemma_le_round_trip(x: u32)
    ensures
        le_bytes(x).len() == 4,
        le_value(le_bytes(x), 0) == x,
{
}

} // verus!
