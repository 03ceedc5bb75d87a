//! Byte layout of the material's uniform block.
//!
//! A uniform block places every member at the first offset, at or after the end of the
//! member before it, that is a multiple of the member's own alignment. The block as a
//! whole is rounded up to a multiple of sixteen bytes. The material has two members: a
//! colour, which is a vector of four 32-bit components, and a 32-bit frame counter.

use bevy::math::Vec4;
use bevy::render::render_resource::std140::AsStd140;
use vstd::prelude::*;

verus! {

/// Alignment of a vector of four 32-bit components, in bytes.
pub const VEC4_ALIGNMENT: usize = 16;

/// Size of a 32-bit scalar, in bytes.
pub const SCALAR_SIZE: usize = 4;

/// Alignment of a 32-bit scalar, in bytes.
pub const SCALAR_ALIGNMENT: usize = 4;

/// Multiple to which the size of a whole block is rounded up, in bytes.
pub const BLOCK_ALIGNMENT: usize = 16;

/// Offset of the colour within the block.
pub const COLOR_OFFSET: usize = 0;

/// Size of the colour within the block.
pub const COLOR_SIZE: usize = 16;

/// Offset of the frame counter within the block.
pub const FRAME_OFFSET: usize = 16;

/// Size of the whole block, trailing padding included.
pub const BLOCK_SIZE: usize = 32;

/// Number of bytes from `offset` up to the next multiple of `alignment`; zero when
/// `alignment` is zero.
pub open spec fn padding_for(offset: nat, alignment: nat) -> nat {
    if alignment == 0 || offset % alignment == 0 {
        0
    } else {
        (alignment - offset % alignment) as nat
    }
}

/// Whether `offset` is a multiple of `alignment`.
pub open spec fn is_aligned(offset: nat, alignment: nat) -> bool {
    alignment > 0 && offset % alignment == 0
}

/// First offset at or after `end` that is a multiple of `alignment`.
pub open spec fn aligned_from(end: nat, alignment: nat) -> nat {
    end + padding_for(end, alignment)
}

/// Whether `offsets` and `size` lay out members of the given `sizes` and `alignments`
/// as the block rule demands: every member starts at the first aligned offset after the
/// member before it, and the block ends at the first multiple of sixteen after the last.
pub open spec fn is_block_layout(
    sizes: Seq<nat>,
    alignments: Seq<nat>,
    offsets: Seq<nat>,
    size: nat,
) -> bool {
    &&& sizes.len() == alignments.len()
    &&& sizes.len() == offsets.len()
    &&& sizes.len() > 0
    &&& offsets[0] == 0
    &&& forall|i: int|
        1 <= i < offsets.len() ==> #[trigger] offsets[i] == aligned_from(
            offsets[i - 1] + sizes[i - 1],
            alignments[i],
        )
    &&& size == aligned_from(offsets.last() + sizes.last(), BLOCK_ALIGNMENT as nat)
}

/// `bevy_crevice::internal::align_offset`, under the path by which bevy hands it on.
/// Its body returns zero when `alignment` is zero or divides `offset`, and otherwise
/// `alignment - offset % alignment`; it panics on no input.
pub assume_specification[ bevy::render::render_resource::internal::align_offset ](
    offset: usize,
    alignment: usize,
) -> (pad: usize)
    ensures
        pad == padding_for(offset as nat, alignment as nat),
;

/// `AsStd140::std140_size_static` of `bevy::math::Vec4`. It returns the size in memory of
/// the vector's block form, a `repr(C)` struct of four `f32` fields: sixteen bytes.
#[verifier::external_body]
fn vec4_block_size() -> (size: usize)
    ensures
        size == COLOR_SIZE,
{
    Vec4::std140_size_static()
}

/// Padding never reaches the alignment, it brings the offset onto a multiple of the
/// alignment, and no offset before that one, from `offset` on, is such a multiple.
pub proof fn lemma_padding_is_least(offset: nat, alignment: nat)
    requires
        alignment > 0,
    ensures
        padding_for(offset, alignment) < alignment,
        is_aligned(aligned_from(offset, alignment), alignment),
        forall|t: nat|
            offset <= t < aligned_from(offset, alignment) ==> !#[trigger] is_aligned(t, alignment),
{
    let r = offset % alignment;
    let q = offset / alignment;
    assert(offset == alignment * q + r) by {
        vstd::arithmetic::div_mod::lemma_fundamental_div_mod(offset as int, alignment as int);
    }
    if r != 0 {
        assert(aligned_from(offset, alignment) == alignment * (q + 1)) by (nonlinear_arith)
            requires
                offset == alignment * q + r,
                aligned_from(offset, alignment) == offset + alignment - r,
        ;
        vstd::arithmetic::div_mod::lemma_mod_multiples_basic((q + 1) as int, alignment as int);
        assert(alignment * (q + 1) == (q + 1) * alignment) by (nonlinear_arith);
        assert forall|t: nat| offset <= t < aligned_from(offset, alignment) implies !#[trigger] is_aligned(
            t,
            alignment,
        ) by {
            let p = t - offset;
            assert(t == alignment * q + (r + p));
            vstd::arithmetic::div_mod::lemma_fundamental_div_mod_converse(
                t as int,
                alignment as int,
                q as int,
                (r + p) as int,
            );
        }
    }
}

/// Offset of the frame counter: the end of the colour, whose size is asked of the crate
/// that defines the vector's block form, brought up to the alignment of a scalar.
pub fn frame_offset() -> (offset: usize)
    ensures
        offset == aligned_from((COLOR_OFFSET + COLOR_SIZE) as nat, SCALAR_ALIGNMENT as nat),
        offset == FRAME_OFFSET,
{
    let end: usize = COLOR_OFFSET + vec4_block_size();
    end + bevy::render::render_resource::internal::align_offset(end, SCALAR_ALIGNMENT)
}

/// Size of the block: the end of the frame counter, brought up to a multiple of sixteen.
pub fn block_size() -> (size: usize)
    ensures
        size == aligned_from((FRAME_OFFSET + SCALAR_SIZE) as nat, BLOCK_ALIGNMENT as nat),
        size == BLOCK_SIZE,
{
    let end: usize = frame_offset() + SCALAR_SIZE;
    end + bevy::render::render_resource::internal::align_offset(end, BLOCK_ALIGNMENT)
}

/// The material's offsets and size are the layout that the block rule gives to a
/// four-component vector followed by a scalar. Both members start on a multiple of
/// their alignment, they do not overlap, and the size is a multiple of sixteen.
pub proof fn lemma_material_layout()
    ensures
        is_block_layout(
            seq![COLOR_SIZE as nat, SCALAR_SIZE as nat],
            seq![VEC4_ALIGNMENT as nat, SCALAR_ALIGNMENT as nat],
            seq![COLOR_OFFSET as nat, FRAME_OFFSET as nat],
            BLOCK_SIZE as nat,
        ),
        COLOR_OFFSET % VEC4_ALIGNMENT == 0,
        FRAME_OFFSET % SCALAR_ALIGNMENT == 0,
        COLOR_OFFSET + COLOR_SIZE <= FRAME_OFFSET,
        FRAME_OFFSET + SCALAR_SIZE <= BLOCK_SIZE,
        BLOCK_SIZE % BLOCK_ALIGNMENT == 0,
{
    let sizes = seq![COLOR_SIZE as nat, SCALAR_SIZE as nat];
    let alignments = seq![VEC4_ALIGNMENT as nat, SCALAR_ALIGNMENT as nat];
    let offsets = seq![COLOR_OFFSET as nat, FRAME_OFFSET as nat];
    assert(offsets.last() == 16 && sizes.last() == 4);
    assert forall|i: int| 1 <= i < offsets.len() implies #[trigger] offsets[i] == aligned_from(
        offsets[i - 1] + sizes[i - 1],
        alignments[i],
    ) by {
        assert(i == 1);
    }
}

} // verus!
