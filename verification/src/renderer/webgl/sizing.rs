//! Byte-size arithmetic shared by the texture formats: uncompressed formats
//! store a fixed number of bytes per texel, compressed formats store fixed-size
//! blocks of texels.
use vstd::prelude::*;

verus! {

/// How a compressed format lays out its texels in memory.
#[derive(Debug, Clone, Copy, PartialEq, Eq, Structural)]
pub enum BlockLayout {
    /// The image is cut into `block_width` x `block_height` texel blocks (partial
    /// blocks at the edges are rounded up), each taking `block_bytes` bytes.
    Blocks { block_width: usize, block_height: usize, block_bytes: usize },
    /// PVRTC: the extents are raised to at least `min_width` x `min_height`
    /// and the texel count is divided by `texels_per_byte`.
    Pvrtc { min_width: usize, min_height: usize, texels_per_byte: usize },
}

/// What a compressed format's family and name promise of its storage:
/// `width` x `height` texel blocks of `bits` bits each, or PVRTC's
/// `bits_per_texel` over an image of at least `min_width` x `min_height`.
#[derive(Debug, Clone, Copy, PartialEq, Eq, Structural)]
pub enum CompressedFootprint {
    Blocks { width: u32, height: u32, bits: u32 },
    Pvrtc { min_width: u32, min_height: u32, bits_per_texel: u32 },
}

/// `a` divided by `b`, rounded up.
pub open spec fn ceil_div(a: nat, b: nat) -> nat {
    ((a + b - 1) / (b as int)) as nat
}

pub open spec fn max_nat(a: nat, b: nat) -> nat {
    if a >= b { a } else { b }
}

impl BlockLayout {
    /// The layout's parameters are all positive.
    pub open spec fn wf(self) -> bool {
        match self {
            BlockLayout::Blocks { block_width, block_height, block_bytes } =>
                block_width >= 1 && block_height >= 1 && block_bytes >= 1,
            BlockLayout::Pvrtc { min_width, min_height, texels_per_byte } =>
                texels_per_byte >= 1,
        }
    }

    /// Number of bytes an image of `width` x `height` texels takes in this layout.
    pub open spec fn byte_length(self, width: nat, height: nat) -> nat {
        match self {
            BlockLayout::Blocks { block_width, block_height, block_bytes } =>
                ceil_div(width, block_width as nat) * ceil_div(height, block_height as nat) * (block_bytes as nat),
            BlockLayout::Pvrtc { min_width, min_height, texels_per_byte } =>
                max_nat(width, min_width as nat) * max_nat(height, min_height as nat) / (texels_per_byte as nat),
        }
    }

    /// The computation of [`BlockLayout::byte_length`] stays within `usize`
    /// at every step, so that computing it for `width` x `height` does not overflow.
    pub open spec fn byte_length_fits(self, width: nat, height: nat) -> bool {
        match self {
            BlockLayout::Blocks { block_width, block_height, block_bytes } => {
                &&& width + block_width - 1 <= usize::MAX
                &&& height + block_height - 1 <= usize::MAX
                &&& self.byte_length(width, height) <= usize::MAX
            },
            BlockLayout::Pvrtc { min_width, min_height, texels_per_byte } =>
                max_nat(width, min_width as nat) * max_nat(height, min_height as nat) <= usize::MAX,
        }
    }
}

proof fn lemma_mul_le_mul_ge1(a: nat, b: nat)
    requires
        b >= 1,
    ensures
        a <= a * b,
{
    assert(a <= a * b) by (nonlinear_arith)
        requires
            b >= 1,
    ;
}

/// Bytes taken by `width` x `height` texels in `layout`.
pub fn block_byte_length(layout: BlockLayout, width: usize, height: usize) -> (r: usize)
    requires
        layout.wf(),
        layout.byte_length_fits(width as nat, height as nat),
    ensures
        r == layout.byte_length(width as nat, height as nat),
{
    match layout {
        BlockLayout::Blocks { block_width, block_height, block_bytes } => {
            let columns = (width + (block_width - 1)) / block_width;
            let rows = (height + (block_height - 1)) / block_height;
            proof {
                lemma_mul_le_mul_ge1((columns * rows) as nat, block_bytes as nat);
            }
            columns * rows * block_bytes
        },
        BlockLayout::Pvrtc { min_width, min_height, texels_per_byte } => {
            let w = if width >= min_width { width } else { min_width };
            let h = if height >= min_height { height } else { min_height };
            w * h / texels_per_byte
        },
    }
}

/// Bytes taken by `width` x `height` texels of `texel_bytes` bytes each.
pub open spec fn texel_byte_length(width: nat, height: nat, texel_bytes: nat) -> nat {
    width * height * texel_bytes
}

/// Bytes taken by `width` x `height` texels of `texel_bytes` (at least one) bytes each.
pub fn texels_byte_length(width: usize, height: usize, texel_bytes: usize) -> (r: usize)
    requires
        texel_bytes >= 1,
        texel_byte_length(width as nat, height as nat, texel_bytes as nat) <= usize::MAX,
    ensures
        r == texel_byte_length(width as nat, height as nat, texel_bytes as nat),
{
    proof {
        lemma_mul_le_mul_ge1((width * height) as nat, texel_bytes as nat);
    }
    width * height * texel_bytes
}

/// Bytes taken by `width` x `height` texels in `layout`, or `None` when
/// computing it would overflow `usize`.
pub fn checked_block_byte_length(layout: BlockLayout, width: usize, height: usize) -> (r: Option<usize>)
    requires
        layout.wf(),
    ensures
        r is Some <==> layout.byte_length_fits(width as nat, height as nat),
        r matches Some(v) ==> v == layout.byte_length(width as nat, height as nat),
{
    match layout {
        BlockLayout::Blocks { block_width, block_height, block_bytes } => {
            let padded_width = match width.checked_add(block_width - 1) {
                Some(v) => v,
                None => {
                    return None;
                },
            };
            let padded_height = match height.checked_add(block_height - 1) {
                Some(v) => v,
                None => {
                    return None;
                },
            };
            let columns = padded_width / block_width;
            let rows = padded_height / block_height;
            let blocks = match columns.checked_mul(rows) {
                Some(v) => v,
                None => {
                    proof {
                        lemma_mul_le_mul_ge1((columns * rows) as nat, block_bytes as nat);
                    }
                    return None;
                },
            };
            blocks.checked_mul(block_bytes)
        },
        BlockLayout::Pvrtc { min_width, min_height, texels_per_byte } => {
            let w = if width >= min_width { width } else { min_width };
            let h = if height >= min_height { height } else { min_height };
            match w.checked_mul(h) {
                Some(texels) => Some(texels / texels_per_byte),
                None => None,
            }
        },
    }
}

/// Bytes taken by `width` x `height` texels of `texel_bytes` (at least one)
/// bytes each, or `None` when that exceeds `usize`.
pub fn checked_texels_byte_length(width: usize, height: usize, texel_bytes: usize) -> (r: Option<usize>)
    requires
        texel_bytes >= 1,
    ensures
        r is Some <==> texel_byte_length(width as nat, height as nat, texel_bytes as nat) <= usize::MAX,
        r matches Some(v) ==> v == texel_byte_length(width as nat, height as nat, texel_bytes as nat),
{
    match width.checked_mul(height) {
        Some(texels) => texels.checked_mul(texel_bytes),
        None => {
            proof {
                lemma_mul_le_mul_ge1((width * height) as nat, texel_bytes as nat);
            }
            None
        },
    }
}

} // verus!
