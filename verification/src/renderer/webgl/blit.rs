use vstd::prelude::*;

use super::conversion::ToGlEnum;

verus! {

/// Available blit framebuffer masks mapped from [`WebGl2RenderingContext`].
#[allow(non_camel_case_types)]
#[derive(Debug, Clone, Copy, PartialEq, Eq, Hash, Structural)]
pub enum BlitMask {
    COLOR_BUFFER_BIT,
    DEPTH_BUFFER_BIT,
    STENCIL_BUFFER_BIT,
}

/// Available blit framebuffer filters mapped from [`WebGl2RenderingContext`].
#[allow(non_camel_case_types)]
#[derive(Debug, Clone, Copy, PartialEq, Eq, Hash, Structural)]
pub enum BlitFlilter {
    NEAREST,
    LINEAR,
}

/// The rectangles a blit copies between, each corner optional: a missing
/// start corner is the origin, a missing end corner the framebuffer's size.
#[derive(Debug, Clone, Copy, PartialEq, Eq, Structural)]
pub struct BlitRegion {
    pub src_x0: Option<usize>,
    pub src_y0: Option<usize>,
    pub src_x1: Option<usize>,
    pub src_y1: Option<usize>,
    pub dst_x0: Option<usize>,
    pub dst_y0: Option<usize>,
    pub dst_x1: Option<usize>,
    pub dst_y1: Option<usize>,
}

/// The arguments of one `blitFramebuffer` call.
#[derive(Debug, Clone, Copy, PartialEq, Eq, Structural)]
pub struct BlitArguments {
    pub src_x0: i32,
    pub src_y0: i32,
    pub src_x1: i32,
    pub src_y1: i32,
    pub dst_x0: i32,
    pub dst_y0: i32,
    pub dst_x1: i32,
    pub dst_y1: i32,
    pub mask: u32,
    pub filter: u32,
}

/// `value`, else `fallback`, else `0`.
pub open spec fn or_size(value: Option<usize>, fallback: Option<usize>) -> usize {
    match value {
        Some(v) => v,
        None => match fallback {
            Some(f) => f,
            None => 0,
        },
    }
}

/// A given corner coordinate is kept; a missing one falls back to the
/// framebuffer's size where it is known, and to zero otherwise.
pub proof fn lemma_or_size(value: usize, fallback: usize)
    ensures
        or_size(Some(value), Some(fallback)) == value,
        or_size(Some(value), None) == value,
        or_size(None, Some(fallback)) == fallback,
        or_size(None, None) == 0,
{
}

fn or_size_exec(value: Option<usize>, fallback: Option<usize>) -> (r: usize)
    ensures
        r == or_size(value, fallback),
{
    match value {
        Some(v) => v,
        None => match fallback {
            Some(f) => f,
            None => 0,
        },
    }
}

/// The arguments of the blit of `region` from a framebuffer of
/// `read_width` x `read_height` into one of `draw_width` x `draw_height`
/// (sizes are unknown before the framebuffers are created).
pub fn blit_arguments(
    region: BlitRegion,
    read_width: Option<usize>,
    read_height: Option<usize>,
    draw_width: Option<usize>,
    draw_height: Option<usize>,
    mask: BlitMask,
    filter: BlitFlilter,
) -> (r: BlitArguments)
    ensures
        r == (BlitArguments {
            src_x0: or_size(region.src_x0, None) as i32,
            src_y0: or_size(region.src_y0, None) as i32,
            src_x1: or_size(region.src_x1, read_width) as i32,
            src_y1: or_size(region.src_y1, read_height) as i32,
            dst_x0: or_size(region.dst_x0, None) as i32,
            dst_y0: or_size(region.dst_y0, None) as i32,
            dst_x1: or_size(region.dst_x1, draw_width) as i32,
            dst_y1: or_size(region.dst_y1, draw_height) as i32,
            mask: mask.gl_value(),
            filter: filter.gl_value(),
        }),
{
    BlitArguments {
        src_x0: or_size_exec(region.src_x0, None) as i32,
        src_y0: or_size_exec(region.src_y0, None) as i32,
        src_x1: or_size_exec(region.src_x1, read_width) as i32,
        src_y1: or_size_exec(region.src_y1, read_height) as i32,
        dst_x0: or_size_exec(region.dst_x0, None) as i32,
        dst_y0: or_size_exec(region.dst_y0, None) as i32,
        dst_x1: or_size_exec(region.dst_x1, draw_width) as i32,
        dst_y1: or_size_exec(region.dst_y1, draw_height) as i32,
        mask: mask.gl_enum(),
        filter: filter.gl_enum(),
    }
}

} // verus!
