//! Scissor rectangles: the part of a mesh's clip rectangle that lies on the
//! render target, in whole physical pixels.

use vstd::prelude::*;

verus! {

/// A clip rectangle in physical pixels, before it is limited to a target.
///
/// The corners are logical points already scaled by the frame's
/// pixels-per-point factor and rounded to the nearest pixel. Any four
/// coordinates are a valid value: a rectangle may lie outside every target
/// and may be empty or inverted.
#[derive(Clone, Copy, Debug, PartialEq, Eq, Structural)]
pub struct ClipRect {
    pub min_x: i64,
    pub min_y: i64,
    pub max_x: i64,
    pub max_y: i64,
}

/// A scissor rectangle on a render target, in physical pixels.
#[derive(Clone, Copy, Debug, PartialEq, Eq, Structural)]
pub struct ScissorRect {
    pub x: u32,
    pub y: u32,
    pub width: u32,
    pub height: u32,
}

/// `v` limited to the range from `lo` to `hi`, both included.
pub open spec fn clamp(v: int, lo: int, hi: int) -> int {
    if v < lo {
        lo
    } else if v > hi {
        hi
    } else {
        v
    }
}

/// Where a scissor starts along one axis of a target that is `dim` pixels
/// long: the clip's lower edge, moved onto the target.
pub open spec fn span_start(min: int, dim: int) -> int {
    clamp(min, 0, dim)
}

/// How many pixels a scissor covers along one axis.
///
/// It is the part of `min..max` that lies on the target, but never less than
/// one pixel while there is a pixel left at `span_start`. It is zero exactly
/// when the clip starts at or beyond the target's far edge.
pub open spec fn span_len(min: int, max: int, dim: int) -> int {
    let start = span_start(min, dim);
    if start >= dim {
        0
    } else {
        let end = clamp(max, start, dim);
        if end - start >= 1 {
            end - start
        } else {
            1
        }
    }
}

/// Whether a clip leaves anything to draw on a `width` by `height` target:
/// the target has pixels, and the clip starts before the target's right and
/// bottom edges.
pub open spec fn is_visible(clip: ClipRect, width: u32, height: u32) -> bool {
    &&& width > 0
    &&& height > 0
    &&& clip.min_x < width
    &&& clip.min_y < height
}

/// Whether a clip has positive extent and shares at least one whole pixel
/// with a `width` by `height` target.
pub open spec fn overlaps_target(clip: ClipRect, width: u32, height: u32) -> bool {
    &&& width > 0
    &&& height > 0
    &&& clip.min_x < clip.max_x
    &&& clip.min_y < clip.max_y
    &&& clip.min_x < width
    &&& clip.min_y < height
    &&& clip.max_x > 0
    &&& clip.max_y > 0
}

/// The scissor rectangle for a clip on a `width` by `height` target, or
/// `None` where the mesh is to be skipped.
pub open spec fn scissor_of(clip: ClipRect, width: u32, height: u32) -> Option<ScissorRect> {
    if is_visible(clip, width, height) {
        Some(
            ScissorRect {
                x: span_start(clip.min_x as int, width as int) as u32,
                y: span_start(clip.min_y as int, height as int) as u32,
                width: span_len(clip.min_x as int, clip.max_x as int, width as int) as u32,
                height: span_len(clip.min_y as int, clip.max_y as int, height as int) as u32,
            },
        )
    } else {
        None
    }
}

/// Limits one axis of a clip to a target `dim` pixels long and returns the
/// scissor's start and length on that axis.
///
/// The lower edge is clamped to `0..=dim`, the upper edge to the range from
/// the clamped lower edge to `dim`; the length is at least one pixel and is
/// then cut to what is left of the target behind the start.
fn clamp_span(min: i64, max: i64, dim: u32) -> (r: (u32, u32))
    ensures
        r.0 == span_start(min as int, dim as int),
        r.1 == span_len(min as int, max as int, dim as int),
        r.0 + r.1 <= dim,
{
    let far: i64 = dim as i64;
    let lo: i64 = if min < 0 {
        0
    } else if min > far {
        far
    } else {
        min
    };
    let hi: i64 = if max < lo {
        lo
    } else if max > far {
        far
    } else {
        max
    };
    let start: u32 = lo as u32;
    let end: u32 = hi as u32;
    let wanted: u32 = if end - start >= 1 {
        end - start
    } else {
        1
    };
    let left: u32 = dim - start;
    let len: u32 = if wanted < left {
        wanted
    } else {
        left
    };
    (start, len)
}

/// Computes the scissor rectangle for `clip` on a target of `width` by
/// `height` physical pixels.
///
/// Returns `None` where nothing is to be drawn: the target has no pixels, or
/// the clip starts at or beyond the target's right or bottom edge. Every
/// rectangle returned lies on the target and covers at least one pixel in
/// each direction. A clip that overlaps the target is cut to exactly the
/// overlap.
pub fn scissor_rect(clip: ClipRect, width: u32, height: u32) -> (r: Option<ScissorRect>)
    ensures
        r == scissor_of(clip, width, height),
        r is Some <==> is_visible(clip, width, height),
        r matches Some(s) ==> {
            &&& s.x + s.width <= width
            &&& s.y + s.height <= height
            &&& s.width >= 1
            &&& s.height >= 1
        },
        overlaps_target(clip, width, height) ==> (r matches Some(s) && {
            &&& s.x == clamp(clip.min_x as int, 0, width as int)
            &&& s.y == clamp(clip.min_y as int, 0, height as int)
            &&& s.x + s.width == clamp(clip.max_x as int, 0, width as int)
            &&& s.y + s.height == clamp(clip.max_y as int, 0, height as int)
        }),
{
    let (x, w) = clamp_span(clip.min_x, clip.max_x, width);
    let (y, h) = clamp_span(clip.min_y, clip.max_y, height);
    if w == 0 || h == 0 {
        None
    } else {
        Some(ScissorRect { x, y, width: w, height: h })
    }
}

} // verus!
