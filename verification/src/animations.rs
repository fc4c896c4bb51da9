//! The animation engine: a pure function from elapsed time to a pixel
//! offset for the rendered text.
//!
//! All interpolation is linear in `elapsed / duration`, each axis on its
//! own, with the exact rational result rounded to the nearest integer
//! (ties away from zero). When the duration is zero or already over, the
//! end offset is returned directly, so no interpolation ever divides by
//! zero.

use vstd::prelude::*;
use vstd::arithmetic::div_mod::{lemma_basic_div, lemma_div_is_strictly_smaller,
    lemma_div_pos_is_pos, lemma_multiply_divide_lt};
use vstd::arithmetic::mul::lemma_mul_upper_bound;
use crate::api::{Alignment, Animation, ScrollPosition, SlideDirection, SlideInBoundsDirection,
    SlideType};
use crate::glyphs::MAX_RENDERED_WIDTH;

verus! {

/// A two-dimensional pixel offset applied to rendered glyphs.
#[derive(Debug, Clone, Copy, PartialEq, Eq, Structural)]
pub struct Offset {
    pub x: i32,
    pub y: i32,
}

/// `m / q` rounded to the nearest integer, for `m >= 0` and `q > 0`;
/// halves round up.
pub open spec fn spec_rounded_div(m: int, q: int) -> int {
    (m + q / 2) / q
}

/// Linear interpolation from `start` to `end` after `elapsed` of
/// `duration`: the exact position rounded to the nearest integer, ties
/// away from zero. A zero or exhausted duration gives `end` directly.
pub open spec fn spec_lerp(start: int, end: int, duration: int, elapsed: int) -> int {
    if duration == 0 || elapsed >= duration {
        end
    } else if end >= start {
        start + spec_rounded_div((end - start) * elapsed, duration)
    } else {
        start - spec_rounded_div((start - end) * elapsed, duration)
    }
}

/// The interpolated value never leaves the interval between `start` and
/// `end`.
pub proof fn lemma_lerp_bounds(start: int, end: int, duration: int, elapsed: int)
    requires
        0 <= elapsed,
        0 <= duration,
    ensures
        start <= end ==> start <= spec_lerp(start, end, duration, elapsed) <= end,
        end <= start ==> end <= spec_lerp(start, end, duration, elapsed) <= start,
{
    if duration == 0 || elapsed >= duration {
    } else {
        let q = duration;
        if end >= start {
            let m = end - start;
            lemma_rounded_div_bounds(m, q, elapsed);
        } else {
            let m = start - end;
            lemma_rounded_div_bounds(m, q, elapsed);
        }
    }
}

/// Interpolating between equal endpoints stays put.
pub proof fn lemma_lerp_same(v: int, duration: int, elapsed: int)
    requires
        0 <= duration,
        0 <= elapsed,
    ensures
        spec_lerp(v, v, duration, elapsed) == v,
{
    if !(duration == 0 || elapsed >= duration) {
        assert((v - v) * elapsed == 0);
        lemma_div_is_strictly_smaller(duration, 2);
        lemma_div_pos_is_pos(duration, 2);
        lemma_basic_div(duration / 2, duration);
    }
}

/// For `0 <= t < q`, rounding `m * t / q` to the nearest integer gives a
/// value between 0 and `m`.
proof fn lemma_rounded_div_bounds(m: int, q: int, t: int)
    requires
        0 <= m,
        0 < q,
        0 <= t < q,
    ensures
        0 <= spec_rounded_div(m * t, q) <= m,
{
    lemma_div_is_strictly_smaller(q, 2);
    lemma_div_pos_is_pos(q, 2);
    assert(m * t >= 0) by (nonlinear_arith)
        requires
            0 <= m,
            0 <= t,
    ;
    lemma_div_pos_is_pos(m * t + q / 2, q);
    assert(m * t <= m * (q - 1)) by (nonlinear_arith)
        requires
            0 <= m,
            t <= q - 1,
    ;
    assert(m * (q - 1) + q <= q * (m + 1)) by (nonlinear_arith)
        requires
            0 <= m,
    ;
    lemma_multiply_divide_lt(m * t + q / 2, q, m + 1);
}

/// The default horizontal offset an alignment gives to content of the
/// given width: flush left or right, or centered with a left bias when
/// exact centering is impossible; content wider than the screen follows
/// the alignment's scroll position instead.
pub open spec fn spec_default_offset_x(alignment: Alignment, w: int) -> int {
    match alignment {
        Alignment::Left { position } => if w <= 80 {
            0
        } else {
            match position {
                ScrollPosition::Beginning => 0,
                ScrollPosition::Center => -((w - 80) / 2),
                ScrollPosition::End => 80 - w,
            }
        },
        Alignment::Center => {
            let wadj = if (40int % 2) != (w % 2) {
                w + 1
            } else {
                w
            };
            40 - wadj / 2
        },
        Alignment::Right { position } => if w <= 80 {
            80 - w
        } else {
            match position {
                ScrollPosition::Beginning => 80 - w,
                ScrollPosition::Center => -((w - 80) / 2),
                ScrollPosition::End => 0,
            }
        },
    }
}

/// The horizontal start position of a slide: off the entering edge for
/// `In` and `InOut`, the default position otherwise.
pub open spec fn spec_slide_start_x(
    slide_type: SlideType,
    direction: SlideDirection,
    alignment: Alignment,
    w: int,
) -> int {
    match slide_type {
        SlideType::Out => spec_default_offset_x(alignment, w),
        SlideType::In | SlideType::InOut => match direction {
            SlideDirection::TopToBottom | SlideDirection::BottomToTop => spec_default_offset_x(
                alignment,
                w,
            ),
            SlideDirection::LeftToRight => -w,
            SlideDirection::RightToLeft => 80,
        },
    }
}

/// The vertical start position of a slide: off the entering edge for
/// `In` and `InOut`, on screen otherwise.
pub open spec fn spec_slide_start_y(slide_type: SlideType, direction: SlideDirection) -> int {
    match slide_type {
        SlideType::Out => 0,
        SlideType::In | SlideType::InOut => match direction {
            SlideDirection::TopToBottom => -7,
            SlideDirection::BottomToTop => 7,
            SlideDirection::LeftToRight | SlideDirection::RightToLeft => 0,
        },
    }
}

/// The horizontal end position of a slide: off the leaving edge for
/// `Out` and `InOut`, the default position otherwise.
pub open spec fn spec_slide_end_x(
    slide_type: SlideType,
    direction: SlideDirection,
    alignment: Alignment,
    w: int,
) -> int {
    match slide_type {
        SlideType::In => spec_default_offset_x(alignment, w),
        SlideType::Out | SlideType::InOut => match direction {
            SlideDirection::TopToBottom | SlideDirection::BottomToTop => spec_default_offset_x(
                alignment,
                w,
            ),
            SlideDirection::LeftToRight => 80,
            SlideDirection::RightToLeft => -w,
        },
    }
}

/// The vertical end position of a slide: off the leaving edge for `Out`
/// and `InOut`, on screen otherwise.
pub open spec fn spec_slide_end_y(slide_type: SlideType, direction: SlideDirection) -> int {
    match slide_type {
        SlideType::In => 0,
        SlideType::Out | SlideType::InOut => match direction {
            SlideDirection::TopToBottom => 7,
            SlideDirection::BottomToTop => -7,
            SlideDirection::LeftToRight | SlideDirection::RightToLeft => 0,
        },
    }
}

/// The horizontal start position of an in-bounds slide: the fully
/// left-aligned position forward, the fully right-aligned one in reverse.
pub open spec fn spec_inbounds_start_x(direction: SlideInBoundsDirection, w: int) -> int {
    match direction {
        SlideInBoundsDirection::Forward => spec_default_offset_x(
            Alignment::Left { position: ScrollPosition::Beginning },
            w,
        ),
        SlideInBoundsDirection::Reverse => spec_default_offset_x(
            Alignment::Right { position: ScrollPosition::Beginning },
            w,
        ),
    }
}

/// The horizontal end position of an in-bounds slide: the far end of the
/// same alignment's scroll range.
pub open spec fn spec_inbounds_end_x(direction: SlideInBoundsDirection, w: int) -> int {
    match direction {
        SlideInBoundsDirection::Forward => spec_default_offset_x(
            Alignment::Left { position: ScrollPosition::End },
            w,
        ),
        SlideInBoundsDirection::Reverse => spec_default_offset_x(
            Alignment::Right { position: ScrollPosition::End },
            w,
        ),
    }
}

/// The duration an animation interpolates over, in milliseconds; an
/// absent duration counts as zero and so jumps straight to the end.
pub open spec fn spec_duration_ms(duration: Option<u64>) -> int {
    match duration {
        Some(ms) => ms as int,
        None => 0,
    }
}

/// The horizontal offset of a content step at a point in time.
pub open spec fn spec_global_offset_x(
    animation: Animation,
    alignment: Alignment,
    w: int,
    duration: Option<u64>,
    elapsed: u64,
) -> int {
    match animation {
        Animation::Still { .. } => spec_default_offset_x(alignment, w),
        Animation::Slide { slide_type, direction, .. } => spec_lerp(
            spec_slide_start_x(slide_type, direction, alignment, w),
            spec_slide_end_x(slide_type, direction, alignment, w),
            spec_duration_ms(duration),
            elapsed as int,
        ),
        Animation::SlideInBounds { direction, .. } => spec_lerp(
            spec_inbounds_start_x(direction, w),
            spec_inbounds_end_x(direction, w),
            spec_duration_ms(duration),
            elapsed as int,
        ),
    }
}

/// The vertical offset of a content step at a point in time.
pub open spec fn spec_global_offset_y(
    animation: Animation,
    alignment: Alignment,
    w: int,
    duration: Option<u64>,
    elapsed: u64,
) -> int {
    match animation {
        Animation::Still { .. } => 0,
        Animation::Slide { slide_type, direction, .. } => spec_lerp(
            spec_slide_start_y(slide_type, direction),
            spec_slide_end_y(slide_type, direction),
            spec_duration_ms(duration),
            elapsed as int,
        ),
        Animation::SlideInBounds { .. } => 0,
    }
}

/// The default offset stays within one screen or content width of the
/// origin.
pub proof fn lemma_default_offset_x_bounds(alignment: Alignment, w: int)
    requires
        0 <= w <= MAX_RENDERED_WIDTH,
    ensures
        -w - 80 <= spec_default_offset_x(alignment, w) <= 80,
{
}

/// Wherever an animation stands, its offset stays within one content
/// width left of the screen and one screen width right of it, and within
/// one screen height vertically.
pub proof fn lemma_global_offset_bounds(
    animation: Animation,
    alignment: Alignment,
    w: int,
    duration: Option<u64>,
    elapsed: u64,
)
    requires
        0 <= w <= MAX_RENDERED_WIDTH,
    ensures
        -(w + 80) <= spec_global_offset_x(animation, alignment, w, duration, elapsed) <= 80,
        -7 <= spec_global_offset_y(animation, alignment, w, duration, elapsed) <= 7,
{
    lemma_default_offset_x_bounds(alignment, w);
    match animation {
        Animation::Still { .. } => {},
        Animation::Slide { slide_type, direction, .. } => {
            lemma_lerp_bounds(
                spec_slide_start_x(slide_type, direction, alignment, w),
                spec_slide_end_x(slide_type, direction, alignment, w),
                spec_duration_ms(duration),
                elapsed as int,
            );
            lemma_lerp_bounds(
                spec_slide_start_y(slide_type, direction),
                spec_slide_end_y(slide_type, direction),
                spec_duration_ms(duration),
                elapsed as int,
            );
        },
        Animation::SlideInBounds { direction, .. } => {
            lemma_default_offset_x_bounds(
                Alignment::Left { position: ScrollPosition::Beginning },
                w,
            );
            lemma_default_offset_x_bounds(Alignment::Left { position: ScrollPosition::End }, w);
            lemma_default_offset_x_bounds(
                Alignment::Right { position: ScrollPosition::Beginning },
                w,
            );
            lemma_default_offset_x_bounds(Alignment::Right { position: ScrollPosition::End }, w);
            lemma_lerp_bounds(
                spec_inbounds_start_x(direction, w),
                spec_inbounds_end_x(direction, w),
                spec_duration_ms(duration),
                elapsed as int,
            );
        },
    }
}

/// Computes the default (non-animated) offset of content from its
/// alignment and rendered width.
pub fn get_default_offset(alignment: Alignment, rendered_width: usize) -> (o: Offset)
    requires
        rendered_width <= MAX_RENDERED_WIDTH,
    ensures
        o.x as int == spec_default_offset_x(alignment, rendered_width as int),
        o.y == 0,
{
    let w = rendered_width as i64;
    let x: i64 = match alignment {
        Alignment::Left { position } => {
            if rendered_width <= 80 {
                0
            } else {
                match position {
                    ScrollPosition::Beginning => 0,
                    ScrollPosition::Center => -((w - 80) / 2),
                    ScrollPosition::End => 80 - w,
                }
            }
        },
        Alignment::Center => {
            let wadj: i64 = if (40i64 % 2) != (w % 2) {
                w + 1
            } else {
                w
            };
            40 - wadj / 2
        },
        Alignment::Right { position } => {
            if rendered_width <= 80 {
                80 - w
            } else {
                match position {
                    ScrollPosition::Beginning => 80 - w,
                    ScrollPosition::Center => -((w - 80) / 2),
                    ScrollPosition::End => 0,
                }
            }
        },
    };
    Offset { x: x as i32, y: 0 }
}

/// One coordinate of the interpolation, in the strictly-moving case.
fn lerp_coord(s: i32, e: i32, q: u64, t: u64) -> (r: i32)
    requires
        q > 0,
        t < q,
    ensures
        r as int == spec_lerp(s as int, e as int, q as int, t as int),
{
    if e >= s {
        let m: u64 = (e as i64 - s as i64) as u64;
        proof {
            lemma_mul_upper_bound(m as int, 0xffff_ffff, t as int, 0xffff_ffff_ffff_ffff);
        }
        let num: u128 = (m as u128) * (t as u128) + (q as u128) / 2;
        let d: u128 = num / (q as u128);
        proof {
            lemma_rounded_div_bounds(m as int, q as int, t as int);
        }
        ((s as i64) + (d as i64)) as i32
    } else {
        let m: u64 = (s as i64 - e as i64) as u64;
        proof {
            lemma_mul_upper_bound(m as int, 0xffff_ffff, t as int, 0xffff_ffff_ffff_ffff);
        }
        let num: u128 = (m as u128) * (t as u128) + (q as u128) / 2;
        let d: u128 = num / (q as u128);
        proof {
            lemma_rounded_div_bounds(m as int, q as int, t as int);
        }
        ((s as i64) - (d as i64)) as i32
    }
}

/// Moves linearly from `start` to `end` over the duration, landing on
/// `end` exactly once the duration is zero or spent.
fn get_offset_for_linear_movement(start: Offset, end: Offset, duration_ms: u64, elapsed_ms: u64)
    -> (o: Offset)
    ensures
        o.x as int == spec_lerp(start.x as int, end.x as int, duration_ms as int, elapsed_ms as int),
        o.y as int == spec_lerp(start.y as int, end.y as int, duration_ms as int, elapsed_ms as int),
{
    if duration_ms == 0 || elapsed_ms >= duration_ms {
        return end;
    }
    Offset {
        x: lerp_coord(start.x, end.x, duration_ms, elapsed_ms),
        y: lerp_coord(start.y, end.y, duration_ms, elapsed_ms),
    }
}

/// Computes the offset of a content step at a point in time: the default
/// aligned position for still content, and the interpolated position
/// along the slide path otherwise.
pub fn get_global_offset(
    animation: &Animation,
    default_alignment: Alignment,
    rendered_width: usize,
    duration: Option<u64>,
    time_elapsed: u64,
) -> (o: Offset)
    requires
        rendered_width <= MAX_RENDERED_WIDTH,
    ensures
        o.x as int == spec_global_offset_x(
            *animation,
            default_alignment,
            rendered_width as int,
            duration,
            time_elapsed,
        ),
        o.y as int == spec_global_offset_y(
            *animation,
            default_alignment,
            rendered_width as int,
            duration,
            time_elapsed,
        ),
{
    let default_offset = get_default_offset(default_alignment, rendered_width);
    match animation {
        Animation::Still { .. } => default_offset,
        Animation::Slide { slide_type, direction, .. } => {
            let top_position = Offset { x: default_offset.x, y: -7 };
            let bottom_position = Offset { x: default_offset.x, y: 7 };
            let left_position = Offset { x: -(rendered_width as i32), y: 0 };
            let right_position = Offset { x: 80, y: 0 };
            let (altered_start_offset, altered_end_offset) = match direction {
                SlideDirection::TopToBottom => (top_position, bottom_position),
                SlideDirection::BottomToTop => (bottom_position, top_position),
                SlideDirection::LeftToRight => (left_position, right_position),
                SlideDirection::RightToLeft => (right_position, left_position),
            };
            let (start_offset, end_offset) = match slide_type {
                SlideType::In => (altered_start_offset, default_offset),
                SlideType::Out => (default_offset, altered_end_offset),
                SlideType::InOut => (altered_start_offset, altered_end_offset),
            };
            let duration_ms = match duration {
                Some(ms) => ms,
                None => 0,
            };
            get_offset_for_linear_movement(start_offset, end_offset, duration_ms, time_elapsed)
        },
        Animation::SlideInBounds { direction, .. } => {
            let (start_offset, end_offset) = match direction {
                SlideInBoundsDirection::Forward => (
                    get_default_offset(
                        Alignment::Left { position: ScrollPosition::Beginning },
                        rendered_width,
                    ),
                    get_default_offset(
                        Alignment::Left { position: ScrollPosition::End },
                        rendered_width,
                    ),
                ),
                SlideInBoundsDirection::Reverse => (
                    get_default_offset(
                        Alignment::Right { position: ScrollPosition::Beginning },
                        rendered_width,
                    ),
                    get_default_offset(
                        Alignment::Right { position: ScrollPosition::End },
                        rendered_width,
                    ),
                ),
            };
            let duration_ms = match duration {
                Some(ms) => ms,
                None => 0,
            };
            let o = get_offset_for_linear_movement(
                start_offset,
                end_offset,
                duration_ms,
                time_elapsed,
            );
            proof {
                lemma_lerp_same(0, duration_ms as int, time_elapsed as int);
            }
            o
        },
    }
}

/// The slide endpoint law: at elapsed zero a slide stands exactly at its
/// start position, and from the end of its duration on (or at once, when
/// the duration is zero) exactly at its end position.
pub proof fn lemma_slide_offset_endpoints(
    slide_type: SlideType,
    direction: SlideDirection,
    speed: crate::api::SlideSpeed,
    alignment: Alignment,
    w: int,
    duration: u64,
    elapsed: u64,
)
    ensures
        elapsed == 0 && duration > 0 ==> spec_global_offset_x(
            Animation::Slide { slide_type, direction, speed },
            alignment,
            w,
            Some(duration),
            elapsed,
        ) == spec_slide_start_x(slide_type, direction, alignment, w) && spec_global_offset_y(
            Animation::Slide { slide_type, direction, speed },
            alignment,
            w,
            Some(duration),
            elapsed,
        ) == spec_slide_start_y(slide_type, direction),
        duration == 0 || elapsed >= duration ==> spec_global_offset_x(
            Animation::Slide { slide_type, direction, speed },
            alignment,
            w,
            Some(duration),
            elapsed,
        ) == spec_slide_end_x(slide_type, direction, alignment, w) && spec_global_offset_y(
            Animation::Slide { slide_type, direction, speed },
            alignment,
            w,
            Some(duration),
            elapsed,
        ) == spec_slide_end_y(slide_type, direction),
{
    lemma_lerp_endpoints(
        spec_slide_start_x(slide_type, direction, alignment, w),
        spec_slide_end_x(slide_type, direction, alignment, w),
        duration as int,
        elapsed as int,
    );
    lemma_lerp_endpoints(
        spec_slide_start_y(slide_type, direction),
        spec_slide_end_y(slide_type, direction),
        duration as int,
        elapsed as int,
    );
}

/// The same endpoint law for in-bounds slides.
pub proof fn lemma_inbounds_offset_endpoints(
    direction: SlideInBoundsDirection,
    speed: crate::api::SlideSpeed,
    alignment: Alignment,
    w: int,
    duration: u64,
    elapsed: u64,
)
    ensures
        elapsed == 0 && duration > 0 ==> spec_global_offset_x(
            Animation::SlideInBounds { direction, speed },
            alignment,
            w,
            Some(duration),
            elapsed,
        ) == spec_inbounds_start_x(direction, w),
        duration == 0 || elapsed >= duration ==> spec_global_offset_x(
            Animation::SlideInBounds { direction, speed },
            alignment,
            w,
            Some(duration),
            elapsed,
        ) == spec_inbounds_end_x(direction, w),
{
    lemma_lerp_endpoints(
        spec_inbounds_start_x(direction, w),
        spec_inbounds_end_x(direction, w),
        duration as int,
        elapsed as int,
    );
}

/// The interpolation hits its endpoints exactly: `start` at elapsed zero
/// and `end` from the end of the duration on.
pub proof fn lemma_lerp_endpoints(start: int, end: int, duration: int, elapsed: int)
    requires
        0 <= duration,
        0 <= elapsed,
    ensures
        elapsed == 0 && duration > 0 ==> spec_lerp(start, end, duration, elapsed) == start,
        duration == 0 || elapsed >= duration ==> spec_lerp(start, end, duration, elapsed) == end,
{
    if elapsed == 0 && duration > 0 {
        let q = duration;
        if end >= start {
            assert((end - start) * 0 == 0);
            lemma_basic_div(q / 2, q);
        } else {
            assert((start - end) * 0 == 0);
            lemma_basic_div(q / 2, q);
        }
    }
}

} // verus!
