//! Where a captured image goes inside the stream, and how it is flipped.

use vstd::prelude::*;

use crate::binary64::{quotient, scale_side, Binary64};

verus! {

/// A rectangle inside the stream image, in pixels.
#[derive(Debug, Clone, Copy, PartialEq, Eq, Structural)]
pub struct BlitRect {
    pub x: u32,
    pub y: u32,
    pub width: u32,
    pub height: u32,
}

/// Mirroring to apply to a captured image.
#[derive(Debug, Clone, Copy, PartialEq, Eq, Structural)]
pub struct FrameTransform {
    pub flip_x: bool,
    pub flip_y: bool,
}

/// A texel position.
#[derive(Debug, Clone, Copy, PartialEq, Eq, Structural)]
pub struct Offset3D {
    pub x: i32,
    pub y: i32,
    pub z: i32,
}

/// A side of zero pixels counts as one pixel.
pub open spec fn at_least_one(side: nat) -> nat {
    if side == 0 { 1 } else { side }
}

/// The stream is the tighter limit across: its width over the source width is
/// no more than its height over the source height.
pub open spec fn width_bound(source_width: nat, source_height: nat, output_width: nat, output_height: nat) -> bool {
    output_width * source_height <= output_height * source_width
}

/// One side of the source scaled by `num / den` in double precision, kept
/// between one pixel and `limit`.
pub open spec fn fitted_side(side: nat, num: nat, den: nat, limit: nat) -> nat {
    let scaled = crate::binary64::scaled(
        side,
        crate::binary64::mantissa_of(num, den),
        crate::binary64::shift_of(num, den),
    );
    if scaled < 1 {
        1
    } else if scaled > limit {
        limit
    } else {
        scaled
    }
}

/// Width of the fitted image; all sides are at least one.
pub open spec fn fit_width(source_width: nat, source_height: nat, output_width: nat, output_height: nat) -> nat {
    if width_bound(source_width, source_height, output_width, output_height) {
        fitted_side(source_width, output_width, source_width, output_width)
    } else {
        fitted_side(source_width, output_height, source_height, output_width)
    }
}

/// Height of the fitted image; all sides are at least one.
pub open spec fn fit_height(source_width: nat, source_height: nat, output_width: nat, output_height: nat) -> nat {
    if width_bound(source_width, source_height, output_width, output_height) {
        fitted_side(source_height, output_width, source_width, output_height)
    } else {
        fitted_side(source_height, output_height, source_height, output_height)
    }
}

impl BlitRect {
    /// The rectangle is the source image, scaled to fit, centred in the stream.
    pub open spec fn is_aspect_fit(
        self,
        source_width: u32,
        source_height: u32,
        output_width: u32,
        output_height: u32,
    ) -> bool {
        let sw = at_least_one(source_width as nat);
        let sh = at_least_one(source_height as nat);
        let ow = at_least_one(output_width as nat);
        let oh = at_least_one(output_height as nat);
        &&& self.width == fit_width(sw, sh, ow, oh)
        &&& self.height == fit_height(sw, sh, ow, oh)
        &&& self.x == (ow - self.width) / 2
        &&& self.y == (oh - self.height) / 2
    }
}

/// The source image, scaled to fit, centred in the stream.
pub open spec fn aspect_fit(source_width: u32, source_height: u32, output_width: u32, output_height: u32) -> BlitRect {
    let sw = at_least_one(source_width as nat);
    let sh = at_least_one(source_height as nat);
    let ow = at_least_one(output_width as nat);
    let oh = at_least_one(output_height as nat);
    let width = fit_width(sw, sh, ow, oh);
    let height = fit_height(sw, sh, ow, oh);
    BlitRect {
        x: ((ow - width) / 2) as u32,
        y: ((oh - height) / 2) as u32,
        width: width as u32,
        height: height as u32,
    }
}

/// The greater of a side and one pixel.
pub fn max_one(side: u32) -> (r: u32)
    ensures
        r == at_least_one(side as nat),
        r >= 1,
{
    if side == 0 { 1 } else { side }
}

fn clamp_side(value: u64, limit: u32) -> (r: u32)
    requires
        limit >= 1,
    ensures
        r == (if value < 1 { 1 } else if value > limit { limit as int } else { value as int }),
{
    if value < 1 {
        1
    } else if value > limit as u64 {
        limit
    } else {
        value as u32
    }
}

fn fit_side(side: u32, num: u32, den: u32, limit: u32) -> (r: u32)
    requires
        side >= 1,
        num >= 1,
        den >= 1,
        limit >= 1,
        side * num <= limit * den,
    ensures
        r == fitted_side(side as nat, num as nat, den as nat, limit as nat),
        1 <= r <= limit,
{
    let factor: Binary64 = quotient(num, den);
    proof {
        assert(num < crate::binary64::MANTISSA_LIMIT * den);
        assert(side * num <= 0xffff_ffff * den) by (nonlinear_arith)
            requires
                side * num <= limit * den,
                limit <= 0xffff_ffff,
                den >= 1,
        ;
        crate::binary64::lemma_product_in_range(side as nat, num as nat, den as nat);
    }
    let scaled: u64 = scale_side(side, factor);
    clamp_side(scaled, limit)
}

/// The largest rectangle with the aspect ratio of the source that fits the
/// stream, centred.
pub fn aspect_fit_rect(source_width: u32, source_height: u32, output_width: u32, output_height: u32) -> (r: BlitRect)
    ensures
        r == aspect_fit(source_width, source_height, output_width, output_height),
        r.is_aspect_fit(source_width, source_height, output_width, output_height),
        1 <= r.width <= at_least_one(output_width as nat),
        1 <= r.height <= at_least_one(output_height as nat),
{
    let sw: u32 = max_one(source_width);
    let sh: u32 = max_one(source_height);
    let ow: u32 = max_one(output_width);
    let oh: u32 = max_one(output_height);
    proof {
        assert(ow * sh <= u32::MAX * u32::MAX) by (nonlinear_arith)
            requires
                0 <= ow <= u32::MAX,
                0 <= sh <= u32::MAX,
        ;
        assert(oh * sw <= u32::MAX * u32::MAX) by (nonlinear_arith)
            requires
                0 <= oh <= u32::MAX,
                0 <= sw <= u32::MAX,
        ;
        assert(sw * ow == ow * sw) by (nonlinear_arith);
        assert(sh * oh == oh * sh) by (nonlinear_arith);
        assert(sh * ow == ow * sh) by (nonlinear_arith);
        assert(sw * oh == oh * sw) by (nonlinear_arith);
    }
    let (width, height): (u32, u32) = if (ow as u64) * (sh as u64) <= (oh as u64) * (sw as u64) {
        (fit_side(sw, ow, sw, ow), fit_side(sh, ow, sw, oh))
    } else {
        (fit_side(sw, oh, sh, ow), fit_side(sh, oh, sh, oh))
    };
    let x: u32 = (ow - width) / 2;
    let y: u32 = (oh - height) / 2;
    BlitRect { x, y, width, height }
}

/// `value` as a 32-bit signed number, wrapping around.
pub open spec fn wrapped(value: u32) -> int {
    if value < 0x8000_0000 { value as int } else { value - 0x1_0000_0000 }
}

/// Reinterprets a coordinate as signed.
pub fn to_signed(value: u32) -> (r: i32)
    ensures
        r == wrapped(value),
{
    let r: i32 = value as i32;
    assert(value < 0x8000_0000u32 ==> r == value) by (bit_vector)
        requires
            r == value as i32,
    ;
    assert(value >= 0x8000_0000u32 ==> r == value - 0x1_0000_0000) by (bit_vector)
        requires
            r == value as i32,
    ;
    r
}

/// The corner of the source image that a blit starts from. A flip moves it to
/// the other end of its axis.
pub open spec fn first_corner(src_width: u32, src_height: u32, transform: FrameTransform) -> Offset3D {
    Offset3D {
        x: if transform.flip_x { wrapped(src_width) as i32 } else { 0 },
        y: if transform.flip_y { wrapped(src_height) as i32 } else { 0 },
        z: 0,
    }
}

/// The opposite corner.
pub open spec fn second_corner(src_width: u32, src_height: u32, transform: FrameTransform) -> Offset3D {
    Offset3D {
        x: if transform.flip_x { 0 } else { wrapped(src_width) as i32 },
        y: if transform.flip_y { 0 } else { wrapped(src_height) as i32 },
        z: 1,
    }
}

/// The two corners of the source image to blit from.
pub fn source_offsets(src_width: u32, src_height: u32, transform: FrameTransform) -> (r: [Offset3D; 2])
    ensures
        r@[0] == first_corner(src_width, src_height, transform),
        r@[1] == second_corner(src_width, src_height, transform),
{
    let left: i32 = if transform.flip_x { to_signed(src_width) } else { 0 };
    let right: i32 = if transform.flip_x { 0 } else { to_signed(src_width) };
    let top: i32 = if transform.flip_y { to_signed(src_height) } else { 0 };
    let bottom: i32 = if transform.flip_y { 0 } else { to_signed(src_height) };
    [Offset3D { x: left, y: top, z: 0 }, Offset3D { x: right, y: bottom, z: 1 }]
}

/// Turning an image by half a turn swaps the corners of the blit in the plane;
/// flipping one axis swaps the ends of that axis and leaves the other.
pub proof fn law_flips_swap_corners(src_width: u32, src_height: u32, transform: FrameTransform)
    ensures
        ({
            let turned = FrameTransform { flip_x: !transform.flip_x, flip_y: !transform.flip_y };
            let mirrored = FrameTransform { flip_x: !transform.flip_x, ..transform };
            let upended = FrameTransform { flip_y: !transform.flip_y, ..transform };
            let from = first_corner(src_width, src_height, transform);
            let to = second_corner(src_width, src_height, transform);
            &&& first_corner(src_width, src_height, turned) == (Offset3D { z: 0, ..to })
            &&& second_corner(src_width, src_height, turned) == (Offset3D { z: 1, ..from })
            &&& first_corner(src_width, src_height, mirrored) == (Offset3D { x: to.x, ..from })
            &&& second_corner(src_width, src_height, mirrored) == (Offset3D { x: from.x, ..to })
            &&& first_corner(src_width, src_height, upended) == (Offset3D { y: to.y, ..from })
            &&& second_corner(src_width, src_height, upended) == (Offset3D { y: from.y, ..to })
        }),
{
}

/// `value` is `num / den` up to half a pixel and the fraction `2^-51` of the
/// exact quotient that double precision costs.
pub open spec fn close_to(value: int, num: int, den: int) -> bool {
    &&& 0x8_0000_0000_0000 * (value * den - num) <= 0x4_0000_0000_0000 * den + num
    &&& 0x8_0000_0000_0000 * (num - value * den) <= 0x4_0000_0000_0000 * den + num
}

/// Below `2^50` double precision costs nothing: close means nearest.
pub proof fn law_close_is_nearest(value: int, num: int, den: int)
    requires
        close_to(value, num, den),
        0 <= num < 0x4_0000_0000_0000,
    ensures
        2 * (value * den - num) <= den,
        2 * (num - value * den) <= den,
{
}

/// The fitted image is scaled by the smaller of the two ratios of stream side
/// to source side, each taken in double precision.
pub proof fn law_fit_scale_is_smaller_ratio(sw: u32, sh: u32, ow: u32, oh: u32)
    requires
        sw >= 1,
        sh >= 1,
        ow >= 1,
        oh >= 1,
    ensures
        ({
            let m = crate::binary64::mantissa_of(ow as nat, sw as nat);
            let s = crate::binary64::pow2(crate::binary64::shift_of(ow as nat, sw as nat));
            let n = crate::binary64::mantissa_of(oh as nat, sh as nat);
            let t = crate::binary64::pow2(crate::binary64::shift_of(oh as nat, sh as nat));
            if width_bound(sw as nat, sh as nat, ow as nat, oh as nat) {
                m * t <= n * s
            } else {
                n * s <= m * t
            }
        }),
{
    if width_bound(sw as nat, sh as nat, ow as nat, oh as nat) {
        crate::binary64::lemma_nearest_monotone(ow as nat, sw as nat, oh as nat, sh as nat);
    } else {
        crate::binary64::lemma_nearest_monotone(oh as nat, sh as nat, ow as nat, sw as nat);
    }
}

/// A fitted side is the exact scaled side, rounded, unless that is less than
/// half a pixel.
proof fn lemma_fitted_side_close(side: nat, num: nat, den: nat, limit: nat)
    requires
        1 <= side <= u32::MAX,
        1 <= num <= u32::MAX,
        1 <= den <= u32::MAX,
        1 <= limit <= u32::MAX,
        side * num <= limit * den,
    ensures
        ({
            let r = fitted_side(side, num, den, limit);
            &&& 1 <= r <= limit
            &&& close_to(r as int, (side * num) as int, den as int) || (r == 1 && 2 * (side * num) < den)
            &&& 0x8_0000_0000_0000 * (side * num - r * den) <= 0x4_0000_0000_0000 * den + side * num
        }),
{
    assert(side * num <= 0xffff_ffff * den) by (nonlinear_arith)
        requires
            side * num <= limit * den,
            limit <= 0xffff_ffff,
            den >= 1,
    ;
    crate::binary64::lemma_scaled_error(side, num, den);
    let exact = crate::binary64::scaled(
        side,
        crate::binary64::mantissa_of(num, den),
        crate::binary64::shift_of(num, den),
    );
    let r = fitted_side(side, num, den, limit);
    assert(r >= exact ==> r * den >= exact * den) by (nonlinear_arith);
    assert(r <= exact ==> r * den <= exact * den) by (nonlinear_arith);
}

/// A side scaled by the ratio that takes it to `limit` is `limit`.
proof fn lemma_fitted_side_fills(side: nat, limit: nat)
    requires
        1 <= side <= u32::MAX,
        1 <= limit <= u32::MAX,
    ensures
        fitted_side(side, limit, side, limit) == limit,
{
    assert(side * limit == limit * side) by (nonlinear_arith);
    lemma_fitted_side_close(side, limit, side, limit);
    lemma_exact_when_integral(fitted_side(side, limit, side, limit), side * limit, side, limit);
}

/// Close to an integral quotient means equal to it.
proof fn lemma_exact_when_integral(r: nat, num: nat, den: nat, q: nat)
    requires
        den >= 1,
        num == q * den,
        1 <= q <= u32::MAX,
        r <= q,
        0x8_0000_0000_0000 * (num - r * den) <= 0x4_0000_0000_0000 * den + num,
    ensures
        r == q,
{
    if r < q {
        assert(num - r * den >= den) by (nonlinear_arith)
            requires
                num == q * den,
                r + 1 <= q,
                den >= 1,
        ;
        assert(num <= 0xffff_ffff * den) by (nonlinear_arith)
            requires
                num == q * den,
                q <= 0xffff_ffff,
                den >= 1,
        ;
    }
}

/// The fitted image lies inside the stream, and its left and right margins, and
/// its top and bottom margins, differ by at most one pixel.
pub proof fn law_fit_is_centred(
    r: BlitRect,
    source_width: u32,
    source_height: u32,
    output_width: u32,
    output_height: u32,
)
    requires
        r.is_aspect_fit(source_width, source_height, output_width, output_height),
    ensures
        ({
            let ow = at_least_one(output_width as nat);
            let oh = at_least_one(output_height as nat);
            &&& r.width >= 1 && r.x + r.width <= ow
            &&& r.height >= 1 && r.y + r.height <= oh
            &&& 0 <= (ow - r.width - r.x) - r.x <= 1
            &&& 0 <= (oh - r.height - r.y) - r.y <= 1
        }),
{
    let sw = at_least_one(source_width as nat);
    let sh = at_least_one(source_height as nat);
    let ow = at_least_one(output_width as nat);
    let oh = at_least_one(output_height as nat);
    lemma_fit_range(sw, sh, ow, oh);
}

proof fn lemma_fit_range(sw: nat, sh: nat, ow: nat, oh: nat)
    requires
        1 <= sw <= u32::MAX,
        1 <= sh <= u32::MAX,
        1 <= ow <= u32::MAX,
        1 <= oh <= u32::MAX,
    ensures
        1 <= fit_width(sw, sh, ow, oh) <= ow,
        1 <= fit_height(sw, sh, ow, oh) <= oh,
{
}

/// The fitted image spans the stream from edge to edge in at least one
/// direction: the one in which the stream is the tighter limit.
pub proof fn law_fit_spans_one_direction(
    r: BlitRect,
    source_width: u32,
    source_height: u32,
    output_width: u32,
    output_height: u32,
)
    requires
        r.is_aspect_fit(source_width, source_height, output_width, output_height),
    ensures
        ({
            let sw = at_least_one(source_width as nat);
            let sh = at_least_one(source_height as nat);
            let ow = at_least_one(output_width as nat);
            let oh = at_least_one(output_height as nat);
            if width_bound(sw, sh, ow, oh) {
                r.width == ow && r.x == 0
            } else {
                r.height == oh && r.y == 0
            }
        }),
{
    let sw = at_least_one(source_width as nat);
    let sh = at_least_one(source_height as nat);
    let ow = at_least_one(output_width as nat);
    let oh = at_least_one(output_height as nat);
    if width_bound(sw, sh, ow, oh) {
        lemma_fitted_side_fills(sw, ow);
    } else {
        lemma_fitted_side_fills(sh, oh);
    }
}

/// The fitted image keeps the aspect ratio of the source: the side that does
/// not span the stream is the exact proportional length, rounded to a pixel. A
/// length of less than half a pixel becomes one pixel.
pub proof fn law_fit_keeps_aspect_ratio(
    r: BlitRect,
    source_width: u32,
    source_height: u32,
    output_width: u32,
    output_height: u32,
)
    requires
        r.is_aspect_fit(source_width, source_height, output_width, output_height),
    ensures
        ({
            let sw = at_least_one(source_width as nat) as int;
            let sh = at_least_one(source_height as nat) as int;
            let ow = at_least_one(output_width as nat) as int;
            let oh = at_least_one(output_height as nat) as int;
            if width_bound(sw as nat, sh as nat, ow as nat, oh as nat) {
                close_to(r.height as int, sh * ow, sw) || (r.height == 1 && 2 * (sh * ow) < sw)
            } else {
                close_to(r.width as int, sw * oh, sh) || (r.width == 1 && 2 * (sw * oh) < sh)
            }
        }),
{
    let sw = at_least_one(source_width as nat);
    let sh = at_least_one(source_height as nat);
    let ow = at_least_one(output_width as nat);
    let oh = at_least_one(output_height as nat);
    assert(sh * ow == ow * sh) by (nonlinear_arith);
    assert(sw * oh == oh * sw) by (nonlinear_arith);
    if width_bound(sw, sh, ow, oh) {
        lemma_fitted_side_close(sh, ow, sw, oh);
    } else {
        lemma_fitted_side_close(sw, oh, sh, ow);
    }
}

/// A source with the aspect ratio of the stream fills the stream.
pub proof fn law_fit_fills_matching_stream(
    r: BlitRect,
    source_width: u32,
    source_height: u32,
    output_width: u32,
    output_height: u32,
)
    requires
        r.is_aspect_fit(source_width, source_height, output_width, output_height),
        at_least_one(output_width as nat) * at_least_one(source_height as nat) == at_least_one(
            output_height as nat,
        ) * at_least_one(source_width as nat),
    ensures
        r.x == 0,
        r.y == 0,
        r.width == at_least_one(output_width as nat),
        r.height == at_least_one(output_height as nat),
{
    let sw = at_least_one(source_width as nat);
    let sh = at_least_one(source_height as nat);
    let ow = at_least_one(output_width as nat);
    let oh = at_least_one(output_height as nat);
    assert(sh * ow == ow * sh) by (nonlinear_arith);
    law_fit_spans_one_direction(r, source_width, source_height, output_width, output_height);
    lemma_fitted_side_close(sh, ow, sw, oh);
    lemma_exact_when_integral(r.height as nat, sh * ow, sw, oh);
}

/// A number read as signed differs from it by nothing, or by `2^32`.
pub proof fn law_wrapping_loses_nothing(value: u32)
    ensures
        -0x8000_0000 <= wrapped(value) < 0x8000_0000,
        wrapped(value) == value || wrapped(value) + 0x1_0000_0000 == value,
{
}

/// No side is shorter than one pixel, and one of at least a pixel stays.
pub proof fn law_sides_have_pixels(side: nat)
    ensures
        at_least_one(side) >= 1,
        side >= 1 ==> at_least_one(side) == side,
        at_least_one(0) == at_least_one(1),
{
}

/// A signed coordinate read as unsigned.
pub open spec fn unsigned(value: i32) -> int {
    if value < 0 { value + 0x1_0000_0000 } else { value as int }
}

/// A blit reads the whole source image, from corner to corner: forwards along an
/// axis that is not flipped, and backwards along one that is.
pub proof fn law_blits_read_the_whole_source(src_width: u32, src_height: u32, transform: FrameTransform)
    ensures
        ({
            let from = first_corner(src_width, src_height, transform);
            let to = second_corner(src_width, src_height, transform);
            &&& transform.flip_x ==> unsigned(from.x) == src_width && to.x == 0
            &&& !transform.flip_x ==> from.x == 0 && unsigned(to.x) == src_width
            &&& transform.flip_y ==> unsigned(from.y) == src_height && to.y == 0
            &&& !transform.flip_y ==> from.y == 0 && unsigned(to.y) == src_height
            &&& from.z == 0 && to.z == 1
        }),
{
}

/// An interval from `from` to `to` lies in the middle of `0..limit`: the margin
/// after it is as wide as the one before it, or one pixel wider.
pub open spec fn is_centred(from: int, to: int, limit: int) -> bool {
    &&& 0 <= from < to <= limit
    &&& from == limit - to || from + 1 == limit - to
}

/// `length` pixels stand for the exact length `num / den`: they are the nearest
/// number of pixels, give or take what double precision costs, and one pixel for
/// less than half a pixel.
pub open spec fn stands_for(length: int, num: int, den: int) -> bool {
    ||| {
        &&& 0x10_0000_0000_0000 * (length * den - num) <= 0x8_0000_0000_0000 * den + 2 * num
        &&& 0x10_0000_0000_0000 * (num - length * den) <= 0x8_0000_0000_0000 * den + 2 * num
    }
    ||| length == 1 && 2 * num < den
}

/// Where an image of `sw` by `sh` pixels goes in a stream of `ow` by `oh`: in the
/// middle, from edge to edge in the direction in which the stream is tighter, and
/// in the other direction as long as its aspect ratio asks for.
pub proof fn law_fit_in_the_stream(source_width: u32, source_height: u32, output_width: u32, output_height: u32)
    ensures
        ({
            let r = aspect_fit(source_width, source_height, output_width, output_height);
            let sw = if source_width == 0 { 1 } else { source_width as int };
            let sh = if source_height == 0 { 1 } else { source_height as int };
            let ow = if output_width == 0 { 1 } else { output_width as int };
            let oh = if output_height == 0 { 1 } else { output_height as int };
            &&& is_centred(r.x as int, r.x + r.width, ow)
            &&& is_centred(r.y as int, r.y + r.height, oh)
            &&& ow * sh <= oh * sw ==> r.x == 0 && r.width == ow && stands_for(r.height as int, sh * ow, sw)
            &&& ow * sh >= oh * sw ==> r.y == 0 && r.height == oh && stands_for(r.width as int, sw * oh, sh)
        }),
{
    let r = aspect_fit(source_width, source_height, output_width, output_height);
    let sw = at_least_one(source_width as nat);
    let sh = at_least_one(source_height as nat);
    let ow = at_least_one(output_width as nat);
    let oh = at_least_one(output_height as nat);
    lemma_fit_range(sw, sh, ow, oh);
    assert(r.is_aspect_fit(source_width, source_height, output_width, output_height));
    law_fit_is_centred(r, source_width, source_height, output_width, output_height);
    law_fit_spans_one_direction(r, source_width, source_height, output_width, output_height);
    law_fit_keeps_aspect_ratio(r, source_width, source_height, output_width, output_height);
    if ow * sh == oh * sw {
        law_fit_fills_matching_stream(r, source_width, source_height, output_width, output_height);
        assert(oh * sw == sh * ow) by (nonlinear_arith)
            requires
                ow * sh == oh * sw,
        ;
        assert(ow * sh == sw * oh) by (nonlinear_arith)
            requires
                ow * sh == oh * sw,
        ;
    }
}

} // verus!
