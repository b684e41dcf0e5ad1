//! Usage accounting: what an image costs in tokens, and what a request costs
//! in money.
//!
//! Money is counted in whole micro-dollars (millionths of a dollar), so every
//! amount here is exact.

use vstd::prelude::*;
use vstd::arithmetic::div_mod::*;
use crate::error::ClientError;
use crate::text::same_text;

verus! {

/// Tokens charged for an image at low detail, whatever its size.
pub const LOW_DETAIL_COST: u32 = 85;

/// Tokens charged for each tile of an image at high detail.
pub const HIGH_DETAIL_COST_PER_TILE: u32 = 170;

/// Tokens charged once for an image at high detail, on top of its tiles.
pub const ADDITIONAL_COST: u32 = 85;

/// The largest width or height an image keeps; larger images are shrunk.
pub const MAX_DIMENSION: u32 = 2048;

/// The length that the shorter side of an image is brought to.
pub const SCALE_TO: u32 = 768;

/// The side of one square tile.
pub const TILE_SIZE: u32 = 512;

/// The longest side that an image can have.
pub const LONGEST_SIDE: u32 = 0xffff_ffff;

/// The price of one input token, in micro-dollars.
pub const INPUT_TOKEN_PRICE: u64 = 10;

/// The price of one output token, in micro-dollars. Image tokens are billed
/// at this rate too.
pub const OUTPUT_TOKEN_PRICE: u64 = 30;

/// The integer nearest to `n / d`, halves rounded up. Meant for `n >= 0` and
/// `d > 0`.
pub open spec fn round_div(n: int, d: int) -> int {
    (2 * n + d) / (2 * d)
}

/// The least integer that is at least `n / d`. Meant for `n >= 0` and `d > 0`.
pub open spec fn ceil_div(n: int, d: int) -> int {
    (n + d - 1) / d
}

/// Whether an image of this size needs no shrinking.
pub open spec fn within_bound(w: int, h: int) -> bool {
    w <= MAX_DIMENSION && h <= MAX_DIMENSION
}

/// The size after the first step: an image with a side over
/// [`MAX_DIMENSION`] is shrunk so that its longer side equals it.
pub open spec fn bounded(w: int, h: int) -> (int, int) {
    if within_bound(w, h) {
        (w, h)
    } else if w > h {
        (MAX_DIMENSION as int, round_div(MAX_DIMENSION * h, w))
    } else {
        (round_div(MAX_DIMENSION * w, h), MAX_DIMENSION as int)
    }
}

/// The length of a side that is `n / d` pixels long, in whole pixels.
///
/// Where `d` is positive this is [`round_div`]. Where `d` is 0 the side has
/// no bound: it is then the longest that a side can be, [`LONGEST_SIDE`], or
/// 0 where `n` is 0 as well.
pub open spec fn scaled_side(n: int, d: int) -> int {
    if d > 0 {
        round_div(n, d)
    } else if n > 0 {
        LONGEST_SIDE as int
    } else {
        0
    }
}

/// The size after the second step: the image is scaled so that its shorter
/// side equals [`SCALE_TO`]. An image whose shorter side is 0 cannot be
/// scaled so; its longer side becomes what [`scaled_side`] gives.
pub open spec fn rescaled(w: int, h: int) -> (int, int) {
    if w < h {
        (SCALE_TO as int, scaled_side(SCALE_TO * h, w))
    } else {
        (scaled_side(SCALE_TO * w, h), SCALE_TO as int)
    }
}

/// The number of tiles that cover an image of this size.
pub open spec fn tiles(w: int, h: int) -> int {
    ceil_div(w, TILE_SIZE as int) * ceil_div(h, TILE_SIZE as int)
}

/// The token cost of an image whose final size takes `count` tiles.
pub open spec fn tile_cost(count: int) -> int {
    count * HIGH_DETAIL_COST_PER_TILE + ADDITIONAL_COST
}

/// Whether both sides of an image are positive, so that it has proportions.
pub open spec fn has_extent(w: int, h: int) -> bool {
    0 < w && 0 < h
}

/// The number of tiles an image of this size is charged for at high detail.
pub open spec fn high_detail_tiles(w: int, h: int) -> int {
    let b = bounded(w, h);
    let f = rescaled(b.0, b.1);
    tiles(f.0, f.1)
}

/// The token cost of an image at the given detail level: defined for every
/// size at the levels `low` and `high`, and for no other level.
pub open spec fn image_tokens(w: int, h: int, detail: Seq<char>) -> Option<int> {
    if detail == "low"@ {
        Some(LOW_DETAIL_COST as int)
    } else if detail == "high"@ {
        Some(tile_cost(high_detail_tiles(w, h)))
    } else {
        None
    }
}

/// The cost of a request in micro-dollars, given the tokens its image takes.
pub open spec fn request_cost(input_tokens: int, output_tokens: int, image: int) -> int {
    input_tokens * INPUT_TOKEN_PRICE + (output_tokens + image) * OUTPUT_TOKEN_PRICE
}

/// The cost in micro-dollars of a request with the given token counts and one
/// image, where the detail level is one that images are costed at.
pub open spec fn total_cost(
    input_tokens: int,
    output_tokens: int,
    w: int,
    h: int,
    detail: Seq<char>,
) -> Option<int> {
    match image_tokens(w, h, detail) {
        Some(image) => Some(request_cost(input_tokens, output_tokens, image)),
        None => None,
    }
}

/// Whether two sizes have the same proportions.
pub open spec fn same_proportions(w1: int, h1: int, w2: int, h2: int) -> bool {
    w1 * h2 == w2 * h1
}

/// The number of tiles an image of this size would take if it were scaled to
/// [`SCALE_TO`] directly, without being shrunk to the bound first.
pub open spec fn unbounded_tiles(w: int, h: int) -> int {
    let f = rescaled(w, h);
    tiles(f.0, f.1)
}

/// `round_div(n, d)` for machine integers.
fn rounded_quotient(n: u64, d: u64) -> (q: u64)
    requires
        0 < d <= u32::MAX,
        n <= 0xffff_ffff_ffff,
    ensures
        q == round_div(n as int, d as int),
        q <= 2 * n + d,
{
    let num: u64 = 2 * n + d;
    let den: u64 = 2 * d;
    let q: u64 = num / den;
    assert(q <= num) by {
        lemma_div_is_ordered_by_denominator(num as int, 1, den as int);
        lemma_div_basics(num as int);
    }
    q
}

/// `scaled_side(n, d)` for machine integers.
fn scaled(n: u64, d: u64) -> (q: u64)
    requires
        d <= u32::MAX,
        n <= 0xffff_ffff_ffff,
    ensures
        q == scaled_side(n as int, d as int),
        d > 0 ==> q <= 2 * n + d,
        q <= 2 * n + d || q == LONGEST_SIDE,
{
    if d > 0 {
        rounded_quotient(n, d)
    } else if n > 0 {
        0xffff_ffff
    } else {
        0
    }
}

/// `ceil_div(n, TILE_SIZE)` for machine integers.
fn tiles_along(n: u64) -> (q: u64)
    requires
        n <= u32::MAX,
    ensures
        q == ceil_div(n as int, TILE_SIZE as int),
        q <= 8388608,
{
    (n + 511) / 512
}

/// The number of tokens an image of `width` by `height` pixels costs at the
/// given detail level.
///
/// At `"low"` detail every image costs [`LOW_DETAIL_COST`]. At `"high"` detail
/// the image is first shrunk to fit [`MAX_DIMENSION`], then scaled so that its
/// shorter side is [`SCALE_TO`], each time keeping its proportions and
/// rounding to whole pixels; it is then charged
/// [`HIGH_DETAIL_COST_PER_TILE`] for each tile of [`TILE_SIZE`] pixels that it
/// takes to cover it, plus [`ADDITIONAL_COST`].
///
/// Every size has a cost at these two levels. An image with a side of 0, or
/// so thin that its shorter side shrinks to 0, is costed as [`rescaled`]
/// says: its longer side counts as [`LONGEST_SIDE`]. Any other detail level
/// is refused with [`ClientError::InvalidInput`].
pub fn calculate_image_token_cost(width: u32, height: u32, detail: &str) -> (r: Result<u32, ClientError>)
    ensures
        r == match image_tokens(width as int, height as int, detail@) {
            Some(tokens) => Ok::<u32, ClientError>(tokens as u32),
            None => Err::<u32, ClientError>(ClientError::InvalidInput),
        },
        image_tokens(width as int, height as int, detail@) matches Some(tokens) ==> 0 <= tokens
            <= u32::MAX,
        detail@ == "low"@ ==> r == Ok::<u32, ClientError>(LOW_DETAIL_COST),
        (detail@ == "low"@ || detail@ == "high"@) <==> r is Ok,
        detail@ == "high"@ && width >= 1 && height >= 1 ==> (r matches Ok(tokens) && tokens >= 765
            && (tokens - 85) % 340 == 0),
{
    proof {
        reveal_strlit("low");
        reveal_strlit("high");
        assert("low"@.len() == 3 && "high"@.len() == 4);
    }
    if same_text(detail, "low") {
        return Ok(LOW_DETAIL_COST);
    }
    if !same_text(detail, "high") {
        return Err(ClientError::InvalidInput);
    }
    let w: u64 = width as u64;
    let h: u64 = height as u64;
    let bounded_w: u64;
    let bounded_h: u64;
    if w <= 2048 && h <= 2048 {
        bounded_w = w;
        bounded_h = h;
    } else if w > h {
        bounded_w = 2048;
        bounded_h = rounded_quotient(2048 * h, w);
        proof {
            lemma_bounded_side(h as int, w as int);
        }
    } else {
        bounded_w = rounded_quotient(2048 * w, h);
        bounded_h = 2048;
        proof {
            lemma_bounded_side(w as int, h as int);
        }
    }
    assert((bounded_w as int, bounded_h as int) == bounded(w as int, h as int));
    assert(bounded_w <= 2048 && bounded_h <= 2048);
    let final_w: u64;
    let final_h: u64;
    if bounded_w < bounded_h {
        final_w = 768;
        final_h = scaled(768 * bounded_h, bounded_w);
    } else {
        final_w = scaled(768 * bounded_w, bounded_h);
        final_h = 768;
    }
    assert((final_w as int, final_h as int) == rescaled(bounded_w as int, bounded_h as int));
    let across: u64 = tiles_along(final_w);
    let down: u64 = tiles_along(final_h);
    assert(across * down <= 8388608 * 2) by (nonlinear_arith)
        requires
            (across <= 2 && down <= 8388608) || (across <= 8388608 && down <= 2),
    ;
    let count: u64 = across * down;
    let tokens: u64 = count * 170 + 85;
    proof {
        if width >= 1 && height >= 1 {
            lemma_high_detail_cost_shape(width as int, height as int);
        }
    }
    Ok(tokens as u32)
}

/// The cost in micro-dollars of a request that read `input_tokens`, wrote
/// `output_tokens` and carried one image of `width` by `height` pixels at the
/// given detail level.
///
/// Input tokens are billed at [`INPUT_TOKEN_PRICE`]; output tokens and the
/// image's tokens at [`OUTPUT_TOKEN_PRICE`]. The call is refused with
/// [`ClientError::InvalidInput`] exactly when the detail level is neither
/// `"low"` nor `"high"`.
pub fn convert_tokens_to_cost(
    input_tokens: u32,
    output_tokens: u32,
    width: u32,
    height: u32,
    detail_level: &str,
) -> (r: Result<u64, ClientError>)
    ensures
        r == match total_cost(
            input_tokens as int,
            output_tokens as int,
            width as int,
            height as int,
            detail_level@,
        ) {
            Some(cost) => Ok::<u64, ClientError>(cost as u64),
            None => Err::<u64, ClientError>(ClientError::InvalidInput),
        },
        total_cost(
            input_tokens as int,
            output_tokens as int,
            width as int,
            height as int,
            detail_level@,
        ) matches Some(cost) ==> 0 <= cost <= u64::MAX,
        (detail_level@ == "low"@ || detail_level@ == "high"@) <==> r is Ok,
{
    match calculate_image_token_cost(width, height, detail_level) {
        Err(e) => Err(e),
        Ok(image) => {
            let input_cost: u64 = input_tokens as u64 * INPUT_TOKEN_PRICE;
            let output_cost: u64 = (output_tokens as u64 + image as u64) * OUTPUT_TOKEN_PRICE;
            Ok(input_cost + output_cost)
        },
    }
}

/// Shrinking the shorter side `short` of an image whose longer side is
/// `long` leaves it within the bound.
proof fn lemma_bounded_side(short: int, long: int)
    requires
        0 <= short <= long,
        0 < long,
    ensures
        0 <= round_div(MAX_DIMENSION * short, long) <= MAX_DIMENSION,
{
    let n = 2 * (MAX_DIMENSION * short) + long;
    let d = 2 * long;
    assert(0 <= n / d <= 2048) by (nonlinear_arith)
        requires
            n == 2 * (2048 * short) + long,
            d == 2 * long,
            0 <= short <= long,
            0 < long,
    ;
}

/// Scaling a side that is not the shorter one gives at least [`SCALE_TO`]
/// pixels, which take at least two tiles.
proof fn lemma_longer_side_takes_two_tiles(long: int, short: int)
    requires
        0 <= short <= long,
        0 < long,
    ensures
        ceil_div(scaled_side(SCALE_TO * long, short), TILE_SIZE as int) >= 2,
{
    if short > 0 {
        let n = 2 * (SCALE_TO * long) + short;
        let d = 2 * short;
        assert(n / d >= 768) by (nonlinear_arith)
            requires
                n == 2 * (768 * long) + short,
                d == 2 * short,
                0 < short <= long,
        ;
    }
}

/// At high detail an image with two positive sides takes an even number of
/// tiles, and at least four: the side of [`SCALE_TO`] pixels takes two, and
/// the other side at least two. So it costs at least 765 tokens, and what it
/// costs beyond [`ADDITIONAL_COST`] is a multiple of 340.
pub proof fn lemma_high_detail_cost_shape(w: int, h: int)
    requires
        has_extent(w, h),
    ensures
        high_detail_tiles(w, h) >= 4,
        high_detail_tiles(w, h) % 2 == 0,
        tile_cost(high_detail_tiles(w, h)) >= 765,
        (tile_cost(high_detail_tiles(w, h)) - 85) % 340 == 0,
{
    let b = bounded(w, h);
    if !within_bound(w, h) {
        if w > h {
            lemma_bounded_side(h, w);
        } else {
            lemma_bounded_side(w, h);
        }
    }
    assert(0 <= b.0 && 0 <= b.1 && (0 < b.0 || 0 < b.1));
    let f = rescaled(b.0, b.1);
    assert(ceil_div(768, 512) == 2);
    let k = if b.0 < b.1 {
        ceil_div(f.1, TILE_SIZE as int)
    } else {
        ceil_div(f.0, TILE_SIZE as int)
    };
    if b.0 < b.1 {
        lemma_longer_side_takes_two_tiles(b.1, b.0);
    } else {
        lemma_longer_side_takes_two_tiles(b.0, b.1);
    }
    assert(k >= 2);
    assert(high_detail_tiles(w, h) == 2 * k) by (nonlinear_arith)
        requires
            high_detail_tiles(w, h) == ceil_div(f.0, TILE_SIZE as int) * ceil_div(
                f.1,
                TILE_SIZE as int,
            ),
            (ceil_div(f.0, TILE_SIZE as int) == 2 && ceil_div(f.1, TILE_SIZE as int) == k) || (
            ceil_div(f.1, TILE_SIZE as int) == 2 && ceil_div(f.0, TILE_SIZE as int) == k),
    ;
    assert(tile_cost(2 * k) - 85 == 340 * k);
    assert((340 * k) % 340 == 0) by (nonlinear_arith);
}

/// `round_div(n, d)` is the integer nearest to `n / d`: twice the distance
/// between `n` and `round_div(n, d) * d` is at most `d`, and a tie goes up.
pub proof fn lemma_round_div_is_nearest(n: int, d: int)
    requires
        0 <= n,
        0 < d,
    ensures
        2 * (round_div(n, d) * d) - d <= 2 * n < 2 * (round_div(n, d) * d) + d,
{
    let q = round_div(n, d);
    lemma_fundamental_div_mod(2 * n + d, 2 * d);
    lemma_mod_bound(2 * n + d, 2 * d);
    assert((2 * d) * q == 2 * (q * d)) by (nonlinear_arith);
}

/// `ceil_div(n, d)` is the least integer whose multiple of `d` reaches `n`.
pub proof fn lemma_ceil_div_is_least(n: int, d: int)
    requires
        0 <= n,
        0 < d,
    ensures
        (ceil_div(n, d) - 1) * d < n <= ceil_div(n, d) * d,
{
    let q = ceil_div(n, d);
    lemma_fundamental_div_mod(n + d - 1, d);
    lemma_mod_bound(n + d - 1, d);
    assert((q - 1) * d == d * q - d) by (nonlinear_arith);
    assert(q * d == d * q) by (nonlinear_arith);
}

/// Fractions of equal value round to the same integer.
pub proof fn lemma_round_div_of_equal_fractions(n1: int, d1: int, n2: int, d2: int)
    requires
        0 <= n1,
        0 <= n2,
        0 < d1,
        0 < d2,
        n1 * d2 == n2 * d1,
    ensures
        round_div(n1, d1) == round_div(n2, d2),
{
    let q1 = round_div(n1, d1);
    let q2 = round_div(n2, d2);
    lemma_round_div_is_nearest(n1, d1);
    lemma_round_div_is_nearest(n2, d2);
    assert(q1 <= q2) by (nonlinear_arith)
        requires
            0 < d1,
            0 < d2,
            n1 * d2 == n2 * d1,
            2 * (q1 * d1) - d1 <= 2 * n1,
            2 * n2 < 2 * (q2 * d2) + d2,
    ;
    assert(q2 <= q1) by (nonlinear_arith)
        requires
            0 < d1,
            0 < d2,
            n1 * d2 == n2 * d1,
            2 * (q2 * d2) - d2 <= 2 * n2,
            2 * n1 < 2 * (q1 * d1) + d1,
    ;
}

/// Sizes of the same proportions have their sides in the same order.
proof fn lemma_same_orientation(w1: int, h1: int, w2: int, h2: int)
    requires
        0 < w1,
        0 < h1,
        0 < w2,
        0 < h2,
        same_proportions(w1, h1, w2, h2),
    ensures
        w1 < h1 <==> w2 < h2,
        w1 > h1 <==> w2 > h2,
{
    assert((w1 < h1 <==> w2 < h2) && (w1 > h1 <==> w2 > h2)) by (nonlinear_arith)
        requires
            0 < w1,
            0 < h1,
            0 < w2,
            0 < h2,
            w1 * h2 == w2 * h1,
    ;
}

/// Scaling the shorter side to [`SCALE_TO`] gives the same size for every
/// image of the same proportions.
pub proof fn lemma_rescaled_depends_on_proportions(w1: int, h1: int, w2: int, h2: int)
    requires
        0 < w1,
        0 < h1,
        0 < w2,
        0 < h2,
        same_proportions(w1, h1, w2, h2),
    ensures
        rescaled(w1, h1) == rescaled(w2, h2),
        unbounded_tiles(w1, h1) == unbounded_tiles(w2, h2),
{
    lemma_same_orientation(w1, h1, w2, h2);
    if w1 < h1 {
        assert((SCALE_TO * h1) * w2 == (SCALE_TO * h2) * w1) by (nonlinear_arith)
            requires
                w1 * h2 == w2 * h1,
        ;
        lemma_round_div_of_equal_fractions(SCALE_TO * h1, w1, SCALE_TO * h2, w2);
    } else {
        assert((SCALE_TO * w1) * h2 == (SCALE_TO * w2) * h1) by (nonlinear_arith)
            requires
                w1 * h2 == w2 * h1,
        ;
        lemma_round_div_of_equal_fractions(SCALE_TO * w1, h1, SCALE_TO * w2, h2);
    }
}

/// Two images of the same proportions that both exceed the bound are shrunk
/// to the same size.
pub proof fn lemma_bounded_depends_on_proportions(w1: int, h1: int, w2: int, h2: int)
    requires
        0 < w1,
        0 < h1,
        0 < w2,
        0 < h2,
        same_proportions(w1, h1, w2, h2),
        !within_bound(w1, h1),
        !within_bound(w2, h2),
    ensures
        bounded(w1, h1) == bounded(w2, h2),
        high_detail_tiles(w1, h1) == high_detail_tiles(w2, h2),
{
    lemma_same_orientation(w1, h1, w2, h2);
    if w1 > h1 {
        assert((MAX_DIMENSION * h1) * w2 == (MAX_DIMENSION * h2) * w1) by (nonlinear_arith)
            requires
                w1 * h2 == w2 * h1,
        ;
        lemma_round_div_of_equal_fractions(MAX_DIMENSION * h1, w1, MAX_DIMENSION * h2, w2);
    } else {
        assert((MAX_DIMENSION * w1) * h2 == (MAX_DIMENSION * w2) * h1) by (nonlinear_arith)
            requires
                w1 * h2 == w2 * h1,
        ;
        lemma_round_div_of_equal_fractions(MAX_DIMENSION * w1, h1, MAX_DIMENSION * w2, h2);
    }
}

/// An image that is shrunk to the bound without rounding, because its longer
/// side divides `MAX_DIMENSION` times its shorter side, takes as many tiles as
/// it would without the bound.
pub proof fn lemma_exact_shrink_keeps_tiles(w: int, h: int)
    requires
        has_extent(w, h),
        !within_bound(w, h),
        w > h ==> (MAX_DIMENSION * h) % w == 0,
        w <= h ==> (MAX_DIMENSION * w) % h == 0,
    ensures
        high_detail_tiles(w, h) == unbounded_tiles(w, h),
{
    let b = bounded(w, h);
    if w > h {
        lemma_bounded_side(h, w);
        lemma_round_div_is_nearest(MAX_DIMENSION * h, w);
        lemma_fundamental_div_mod(MAX_DIMENSION * h, w);
        let q = (MAX_DIMENSION * h) / w;
        assert(w * q == MAX_DIMENSION * h);
        assert(b.1 == q) by (nonlinear_arith)
            requires
                0 < w,
                w * q == MAX_DIMENSION * h,
                2 * (b.1 * w) - w <= 2 * (MAX_DIMENSION * h) < 2 * (b.1 * w) + w,
        ;
        assert(same_proportions(w, h, b.0, b.1)) by (nonlinear_arith)
            requires
                b.0 == MAX_DIMENSION,
                w * b.1 == MAX_DIMENSION * h,
        ;
    } else {
        lemma_bounded_side(w, h);
        lemma_round_div_is_nearest(MAX_DIMENSION * w, h);
        lemma_fundamental_div_mod(MAX_DIMENSION * w, h);
        let q = (MAX_DIMENSION * w) / h;
        assert(h * q == MAX_DIMENSION * w);
        assert(b.0 == q) by (nonlinear_arith)
            requires
                0 < h,
                h * q == MAX_DIMENSION * w,
                2 * (b.0 * h) - h <= 2 * (MAX_DIMENSION * w) < 2 * (b.0 * h) + h,
        ;
        assert(same_proportions(w, h, b.0, b.1)) by (nonlinear_arith)
            requires
                b.1 == MAX_DIMENSION,
                h * b.0 == MAX_DIMENSION * w,
        ;
    }
    lemma_rescaled_depends_on_proportions(w, h, b.0, b.1);
}

/// At high detail, of two images of the same proportions the one with the
/// larger area costs at least as much.
///
/// The one case left out is a larger image that has to be shrunk to the bound
/// while the smaller one does not, and that loses a tile to the rounding of
/// that step: such an image is cheaper than its smaller likeness.
pub proof fn lemma_high_detail_cost_is_monotone(w1: int, h1: int, w2: int, h2: int)
    requires
        has_extent(w1, h1),
        has_extent(w2, h2),
        same_proportions(w1, h1, w2, h2),
        w1 * h1 <= w2 * h2,
        within_bound(w1, h1) && !within_bound(w2, h2) ==> unbounded_tiles(w2, h2)
            <= high_detail_tiles(w2, h2),
    ensures
        image_tokens(w1, h1, "high"@) is Some,
        image_tokens(w2, h2, "high"@) is Some,
        image_tokens(w1, h1, "high"@)->0 <= image_tokens(w2, h2, "high"@)->0,
{
    reveal_strlit("high");
    reveal_strlit("low");
    assert("high"@.len() == 4);
    assert("low"@.len() == 3);
    assert(w1 <= w2 && h1 <= h2) by (nonlinear_arith)
        requires
            0 < w1,
            0 < h1,
            0 < w2,
            0 < h2,
            w1 * h2 == w2 * h1,
            w1 * h1 <= w2 * h2,
    ;
    if within_bound(w2, h2) {
        lemma_rescaled_depends_on_proportions(w1, h1, w2, h2);
    } else if !within_bound(w1, h1) {
        lemma_bounded_depends_on_proportions(w1, h1, w2, h2);
    } else {
        lemma_rescaled_depends_on_proportions(w1, h1, w2, h2);
    }
    assert(high_detail_tiles(w1, h1) * HIGH_DETAIL_COST_PER_TILE <= high_detail_tiles(w2, h2)
        * HIGH_DETAIL_COST_PER_TILE) by (nonlinear_arith)
        requires
            high_detail_tiles(w1, h1) <= high_detail_tiles(w2, h2),
    ;
}

/// The cost of a request grows by [`INPUT_TOKEN_PRICE`] with each further
/// input token and by [`OUTPUT_TOKEN_PRICE`] with each further output token,
/// whatever the other arguments are.
pub proof fn lemma_total_cost_is_linear(
    input_tokens: int,
    output_tokens: int,
    more: int,
    w: int,
    h: int,
    detail: Seq<char>,
)
    ensures
        total_cost(input_tokens + more, output_tokens, w, h, detail) == match total_cost(
            input_tokens,
            output_tokens,
            w,
            h,
            detail,
        ) {
            Some(cost) => Some(cost + more * INPUT_TOKEN_PRICE),
            None => None,
        },
        total_cost(input_tokens, output_tokens + more, w, h, detail) == match total_cost(
            input_tokens,
            output_tokens,
            w,
            h,
            detail,
        ) {
            Some(cost) => Some(cost + more * OUTPUT_TOKEN_PRICE),
            None => None,
        },
{
}

} // verus!
