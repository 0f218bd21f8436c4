//! Frame scaler: nearest-neighbour resampling of the engine's native frame
//! into a backbuffer of any size, with the aspect ratio kept and the unused
//! margins painted black. Integer arithmetic only.

use vstd::prelude::*;
use vstd::arithmetic::div_mod::*;
use vstd::arithmetic::mul::*;

verus! {

/// Colour of the letterbox bars.
pub const BLACK: u32 = 0x0000_0000;

/// Number of fractional bits of the fixed-point source coordinate.
pub const FP_SHIFT: u32 = 16;

/// Where the resampled frame lands in the destination: its top-left corner and
/// its size, in destination pixels.
#[derive(Clone, Copy, Debug, PartialEq, Eq)]
pub struct FitRect {
    pub x0: usize,
    pub y0: usize,
    pub tw: usize,
    pub th: usize,
}

/// True when the destination is relatively narrower than the source, so that
/// the target takes the destination's full width. Compared by
/// cross-multiplication: `dw / sw <= dh / sh`.
pub open spec fn width_limited(dw: int, dh: int, sw: int, sh: int) -> bool {
    dw * sh <= dh * sw
}

/// Width of the target region.
pub open spec fn fit_w(dw: int, dh: int, sw: int, sh: int) -> int {
    if width_limited(dw, dh, sw, sh) {
        dw
    } else {
        (dh * sw) / sh
    }
}

/// Height of the target region.
pub open spec fn fit_h(dw: int, dh: int, sw: int, sh: int) -> int {
    if width_limited(dw, dh, sw, sh) {
        (dw * sh) / sw
    } else {
        dh
    }
}

/// Left edge of the target region: the spare width is halved, rounding down.
pub open spec fn fit_x0(dw: int, dh: int, sw: int, sh: int) -> int {
    (dw - fit_w(dw, dh, sw, sh)) / 2
}

/// Top edge of the target region: the spare height is halved, rounding down.
pub open spec fn fit_y0(dw: int, dh: int, sw: int, sh: int) -> int {
    (dh - fit_h(dw, dh, sw, sh)) / 2
}

/// All four dimensions are positive.
pub open spec fn dims_positive(dw: int, dh: int, sw: int, sh: int) -> bool {
    dw > 0 && dh > 0 && sw > 0 && sh > 0
}

impl FitRect {
    /// This rectangle is the target region for the given dimensions.
    pub open spec fn fits(self, dw: int, dh: int, sw: int, sh: int) -> bool {
        &&& self.tw == fit_w(dw, dh, sw, sh)
        &&& self.th == fit_h(dw, dh, sw, sh)
        &&& self.x0 == fit_x0(dw, dh, sw, sh)
        &&& self.y0 == fit_y0(dw, dh, sw, sh)
    }
}

/// The target region lies inside the destination, and it spans the full
/// destination along the limiting dimension.
pub proof fn lemma_fit_inside(dw: int, dh: int, sw: int, sh: int)
    requires
        dims_positive(dw, dh, sw, sh),
    ensures
        0 <= fit_w(dw, dh, sw, sh) <= dw,
        0 <= fit_h(dw, dh, sw, sh) <= dh,
        0 <= fit_x0(dw, dh, sw, sh),
        0 <= fit_y0(dw, dh, sw, sh),
        fit_x0(dw, dh, sw, sh) + fit_w(dw, dh, sw, sh) <= dw,
        fit_y0(dw, dh, sw, sh) + fit_h(dw, dh, sw, sh) <= dh,
        fit_w(dw, dh, sw, sh) == dw || fit_h(dw, dh, sw, sh) == dh,
{
    lemma_mul_nonnegative(dw, sh);
    lemma_mul_nonnegative(dh, sw);
    if width_limited(dw, dh, sw, sh) {
        lemma_div_pos_is_pos(dw * sh, sw);
        lemma_mul_is_commutative(dh, sw);
        lemma_multiply_divide_le(dw * sh, sw, dh);
    } else {
        lemma_div_pos_is_pos(dh * sw, sh);
        lemma_mul_is_commutative(dw, sh);
        lemma_multiply_divide_le(dh * sw, sh, dw);
    }
}

/// The target region keeps the source's aspect ratio as closely as whole
/// pixels allow: the free dimension is the exact quotient rounded down, so it
/// is exact whenever the quotient is whole.
pub proof fn lemma_fit_keeps_aspect(dw: int, dh: int, sw: int, sh: int)
    requires
        dims_positive(dw, dh, sw, sh),
    ensures
        ({
            let tw = fit_w(dw, dh, sw, sh);
            let th = fit_h(dw, dh, sw, sh);
            if width_limited(dw, dh, sw, sh) {
                th * sw <= tw * sh < (th + 1) * sw
            } else {
                tw * sh <= th * sw < (tw + 1) * sh
            }
        }),
{
    if width_limited(dw, dh, sw, sh) {
        lemma_fundamental_div_mod(dw * sh, sw);
        lemma_mod_bound(dw * sh, sw);
        let th = (dw * sh) / sw;
        assert(th * sw == sw * th && (th + 1) * sw == sw * th + sw) by (nonlinear_arith);
    } else {
        lemma_fundamental_div_mod(dh * sw, sh);
        lemma_mod_bound(dh * sw, sh);
        let tw = (dh * sw) / sh;
        assert(tw * sh == sh * tw && (tw + 1) * sh == sh * tw + sh) by (nonlinear_arith);
    }
}

/// The target region is centred: the margins on opposite sides are equal, or
/// the right and bottom ones are one pixel larger.
pub proof fn lemma_fit_centred(dw: int, dh: int, sw: int, sh: int)
    requires
        dims_positive(dw, dh, sw, sh),
    ensures
        ({
            let left = fit_x0(dw, dh, sw, sh);
            let right = dw - fit_x0(dw, dh, sw, sh) - fit_w(dw, dh, sw, sh);
            let top = fit_y0(dw, dh, sw, sh);
            let bottom = dh - fit_y0(dw, dh, sw, sh) - fit_h(dw, dh, sw, sh);
            &&& left <= right <= left + 1
            &&& top <= bottom <= top + 1
        }),
{
    lemma_fit_inside(dw, dh, sw, sh);
}

/// The product of two machine words fits in 128 bits.
proof fn lemma_word_product(a: usize, b: usize)
    ensures
        0 <= a * b <= u128::MAX,
{
    assert(0 <= a * b <= 0xffff_ffff_ffff_ffff * 0xffff_ffff_ffff_ffff) by (nonlinear_arith)
        requires
            0 <= a <= 0xffff_ffff_ffff_ffff,
            0 <= b <= 0xffff_ffff_ffff_ffff,
    ;
}

/// Target region for a destination of `dw` by `dh` pixels and a source of
/// `sw` by `sh`: the largest region of the source's aspect ratio that fits,
/// centred. `None` when a dimension is zero and there is nothing to fit.
pub fn fit_rect(dw: usize, dh: usize, sw: usize, sh: usize) -> (rect: Option<FitRect>)
    ensures
        rect is None <==> !dims_positive(dw as int, dh as int, sw as int, sh as int),
        rect matches Some(r) ==> r.fits(dw as int, dh as int, sw as int, sh as int),
{
    if dw == 0 || dh == 0 || sw == 0 || sh == 0 {
        return None;
    }
    proof {
        lemma_word_product(dw, sh);
        lemma_word_product(dh, sw);
        lemma_fit_inside(dw as int, dh as int, sw as int, sh as int);
    }
    let by_width: u128 = (dw as u128) * (sh as u128);
    let by_height: u128 = (dh as u128) * (sw as u128);
    let tw: usize;
    let th: usize;
    if by_width <= by_height {
        tw = dw;
        th = (by_width / (sw as u128)) as usize;
    } else {
        th = dh;
        tw = (by_height / (sh as u128)) as usize;
    }
    let x0: usize = (dw - tw) / 2;
    let y0: usize = (dh - th) / 2;
    Some(FitRect { x0, y0, tw, th })
}

/// Source coordinate sampled for destination coordinate `i`, when `s` source
/// pixels are spread over `t` target pixels: `floor(i * s / t)`.
pub open spec fn sample_index(i: int, s: int, t: int) -> int {
    (i * s) / t
}

/// The destination pixel with row-major index `i` lies in the target region.
pub open spec fn in_fit_rect(i: int, dw: int, dh: int, sw: int, sh: int) -> bool {
    let x = i % dw - fit_x0(dw, dh, sw, sh);
    let y = i / dw - fit_y0(dw, dh, sw, sh);
    0 <= x < fit_w(dw, dh, sw, sh) && 0 <= y < fit_h(dw, dh, sw, sh)
}

/// Row-major index of the source pixel shown at destination index `i`, for
/// `i` in the target region.
pub open spec fn source_index(i: int, dw: int, dh: int, sw: int, sh: int) -> int {
    let x = i % dw - fit_x0(dw, dh, sw, sh);
    let y = i / dw - fit_y0(dw, dh, sw, sh);
    sample_index(y, sh, fit_h(dw, dh, sw, sh)) * sw + sample_index(
        x,
        sw,
        fit_w(dw, dh, sw, sh),
    )
}

/// Value of the destination pixel with row-major index `i` after scaling:
/// the nearest source pixel inside the target region, black outside it.
pub open spec fn scaled_pixel(i: int, dw: int, dh: int, src: Seq<u32>, sw: int, sh: int) -> u32 {
    if in_fit_rect(i, dw, dh, sw, sh) {
        src[source_index(i, dw, dh, sw, sh)]
    } else {
        BLACK
    }
}

/// The destination buffer after scaling `src` into it. With a zero dimension
/// the buffer is left as it was; otherwise every pixel of it is determined by
/// the source and the dimensions alone.
pub open spec fn scaled_frame(
    dst: Seq<u32>,
    dw: int,
    dh: int,
    src: Seq<u32>,
    sw: int,
    sh: int,
) -> Seq<u32> {
    if dims_positive(dw, dh, sw, sh) {
        Seq::new(dst.len(), |i: int| scaled_pixel(i, dw, dh, src, sw, sh))
    } else {
        dst
    }
}

/// Sampling is true nearest neighbour: the sampled coordinate is the one
/// source pixel whose span, stretched over the target, holds the left edge of
/// the target pixel.
pub proof fn lemma_sample_is_floor(i: int, s: int, t: int, j: int)
    requires
        0 < t,
    ensures
        j == sample_index(i, s, t) <==> j * t <= i * s < (j + 1) * t,
{
    let q = (i * s) / t;
    lemma_fundamental_div_mod(i * s, t);
    lemma_mod_bound(i * s, t);
    assert(q * t == t * q && (q + 1) * t == t * q + t) by (nonlinear_arith);
    if j * t <= i * s < (j + 1) * t {
        assert((j + 1) * t == j * t + t) by (nonlinear_arith);
        lemma_fundamental_div_mod_converse(i * s, t, j, i * s - j * t);
    }
}

/// A sampled coordinate is a valid source coordinate.
pub proof fn lemma_sample_in_range(i: int, s: int, t: int)
    requires
        0 <= i < t,
        0 < s,
    ensures
        0 <= sample_index(i, s, t) < s,
{
    lemma_mul_nonnegative(i, s);
    lemma_div_pos_is_pos(i * s, t);
    lemma_mul_strict_inequality(i, t, s);
    lemma_multiply_divide_lt(i * s, t, s);
}

/// Row and column of a row-major index.
proof fn lemma_row_major(k: int, w: int, row: int, col: int)
    requires
        0 <= col < w,
        k == row * w + col,
    ensures
        k / w == row,
        k % w == col,
{
    lemma_fundamental_div_mod_converse(k, w, row, col);
}

/// Every pixel of the target region reads inside the source.
pub proof fn lemma_source_in_range(i: int, dw: int, dh: int, sw: int, sh: int)
    requires
        dims_positive(dw, dh, sw, sh),
        in_fit_rect(i, dw, dh, sw, sh),
    ensures
        0 <= source_index(i, dw, dh, sw, sh) < sw * sh,
{
    let x = i % dw - fit_x0(dw, dh, sw, sh);
    let y = i / dw - fit_y0(dw, dh, sw, sh);
    let sx = sample_index(x, sw, fit_w(dw, dh, sw, sh));
    let sy = sample_index(y, sh, fit_h(dw, dh, sw, sh));
    lemma_sample_in_range(x, sw, fit_w(dw, dh, sw, sh));
    lemma_sample_in_range(y, sh, fit_h(dw, dh, sw, sh));
    assert(0 <= sy * sw + sx < sw * sh) by (nonlinear_arith)
        requires
            0 <= sx < sw,
            0 <= sy < sh,
    ;
}

/// Fixed-point walk along one axis. After `i` steps `acc` holds
/// `floor(i * s * 2^16 / den)`: the whole part of each step is added to
/// `acc`, and what the division left over is carried in `err`, so that no
/// rounding error builds up.
struct Stepper {
    acc: u128,
    err: u128,
    step: u128,
    rem: u128,
    den: u128,
}

/// The accumulator of a walk stays below the scaled source size.
proof fn lemma_acc_bound(acc: int, err: int, den: int, i: int, s: int)
    by (nonlinear_arith)
    requires
        0 <= acc,
        0 <= err,
        0 < den,
        0 <= s,
        0 <= i <= den,
        acc * den + err == i * s * 0x1_0000,
    ensures
        acc <= s * 0x1_0000,
{
    assert(i * s * 0x1_0000 <= den * (s * 0x1_0000));
    if acc > s * 0x1_0000 {
        assert(acc * den >= (s * 0x1_0000 + 1) * den);
    }
}

/// The whole part of the accumulator is the sampled coordinate.
proof fn lemma_acc_index(acc: int, err: int, den: int, i: int, s: int)
    requires
        0 <= acc,
        0 <= err < den,
        0 <= s,
        0 <= i,
        acc * den + err == i * s * 0x1_0000,
    ensures
        acc / 0x1_0000 == sample_index(i, s, den),
{
    let n = i * s;
    let q = n / den;
    let r = n % den;
    lemma_fundamental_div_mod(n, den);
    lemma_mul_nonnegative(i, s);
    lemma_mod_pos_bound(n, den);
    assert(q * 0x1_0000 <= acc < q * 0x1_0000 + 0x1_0000) by (nonlinear_arith)
        requires
            n == den * q + r,
            0 <= r < den,
            0 <= err < den,
            acc * den + err == n * 0x1_0000,
    {
        assert(acc * den == (q * 0x1_0000) * den + (r * 0x1_0000 - err));
        assert(-den < r * 0x1_0000 - err < 0x1_0000 * den);
        if acc < q * 0x1_0000 {
            assert(acc * den <= (q * 0x1_0000 - 1) * den);
        }
        if acc >= q * 0x1_0000 + 0x1_0000 {
            assert(acc * den >= (q * 0x1_0000 + 0x1_0000) * den);
        }
    }
}

impl Stepper {
    /// The walk spreads `s` source pixels over `den` target pixels and has
    /// made `i` steps.
    spec fn tracks(self, i: int, s: int) -> bool {
        &&& 0 < self.den <= usize::MAX
        &&& 0 <= s <= usize::MAX
        &&& self.step * self.den + self.rem == s * 0x1_0000
        &&& self.rem < self.den
        &&& self.err < self.den
        &&& self.acc * self.den + self.err == i * s * 0x1_0000
    }

    /// A walk over `t` target pixels for `s` source pixels, at its start.
    fn start(s: usize, t: usize) -> (walk: Stepper)
        requires
            t > 0,
        ensures
            walk.tracks(0, s as int),
            walk.den == t,
    {
        let wide: u128 = s as u128;
        assert(wide << 16 == wide * 0x1_0000) by (bit_vector)
            requires
                wide <= 0xffff_ffff_ffff_ffff,
        ;
        let scaled: u128 = wide << FP_SHIFT;
        let den: u128 = t as u128;
        proof {
            lemma_fundamental_div_mod(scaled as int, den as int);
            lemma_mul_is_commutative(den as int, (scaled / den) as int);
        }
        Stepper { acc: 0, err: 0, step: scaled / den, rem: scaled % den, den }
    }

    /// The source coordinate for the current target coordinate.
    fn index(&self, Ghost(i): Ghost<int>, Ghost(s): Ghost<int>) -> (sampled: usize)
        requires
            self.tracks(i, s),
            0 <= i < self.den,
            0 < s,
        ensures
            sampled == sample_index(i, s, self.den as int),
            sampled < s,
    {
        let acc: u128 = self.acc;
        assert(acc >> 16 == acc / 0x1_0000) by (bit_vector);
        proof {
            lemma_acc_index(self.acc as int, self.err as int, self.den as int, i, s);
            lemma_sample_in_range(i, s, self.den as int);
        }
        (acc >> FP_SHIFT) as usize
    }

    /// Moves on to the next target coordinate.
    fn advance(&mut self, Ghost(i): Ghost<int>, Ghost(s): Ghost<int>)
        requires
            old(self).tracks(i, s),
            0 <= i < old(self).den,
        ensures
            final(self).tracks(i + 1, s),
            final(self).den == old(self).den,
    {
        proof {
            lemma_acc_bound(self.acc as int, self.err as int, self.den as int, i, s);
            lemma_acc_bound(self.step as int, self.rem as int, self.den as int, 1, s);
            assert((self.acc + self.step) * self.den + (self.err + self.rem) == (i + 1) * s
                * 0x1_0000) by (nonlinear_arith)
                requires
                    self.step * self.den + self.rem == s * 0x1_0000,
                    self.acc * self.den + self.err == i * s * 0x1_0000,
            ;
            assert((self.acc + self.step + 1) * self.den == (self.acc + self.step) * self.den
                + self.den) by (nonlinear_arith);
        }
        let carried: u128 = self.err + self.rem;
        if carried >= self.den {
            self.err = carried - self.den;
            self.acc = self.acc + self.step + 1;
        } else {
            self.err = carried;
            self.acc = self.acc + self.step;
        }
    }
}

/// Pixel `i` has been written when the painting has finished `rows` rows of
/// the target region and `cols` pixels of the row after them.
spec fn painted(i: int, dw: int, dh: int, sw: int, sh: int, rows: int, cols: int) -> bool {
    let x = i % dw - fit_x0(dw, dh, sw, sh);
    let y = i / dw - fit_y0(dw, dh, sw, sh);
    in_fit_rect(i, dw, dh, sw, sh) && (y < rows || (y == rows && x < cols))
}

/// The buffer holds the scaled frame as far as it has been painted, and
/// black elsewhere.
spec fn painted_up_to(
    buf: Seq<u32>,
    dw: int,
    dh: int,
    src: Seq<u32>,
    sw: int,
    sh: int,
    rows: int,
    cols: int,
) -> bool {
    forall|i: int|
        0 <= i < buf.len() ==> #[trigger] buf[i] == if painted(i, dw, dh, sw, sh, rows, cols) {
            src[source_index(i, dw, dh, sw, sh)]
        } else {
            BLACK
        }
}

/// Writing the next pixel of the current row extends the painted part by it.
proof fn lemma_paint_pixel(
    buf: Seq<u32>,
    dw: int,
    dh: int,
    src: Seq<u32>,
    sw: int,
    sh: int,
    y: int,
    x: int,
    k: int,
    v: u32,
)
    requires
        dims_positive(dw, dh, sw, sh),
        painted_up_to(buf, dw, dh, src, sw, sh, y, x),
        0 <= y < fit_h(dw, dh, sw, sh),
        0 <= x < fit_w(dw, dh, sw, sh),
        k == (fit_y0(dw, dh, sw, sh) + y) * dw + fit_x0(dw, dh, sw, sh) + x,
        0 <= k < buf.len(),
        v == src[sample_index(y, sh, fit_h(dw, dh, sw, sh)) * sw + sample_index(
            x,
            sw,
            fit_w(dw, dh, sw, sh),
        )],
    ensures
        painted_up_to(buf.update(k, v), dw, dh, src, sw, sh, y, x + 1),
{
    lemma_fit_inside(dw, dh, sw, sh);
    let x0 = fit_x0(dw, dh, sw, sh);
    let y0 = fit_y0(dw, dh, sw, sh);
    lemma_row_major(k, dw, y0 + y, x0 + x);
    let after = buf.update(k, v);
    assert forall|i: int| 0 <= i < after.len() implies #[trigger] after[i] == if painted(
        i,
        dw,
        dh,
        sw,
        sh,
        y,
        x + 1,
    ) {
        src[source_index(i, dw, dh, sw, sh)]
    } else {
        BLACK
    } by {
        if i != k {
            if i / dw == y0 + y && i % dw == x0 + x {
                lemma_fundamental_div_mod(i, dw);
                lemma_mul_is_commutative(dw, i / dw);
                assert(false);
            }
        }
    }
}

/// The pixel at column `col` of row `row` of the target region lies inside
/// the first `dw * dh` pixels of the destination.
proof fn lemma_target_index(dw: int, dh: int, sw: int, sh: int, row: int, col: int)
    requires
        dims_positive(dw, dh, sw, sh),
        0 <= row < fit_h(dw, dh, sw, sh),
        0 <= col < fit_w(dw, dh, sw, sh),
    ensures
        0 <= (fit_y0(dw, dh, sw, sh) + row) * dw,
        (fit_y0(dw, dh, sw, sh) + row) * dw + fit_x0(dw, dh, sw, sh) + col < dw * dh,
{
    lemma_fit_inside(dw, dh, sw, sh);
    let x = fit_x0(dw, dh, sw, sh) + col;
    let y = fit_y0(dw, dh, sw, sh) + row;
    assert(0 <= y * dw && y * dw + x < dw * dh) by (nonlinear_arith)
        requires
            0 <= x < dw,
            0 <= y < dh,
    ;
}

/// Paints every pixel of the buffer black.
fn clear(dst: &mut [u32])
    ensures
        final(dst)@.len() == old(dst)@.len(),
        forall|i: int| 0 <= i < final(dst)@.len() ==> final(dst)@[i] == BLACK,
{
    let n: usize = dst.len();
    let mut i: usize = 0;
    while i < n
        invariant
            dst@.len() == n,
            i <= n,
            forall|j: int| 0 <= j < i ==> dst@[j] == BLACK,
        decreases n - i,
    {
        dst[i] = BLACK;
        i = i + 1;
    }
}

/// Scales the `sw` by `sh` frame in `src` into the `dw` by `dh` backbuffer
/// `dst`, both row-major. The frame keeps its aspect ratio, is centred, and is
/// sampled by nearest neighbour: target pixel `(x, y)` shows source pixel
/// `(floor(x * sw / tw), floor(y * sh / th))`. Everything around the target
/// region becomes black. With a zero dimension nothing is read or written,
/// whatever the lengths of the two buffers; otherwise each buffer must hold
/// the pixels that its dimensions promise.
pub fn blit_nn_fit(dst: &mut [u32], dw: usize, dh: usize, src: &[u32], sw: usize, sh: usize)
    requires
        dims_positive(dw as int, dh as int, sw as int, sh as int) ==> dw * dh <= old(dst)@.len(),
        dims_positive(dw as int, dh as int, sw as int, sh as int) ==> sw * sh <= src@.len(),
    ensures
        !dims_positive(dw as int, dh as int, sw as int, sh as int) ==> final(dst)@ == old(dst)@,
        final(dst)@ == scaled_frame(old(dst)@, dw as int, dh as int, src@, sw as int, sh as int),
        dims_positive(dw as int, dh as int, sw as int, sh as int) ==> forall|i: int|
            0 <= i < final(dst)@.len() && !in_fit_rect(i, dw as int, dh as int, sw as int, sh as int)
                ==> final(dst)@[i] == BLACK,
{
    let rect = match fit_rect(dw, dh, sw, sh) {
        None => {
            return;
        },
        Some(r) => r,
    };
    clear(dst);
    let ghost dwi = dw as int;
    let ghost dhi = dh as int;
    let ghost swi = sw as int;
    let ghost shi = sh as int;
    let n: usize = dst.len();
    let m: usize = src.len();
    let tw: usize = rect.tw;
    let th: usize = rect.th;
    if tw > 0 && th > 0 {
        let mut rows = Stepper::start(sh, th);
        let mut y: usize = 0;
        while y < th
            invariant
                dims_positive(dwi, dhi, swi, shi),
                dwi == dw && dhi == dh && swi == sw && shi == sh,
                rect.fits(dwi, dhi, swi, shi),
                tw == rect.tw && th == rect.th && tw > 0,
                dst@.len() == n,
                dw * dh <= n,
                sw * sh <= src@.len() == m,
                y <= th,
                rows.tracks(y as int, shi),
                rows.den == th,
                painted_up_to(dst@, dwi, dhi, src@, swi, shi, y as int, 0),
            decreases th - y,
        {
            let sy: usize = rows.index(Ghost(y as int), Ghost(shi));
            proof {
                lemma_target_index(dwi, dhi, swi, shi, y as int, 0);
                assert(0 <= sy * sw && sy * sw + sw <= sw * sh) by (nonlinear_arith)
                    requires
                        0 <= sy < sh,
                        0 < sw,
                ;
            }
            let src_row: usize = sy * sw;
            let dst_row: usize = (rect.y0 + y) * dw + rect.x0;
            let mut cols = Stepper::start(sw, tw);
            let mut x: usize = 0;
            while x < tw
                invariant
                    dims_positive(dwi, dhi, swi, shi),
                    dwi == dw && dhi == dh && swi == sw && shi == sh,
                    rect.fits(dwi, dhi, swi, shi),
                    tw == rect.tw && th == rect.th,
                    dst@.len() == n,
                    dw * dh <= n,
                    sw * sh <= src@.len() == m,
                    y < th,
                    x <= tw,
                    sy == sample_index(y as int, shi, th as int),
                    src_row == sy * sw,
                    src_row + sw <= sw * sh,
                    dst_row == (rect.y0 + y) * dw + rect.x0,
                    cols.tracks(x as int, swi),
                    cols.den == tw,
                    painted_up_to(dst@, dwi, dhi, src@, swi, shi, y as int, x as int),
                decreases tw - x,
            {
                let sx: usize = cols.index(Ghost(x as int), Ghost(swi));
                proof {
                    lemma_target_index(dwi, dhi, swi, shi, y as int, x as int);
                    lemma_paint_pixel(
                        dst@,
                        dwi,
                        dhi,
                        src@,
                        swi,
                        shi,
                        y as int,
                        x as int,
                        dst_row + x,
                        src@[src_row + sx],
                    );
                }
                dst[dst_row + x] = src[src_row + sx];
                cols.advance(Ghost(x as int), Ghost(swi));
                x = x + 1;
            }
            rows.advance(Ghost(y as int), Ghost(shi));
            y = y + 1;
        }
    }
    assert(dst@ =~= scaled_frame(old(dst)@, dwi, dhi, src@, swi, shi));
}

/// Scaling is idempotent: scaling the same frame with the same dimensions
/// into the buffer a second time leaves the buffer as the first call left it.
pub proof fn lemma_scale_idempotent(
    dst: Seq<u32>,
    dw: int,
    dh: int,
    src: Seq<u32>,
    sw: int,
    sh: int,
)
    ensures
        scaled_frame(scaled_frame(dst, dw, dh, src, sw, sh), dw, dh, src, sw, sh) == scaled_frame(
            dst,
            dw,
            dh,
            src,
            sw,
            sh,
        ),
{
    let once = scaled_frame(dst, dw, dh, src, sw, sh);
    assert(scaled_frame(once, dw, dh, src, sw, sh) =~= once);
}

/// Nothing of what the buffer held before shows through: with positive
/// dimensions, two buffers of one length come out equal.
pub proof fn lemma_scale_overwrites(
    a: Seq<u32>,
    b: Seq<u32>,
    dw: int,
    dh: int,
    src: Seq<u32>,
    sw: int,
    sh: int,
)
    requires
        dims_positive(dw, dh, sw, sh),
        a.len() == b.len(),
    ensures
        scaled_frame(a, dw, dh, src, sw, sh) == scaled_frame(b, dw, dh, src, sw, sh),
{
    assert(scaled_frame(a, dw, dh, src, sw, sh) =~= scaled_frame(b, dw, dh, src, sw, sh));
}

/// The last target pixel of a row samples the last source pixel exactly when
/// the row is not being shrunk.
pub proof fn lemma_last_sample(s: int, t: int)
    requires
        0 < s,
        0 < t,
    ensures
        sample_index(t - 1, s, t) == s - 1 <==> s <= t,
{
    if s <= t {
        assert((t - 1) * s == (s - 1) * t + (t - s)) by (nonlinear_arith);
        lemma_fundamental_div_mod_converse((t - 1) * s, t, s - 1, t - s);
    } else {
        assert((t - 1) * s < t * (s - 1)) by (nonlinear_arith)
            requires
                0 < t < s,
        ;
        lemma_multiply_divide_lt((t - 1) * s, t, s - 1);
    }
}

/// Corner exactness. Where the target region is not empty, its top-left pixel
/// shows the source's top-left pixel; where the region is also at least as
/// wide as the source, the last pixel of its first row shows the last pixel of
/// the source's first row.
pub proof fn lemma_corners_exact(
    dst: Seq<u32>,
    dw: int,
    dh: int,
    src: Seq<u32>,
    sw: int,
    sh: int,
)
    requires
        dims_positive(dw, dh, sw, sh),
        dw * dh <= dst.len(),
        fit_w(dw, dh, sw, sh) > 0,
        fit_h(dw, dh, sw, sh) > 0,
    ensures
        scaled_frame(dst, dw, dh, src, sw, sh)[fit_y0(dw, dh, sw, sh) * dw + fit_x0(
            dw,
            dh,
            sw,
            sh,
        )] == src[0],
        sw <= fit_w(dw, dh, sw, sh) ==> scaled_frame(dst, dw, dh, src, sw, sh)[fit_y0(
            dw,
            dh,
            sw,
            sh,
        ) * dw + fit_x0(dw, dh, sw, sh) + fit_w(dw, dh, sw, sh) - 1] == src[sw - 1],
{
    let x0 = fit_x0(dw, dh, sw, sh);
    let y0 = fit_y0(dw, dh, sw, sh);
    let tw = fit_w(dw, dh, sw, sh);
    let th = fit_h(dw, dh, sw, sh);
    lemma_fit_inside(dw, dh, sw, sh);
    let first = y0 * dw + x0;
    lemma_target_index(dw, dh, sw, sh, 0, 0);
    lemma_row_major(first, dw, y0, x0);
    assert(sample_index(0, sh, th) == 0 && sample_index(0, sw, tw) == 0) by {
        lemma_div_basics(th);
        lemma_div_basics(tw);
    }
    assert(source_index(first, dw, dh, sw, sh) == 0) by (nonlinear_arith)
        requires
            source_index(first, dw, dh, sw, sh) == 0 * sw + 0,
    ;
    if sw <= tw {
        let last = first + tw - 1;
        lemma_target_index(dw, dh, sw, sh, 0, tw - 1);
        lemma_row_major(last, dw, y0, x0 + tw - 1);
        lemma_last_sample(sw, tw);
        assert(source_index(last, dw, dh, sw, sh) == sw - 1) by (nonlinear_arith)
            requires
                source_index(last, dw, dh, sw, sh) == 0 * sw + (sw - 1),
        ;
    }
}

} // verus!
