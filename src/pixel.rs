//! Fixed-point colour arithmetic that the lighting patterns draw with.
//! A colour is three bytes, red, green and blue.

use vstd::prelude::*;

verus! {

/// `i` scaled by `scale / 256`, rounded down.
pub open spec fn scale_spec(i: u8, scale: u8) -> int {
    (i as int * scale as int) / 256
}

pub proof fn lemma_scale_bounded(i: u8, scale: u8)
    ensures
        0 <= scale_spec(i, scale) <= i,
{
    assert(0 <= (i as int * scale as int) / 256 <= i) by (nonlinear_arith)
        requires
            0 <= i <= 255,
            0 <= scale <= 255,
    ;
}

pub fn scale_u8(i: u8, scale: u8) -> (r: u8)
    ensures
        r == scale_spec(i, scale),
{
    proof {
        lemma_scale_bounded(i, scale);
        assert(i as u16 * scale as u16 == i as int * scale as int) by (nonlinear_arith)
            requires
                0 <= i <= 255,
                0 <= scale <= 255,
        ;
    }
    let p: u16 = i as u16 * scale as u16;
    assert((p >> 8u16) == p / 256) by (bit_vector);
    (p >> 8u16) as u8
}

/// The point `frac / 256` of the way from `a` to `b`, rounded toward `a`.
pub open spec fn lerp_spec(a: int, b: int, frac: u8) -> int {
    if b > a {
        a + ((b - a) * frac as int) / 256
    } else {
        a - ((a - b) * frac as int) / 256
    }
}

pub proof fn lemma_lerp_between(a: int, b: int, frac: u8)
    ensures
        b > a ==> a <= lerp_spec(a, b, frac) <= b,
        b <= a ==> b <= lerp_spec(a, b, frac) <= a,
{
    let d = if b > a { b - a } else { a - b };
    assert(0 <= (d * frac as int) / 256 <= d) by (nonlinear_arith)
        requires
            0 <= d,
            0 <= frac <= 255,
    ;
}

pub fn lerp_u8(a: u8, b: u8, frac: u8) -> (r: u8)
    ensures
        r == lerp_spec(a as int, b as int, frac),
{
    proof {
        lemma_lerp_between(a as int, b as int, frac);
    }
    if b > a {
        let delta = b - a;
        let scaled = scale_u8(delta, frac);
        a + scaled
    } else {
        let delta = a - b;
        let scaled = scale_u8(delta, frac);
        a - scaled
    }
}

pub fn lerp_i8(a: i8, b: i8, frac: u8) -> (r: i8)
    ensures
        r == lerp_spec(a as int, b as int, frac),
{
    proof {
        lemma_lerp_between(a as int, b as int, frac);
    }
    if b > a {
        let delta = (b as i16 - a as i16) as u8;
        let scaled = scale_u8(delta, frac);
        (a as i16 + scaled as i16) as i8
    } else {
        let delta = (a as i16 - b as i16) as u8;
        let scaled = scale_u8(delta, frac);
        (a as i16 - scaled as i16) as i8
    }
}

/// `x` scaled by itself: an ease-in curve.
pub fn fade_u8(x: u8) -> (r: u8)
    ensures
        r == scale_spec(x, x),
{
    scale_u8(x, x)
}

/// Component-wise interpolation between two colours.
pub open spec fn lerp_color_spec(a: Seq<u8>, b: Seq<u8>, frac: u8) -> Seq<u8> {
    Seq::new(3, |i: int| lerp_spec(a[i] as int, b[i] as int, frac) as u8)
}

pub fn lerp_color(a: &[u8; 3], b: &[u8; 3], frac: u8) -> (r: [u8; 3])
    ensures
        r@ == lerp_color_spec(a@, b@, frac),
{
    let r = [lerp_u8(a[0], b[0], frac), lerp_u8(a[1], b[1], frac), lerp_u8(a[2], b[2], frac)];
    assert(r@ =~= lerp_color_spec(a@, b@, frac));
    r
}

/// The colour at a position of the colour wheel: red to green, green to
/// blue, blue back to red, a third of the wheel each.
pub open spec fn color_wheel_spec(p: u8) -> Seq<u8> {
    if p < 85 {
        seq![(255 - 3 * p) as u8, (3 * p) as u8, 0u8]
    } else if p < 170 {
        seq![0u8, (255 - 3 * (p - 85)) as u8, (3 * (p - 85)) as u8]
    } else {
        seq![(3 * (p - 170)) as u8, 0u8, (255 - 3 * (p - 170)) as u8]
    }
}

pub fn color_wheel(wheel_pos: &u8) -> (r: [u8; 3])
    ensures
        r@ == color_wheel_spec(*wheel_pos),
{
    let p = *wheel_pos;
    let r = if p < 85 {
        [255 - p * 3, p * 3, 0]
    } else if p < 170 {
        [0, 255 - (p - 85) * 3, (p - 85) * 3]
    } else {
        [(p - 170) * 3, 0, 255 - (p - 170) * 3]
    };
    assert(r@ =~= color_wheel_spec(p));
    r
}

/// `pixel` moved `coeff / 256` of the way to white.
pub fn whiten(pixel: &[u8; 3], coeff: u8) -> (r: [u8; 3])
    ensures
        r@ == lerp_color_spec(pixel@, seq![255u8, 255u8, 255u8], coeff),
{
    let white: [u8; 3] = [255, 255, 255];
    assert(white@ =~= seq![255u8, 255u8, 255u8]);
    lerp_color(pixel, &white, coeff)
}

/// `pixel` moved `coeff / 256` of the way to black.
pub fn dim(pixel: &[u8; 3], coeff: u8) -> (r: [u8; 3])
    ensures
        r@ == lerp_color_spec(pixel@, seq![0u8, 0u8, 0u8], coeff),
{
    let black: [u8; 3] = [0, 0, 0];
    assert(black@ =~= seq![0u8, 0u8, 0u8]);
    lerp_color(pixel, &black, coeff)
}

/// Which stretch of a palette of `n` colours a fraction falls in, and the
/// fraction within that stretch.
pub open spec fn gradient_index(n: nat, frac: u8) -> int {
    let count: int = n - 1;
    let variance: int = 255int / count;
    if frac as int / variance > count - 1 { count - 1 } else { frac as int / variance }
}

pub open spec fn gradient_frac(n: nat, frac: u8) -> int {
    let count: int = n - 1;
    let variance: int = 255int / count;
    (frac as int % variance) * count
}

/// The colour at fraction `frac / 256` along a palette of evenly spread
/// colours.
pub fn lerp_gradient<const N: usize>(palette: &[[u8; 3]; N], frac: u8) -> (r: [u8; 3])
    requires
        2 <= N <= 256,
    ensures
        0 <= gradient_index(N as nat, frac) < N - 1,
        r@ == lerp_color_spec(
            palette@[gradient_index(N as nat, frac)]@,
            palette@[gradient_index(N as nat, frac) + 1]@,
            gradient_frac(N as nat, frac) as u8,
        ),
{
    let grad_count: u8 = (N - 1) as u8;
    let variance: u8 = u8::MAX / grad_count;
    assert(variance >= 1) by (nonlinear_arith)
        requires
            variance as int == 255int / (grad_count as int),
            1 <= grad_count <= 255,
    ;
    let q = frac / variance;
    let grad_idx: usize = if q > grad_count - 1 { (grad_count - 1) as usize } else { q as usize };
    let m = frac % variance;
    proof {
        assert(variance as int * grad_count as int <= 255) by (nonlinear_arith)
            requires
                variance as int == 255int / (grad_count as int),
                1 <= grad_count <= 255,
        ;
        assert(m as int * grad_count as int <= 255) by (nonlinear_arith)
            requires
                m < variance,
                variance as int * grad_count as int <= 255,
                1 <= grad_count,
        ;
    }
    lerp_color(&palette[grad_idx], &palette[grad_idx + 1], m * grad_count)
}


/// Two's complement negation, which leaves the minimum as it is.
pub open spec fn wrapping_neg_spec(a: i8) -> i8 {
    if a == i8::MIN { a } else { (-a) as i8 }
}

/// Gradient of a noise lattice corner: `hash` picks the axis order and
/// the signs, and the result is about the mean of the two components.
pub open spec fn grad_spec(hash: u8, x: i8, y: i8) -> int {
    let (u0, v0) = if hash & 4 > 0 { (y, x) } else { (x, y) };
    let u = if hash & 1 > 0 { wrapping_neg_spec(u0) } else { u0 };
    let v = if hash & 2 > 0 { wrapping_neg_spec(v0) } else { v0 };
    (u >> 1i8) as int + (v >> 1i8) as int + (u & 1i8) as int
}

pub fn grad_u8(hash: u8, x: i8, y: i8) -> (r: i8)
    ensures
        r == grad_spec(hash, x, y),
{
    let (mut u, mut v): (i8, i8);
    if hash & 4 > 0 {
        u = y;
        v = x;
    } else {
        u = x;
        v = y;
    }
    if hash & 1 > 0 {
        u = if u == i8::MIN { u } else { -u };
    }
    if hash & 2 > 0 {
        v = if v == i8::MIN { v } else { -v };
    }
    let hu = u >> 1i8;
    let hv = v >> 1i8;
    let lo = u & 1i8;
    assert(-64 <= hu <= 63) by (bit_vector)
        requires
            hu == u >> 1i8,
    ;
    assert(-64 <= hv <= 63) by (bit_vector)
        requires
            hv == v >> 1i8,
    ;
    assert(0 <= lo <= 1) by (bit_vector)
        requires
            lo == u & 1i8,
    ;
    hu + hv + lo
}

} // verus!
