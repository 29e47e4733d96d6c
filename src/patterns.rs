//! Frames of the lighting patterns, drawn from a pattern's parameters and
//! a step counter.

use vstd::prelude::*;
use crate::config::PresetSettings;
use crate::pixel::{
    color_wheel, color_wheel_spec, dim, gradient_frac, gradient_index, lerp_color_spec,
    lerp_gradient, whiten,
};

verus! {

/// Number of LEDs on the strip.
pub const LED_COUNT: usize = 79;

pub open spec fn white() -> Seq<u8> {
    seq![255u8, 255u8, 255u8]
}

pub open spec fn black() -> Seq<u8> {
    seq![0u8, 0u8, 0u8]
}

/// `c` dimmed by the brightness parameter: full brightness leaves it as
/// it is, zero brightness is black.
pub open spec fn dimmed(c: Seq<u8>, brightness: u8) -> Seq<u8> {
    lerp_color_spec(c, black(), (255 - brightness) as u8)
}

/// A strip of `LED_COUNT` copies of one colour.
fn fill(color: [u8; 3]) -> (r: Vec<[u8; 3]>)
    ensures
        r@.len() == LED_COUNT,
        forall|i: int| 0 <= i < LED_COUNT ==> r@[i] == color,
{
    let mut r: Vec<[u8; 3]> = Vec::with_capacity(LED_COUNT);
    let mut i: usize = 0;
    while i < LED_COUNT
        invariant
            i <= LED_COUNT,
            r@.len() == i,
            forall|j: int| 0 <= j < i ==> r@[j] == color,
        decreases LED_COUNT - i,
    {
        r.push(color);
        i += 1;
    }
    r
}

/// One colour on the whole strip: the wheel position is the scale, the
/// speed whitens it.
pub struct StaticColorPreset {}

pub open spec fn static_color_spec(p: PresetSettings) -> Seq<u8> {
    dimmed(lerp_color_spec(color_wheel_spec(p.scale), white(), p.speed), p.brightness)
}

impl StaticColorPreset {
    pub fn color(p: &PresetSettings) -> (r: [u8; 3])
        ensures
            r@ == static_color_spec(*p),
    {
        let c = whiten(&color_wheel(&p.scale), p.speed);
        dim(&c, 255 - p.brightness)
    }

    pub fn frame(p: &PresetSettings) -> (r: Vec<[u8; 3]>)
        ensures
            r@.len() == LED_COUNT,
            forall|i: int| 0 <= i < LED_COUNT ==> r@[i]@ == static_color_spec(*p),
    {
        fill(Self::color(p))
    }
}

/// The whole strip walks around the colour wheel; the scale whitens it,
/// the speed sets the step.
pub struct DynamicColorPreset {}

/// Wheel positions advanced per step.
pub open spec fn dynamic_speed_mult(p: PresetSettings) -> u8 {
    if p.speed >= 128 { (p.speed - 127) as u8 } else { 1 }
}

/// Frames each step is held for.
pub open spec fn dynamic_wait_spec(p: PresetSettings) -> u8 {
    if p.speed < 128 { (128 - p.speed) as u8 } else { 1 }
}

pub open spec fn dynamic_color_spec(p: PresetSettings, step: u8) -> Seq<u8> {
    dimmed(
        lerp_color_spec(
            color_wheel_spec(((step as int * dynamic_speed_mult(p) as int) % 256) as u8),
            white(),
            p.scale,
        ),
        p.brightness,
    )
}

impl DynamicColorPreset {
    pub fn wait_cycles(p: &PresetSettings) -> (r: u8)
        ensures
            r == dynamic_wait_spec(*p),
            r >= 1,
    {
        if p.speed < 128 {
            128 - p.speed
        } else {
            1
        }
    }

    pub fn color(p: &PresetSettings, step: u8) -> (r: [u8; 3])
        ensures
            r@ == dynamic_color_spec(*p, step),
    {
        let speed_mult: u8 = if p.speed >= 128 {
            p.speed - 127
        } else {
            1
        };
        let wheel_pos = step.wrapping_mul(speed_mult);
        let c = whiten(&color_wheel(&wheel_pos), p.scale);
        dim(&c, 255 - p.brightness)
    }

    pub fn frame(p: &PresetSettings, step: u8) -> (r: Vec<[u8; 3]>)
        ensures
            r@.len() == LED_COUNT,
            forall|i: int| 0 <= i < LED_COUNT ==> r@[i]@ == dynamic_color_spec(*p, step),
    {
        fill(Self::color(p, step))
    }
}

/// A rainbow running along the strip; the scale stretches it, the speed
/// sets how far it moves per step.
pub struct RunningRainbowPreset {}

/// Wheel position of LED `idx` at step `step`.
pub open spec fn rainbow_wheel_pos(p: PresetSettings, step: u8, idx: int) -> u8 {
    let speed_mult = ((128 - p.speed as int) % 256) as u8;
    let frame_pos = (step as int * speed_mult as int) % 256;
    let led_pos = (idx * (p.scale as int * 2) / LED_COUNT as int) % 256;
    ((led_pos + frame_pos) % 256) as u8
}

pub open spec fn rainbow_pixel_spec(p: PresetSettings, step: u8, idx: int) -> Seq<u8> {
    dimmed(color_wheel_spec(rainbow_wheel_pos(p, step, idx)), p.brightness)
}

impl RunningRainbowPreset {
    pub fn frame(p: &PresetSettings, step: u8) -> (r: Vec<[u8; 3]>)
        ensures
            r@.len() == LED_COUNT,
            forall|i: int| 0 <= i < LED_COUNT ==> r@[i]@ == rainbow_pixel_spec(*p, step, i),
    {
        let speed_mult: u8 = 128u8.wrapping_sub(p.speed);
        let scale_factor: usize = p.scale as usize * 2;
        let frame_wheel_pos: u8 = step.wrapping_mul(speed_mult);
        let mut r: Vec<[u8; 3]> = Vec::with_capacity(LED_COUNT);
        let mut idx: usize = 0;
        while idx < LED_COUNT
            invariant
                idx <= LED_COUNT,
                r@.len() == idx,
                scale_factor == p.scale as int * 2,
                speed_mult == ((128 - p.speed as int) % 256) as u8,
                frame_wheel_pos == (step as int * speed_mult as int) % 256,
                forall|j: int| 0 <= j < idx ==> r@[j]@ == rainbow_pixel_spec(*p, step, j),
            decreases LED_COUNT - idx,
        {
            assert(idx * scale_factor <= LED_COUNT * 510) by (nonlinear_arith)
                requires
                    idx < LED_COUNT,
                    scale_factor <= 510,
            ;
            let led_pos: u8 = (idx * scale_factor / LED_COUNT % 256) as u8;
            let wheel_pos = led_pos.wrapping_add(frame_wheel_pos);
            r.push(dim(&color_wheel(&wheel_pos), 255 - p.brightness));
            idx += 1;
        }
        r
    }
}

/// Flames: each LED takes a colour from a black-red-yellow palette at a
/// noise sample, dimmed by the brightness. The noise samples are drawn
/// elsewhere, at `noise_x` along the strip and at the frame's time; the
/// speed sets how far time moves per frame.
pub struct FirePreset {}

pub open spec fn fire_palette_spec() -> Seq<Seq<u8>> {
    seq![
        seq![0u8, 0u8, 0u8],
        seq![127u8, 0u8, 0u8],
        seq![255u8, 0u8, 0u8],
        seq![255u8, 127u8, 0u8],
        seq![255u8, 255u8, 0u8],
    ]
}

/// Time advanced per frame.
pub open spec fn fire_time_step_spec(speed: u8) -> u16 {
    if speed == 0 {
        0
    } else if speed / 8 < 1 {
        1
    } else if speed / 8 > 31 {
        31
    } else {
        (speed / 8) as u16
    }
}

/// The palette colour at a noise sample, before dimming.
pub open spec fn fire_color_spec(noise: u8) -> Seq<u8> {
    lerp_color_spec(
        fire_palette_spec()[gradient_index(5, noise)],
        fire_palette_spec()[gradient_index(5, noise) + 1],
        gradient_frac(5, noise) as u8,
    )
}

pub open spec fn fire_pixel_spec(p: PresetSettings, noise: u8) -> Seq<u8> {
    Seq::new(3, |i: int| ((fire_color_spec(noise)[i] as int * p.brightness as int) / 255) as u8)
}

fn fire_palette() -> (r: [[u8; 3]; 5])
    ensures
        forall|i: int| 0 <= i < 5 ==> r@[i]@ == fire_palette_spec()[i],
{
    let r: [[u8; 3]; 5] = [[0, 0, 0], [127, 0, 0], [255, 0, 0], [255, 127, 0], [255, 255, 0]];
    assert(r@[0]@ =~= fire_palette_spec()[0]);
    assert(r@[1]@ =~= fire_palette_spec()[1]);
    assert(r@[2]@ =~= fire_palette_spec()[2]);
    assert(r@[3]@ =~= fire_palette_spec()[3]);
    assert(r@[4]@ =~= fire_palette_spec()[4]);
    r
}

/// `c * brightness / 255`.
fn dim_by(c: u8, brightness: u8) -> (r: u8)
    ensures
        r == (c as int * brightness as int) / 255,
{
    proof {
        assert((c as int * brightness as int) / 255 <= c) by (nonlinear_arith)
            requires
                0 <= c <= 255,
                0 <= brightness <= 255,
        ;
        assert(c as u16 * brightness as u16 == c as int * brightness as int) by (nonlinear_arith)
            requires
                0 <= c <= 255,
                0 <= brightness <= 255,
        ;
    }
    (c as u16 * brightness as u16 / 255) as u8
}

impl FirePreset {
    pub fn time_step(p: &PresetSettings) -> (r: u16)
        ensures
            r == fire_time_step_spec(p.speed),
    {
        if p.speed > 0 {
            let s = p.speed / 8;
            (if s < 1 {
                1
            } else if s > 31 {
                31
            } else {
                s
            }) as u16
        } else {
            0
        }
    }

    /// Where along the noise field LED `idx` samples.
    pub fn noise_x(idx: usize, p: &PresetSettings) -> (r: u16)
        requires
            idx < LED_COUNT,
        ensures
            r == idx * p.scale,
    {
        proof {
            assert(idx * p.scale <= 78 * 255) by (nonlinear_arith)
                requires
                    idx < 79,
                    p.scale <= 255,
            ;
        }
        idx as u16 * p.scale as u16
    }

    /// The colour of an LED whose noise sample is `noise`.
    pub fn pixel(p: &PresetSettings, noise: u8) -> (r: [u8; 3])
        ensures
            r@ == fire_pixel_spec(*p, noise),
    {
        let palette = fire_palette();
        let c = lerp_gradient(&palette, noise);
        let r = [dim_by(c[0], p.brightness), dim_by(c[1], p.brightness), dim_by(c[2], p.brightness)];
        assert(r@ =~= fire_pixel_spec(*p, noise));
        r
    }

    /// A frame from one noise sample per LED.
    pub fn frame(p: &PresetSettings, noise: &Vec<u8>) -> (r: Vec<[u8; 3]>)
        requires
            noise@.len() == LED_COUNT,
        ensures
            r@.len() == LED_COUNT,
            forall|i: int| 0 <= i < LED_COUNT ==> r@[i]@ == fire_pixel_spec(*p, noise@[i]),
    {
        let mut r: Vec<[u8; 3]> = Vec::with_capacity(LED_COUNT);
        let mut i: usize = 0;
        while i < LED_COUNT
            invariant
                i <= LED_COUNT,
                noise@.len() == LED_COUNT,
                r@.len() == i,
                forall|j: int| 0 <= j < i ==> r@[j]@ == fire_pixel_spec(*p, noise@[j]),
            decreases LED_COUNT - i,
        {
            r.push(Self::pixel(p, noise[i]));
            i += 1;
        }
        r
    }
}

} // verus!
