use sl1_core::patterns::{
    DynamicColorPreset, FirePreset, RunningRainbowPreset, StaticColorPreset, LED_COUNT,
};
use sl1_core::config::PresetSettings;
use sl1_core::pixel::{
    color_wheel, dim, fade_u8, grad_u8, lerp_color, lerp_gradient, lerp_i8, lerp_u8, scale_u8,
    whiten,
};

#[test]
fn scaling() {
    assert_eq!(scale_u8(255, 255), 254);
    assert_eq!(scale_u8(100, 128), 50);
    assert_eq!(scale_u8(0, 200), 0);
    assert_eq!(fade_u8(16), 1);
    assert_eq!(fade_u8(255), 254);
}

#[test]
fn interpolation() {
    assert_eq!(lerp_u8(0, 255, 128), 127);
    assert_eq!(lerp_u8(255, 0, 128), 128);
    assert_eq!(lerp_u8(10, 10, 200), 10);
    assert_eq!(lerp_i8(-100, 100, 128), 0);
    assert_eq!(lerp_i8(100, -100, 64), 50);
    assert_eq!(lerp_i8(-128, 127, 255), 126);
    assert_eq!(lerp_color(&[0, 100, 200], &[200, 100, 0], 128), [100, 100, 100]);
}

#[test]
fn wheel_and_tints() {
    assert_eq!(color_wheel(&0), [255, 0, 0]);
    assert_eq!(color_wheel(&85), [0, 255, 0]);
    assert_eq!(color_wheel(&170), [0, 0, 255]);
    assert_eq!(color_wheel(&255), [255, 0, 0]);
    assert_eq!(color_wheel(&10), [225, 30, 0]);
    assert_eq!(whiten(&[0, 0, 0], 128), [127, 127, 127]);
    assert_eq!(dim(&[255, 255, 255], 128), [128, 128, 128]);
    assert_eq!(dim(&[200, 100, 50], 0), [200, 100, 50]);
}

#[test]
fn gradient() {
    let palette = [[0, 0, 0], [127, 0, 0], [255, 0, 0], [255, 127, 0], [255, 255, 0]];
    assert_eq!(lerp_gradient(&palette, 0), [0, 0, 0]);
    assert_eq!(lerp_gradient(&palette, 62), [123, 0, 0]);
    assert_eq!(lerp_gradient(&palette, 63), [127, 0, 0]);
    assert_eq!(lerp_gradient(&palette, 64), [129, 0, 0]);
    assert_eq!(lerp_gradient(&palette, 255), [255, 133, 0]);
    assert_eq!(lerp_gradient(&[[0, 0, 0], [255, 255, 255]], 128), [127, 127, 127]);
}

#[test]
fn gradient_vectors() {
    assert_eq!(grad_u8(0, 10, 20), 15);
    assert_eq!(grad_u8(4, 10, 21), 16);
    assert_eq!(grad_u8(1, 10, 20), 5);
    assert_eq!(grad_u8(3, 11, 20), -15);
    assert_eq!(grad_u8(1, -128, 0), -64);
}

#[test]
fn pattern_frames() {
    let p = PresetSettings::new(255, 0, 0);
    let f = StaticColorPreset::frame(&p);
    assert_eq!(f.len(), LED_COUNT);
    assert!(f.iter().all(|c| *c == [255, 0, 0]));
    let off = PresetSettings::new(0, 0, 0);
    assert!(StaticColorPreset::frame(&off).iter().all(|c| *c == [1, 0, 0]));
    assert_eq!(DynamicColorPreset::wait_cycles(&PresetSettings::new(0, 100, 0)), 28);
    assert_eq!(DynamicColorPreset::wait_cycles(&PresetSettings::new(0, 200, 0)), 1);
    assert_eq!(DynamicColorPreset::color(&PresetSettings::new(255, 0, 0), 85), [0, 255, 0]);
    let r = RunningRainbowPreset::frame(&PresetSettings::new(255, 128, 0), 0);
    assert_eq!(r.len(), LED_COUNT);
    assert!(r.iter().all(|c| *c == [255, 0, 0]));
    let r = RunningRainbowPreset::frame(&PresetSettings::new(255, 127, 0), 85);
    assert_eq!(r[0], [0, 255, 0]);
}

#[test]
fn fire_frames() {
    assert_eq!(FirePreset::time_step(&PresetSettings::new(0, 0, 0)), 0);
    assert_eq!(FirePreset::time_step(&PresetSettings::new(0, 4, 0)), 1);
    assert_eq!(FirePreset::time_step(&PresetSettings::new(0, 100, 0)), 12);
    assert_eq!(FirePreset::time_step(&PresetSettings::new(0, 255, 0)), 31);
    assert_eq!(FirePreset::noise_x(10, &PresetSettings::new(0, 0, 3)), 30);
    let full = PresetSettings::new(255, 0, 0);
    assert_eq!(FirePreset::pixel(&full, 0), [0, 0, 0]);
    assert_eq!(FirePreset::pixel(&full, 255), [255, 133, 0]);
    assert_eq!(FirePreset::pixel(&PresetSettings::new(128, 0, 0), 255), [128, 66, 0]);
    let noise: Vec<u8> = (0..LED_COUNT).map(|i| if i == 0 { 63 } else { 0 }).collect();
    let f = FirePreset::frame(&full, &noise);
    assert_eq!(f.len(), LED_COUNT);
    assert_eq!(f[0], [127, 0, 0]);
    assert_eq!(f[1], [0, 0, 0]);
}
