use raymarcher::scalar::Float32;
use raymarcher::settings::{
    Scene, SettingsUniform, DEFAULT_ALPHA, DEFAULT_MAX_DIST, DEFAULT_SUN_SHARPNESS,
    DEFAULT_SUN_SIZE, MANDELBULB, MANDELBULB_EPSILON, MANDELBULB_MAX_STEPS, MENGER_SPONGE,
    MENGER_SPONGE_EPSILON, MENGER_SPONGE_MAX_STEPS,
};

fn value(x: Float32) -> f32 {
    f32::from_bits(x.to_bits())
}

fn same(a: &SettingsUniform, b: &SettingsUniform) -> bool {
    a.max_steps == b.max_steps
        && a.epsilon == b.epsilon
        && a.max_dist == b.max_dist
        && a.sun_size == b.sun_size
        && a.sun_dir == b.sun_dir
        && a.sun_sharpness == b.sun_sharpness
        && a.alpha == b.alpha
        && a.time == b.time
        && a.scene == b.scene
        && a._padding == b._padding
}

#[test]
fn preset_constants() {
    assert_eq!(MANDELBULB, 0);
    assert_eq!(MANDELBULB_MAX_STEPS, 100);
    assert_eq!(MANDELBULB_EPSILON, 0.002f32.to_bits());
    assert_eq!(MENGER_SPONGE, 1);
    assert_eq!(MENGER_SPONGE_MAX_STEPS, 500);
    assert_eq!(MENGER_SPONGE_EPSILON, 0.0001f32.to_bits());
    assert_eq!(DEFAULT_MAX_DIST, 10.0f32.to_bits());
    assert_eq!(DEFAULT_SUN_SIZE, 0.005f32.to_bits());
    assert_eq!(DEFAULT_SUN_SHARPNESS, 2.0f32.to_bits());
    assert_eq!(DEFAULT_ALPHA, 0.1f32.to_bits());
}

#[test]
fn default_is_the_mandelbulb_preset() {
    let s = SettingsUniform::default();
    assert_eq!(s.scene, 0);
    assert_eq!(s.max_steps, 100);
    assert_eq!(value(s.epsilon), 0.002);
    assert_eq!(s.current_preset(), Some(Scene::Mandelbulb));
}

#[test]
fn default_of_the_other_fields() {
    let s = SettingsUniform::default();
    assert_eq!(value(s.max_dist), 10.0);
    assert_eq!(value(s.sun_size), 0.005);
    assert_eq!(
        [value(s.sun_dir[0]), value(s.sun_dir[1]), value(s.sun_dir[2])],
        [0.0, 1.0, 0.0]
    );
    assert_eq!(value(s.sun_sharpness), 2.0);
    assert_eq!(value(s.alpha), 0.1);
    assert_eq!(value(s.time), 0.0);
    assert_eq!(s._padding, 0);
}

#[test]
fn menger_sponge_preset() {
    let s = SettingsUniform::default().set_mengersponge();
    assert_eq!(s.scene, 1);
    assert_eq!(s.max_steps, 500);
    assert_eq!(value(s.epsilon), 0.0001);
    assert_eq!(s.current_preset(), Some(Scene::MengerSponge));
    let back = s.set_mandelbulb();
    assert!(same(&back, &SettingsUniform::default()));
}

#[test]
fn presets_in_place() {
    let mut s = SettingsUniform::default();
    s.time = Float32::from_bits(4.5f32.to_bits());
    s.set_mengersponge_mut();
    assert_eq!((s.scene, s.max_steps, value(s.epsilon)), (1, 500, 0.0001));
    assert_eq!(value(s.time), 4.5);
    s.set_mandelbulb_mut();
    assert_eq!((s.scene, s.max_steps, value(s.epsilon)), (0, 100, 0.002));
    assert_eq!(value(s.time), 4.5);
}

#[test]
fn switch_toggles_between_the_two_scenes() {
    let mut s = SettingsUniform::default();
    s.switch_scene();
    assert_eq!((s.scene, s.max_steps, value(s.epsilon)), (1, 500, 0.0001));
    s.switch_scene();
    assert_eq!((s.scene, s.max_steps, value(s.epsilon)), (0, 100, 0.002));
}

#[test]
fn two_switches_from_mandelbulb_change_nothing() {
    let mut s = SettingsUniform::default();
    s.time = Float32::from_bits(12.25f32.to_bits());
    s.alpha = Float32::from_bits(0.75f32.to_bits());
    let before = s;
    s.switch_scene();
    assert!(!same(&s, &before));
    s.switch_scene();
    assert!(same(&s, &before));
}

#[test]
fn two_switches_from_menger_sponge_change_nothing() {
    let mut s = SettingsUniform::default().set_mengersponge();
    let before = s;
    s.switch_scene();
    s.switch_scene();
    assert!(same(&s, &before));
}

#[test]
fn unknown_scene_switches_to_mandelbulb() {
    for scene in [2u32, 3, 7, u32::MAX] {
        let mut s = SettingsUniform::default();
        s.scene = scene;
        s.max_steps = 17;
        assert_eq!(s.current_preset(), None);
        s.switch_scene();
        assert_eq!((s.scene, s.max_steps, value(s.epsilon)), (0, 100, 0.002));
        assert_eq!(s.current_preset(), Some(Scene::Mandelbulb));
    }
}

#[test]
fn a_discriminant_with_foreign_values_is_no_preset() {
    let mut s = SettingsUniform::default();
    s.max_steps = 500;
    assert_eq!(s.current_preset(), None);
    let mut s = SettingsUniform::default().set_mengersponge();
    s.epsilon = Float32::from_bits(0.002f32.to_bits());
    assert_eq!(s.current_preset(), None);
}
