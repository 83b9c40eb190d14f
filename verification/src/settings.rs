//! The shading parameters and the two scene presets.

use crate::scalar::lemma_compare_with_ratio;
use crate::scalar::Float32;
use vstd::arithmetic::power2::lemma2_to64;
use vstd::arithmetic::power2::lemma2_to64_rest;
use vstd::prelude::*;

verus! {

/// Discriminant of the Mandelbulb scene.
pub const MANDELBULB: u32 = 0;

/// Step budget of the Mandelbulb scene.
pub const MANDELBULB_MAX_STEPS: i32 = 100;

/// Hit threshold of the Mandelbulb scene: bits of 0.002.
pub const MANDELBULB_EPSILON: u32 = 0x3b03_126f;

/// Discriminant of the Menger sponge scene.
pub const MENGER_SPONGE: u32 = 1;

/// Step budget of the Menger sponge scene.
pub const MENGER_SPONGE_MAX_STEPS: i32 = 500;

/// Hit threshold of the Menger sponge scene: bits of 0.0001.
pub const MENGER_SPONGE_EPSILON: u32 = 0x38d1_b717;

/// Distance at which a ray gives up: bits of 10.0.
pub const DEFAULT_MAX_DIST: u32 = 0x4120_0000;

/// Angular size of the sun: bits of 0.005.
pub const DEFAULT_SUN_SIZE: u32 = 0x3ba3_d70a;

/// Sharpness of the sun's edge: bits of 2.0.
pub const DEFAULT_SUN_SHARPNESS: u32 = 0x4000_0000;

/// Blend factor: bits of 0.1.
pub const DEFAULT_ALPHA: u32 = 0x3dcc_cccd;

/// The scenes that the shading kernel knows.
#[derive(Clone, Copy, Debug, PartialEq, Eq, Structural)]
pub enum Scene {
    Mandelbulb,
    MengerSponge,
}

/// The block of shading parameters, field for field as the shading kernel
/// reads it.
///
/// `scene`, `max_steps` and `epsilon` go together: a block is a preset when
/// the three hold the values of one scene (see [`SettingsUniform::preset`]).
#[derive(Clone, Copy, Debug)]
pub struct SettingsUniform {
    pub max_steps: i32,
    pub epsilon: Float32,
    pub max_dist: Float32,
    pub sun_size: Float32,
    pub sun_dir: [Float32; 3],
    pub sun_sharpness: Float32,
    pub alpha: Float32,
    pub time: Float32,
    pub scene: u32,
    pub _padding: u32,
}

impl SettingsUniform {
    /// The block with the Mandelbulb preset in place of whatever preset it
    /// had; every other field as it was.
    pub open spec fn with_mandelbulb(self) -> SettingsUniform {
        SettingsUniform {
            scene: MANDELBULB,
            max_steps: MANDELBULB_MAX_STEPS,
            epsilon: Float32 { bits: MANDELBULB_EPSILON },
            ..self
        }
    }

    /// The block with the Menger sponge preset in place of whatever preset
    /// it had; every other field as it was.
    pub open spec fn with_mengersponge(self) -> SettingsUniform {
        SettingsUniform {
            scene: MENGER_SPONGE,
            max_steps: MENGER_SPONGE_MAX_STEPS,
            epsilon: Float32 { bits: MENGER_SPONGE_EPSILON },
            ..self
        }
    }

    /// The scene whose preset the block holds, if it holds one.
    pub open spec fn preset(self) -> Option<Scene> {
        if self.scene == MANDELBULB && self.max_steps == MANDELBULB_MAX_STEPS && self.epsilon.bits
            == MANDELBULB_EPSILON {
            Some(Scene::Mandelbulb)
        } else if self.scene == MENGER_SPONGE && self.max_steps == MENGER_SPONGE_MAX_STEPS
            && self.epsilon.bits == MENGER_SPONGE_EPSILON {
            Some(Scene::MengerSponge)
        } else {
            None
        }
    }

    /// The block after one press of the scene switch: from Mandelbulb to the
    /// Menger sponge, from the Menger sponge and from any discriminant that
    /// names no scene to Mandelbulb.
    pub open spec fn switched(self) -> SettingsUniform {
        if self.scene == MANDELBULB {
            self.with_mengersponge()
        } else {
            self.with_mandelbulb()
        }
    }

    /// The block that a session starts with.
    pub open spec fn initial() -> SettingsUniform {
        SettingsUniform {
            max_steps: MANDELBULB_MAX_STEPS,
            epsilon: Float32 { bits: MANDELBULB_EPSILON },
            max_dist: Float32 { bits: DEFAULT_MAX_DIST },
            sun_size: Float32 { bits: DEFAULT_SUN_SIZE },
            sun_dir: [
                Float32 { bits: crate::scalar::ZERO },
                Float32 { bits: crate::scalar::ONE },
                Float32 { bits: crate::scalar::ZERO },
            ],
            sun_sharpness: Float32 { bits: DEFAULT_SUN_SHARPNESS },
            alpha: Float32 { bits: DEFAULT_ALPHA },
            time: Float32 { bits: crate::scalar::ZERO },
            scene: MANDELBULB,
            _padding: 0,
        }
    }

    pub fn set_mandelbulb(self) -> (r: SettingsUniform)
        ensures
            r == self.with_mandelbulb(),
            r.preset() == Some(Scene::Mandelbulb),
    {
        let mut r = self;
        r.scene = MANDELBULB;
        r.max_steps = MANDELBULB_MAX_STEPS;
        r.epsilon = Float32::from_bits(MANDELBULB_EPSILON);
        r
    }

    pub fn set_mengersponge(self) -> (r: SettingsUniform)
        ensures
            r == self.with_mengersponge(),
            r.preset() == Some(Scene::MengerSponge),
    {
        let mut r = self;
        r.scene = MENGER_SPONGE;
        r.max_steps = MENGER_SPONGE_MAX_STEPS;
        r.epsilon = Float32::from_bits(MENGER_SPONGE_EPSILON);
        r
    }

    pub fn set_mandelbulb_mut(&mut self)
        ensures
            *final(self) == old(self).with_mandelbulb(),
    {
        *self = self.set_mandelbulb();
    }

    pub fn set_mengersponge_mut(&mut self)
        ensures
            *final(self) == old(self).with_mengersponge(),
    {
        *self = self.set_mengersponge();
    }

    /// Moves to the other scene; see [`SettingsUniform::switched`]. The
    /// result always holds a preset.
    pub fn switch_scene(&mut self)
        ensures
            *final(self) == old(self).switched(),
            final(self).preset() is Some,
    {
        if self.scene == MANDELBULB {
            self.set_mengersponge_mut();
        } else {
            self.set_mandelbulb_mut();
        }
    }

    /// The scene whose preset the block holds, if it holds one.
    pub fn current_preset(&self) -> (p: Option<Scene>)
        ensures
            p == self.preset(),
    {
        if self.scene == MANDELBULB && self.max_steps == MANDELBULB_MAX_STEPS
            && self.epsilon.to_bits() == MANDELBULB_EPSILON {
            Some(Scene::Mandelbulb)
        } else if self.scene == MENGER_SPONGE && self.max_steps == MENGER_SPONGE_MAX_STEPS
            && self.epsilon.to_bits() == MENGER_SPONGE_EPSILON {
            Some(Scene::MengerSponge)
        } else {
            None
        }
    }
}

impl Default for SettingsUniform {
    /// The defaults of every field, then the Mandelbulb preset over them.
    fn default() -> (r: SettingsUniform)
        ensures
            r == SettingsUniform::initial(),
            r.preset() == Some(Scene::Mandelbulb),
    {
        let raw = SettingsUniform {
            max_steps: 0,
            epsilon: Float32::from_bits(crate::scalar::ZERO),
            max_dist: Float32::from_bits(DEFAULT_MAX_DIST),
            sun_size: Float32::from_bits(DEFAULT_SUN_SIZE),
            sun_dir: [
                Float32::from_bits(crate::scalar::ZERO),
                Float32::from_bits(crate::scalar::ONE),
                Float32::from_bits(crate::scalar::ZERO),
            ],
            sun_sharpness: Float32::from_bits(DEFAULT_SUN_SHARPNESS),
            alpha: Float32::from_bits(DEFAULT_ALPHA),
            time: Float32::from_bits(crate::scalar::ZERO),
            scene: 0,
            _padding: 0,
        };
        raw.set_mandelbulb()
    }
}

/// The bits of the named constants stand for the numbers in their names:
/// the whole ones exactly, the others to the last decimal place that a
/// single-precision number can hold.
pub proof fn lemma_settings_constants()
    ensures
        (Float32 { bits: MANDELBULB_EPSILON }).is_near(2_000_000, 1_000_000_000),
        (Float32 { bits: MENGER_SPONGE_EPSILON }).is_near(100_000, 1_000_000_000),
        (Float32 { bits: DEFAULT_MAX_DIST }).is_ratio(10, 1),
        (Float32 { bits: DEFAULT_SUN_SIZE }).is_near(5_000_000, 1_000_000_000),
        (Float32 { bits: DEFAULT_SUN_SHARPNESS }).is_ratio(2, 1),
        (Float32 { bits: DEFAULT_ALPHA }).is_near(10_000_000, 100_000_000),
{
    lemma2_to64();
    lemma2_to64_rest();
    let x = Float32 { bits: MANDELBULB_EPSILON };
    assert(x.exponent() == 118 && x.mantissa() == 0x03_126f);
    lemma_compare_with_ratio(x, 1_999_999, 1_000_000_000);
    lemma_compare_with_ratio(x, 2_000_001, 1_000_000_000);
    let x = Float32 { bits: MENGER_SPONGE_EPSILON };
    assert(x.exponent() == 113 && x.mantissa() == 0x51_b717);
    lemma_compare_with_ratio(x, 99_999, 1_000_000_000);
    lemma_compare_with_ratio(x, 100_001, 1_000_000_000);
    let x = Float32 { bits: DEFAULT_MAX_DIST };
    assert(x.exponent() == 130 && x.mantissa() == 0x20_0000);
    lemma_compare_with_ratio(x, 10, 1);
    let x = Float32 { bits: DEFAULT_SUN_SIZE };
    assert(x.exponent() == 119 && x.mantissa() == 0x23_d70a);
    lemma_compare_with_ratio(x, 4_999_999, 1_000_000_000);
    lemma_compare_with_ratio(x, 5_000_001, 1_000_000_000);
    let x = Float32 { bits: DEFAULT_SUN_SHARPNESS };
    assert(x.exponent() == 128 && x.mantissa() == 0);
    lemma_compare_with_ratio(x, 2, 1);
    let x = Float32 { bits: DEFAULT_ALPHA };
    assert(x.exponent() == 123 && x.mantissa() == 0x4c_cccd);
    lemma_compare_with_ratio(x, 9_999_999, 100_000_000);
    lemma_compare_with_ratio(x, 10_000_001, 100_000_000);
}

/// Two presses of the scene switch bring a preset back to itself: the same
/// scene, step budget and threshold, and every other field untouched.
pub proof fn law_switch_twice_is_identity(s: SettingsUniform)
    requires
        s.preset() is Some,
    ensures
        s.switched().switched() == s,
        s.preset() == Some(Scene::Mandelbulb) ==> s.switched().preset() == Some(
            Scene::MengerSponge,
        ),
        s.preset() == Some(Scene::MengerSponge) ==> s.switched().preset() == Some(
            Scene::Mandelbulb,
        ),
{
}

/// One press of the scene switch touches the preset only, and always leaves
/// one: from a block that holds none, Mandelbulb.
pub proof fn law_switch_leaves_a_preset(s: SettingsUniform)
    ensures
        s.switched().preset() is Some,
        s.scene != MANDELBULB ==> s.switched().preset() == Some(Scene::Mandelbulb),
        s.switched().max_dist == s.max_dist,
        s.switched().sun_size == s.sun_size,
        s.switched().sun_dir == s.sun_dir,
        s.switched().sun_sharpness == s.sun_sharpness,
        s.switched().alpha == s.alpha,
        s.switched().time == s.time,
        s.switched()._padding == s._padding,
{
}

} // verus!
