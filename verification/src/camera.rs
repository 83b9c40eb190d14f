//! The camera's pose: where it stands, how wide it sees, which way it
//! faces.
//!
//! The transform that the shading kernel reads is made of the pose by
//! matrix arithmetic, which is the front end's. What is kept here is the pose
//! itself and the one rule on it: a pitch never passes straight up or
//! straight down.

use crate::scalar::lemma_compare_with_ratio;
use crate::scalar::lemma_rank_is_numeric_order;
use crate::scalar::Float32;
use crate::scalar::FRAC_PI_2;
use crate::scalar::FRAC_PI_3;
use crate::scalar::NEG_FRAC_PI_2;
use crate::scalar::NEG_THREE;
use crate::scalar::ONE;
use crate::scalar::ZERO;
use vstd::arithmetic::power2::lemma2_to64;
use vstd::prelude::*;

verus! {

/// Distance moved per second while a movement flag is set: bits of 1.0.
pub const MOVE_SPEED: u32 = 0x3f80_0000;

/// Radians turned per unit of pointer motion while looking: bits of 0.005.
pub const LOOK_SENSITIVITY: u32 = 0x3ba3_d70a;

/// Which way the camera faces.
#[derive(Clone, Copy, Debug, PartialEq, Eq, Structural)]
pub enum Orientation {
    /// A rotation as a unit quaternion, free in every axis.
    Quaternion { i: Float32, j: Float32, k: Float32, w: Float32 },
    /// A rotation as two angles in radians; the pitch is kept within a
    /// quarter turn of level.
    Euler { yaw: Float32, pitch: Float32 },
}

/// Position, field of view in radians, and orientation.
#[derive(Clone, Copy, Debug)]
pub struct Camera {
    pub pos: [Float32; 3],
    pub fov: Float32,
    pub rot: Orientation,
}

/// The lowest pitch: straight down.
pub open spec fn pitch_floor() -> Float32 {
    Float32 { bits: NEG_FRAC_PI_2 }
}

/// The highest pitch: straight up.
pub open spec fn pitch_ceiling() -> Float32 {
    Float32 { bits: FRAC_PI_2 }
}

impl Orientation {
    /// The rotation that turns nothing.
    pub open spec fn identity() -> Orientation {
        Orientation::Quaternion {
            i: Float32 { bits: ZERO },
            j: Float32 { bits: ZERO },
            k: Float32 { bits: ZERO },
            w: Float32 { bits: ONE },
        }
    }

    /// Yaw and pitch as they are stored: the yaw as given, the pitch limited
    /// to a quarter turn up or down.
    pub open spec fn of_angles(yaw: Float32, pitch: Float32) -> Orientation {
        Orientation::Euler { yaw, pitch: pitch.clamped(pitch_floor(), pitch_ceiling()) }
    }

    /// Whether a pitch, where there is one and it is a number, lies within a
    /// quarter turn of level.
    pub open spec fn pitch_in_range(self) -> bool {
        match self {
            Orientation::Quaternion { .. } => true,
            Orientation::Euler { pitch, .. } => pitch.is_nan() || pitch.within(
                pitch_floor(),
                pitch_ceiling(),
            ),
        }
    }

    /// The rotation that turns nothing, as a quaternion.
    pub fn unit_quaternion() -> (r: Orientation)
        ensures
            r == Orientation::identity(),
    {
        Orientation::Quaternion {
            i: Float32::from_bits(ZERO),
            j: Float32::from_bits(ZERO),
            k: Float32::from_bits(ZERO),
            w: Float32::from_bits(ONE),
        }
    }

    /// The orientation with this yaw and this pitch. A pitch beyond straight
    /// up or straight down is stored as that bound; the yaw is stored as it
    /// is, however many turns it holds.
    pub fn euler(yaw: Float32, pitch: Float32) -> (r: Orientation)
        ensures
            r == Orientation::of_angles(yaw, pitch),
            r.pitch_in_range(),
            pitch_ceiling().lt(pitch) ==> r == (Orientation::Euler { yaw, pitch: pitch_ceiling() }),
            pitch.lt(pitch_floor()) ==> r == (Orientation::Euler { yaw, pitch: pitch_floor() }),
            pitch.within(pitch_floor(), pitch_ceiling()) ==> r == (Orientation::Euler {
                yaw,
                pitch,
            }),
    {
        let lo = Float32::from_bits(NEG_FRAC_PI_2);
        let hi = Float32::from_bits(FRAC_PI_2);
        Orientation::Euler { yaw, pitch: pitch.clamp(lo, hi) }
    }
}

impl Camera {
    /// The pose that a session starts with: three units behind the origin,
    /// a sixth of a turn wide, facing along +z.
    pub open spec fn initial() -> Camera {
        Camera {
            pos: [Float32 { bits: ZERO }, Float32 { bits: ZERO }, Float32 { bits: NEG_THREE }],
            fov: Float32 { bits: FRAC_PI_3 },
            rot: Orientation::identity(),
        }
    }

    /// The starting pose with yaw and pitch in place of the quaternion.
    pub open spec fn initial_euler() -> Camera {
        Camera {
            rot: Orientation::Euler { yaw: Float32 { bits: ZERO }, pitch: Float32 { bits: ZERO } },
            ..Camera::initial()
        }
    }

    /// The pose that a session starts with.
    pub fn new() -> (c: Camera)
        ensures
            c == Camera::initial(),
            c.rot.pitch_in_range(),
    {
        Camera {
            pos: [Float32::from_bits(ZERO), Float32::from_bits(ZERO), Float32::from_bits(NEG_THREE)],
            fov: Float32::from_bits(FRAC_PI_3),
            rot: Orientation::unit_quaternion(),
        }
    }

    /// The starting pose, steered by yaw and pitch.
    pub fn new_euler() -> (c: Camera)
        ensures
            c == Camera::initial_euler(),
            c.rot.pitch_in_range(),
    {
        Camera {
            pos: [Float32::from_bits(ZERO), Float32::from_bits(ZERO), Float32::from_bits(NEG_THREE)],
            fov: Float32::from_bits(FRAC_PI_3),
            rot: Orientation::Euler {
                yaw: Float32::from_bits(ZERO),
                pitch: Float32::from_bits(ZERO),
            },
        }
    }

    /// Faces the camera along this yaw and this pitch, the pitch limited as
    /// [`Orientation::euler`] does. Position and field of view stay.
    pub fn turn_to(&mut self, yaw: Float32, pitch: Float32)
        ensures
            final(self).rot == Orientation::of_angles(yaw, pitch),
            final(self).rot.pitch_in_range(),
            final(self).pos == old(self).pos,
            final(self).fov == old(self).fov,
    {
        self.rot = Orientation::euler(yaw, pitch);
    }

    /// Moves the camera to this position. Field of view and orientation stay.
    pub fn move_to(&mut self, pos: [Float32; 3])
        ensures
            final(self).pos == pos,
            final(self).fov == old(self).fov,
            final(self).rot == old(self).rot,
    {
        self.pos = pos;
    }
}

/// The bits of the named constants stand for the numbers in their names.
pub proof fn lemma_camera_constants()
    ensures
        (Float32 { bits: MOVE_SPEED }).is_ratio(1, 1),
        (Float32 { bits: LOOK_SENSITIVITY }).is_near(5_000_000, 1_000_000_000),
{
    lemma2_to64();
    let x = Float32 { bits: MOVE_SPEED };
    assert(x.exponent() == 127 && x.mantissa() == 0);
    lemma_compare_with_ratio(x, 1, 1);
    let x = Float32 { bits: LOOK_SENSITIVITY };
    assert(x.exponent() == 119 && x.mantissa() == 0x23_d70a);
    lemma_compare_with_ratio(x, 4_999_999, 1_000_000_000);
    lemma_compare_with_ratio(x, 5_000_001, 1_000_000_000);
}

/// The pitch of an orientation, where it has one.
pub open spec fn stored_pitch(o: Orientation) -> Float32 {
    match o {
        Orientation::Euler { pitch, .. } => pitch,
        Orientation::Quaternion { .. } => Float32 { bits: ZERO },
    }
}

/// Whatever number the pitch is asked to be, the pitch that is stored lies
/// between straight down and straight up, as a number too, and where the
/// asked pitch lies outside it is exactly the bound on that side.
pub proof fn law_pitch_is_clamped(yaw: Float32, pitch: Float32)
    requires
        !pitch.is_nan(),
    ensures
        stored_pitch(Orientation::of_angles(yaw, pitch)).within(pitch_floor(), pitch_ceiling()),
        pitch_floor().units() <= stored_pitch(Orientation::of_angles(yaw, pitch)).units()
            <= pitch_ceiling().units(),
        pitch.units() > pitch_ceiling().units() ==> stored_pitch(Orientation::of_angles(yaw, pitch))
            == pitch_ceiling(),
        pitch.units() < pitch_floor().units() ==> stored_pitch(Orientation::of_angles(yaw, pitch))
            == pitch_floor(),
        pitch_floor().units() <= pitch.units() <= pitch_ceiling().units() ==> stored_pitch(
            Orientation::of_angles(yaw, pitch),
        ) == pitch,
{
    let stored = stored_pitch(Orientation::of_angles(yaw, pitch));
    lemma_rank_is_numeric_order(pitch, pitch_ceiling());
    lemma_rank_is_numeric_order(pitch, pitch_floor());
    lemma_rank_is_numeric_order(stored, pitch_ceiling());
    lemma_rank_is_numeric_order(stored, pitch_floor());
}

/// The camera after it has been turned to each pair of yaw and pitch in
/// turn.
pub open spec fn after_turns(c: Camera, turns: Seq<(Float32, Float32)>) -> Camera
    decreases turns.len(),
{
    if turns.len() == 0 {
        c
    } else {
        Camera {
            rot: Orientation::of_angles(turns.last().0, turns.last().1),
            ..after_turns(c, turns.drop_last())
        }
    }
}

/// Whatever sequence of turns a camera goes through, after each of them the
/// pitch is within its bounds, and the camera stands where it stood.
pub proof fn law_every_turn_keeps_the_pitch(c: Camera, turns: Seq<(Float32, Float32)>)
    requires
        c.rot.pitch_in_range(),
    ensures
        after_turns(c, turns).rot.pitch_in_range(),
        after_turns(c, turns).pos == c.pos,
        after_turns(c, turns).fov == c.fov,
    decreases turns.len(),
{
    if turns.len() > 0 {
        law_every_turn_keeps_the_pitch(c, turns.drop_last());
    }
}

} // verus!
