//! The renderer's state between frames, and what each of its operations
//! does to it.
//!
//! A front end owns the window and the GPU objects. It keeps a
//! [`RayMarcher`] beside them, tells it what happened, and draws what it
//! says.

use crate::camera::Camera;
use crate::controller::Controller;
use crate::controller::Direction;
use crate::frame::Block;
use crate::frame::FrameRun;
use crate::frame::Step;
use crate::scalar::lemma_rank_is_numeric_order;
use crate::scalar::Float32;
use crate::scalar::ZERO;
use crate::settings::Scene;
use crate::settings::SettingsUniform;
use crate::surface::SurfaceConfig;
use vstd::prelude::*;

verus! {

/// Where the sun stands, before the vector is normalised: x.
pub const SUN_X: i32 = 3;

/// Where the sun stands, before the vector is normalised: y.
pub const SUN_Y: i32 = 3;

/// Where the sun stands, before the vector is normalised: z.
pub const SUN_Z: i32 = -3;

/// Everything that a frame depends on.
#[derive(Clone, Copy, Debug)]
pub struct RayMarcher {
    pub config: SurfaceConfig,
    pub camera: Camera,
    pub controller: Controller,
    pub settings: SettingsUniform,
    /// Side of the offscreen texture over the side of the window; fixed for
    /// the session.
    pub scale: Float32,
}

/// What one frame shows, as the state was when the frame began.
#[derive(Clone, Copy, Debug)]
pub struct Frame {
    /// The pose that the camera block is made of.
    pub camera: Camera,
    /// The settings block.
    pub settings: SettingsUniform,
    /// Width of the surface in pixels; never 0.
    pub width: u32,
    /// Height of the surface in pixels; never 0.
    pub height: u32,
    /// How far the frame has come; at first, nowhere.
    pub run: FrameRun,
}

impl RayMarcher {
    /// Whether this is the state of a session that has just begun.
    pub open spec fn is_new(self, size: (u32, u32), scale: Float32, sun_dir: [Float32; 3]) -> bool {
        &&& self.config.width_px() == size.0
        &&& self.config.height_px() == size.1
        &&& self.camera == Camera::initial()
        &&& self.controller == Controller::released()
        &&& self.settings == (SettingsUniform { sun_dir, ..SettingsUniform::initial() })
        &&& self.scale == scale
    }

    /// The state after an update that found the camera at `position` and
    /// the clock at `time`: the position is taken only where the controller
    /// asks for motion, the time unless it lies before the time that is
    /// stored.
    pub open spec fn updated(self, position: [Float32; 3], time: Float32) -> RayMarcher {
        RayMarcher {
            camera: Camera {
                pos: if self.controller.direction_sum().is_zero() {
                    self.camera.pos
                } else {
                    position
                },
                ..self.camera
            },
            settings: SettingsUniform {
                time: if time.lt(self.settings.time) {
                    self.settings.time
                } else {
                    time
                },
                ..self.settings
            },
            ..self
        }
    }

    /// The state of a session that begins with a surface of this size:
    /// the camera in its starting pose, no flag set, the Mandelbulb scene
    /// at time 0, lit from `sun_dir`.
    pub fn new(size: (u32, u32), scale: Float32, sun_dir: [Float32; 3]) -> (r: RayMarcher)
        requires
            SurfaceConfig::accepts(size),
        ensures
            r.is_new(size, scale, sun_dir),
            r.settings.preset() == Some(Scene::Mandelbulb),
    {
        let mut settings = SettingsUniform::default();
        settings.sun_dir = sun_dir;
        RayMarcher {
            config: SurfaceConfig::new(size),
            camera: Camera::new(),
            controller: Controller::new(),
            settings: settings.set_mandelbulb(),
            scale,
        }
    }

    /// Moves to the other scene. Nothing but the preset changes.
    pub fn switch_scene(&mut self)
        ensures
            *final(self) == (RayMarcher { settings: old(self).settings.switched(), ..*old(self) }),
            final(self).settings.preset() is Some,
    {
        self.settings.switch_scene();
    }

    /// The direction, in the camera's frame, that this update moves along,
    /// or `None` where the camera stays.
    pub fn motion(&self) -> (m: Option<Direction>)
        ensures
            m is None <==> self.controller.direction_sum().is_zero(),
            m matches Some(d) ==> d == self.controller.direction_sum(),
    {
        self.controller.movement()
    }

    /// Ends an update. `position` is where the step along
    /// [`RayMarcher::motion`] has taken the camera, `time` the session's
    /// clock after the update. Where the controller asks for no motion the
    /// camera stays exactly where it was, whatever `position` holds. The
    /// clock never runs back: a time before the one that is stored is not
    /// taken. The flags are read, not cleared.
    pub fn update(&mut self, position: [Float32; 3], time: Float32)
        ensures
            *final(self) == old(self).updated(position, time),
            old(self).controller.direction_sum().is_zero() ==> final(self).camera == old(self).camera,
            final(self).controller == old(self).controller,
    {
        if self.controller.movement().is_some() {
            self.camera.pos = position;
        }
        if !time.less_than(self.settings.time) {
            self.settings.time = time;
        }
    }

    /// What the next frame shows and how it is drawn. The state is read,
    /// not changed: a frame drawn before any update shows the camera as the
    /// session began.
    pub fn render(&self) -> (f: Frame)
        ensures
            f.camera == self.camera,
            f.settings == self.settings,
            f.width == self.config.width_px(),
            f.height == self.config.height_px(),
            f.width > 0,
            f.height > 0,
            f.run.wf(),
            f.run.count() == 0,
            !f.run.has_failed(),
            f.run.pending() == Some(Step::Write(Block::Camera)),
    {
        Frame {
            camera: self.camera,
            settings: self.settings,
            width: self.config.width(),
            height: self.config.height(),
            run: FrameRun::begin(),
        }
    }

    /// Takes the window's new size. A size with a dimension of 0 is passed
    /// over and nothing changes. Returns whether the size was taken, and so
    /// whether the surface is to be configured again; the offscreen texture
    /// is made anew either way.
    pub fn resize(&mut self, new_size: (u32, u32)) -> (taken: bool)
        ensures
            taken == SurfaceConfig::accepts(new_size),
            taken ==> final(self).config.width_px() == new_size.0 && final(self).config.height_px()
                == new_size.1,
            !taken ==> final(self).config.width_px() == old(self).config.width_px() && final(self).config.height_px() == old(self).config.height_px(),
            final(self).camera == old(self).camera,
            final(self).controller == old(self).controller,
            final(self).settings == old(self).settings,
            final(self).scale == old(self).scale,
    {
        self.config.resize(new_size)
    }
}

/// A frame drawn before any update shows the pose that the session began
/// with, at time 0.
pub proof fn law_first_frame_shows_initial_pose(
    rm: RayMarcher,
    size: (u32, u32),
    scale: Float32,
    sun_dir: [Float32; 3],
)
    requires
        rm.is_new(size, scale, sun_dir),
    ensures
        rm.camera == Camera::initial(),
        rm.settings.time == (Float32 { bits: ZERO }),
        rm.controller.direction_sum().is_zero(),
        forall|position: [Float32; 3], time: Float32|
            (#[trigger] rm.updated(position, time)).camera == Camera::initial(),
{
}

/// Whatever an update is given, the clock does not run back: where the old
/// time and the new are numbers, the new one is not the lesser.
pub proof fn law_time_never_runs_back(rm: RayMarcher, position: [Float32; 3], time: Float32)
    ensures
        !rm.updated(position, time).settings.time.lt(rm.settings.time),
        !rm.settings.time.is_nan() && !rm.updated(position, time).settings.time.is_nan()
            ==> rm.settings.time.units() <= rm.updated(position, time).settings.time.units(),
        !time.lt(rm.settings.time) ==> rm.updated(position, time).settings.time == time,
{
    let after = rm.updated(position, time).settings.time;
    if !rm.settings.time.is_nan() && !after.is_nan() {
        lemma_rank_is_numeric_order(rm.settings.time, after);
    }
}

/// Two presses of the scene switch bring a renderer that holds a preset
/// back to the state it had.
pub proof fn law_switch_scene_twice(rm: RayMarcher)
    requires
        rm.settings.preset() is Some,
    ensures
        (RayMarcher { settings: rm.settings.switched().switched(), ..rm }) == rm,
{
    crate::settings::law_switch_twice_is_identity(rm.settings);
}

} // verus!
