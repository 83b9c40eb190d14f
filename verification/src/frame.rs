//! What one frame is made of, and in which order.
//!
//! A frame is drawn in two passes. The first marches the scene into a
//! texture of its own, smaller than the window by the session's scale; the
//! second stretches that texture over the surface image. Both draw the same
//! quad.

use vstd::prelude::*;

verus! {

/// Red, green and blue that every pass clears its target to: bits of the
/// double-precision 0.1.
pub const CLEAR_SHADE: u64 = 0x3fb9_9999_9999_999a;

/// Alpha that every pass clears its target to: bits of the double-precision
/// 1.0.
pub const CLEAR_ALPHA: u64 = 0x3ff0_0000_0000_0000;

/// A uniform block.
#[derive(Clone, Copy, Debug, PartialEq, Eq, Structural)]
pub enum Block {
    Camera,
    Settings,
}

/// The two passes of a frame.
#[derive(Clone, Copy, Debug, PartialEq, Eq, Structural)]
pub enum Pass {
    /// Marches the scene.
    Scene,
    /// Puts the marched scene on the screen.
    Composite,
}

/// What a pass renders into.
#[derive(Clone, Copy, Debug, PartialEq, Eq, Structural)]
pub enum Target {
    /// The texture that holds the marched scene.
    Offscreen,
    /// The image that the surface handed out for this frame.
    Surface,
}

/// What a bind group shows to the fragment stage.
#[derive(Clone, Copy, Debug, PartialEq, Eq, Structural)]
pub enum Resource {
    /// The camera block.
    Camera,
    /// The settings block.
    Settings,
    /// The offscreen texture, with its sampler.
    Offscreen,
}

/// A step of a frame.
#[derive(Clone, Copy, Debug, PartialEq, Eq, Structural)]
pub enum Step {
    /// Overwrite a uniform block's buffer with the block's current bytes.
    Write(Block),
    /// Ask the surface for the image to present. Where it has none, the
    /// frame ends here with the surface's error.
    Acquire,
    /// Record a pass.
    Encode(Pass),
    /// Hand everything recorded to the queue as one command buffer.
    Submit,
    /// Show the image.
    Present,
}

impl Pass {
    /// What the pass renders into.
    pub open spec fn target_of(self) -> Target {
        match self {
            Pass::Scene => Target::Offscreen,
            Pass::Composite => Target::Surface,
        }
    }

    /// The bind groups of the pass: the one at place `n` is bound to group
    /// `n`.
    pub open spec fn groups_of(self) -> Seq<Resource> {
        match self {
            Pass::Scene => seq![Resource::Camera, Resource::Settings],
            Pass::Composite => seq![Resource::Offscreen],
        }
    }

    /// What the pass renders into.
    pub fn target(&self) -> (t: Target)
        ensures
            t == self.target_of(),
    {
        match self {
            Pass::Scene => Target::Offscreen,
            Pass::Composite => Target::Surface,
        }
    }

    /// The bind groups of the pass, in the order of their group numbers.
    pub fn groups(&self) -> (g: Vec<Resource>)
        ensures
            g@ == self.groups_of(),
    {
        let mut g: Vec<Resource> = Vec::new();
        match self {
            Pass::Scene => {
                g.push(Resource::Camera);
                g.push(Resource::Settings);
            },
            Pass::Composite => {
                g.push(Resource::Offscreen);
            },
        }
        assert(g@ =~= self.groups_of());
        g
    }
}

/// The steps of a frame.
pub open spec fn steps() -> Seq<Step> {
    seq![
        Step::Write(Block::Camera),
        Step::Write(Block::Settings),
        Step::Acquire,
        Step::Encode(Pass::Scene),
        Step::Encode(Pass::Composite),
        Step::Submit,
        Step::Present,
    ]
}

/// The steps of a frame, in the order in which they are taken.
pub fn frame_steps() -> (s: Vec<Step>)
    ensures
        s@ == steps(),
{
    let mut s: Vec<Step> = Vec::new();
    s.push(Step::Write(Block::Camera));
    s.push(Step::Write(Block::Settings));
    s.push(Step::Acquire);
    s.push(Step::Encode(Pass::Scene));
    s.push(Step::Encode(Pass::Composite));
    s.push(Step::Submit);
    s.push(Step::Present);
    assert(s@ =~= steps());
    s
}

/// How far a frame has come: the steps taken so far, and whether the surface
/// had no image for it.
///
/// A frame takes its steps in order. It ends when all are taken, or with the
/// step that asked the surface for an image in vain: nothing is recorded,
/// submitted or presented after that.
#[derive(Clone, Copy, Debug)]
pub struct FrameRun {
    taken: usize,
    failed: bool,
}

/// Where the step that asks the surface for an image stands among the steps
/// of a frame.
pub open spec fn acquire_at() -> int {
    2
}

impl FrameRun {
    /// What holds of every frame, however far it has come.
    #[verifier::type_invariant]
    pub closed spec fn wf(self) -> bool {
        &&& self.taken <= steps().len()
        &&& self.failed ==> self.taken == acquire_at() + 1
    }

    /// How many steps have been taken.
    pub closed spec fn count(self) -> nat {
        self.taken as nat
    }

    /// Whether the surface had no image for this frame.
    pub closed spec fn has_failed(self) -> bool {
        self.failed
    }

    /// The steps that have been taken.
    pub open spec fn performed(self) -> Seq<Step> {
        steps().take(self.count() as int)
    }

    /// The step to take now, if the frame has not ended.
    pub open spec fn pending(self) -> Option<Step> {
        if self.has_failed() || self.count() >= steps().len() {
            None
        } else {
            Some(steps()[self.count() as int])
        }
    }

    /// A frame of which no step has been taken.
    pub fn begin() -> (r: FrameRun)
        ensures
            r.wf(),
            r.count() == 0,
            !r.has_failed(),
            r.pending() == Some(Step::Write(Block::Camera)),
    {
        FrameRun { taken: 0, failed: false }
    }

    /// The step to take now, or `None` when the frame has ended.
    pub fn next(&self) -> (s: Option<Step>)
        ensures
            s == self.pending(),
    {
        proof {
            use_type_invariant(self);
        }
        if self.failed {
            None
        } else if self.taken == 0 {
            Some(Step::Write(Block::Camera))
        } else if self.taken == 1 {
            Some(Step::Write(Block::Settings))
        } else if self.taken == 2 {
            Some(Step::Acquire)
        } else if self.taken == 3 {
            Some(Step::Encode(Pass::Scene))
        } else if self.taken == 4 {
            Some(Step::Encode(Pass::Composite))
        } else if self.taken == 5 {
            Some(Step::Submit)
        } else if self.taken == 6 {
            Some(Step::Present)
        } else {
            None
        }
    }

    /// Records that the pending step has been taken. On a frame that has
    /// ended this changes nothing.
    pub fn done(&mut self)
        ensures
            final(self).wf(),
            old(self).pending() is Some ==> final(self).count() == old(self).count() + 1,
            old(self).pending() is None ==> final(self).count() == old(self).count(),
            final(self).has_failed() == old(self).has_failed(),
    {
        proof {
            use_type_invariant(&*self);
        }
        if !self.failed && self.taken < 7 {
            self.taken = self.taken + 1;
        }
    }

    /// Records that the surface had no image. This ends the frame. It
    /// counts only while the pending step is the one that asks for the
    /// image; at any other time it changes nothing. Returns whether it
    /// counted.
    pub fn fail(&mut self) -> (counted: bool)
        ensures
            final(self).wf(),
            counted == (old(self).pending() == Some(Step::Acquire)),
            counted ==> final(self).has_failed() && final(self).count() == old(self).count() + 1
                && final(self).pending() is None,
            !counted ==> final(self).has_failed() == old(self).has_failed() && final(self).count()
                == old(self).count(),
    {
        proof {
            use_type_invariant(&*self);
        }
        if !self.failed && self.taken == 2 {
            self.taken = 3;
            self.failed = true;
            true
        } else {
            false
        }
    }

    /// Whether the frame has ended, and how: `Some(true)` when every step
    /// was taken, `Some(false)` when the surface had no image, `None` while
    /// a step is pending.
    pub fn outcome(&self) -> (o: Option<bool>)
        ensures
            o is None <==> self.pending() is Some,
            o == Some(false) <==> self.has_failed(),
            o == Some(true) <==> !self.has_failed() && self.performed() == steps(),
    {
        proof {
            use_type_invariant(self);
            assert(steps().take(7) =~= steps());
            if self.taken < 7 {
                assert(self.performed().len() != steps().len());
            }
        }
        if self.failed {
            Some(false)
        } else if self.taken == 7 {
            Some(true)
        } else {
            None
        }
    }

    /// Whatever has happened to a frame: the steps taken are the first
    /// steps of a frame, in order; a frame without an image has taken the
    /// two writes and the request for the image, and nothing else; and a
    /// frame that has ended with its image has taken every step.
    pub proof fn law_frame_runs_in_order(self)
        requires
            self.wf(),
        ensures
            self.performed().is_prefix_of(steps()),
            self.has_failed() ==> self.pending() is None && self.performed() == seq![
                Step::Write(Block::Camera),
                Step::Write(Block::Settings),
                Step::Acquire,
            ],
            self.has_failed() ==> forall|i: int|
                0 <= i < self.performed().len() ==> !(#[trigger] self.performed()[i] is Encode)
                    && self.performed()[i] != Step::Submit && self.performed()[i] != Step::Present,
            !self.has_failed() && self.pending() is None ==> self.performed() == steps(),
    {
        assert(steps().take(7) =~= steps());
        if self.has_failed() {
            assert(self.performed() =~= seq![
                Step::Write(Block::Camera),
                Step::Write(Block::Settings),
                Step::Acquire,
            ]);
        }
    }
}

/// The size of the offscreen texture, given the window's size times the
/// session's scale as the caller has rounded it: at least one texel each way.
pub fn texture_extent(scaled: (u32, u32)) -> (extent: (u32, u32))
    ensures
        extent.0 == (if scaled.0 == 0 { 1 } else { scaled.0 }),
        extent.1 == (if scaled.1 == 0 { 1 } else { scaled.1 }),
        extent.0 >= 1,
        extent.1 >= 1,
{
    let w: u32 = if scaled.0 == 0 { 1 } else { scaled.0 };
    let h: u32 = if scaled.1 == 0 { 1 } else { scaled.1 };
    (w, h)
}

/// Every write of a uniform block stands before the surface is asked for an
/// image and before any pass that reads the block is recorded; every pass is
/// recorded before the submission; and the image is shown last.
pub proof fn law_writes_precede_draws(i: int, j: int)
    requires
        0 <= i < steps().len(),
        0 <= j < steps().len(),
    ensures
        steps()[i] is Write && (steps()[j] is Acquire || steps()[j] is Encode) ==> i < j,
        steps()[i] is Acquire && steps()[j] is Encode ==> i < j,
        steps()[i] is Encode && steps()[j] is Submit ==> i < j,
        steps()[j] is Present ==> i <= j,
{
}

/// The scene is marched into the offscreen texture before the pass that
/// shows that texture is recorded, and each block that the scene pass reads
/// is written in the same frame.
pub proof fn law_composite_follows_scene()
    ensures
        Pass::Scene.target_of() == Target::Offscreen,
        Pass::Composite.groups_of() == seq![Resource::Offscreen],
        Pass::Composite.target_of() == Target::Surface,
        steps().index_of(Step::Encode(Pass::Scene)) < steps().index_of(
            Step::Encode(Pass::Composite),
        ),
        steps().contains(Step::Write(Block::Camera)),
        steps().contains(Step::Write(Block::Settings)),
{
    let s = steps();
    assert(s[0] == Step::Write(Block::Camera));
    assert(s[1] == Step::Write(Block::Settings));
    assert(s[3] == Step::Encode(Pass::Scene));
    assert(s[4] == Step::Encode(Pass::Composite));
    assert(s.contains(Step::Encode(Pass::Scene)));
    assert(s.contains(Step::Encode(Pass::Composite)));
    let a = s.index_of(Step::Encode(Pass::Scene));
    let b = s.index_of(Step::Encode(Pass::Composite));
    assert(s[a] == Step::Encode(Pass::Scene));
    assert(s[b] == Step::Encode(Pass::Composite));
    assert(a == 3);
    assert(b == 4);
}

} // verus!
