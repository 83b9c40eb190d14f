//! Touch input: which finger steers the view, and what a touch with two or
//! three fingers means.

use crate::scalar::lemma_compare_with_ratio;
use crate::scalar::Float32;
use vstd::arithmetic::power2::lemma2_to64;
use vstd::arithmetic::power2::lemma2_to64_rest;
use vstd::prelude::*;

verus! {

/// Radians turned per pixel that the steering finger moves: bits of 0.001.
pub const TOUCH_SENSITIVITY: u32 = 0x3a83_126f;

/// Distance moved per second while two or three fingers touch: bits of 0.5.
pub const DOLLY_SPEED: u32 = 0x3f00_0000;

/// Seconds between two samples of the gyroscope: bits of 1/60.
pub const GYRO_PERIOD: u32 = 0x3c88_8889;

/// A finger on the screen: where it was at the last update, and where it is
/// now.
#[derive(Clone, Copy, Debug)]
pub struct Pointer {
    pub id: i32,
    pub pre: [Float32; 2],
    pub now: [Float32; 2],
}

/// What a motion event reports of its pointers.
#[derive(Clone, Copy, Debug, PartialEq, Eq, Structural)]
pub enum MotionAction {
    Down,
    Up,
    Move,
    Cancel,
    PointerDown,
    PointerUp,
    /// Any other action.
    Other,
}

/// What the fingers on the screen ask for in an update.
#[derive(Clone, Copy, Debug, PartialEq, Eq, Structural)]
pub enum Gesture {
    /// One finger steers the view.
    Look,
    /// Two fingers: move along the view.
    DollyForwards,
    /// Three fingers: move against the view.
    DollyBackwards,
    /// Nothing.
    Rest,
}

/// The touch state of a session.
#[derive(Clone, Copy, Debug)]
pub struct Touch {
    /// The finger that steers, while exactly one touches.
    pub pointer: Option<Pointer>,
    /// How many fingers the last motion event left on the screen.
    pub num_pointers: usize,
}

impl MotionAction {
    /// Whether the action takes a finger off the screen.
    pub open spec fn lifts(self) -> bool {
        self == MotionAction::Up || self == MotionAction::PointerUp || self == MotionAction::Cancel
    }

    /// Whether the action puts a finger on the screen.
    pub open spec fn lands(self) -> bool {
        self == MotionAction::Down || self == MotionAction::PointerDown
    }
}

impl Pointer {
    /// A finger that has just arrived at `pos`.
    pub open spec fn at(id: i32, pos: [Float32; 2]) -> Pointer {
        Pointer { id, pre: pos, now: pos }
    }

    /// A finger that has just arrived at `pos`.
    pub fn new(id: i32, pos: [Float32; 2]) -> (p: Pointer)
        ensures
            p == Pointer::at(id, pos),
    {
        Pointer { id, pre: pos, now: pos }
    }

    /// Marks the finger's motion as used: it now was where it is.
    pub fn update(&mut self)
        ensures
            *final(self) == (Pointer { pre: old(self).now, ..*old(self) }),
    {
        self.pre = self.now;
    }
}

impl Touch {
    /// The state after a motion event with `action`, `pointer_count`
    /// pointers, and `first` as the identifier and position of its first
    /// pointer.
    pub open spec fn after_motion(
        self,
        action: MotionAction,
        pointer_count: usize,
        first: Option<(i32, [Float32; 2])>,
    ) -> Touch {
        if action.lifts() {
            Touch { pointer: None, num_pointers: (pointer_count - 1) as usize }
        } else if pointer_count != 1 {
            Touch { pointer: None, num_pointers: pointer_count }
        } else {
            let (id, pos) = first->0;
            let pointer = if action.lands() {
                Some(Pointer::at(id, pos))
            } else if action == MotionAction::Move {
                match self.pointer {
                    Some(p) => if p.id == id {
                        Some(Pointer { now: pos, ..p })
                    } else {
                        Some(Pointer::at(id, pos))
                    },
                    None => Some(Pointer::at(id, pos)),
                }
            } else {
                self.pointer
            };
            Touch { pointer, num_pointers: 1 }
        }
    }

    /// What the fingers ask for: a steering finger looks; without one, two
    /// fingers move forwards and three move backwards.
    pub open spec fn asks(self) -> Gesture {
        if self.pointer is Some {
            Gesture::Look
        } else if self.num_pointers == 2 {
            Gesture::DollyForwards
        } else if self.num_pointers == 3 {
            Gesture::DollyBackwards
        } else {
            Gesture::Rest
        }
    }

    /// Whether a motion event is one that [`Touch::on_motion`] takes: one
    /// that lifts a finger reports at least that finger, and one with a
    /// single pointer comes with that pointer.
    pub open spec fn takes(action: MotionAction, pointer_count: usize, first_known: bool) -> bool {
        &&& action.lifts() ==> pointer_count >= 1
        &&& !action.lifts() && pointer_count == 1 ==> first_known
    }

    /// Whether a motion event is one that [`Touch::on_motion`] takes.
    pub fn can_take(action: MotionAction, pointer_count: usize, first_known: bool) -> (ok: bool)
        ensures
            ok == Touch::takes(action, pointer_count, first_known),
    {
        match action {
            MotionAction::Up | MotionAction::PointerUp | MotionAction::Cancel => pointer_count >= 1,
            _ => pointer_count != 1 || first_known,
        }
    }

    /// No finger on the screen.
    pub fn new() -> (t: Touch)
        ensures
            t.pointer is None,
            t.num_pointers == 0,
            t.asks() == Gesture::Rest,
    {
        Touch { pointer: None, num_pointers: 0 }
    }

    /// Takes a motion event. A finger that lifts ends the steering and is
    /// no longer counted. Otherwise a single finger steers: one that lands
    /// starts afresh, one that moves carries on if it is the finger that
    /// steered before and starts afresh if it is another. With more or
    /// fewer than one finger nothing steers.
    ///
    /// An event that lifts a finger reports at least that finger, and an
    /// event with one pointer comes with that pointer in `first`; see
    /// [`Touch::can_take`].
    pub fn on_motion(
        &mut self,
        action: MotionAction,
        pointer_count: usize,
        first: Option<(i32, [Float32; 2])>,
    )
        requires
            Touch::takes(action, pointer_count, first is Some),
        ensures
            *final(self) == old(self).after_motion(action, pointer_count, first),
    {
        self.num_pointers = pointer_count;
        match action {
            MotionAction::Up | MotionAction::PointerUp | MotionAction::Cancel => {
                self.pointer = None;
                self.num_pointers = self.num_pointers - 1;
            },
            _ => {
                if self.num_pointers == 1 {
                    let (id, pos) = first.unwrap();
                    match action {
                        MotionAction::Down | MotionAction::PointerDown => {
                            self.pointer = Some(Pointer::new(id, pos));
                        },
                        MotionAction::Move => {
                            match self.pointer {
                                Some(p) => {
                                    if p.id == id {
                                        self.pointer = Some(Pointer { id: p.id, pre: p.pre, now: pos });
                                    } else {
                                        self.pointer = Some(Pointer::new(id, pos));
                                    }
                                },
                                None => {
                                    self.pointer = Some(Pointer::new(id, pos));
                                },
                            }
                        },
                        _ => {},
                    }
                } else {
                    self.pointer = None;
                }
            },
        }
    }

    /// What the fingers ask for in this update.
    pub fn gesture(&self) -> (g: Gesture)
        ensures
            g == self.asks(),
    {
        if self.pointer.is_some() {
            Gesture::Look
        } else if self.num_pointers == 2 {
            Gesture::DollyForwards
        } else if self.num_pointers == 3 {
            Gesture::DollyBackwards
        } else {
            Gesture::Rest
        }
    }

    /// Whether the gyroscope steers the view: it does while no finger does.
    pub fn gyro_steers(&self) -> (steers: bool)
        ensures
            steers == (self.pointer is None),
    {
        self.pointer.is_none()
    }

    /// Marks the steering finger's motion as used, once the view has
    /// turned by it.
    pub fn settle(&mut self)
        ensures
            final(self).num_pointers == old(self).num_pointers,
            old(self).pointer is None ==> final(self).pointer is None,
            old(self).pointer matches Some(p) ==> final(self).pointer == Some(
                Pointer { pre: p.now, ..p },
            ),
    {
        match self.pointer {
            Some(p) => {
                let mut q = p;
                q.update();
                self.pointer = Some(q);
            },
            None => {},
        }
    }
}

/// The bits of the named constants stand for the numbers in their names.
pub proof fn lemma_touch_constants()
    ensures
        (Float32 { bits: TOUCH_SENSITIVITY }).is_near(1_000_000, 1_000_000_000),
        (Float32 { bits: DOLLY_SPEED }).is_ratio(1, 2),
        (Float32 { bits: GYRO_PERIOD }).is_near(16_666_667, 1_000_000_000),
{
    lemma2_to64();
    lemma2_to64_rest();
    let x = Float32 { bits: TOUCH_SENSITIVITY };
    assert(x.exponent() == 117 && x.mantissa() == 0x03_126f);
    lemma_compare_with_ratio(x, 999_999, 1_000_000_000);
    lemma_compare_with_ratio(x, 1_000_001, 1_000_000_000);
    let x = Float32 { bits: DOLLY_SPEED };
    assert(x.exponent() == 126 && x.mantissa() == 0);
    lemma_compare_with_ratio(x, 1, 2);
    let x = Float32 { bits: GYRO_PERIOD };
    assert(x.exponent() == 121 && x.mantissa() == 0x08_8889);
    lemma_compare_with_ratio(x, 16_666_666, 1_000_000_000);
    lemma_compare_with_ratio(x, 16_666_668, 1_000_000_000);
}

/// Looking and moving by touch exclude each other: a steering finger never
/// moves the camera, and a touch that moves it has no steering finger.
pub proof fn law_touch_gestures_exclude(t: Touch)
    ensures
        t.asks() == Gesture::Look <==> t.pointer is Some,
        t.asks() == Gesture::DollyForwards ==> t.pointer is None && t.num_pointers == 2,
        t.asks() == Gesture::DollyBackwards ==> t.pointer is None && t.num_pointers == 3,
{
}

/// After any motion event a finger steers only if exactly one finger is on
/// the screen.
pub proof fn law_one_finger_steers(
    t: Touch,
    action: MotionAction,
    pointer_count: usize,
    first: Option<(i32, [Float32; 2])>,
)
    requires
        Touch::takes(action, pointer_count, first is Some),
    ensures
        t.after_motion(action, pointer_count, first).pointer is Some ==> pointer_count == 1
            && !action.lifts(),
        action.lands() && pointer_count == 1 ==> t.after_motion(
            action,
            pointer_count,
            first,
        ).asks() == Gesture::Look,
{
}

} // verus!
