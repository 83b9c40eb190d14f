//! Movement flags and the direction they ask for.

use vstd::prelude::*;

verus! {

/// Scancode of the key that moves up.
pub const KEY_UP: u32 = 16;

/// Scancode of the key that moves forwards.
pub const KEY_FORWARDS: u32 = 17;

/// Scancode of the key that moves down.
pub const KEY_DOWN: u32 = 18;

/// Scancode of the key that moves left.
pub const KEY_LEFT: u32 = 30;

/// Scancode of the key that moves backwards.
pub const KEY_BACKWARDS: u32 = 31;

/// Scancode of the key that moves right.
pub const KEY_RIGHT: u32 = 32;

/// Seven independent flags, set by whoever reads the input devices and read
/// (never cleared) by each frame's update.
#[derive(Clone, Copy, Debug, PartialEq, Eq, Structural)]
pub struct Controller {
    pub right: bool,
    pub left: bool,
    pub down: bool,
    pub up: bool,
    pub forwards: bool,
    pub backwards: bool,
    pub looking: bool,
}

/// A direction in the camera's own frame, before it is normalised: +x is
/// right, +y is up, +z is forwards.
#[derive(Clone, Copy, Debug, PartialEq, Eq, Structural)]
pub struct Direction {
    pub x: i8,
    pub y: i8,
    pub z: i8,
}

/// What a pair of opposed flags adds along its axis.
pub open spec fn axis(positive: bool, negative: bool) -> int {
    (if positive { 1int } else { 0int }) - (if negative { 1int } else { 0int })
}

fn axis_value(positive: bool, negative: bool) -> (r: i8)
    ensures
        r == axis(positive, negative),
{
    let p: i8 = if positive { 1 } else { 0 };
    let n: i8 = if negative { 1 } else { 0 };
    p - n
}

impl Direction {
    /// The square of the direction's length.
    pub open spec fn norm_squared(self) -> int {
        self.x * self.x + self.y * self.y + self.z * self.z
    }

    pub open spec fn is_zero(self) -> bool {
        self.x == 0 && self.y == 0 && self.z == 0
    }

    /// The square of the direction's length.
    pub fn magnitude_squared(&self) -> (n: u32)
        ensures
            n == self.norm_squared(),
            (n == 0) == self.is_zero(),
    {
        let x: i32 = self.x as i32;
        let y: i32 = self.y as i32;
        let z: i32 = self.z as i32;
        assert(0 <= x * x <= 16384 && 0 <= y * y <= 16384 && 0 <= z * z <= 16384)
            by (nonlinear_arith)
            requires
                -128 <= x <= 127,
                -128 <= y <= 127,
                -128 <= z <= 127,
        ;
        assert(x * x == 0 ==> x == 0) by (nonlinear_arith);
        assert(y * y == 0 ==> y == 0) by (nonlinear_arith);
        assert(z * z == 0 ==> z == 0) by (nonlinear_arith);
        (x * x + y * y + z * z) as u32
    }
}

impl Controller {
    /// No flag set.
    pub open spec fn released() -> Controller {
        Controller {
            right: false,
            left: false,
            down: false,
            up: false,
            forwards: false,
            backwards: false,
            looking: false,
        }
    }

    /// The sum of the basis vectors of the flags that are set.
    pub open spec fn direction_sum(self) -> Direction {
        Direction {
            x: axis(self.right, self.left) as i8,
            y: axis(self.up, self.down) as i8,
            z: axis(self.forwards, self.backwards) as i8,
        }
    }

    /// The flags as they are before any input.
    pub fn new() -> (c: Controller)
        ensures
            c == Controller::released(),
    {
        Controller {
            right: false,
            left: false,
            down: false,
            up: false,
            forwards: false,
            backwards: false,
            looking: false,
        }
    }

    /// The sum of the basis vectors of the flags that are set. Opposed flags
    /// cancel; `looking` adds nothing.
    pub fn direction(&self) -> (d: Direction)
        ensures
            d == self.direction_sum(),
    {
        Direction {
            x: axis_value(self.right, self.left),
            y: axis_value(self.up, self.down),
            z: axis_value(self.forwards, self.backwards),
        }
    }

    /// The direction to move along this frame, or `None` where the flags ask
    /// for no motion: a zero vector has no direction and is never normalised.
    pub fn movement(&self) -> (m: Option<Direction>)
        ensures
            m is None <==> self.direction_sum().is_zero(),
            m matches Some(d) ==> d == self.direction_sum(),
    {
        let d = self.direction();
        if d.magnitude_squared() != 0 {
            Some(d)
        } else {
            None
        }
    }

    /// Records a key going down or up. Returns whether the scancode is one of
    /// the six movement keys; any other leaves the flags as they are.
    pub fn key(&mut self, scancode: u32, pressed: bool) -> (handled: bool)
        ensures
            handled == (scancode == KEY_UP || scancode == KEY_FORWARDS || scancode == KEY_DOWN
                || scancode == KEY_LEFT || scancode == KEY_BACKWARDS || scancode == KEY_RIGHT),
            *final(self) == (Controller {
                up: if scancode == KEY_UP { pressed } else { old(self).up },
                forwards: if scancode == KEY_FORWARDS { pressed } else { old(self).forwards },
                down: if scancode == KEY_DOWN { pressed } else { old(self).down },
                left: if scancode == KEY_LEFT { pressed } else { old(self).left },
                backwards: if scancode == KEY_BACKWARDS { pressed } else { old(self).backwards },
                right: if scancode == KEY_RIGHT { pressed } else { old(self).right },
                looking: old(self).looking,
            }),
    {
        if scancode == KEY_FORWARDS {
            self.forwards = pressed;
            true
        } else if scancode == KEY_LEFT {
            self.left = pressed;
            true
        } else if scancode == KEY_BACKWARDS {
            self.backwards = pressed;
            true
        } else if scancode == KEY_RIGHT {
            self.right = pressed;
            true
        } else if scancode == KEY_UP {
            self.up = pressed;
            true
        } else if scancode == KEY_DOWN {
            self.down = pressed;
            true
        } else {
            false
        }
    }

    /// Records the look button going down or up.
    pub fn set_looking(&mut self, pressed: bool)
        ensures
            *final(self) == (Controller { looking: pressed, ..*old(self) }),
    {
        self.looking = pressed;
    }

    /// Drops every flag, as when the window loses the keyboard.
    pub fn release_all(&mut self)
        ensures
            *final(self) == Controller::released(),
    {
        *self = Controller::new();
    }
}

impl Default for Controller {
    fn default() -> (c: Controller)
        ensures
            c == Controller::released(),
    {
        Controller::new()
    }
}

/// Each component of a controller's direction is -1, 0 or 1, so the square of
/// its length counts the axes that did not cancel.
pub proof fn lemma_direction_components(c: Controller)
    ensures
        -1 <= c.direction_sum().x <= 1,
        -1 <= c.direction_sum().y <= 1,
        -1 <= c.direction_sum().z <= 1,
        0 <= c.direction_sum().norm_squared() <= 3,
        c.direction_sum().norm_squared() == (if c.right != c.left { 1int } else { 0int }) + (if c.up
            != c.down { 1int } else { 0int }) + (if c.forwards != c.backwards { 1int } else { 0int }),
{
    let d = c.direction_sum();
    lemma_square_of_sign(d.x as int);
    lemma_square_of_sign(d.y as int);
    lemma_square_of_sign(d.z as int);
}

proof fn lemma_square_of_sign(v: int)
    requires
        -1 <= v <= 1,
    ensures
        v * v == (if v == 0 { 0int } else { 1int }),
{
    assert(v == -1 || v == 0 || v == 1);
}

/// Whatever flags are set, unless they cancel to nothing: the direction,
/// scaled by the inverse of its length, is a unit vector. `s` stands for that
/// inverse, a real number whose square times the squared length is 1.
pub proof fn law_normalised_direction_is_unit(c: Controller, s: real)
    requires
        !c.direction_sum().is_zero(),
        s * s * (c.direction_sum().norm_squared() as real) == 1real,
    ensures
        1 <= c.direction_sum().norm_squared() <= 3,
        (s * (c.direction_sum().x as real)) * (s * (c.direction_sum().x as real)) + (s * (
        c.direction_sum().y as real)) * (s * (c.direction_sum().y as real)) + (s * (
        c.direction_sum().z as real)) * (s * (c.direction_sum().z as real)) == 1real,
{
    lemma_direction_components(c);
    let x = c.direction_sum().x as int;
    let y = c.direction_sum().y as int;
    let z = c.direction_sum().z as int;
    assert((s * (x as real)) * (s * (x as real)) + (s * (y as real)) * (s * (y as real)) + (s * (
    z as real)) * (s * (z as real)) == s * s * ((x * x + y * y + z * z) as real))
        by (nonlinear_arith);
}

/// With no flag set, and whenever every set flag is cancelled by its
/// opposite, there is nothing to move along.
pub proof fn law_cancelled_flags_give_no_motion(c: Controller)
    requires
        c.right == c.left,
        c.up == c.down,
        c.forwards == c.backwards,
    ensures
        c.direction_sum().is_zero(),
        Controller::released().direction_sum().is_zero(),
{
}

} // verus!
