use raymarcher::controller::{
    Controller, Direction, KEY_BACKWARDS, KEY_DOWN, KEY_FORWARDS, KEY_LEFT, KEY_RIGHT, KEY_UP,
};

fn from_mask(mask: u32) -> Controller {
    Controller {
        right: mask & 1 != 0,
        left: mask & 2 != 0,
        down: mask & 4 != 0,
        up: mask & 8 != 0,
        forwards: mask & 16 != 0,
        backwards: mask & 32 != 0,
        looking: mask & 64 != 0,
    }
}

#[test]
fn no_flags_no_movement() {
    let c = Controller::default();
    assert_eq!(c, Controller::new());
    assert!(!c.right && !c.left && !c.down && !c.up && !c.forwards && !c.backwards && !c.looking);
    assert_eq!(c.direction(), Direction { x: 0, y: 0, z: 0 });
    assert_eq!(c.movement(), None);
}

#[test]
fn each_flag_has_its_basis_vector() {
    let mut c = Controller::new();
    c.up = true;
    assert_eq!(c.movement(), Some(Direction { x: 0, y: 1, z: 0 }));
    let mut c = Controller::new();
    c.down = true;
    assert_eq!(c.movement(), Some(Direction { x: 0, y: -1, z: 0 }));
    let mut c = Controller::new();
    c.right = true;
    assert_eq!(c.movement(), Some(Direction { x: 1, y: 0, z: 0 }));
    let mut c = Controller::new();
    c.left = true;
    assert_eq!(c.movement(), Some(Direction { x: -1, y: 0, z: 0 }));
    let mut c = Controller::new();
    c.forwards = true;
    assert_eq!(c.movement(), Some(Direction { x: 0, y: 0, z: 1 }));
    let mut c = Controller::new();
    c.backwards = true;
    assert_eq!(c.movement(), Some(Direction { x: 0, y: 0, z: -1 }));
}

#[test]
fn looking_alone_moves_nothing() {
    let mut c = Controller::new();
    c.looking = true;
    assert_eq!(c.movement(), None);
}

#[test]
fn opposed_flags_cancel() {
    let mut c = Controller::new();
    c.up = true;
    c.down = true;
    assert_eq!(c.movement(), None);
    c.right = true;
    assert_eq!(c.movement(), Some(Direction { x: 1, y: 0, z: 0 }));
}

#[test]
fn diagonal_is_the_sum() {
    let mut c = Controller::new();
    c.right = true;
    c.up = true;
    c.backwards = true;
    let d = c.direction();
    assert_eq!(d, Direction { x: 1, y: 1, z: -1 });
    assert_eq!(d.magnitude_squared(), 3);
}

#[test]
fn every_combination_moves_along_a_unit_vector_or_not_at_all() {
    for mask in 0..128u32 {
        let c = from_mask(mask);
        let x = (c.right as i8) - (c.left as i8);
        let y = (c.up as i8) - (c.down as i8);
        let z = (c.forwards as i8) - (c.backwards as i8);
        assert_eq!(c.direction(), Direction { x, y, z });
        match c.movement() {
            None => assert!(x == 0 && y == 0 && z == 0),
            Some(d) => {
                assert_eq!(d, Direction { x, y, z });
                let n = d.magnitude_squared();
                assert!(n >= 1 && n <= 3);
                let s = 1.0 / (n as f32).sqrt();
                let (ux, uy, uz) = (d.x as f32 * s, d.y as f32 * s, d.z as f32 * s);
                let norm = (ux * ux + uy * uy + uz * uz).sqrt();
                assert!((norm - 1.0).abs() < 1.0e-6, "{mask}: {norm}");
            }
        }
    }
}

#[test]
fn magnitude_squared_of_any_direction() {
    assert_eq!(Direction { x: 0, y: 0, z: 0 }.magnitude_squared(), 0);
    assert_eq!(Direction { x: -128, y: 127, z: -128 }.magnitude_squared(), 16384 + 16129 + 16384);
    assert_eq!(Direction { x: 2, y: -3, z: 6 }.magnitude_squared(), 49);
}

#[test]
fn keys_set_and_clear_their_flags() {
    let mut c = Controller::new();
    assert!(c.key(KEY_FORWARDS, true));
    assert!(c.forwards);
    assert!(c.key(KEY_LEFT, true));
    assert!(c.left);
    assert!(c.key(KEY_BACKWARDS, true));
    assert!(c.backwards);
    assert!(c.key(KEY_RIGHT, true));
    assert!(c.right);
    assert!(c.key(KEY_UP, true));
    assert!(c.up);
    assert!(c.key(KEY_DOWN, true));
    assert!(c.down);
    assert!(!c.looking);
    assert!(c.key(KEY_FORWARDS, false));
    assert!(!c.forwards);
    assert!(c.left && c.backwards && c.right && c.up && c.down);
}

#[test]
fn key_scancodes() {
    assert_eq!(
        (KEY_UP, KEY_FORWARDS, KEY_DOWN, KEY_LEFT, KEY_BACKWARDS, KEY_RIGHT),
        (16, 17, 18, 30, 31, 32)
    );
}

#[test]
fn other_keys_change_nothing() {
    let mut c = Controller::new();
    c.up = true;
    let before = c;
    assert!(!c.key(1, true));
    assert!(!c.key(33, false));
    assert_eq!(c, before);
}

#[test]
fn look_button_and_release() {
    let mut c = Controller::new();
    c.right = true;
    c.set_looking(true);
    assert!(c.looking && c.right);
    c.set_looking(false);
    assert!(!c.looking && c.right);
    c.set_looking(true);
    c.release_all();
    assert_eq!(c, Controller::default());
}

#[test]
fn update_reads_the_flags_and_leaves_them() {
    let mut c = Controller::new();
    c.forwards = true;
    let _ = c.movement();
    let _ = c.direction();
    assert!(c.forwards);
}
