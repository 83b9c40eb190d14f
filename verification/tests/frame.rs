use raymarcher::frame::{
    frame_steps, texture_extent, Block, FrameRun, Pass, Resource, Step, Target, CLEAR_ALPHA,
    CLEAR_SHADE,
};

#[test]
fn a_frame_has_seven_steps_in_this_order() {
    assert_eq!(
        frame_steps(),
        vec![
            Step::Write(Block::Camera),
            Step::Write(Block::Settings),
            Step::Acquire,
            Step::Encode(Pass::Scene),
            Step::Encode(Pass::Composite),
            Step::Submit,
            Step::Present,
        ]
    );
}

#[test]
fn scene_pass_reads_camera_then_settings_and_fills_the_texture() {
    assert_eq!(Pass::Scene.target(), Target::Offscreen);
    assert_eq!(Pass::Scene.groups(), vec![Resource::Camera, Resource::Settings]);
}

#[test]
fn composite_pass_reads_the_texture_and_fills_the_surface() {
    assert_eq!(Pass::Composite.target(), Target::Surface);
    assert_eq!(Pass::Composite.groups(), vec![Resource::Offscreen]);
}

#[test]
fn clear_colour_is_dark_grey() {
    assert_eq!(f64::from_bits(CLEAR_SHADE), 0.1);
    assert_eq!(f64::from_bits(CLEAR_ALPHA), 1.0);
}

#[test]
fn texture_is_never_empty() {
    assert_eq!(texture_extent((0, 0)), (1, 1));
    assert_eq!(texture_extent((0, 150)), (1, 150));
    assert_eq!(texture_extent((200, 0)), (200, 1));
    assert_eq!(texture_extent((200, 150)), (200, 150));
    assert_eq!(texture_extent((u32::MAX, 1)), (u32::MAX, 1));
}

#[test]
fn quarter_scale_of_a_small_window() {
    let scale = 0.25f32;
    let scaled = ((3u32 as f32 * scale) as u32, (800u32 as f32 * scale) as u32);
    assert_eq!(texture_extent(scaled), (1, 200));
}

#[test]
fn a_frame_with_its_image_takes_every_step_in_order() {
    let mut run = FrameRun::begin();
    let mut taken = Vec::new();
    while let Some(step) = run.next() {
        assert_eq!(run.outcome(), None);
        taken.push(step);
        run.done();
    }
    assert_eq!(taken, frame_steps());
    assert_eq!(run.outcome(), Some(true));
    assert_eq!(run.next(), None);
}

#[test]
fn a_frame_without_an_image_ends_at_once() {
    let mut run = FrameRun::begin();
    let mut taken = Vec::new();
    while let Some(step) = run.next() {
        taken.push(step);
        if step == Step::Acquire {
            assert!(run.fail());
        } else {
            run.done();
        }
    }
    assert_eq!(
        taken,
        vec![Step::Write(Block::Camera), Step::Write(Block::Settings), Step::Acquire]
    );
    assert_eq!(run.outcome(), Some(false));
    assert_eq!(run.next(), None);
}

#[test]
fn only_the_request_for_the_image_can_fail() {
    let mut run = FrameRun::begin();
    assert!(!run.fail());
    assert_eq!(run.next(), Some(Step::Write(Block::Camera)));
    run.done();
    assert!(!run.fail());
    run.done();
    run.done();
    assert_eq!(run.next(), Some(Step::Encode(Pass::Scene)));
    assert!(!run.fail());
    assert_eq!(run.next(), Some(Step::Encode(Pass::Scene)));
    assert_eq!(run.outcome(), None);
}

#[test]
fn an_ended_frame_stays_ended() {
    let mut run = FrameRun::begin();
    for _ in 0..20 {
        run.done();
    }
    assert_eq!(run.outcome(), Some(true));
    assert!(!run.fail());
    assert_eq!(run.outcome(), Some(true));
    let mut run = FrameRun::begin();
    run.done();
    run.done();
    assert!(run.fail());
    run.done();
    assert!(!run.fail());
    assert_eq!(run.outcome(), Some(false));
    assert_eq!(run.next(), None);
}
