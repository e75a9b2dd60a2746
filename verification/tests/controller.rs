use platformer_core::animation::{SpriteAnimData, SpriteAnimError, SpriteAnimMode};
use platformer_core::controller::{SpriteAnimController, MICROS_PER_SECOND};

#[test]
fn new_controller_plays_the_default_clip() {
    let mut c = SpriteAnimController::new();
    assert_eq!(c.fps, 4);
    assert_eq!(c.tick_interval, MICROS_PER_SECOND / 4);
    assert_eq!(c.accumulated, 0);
    assert_eq!(c.current.name, "Default");
    assert_eq!(c.current.frames, vec![0]);
    assert_eq!(c.current.mode, SpriteAnimMode::Once);
    assert_eq!(c.current.get_frame().unwrap(), 0);
}

#[test]
fn unknown_name_falls_back_to_default() {
    let idle = SpriteAnimData::new("Idle".to_string(), vec![1, 2, 3]);
    let mut c = SpriteAnimController::new().with_anim(idle);
    let r = c.set_current_animation("Walk");
    assert_eq!(r, Err(SpriteAnimError::DoesNotExist("Walk".to_string())));
    // Even on error the controller ends up in a playable state: a fresh
    // copy of the fallback clip, which yields only its single frame.
    assert_eq!(c.current.name, "Default");
    assert_eq!(c.current.index, 0);
    for _ in 0..3 {
        assert_eq!(c.current.get_frame().unwrap(), 0);
    }
}

#[test]
fn known_name_selects_a_fresh_copy() {
    let idle = SpriteAnimData::new("Idle".to_string(), vec![1, 2, 3]);
    let mut c = SpriteAnimController::new().with_anim(idle);
    assert_eq!(c.set_current_animation("Idle"), Ok(()));
    assert_eq!(c.current.name, "Idle");
    assert_eq!(c.current.frames, vec![1, 2, 3]);
    assert_eq!(c.current.index, 0);
    c.current.get_frame().unwrap();
    c.current.get_frame().unwrap();
    assert_eq!(c.current.index, 2);
    // Selecting again discards the runtime state of the previous copy.
    assert_eq!(c.set_current_animation("Idle"), Ok(()));
    assert_eq!(c.current.index, 0);
    assert!(c.current.forward);
}

#[test]
fn selection_does_not_mutate_the_stored_template() {
    let idle = SpriteAnimData::new("Idle".to_string(), vec![1, 2, 3]);
    let mut c = SpriteAnimController::new().with_anim(idle);
    assert_eq!(c.set_current_animation("Idle"), Ok(()));
    assert_eq!(c.current.get_frame().unwrap(), 1);
    assert_eq!(c.current.get_frame().unwrap(), 2);
    // A second selection starts over from the template, not from the copy.
    assert_eq!(c.set_current_animation("Idle"), Ok(()));
    assert_eq!(c.current.get_frame().unwrap(), 1);
}

#[test]
fn with_default_anim_overrides_the_fallback() {
    let fallback = SpriteAnimData::new("Stand".to_string(), vec![9]).with_mode(SpriteAnimMode::Once);
    let mut c = SpriteAnimController::new().with_default_anim(fallback);
    let r = c.set_current_animation("Nope");
    assert_eq!(r, Err(SpriteAnimError::DoesNotExist("Nope".to_string())));
    assert_eq!(c.current.name, "Stand");
    assert_eq!(c.current.frames, vec![9]);
    assert_eq!(c.current.get_frame().unwrap(), 9);
}

#[test]
fn changing_fps_keeps_the_cursor_and_the_timer() {
    let idle = SpriteAnimData::new("Idle".to_string(), vec![1, 2, 3]);
    let mut c = SpriteAnimController::new().with_anim(idle);
    assert_eq!(c.set_current_animation("Idle"), Ok(()));
    assert_eq!(c.tick(250_000), Some(Ok(1)));
    assert_eq!(c.current.index, 1);
    c.set_fps(8);
    // The cursor and the accumulated time are untouched; only the interval
    // between subsequent advances changes.
    assert_eq!(c.current.index, 1);
    assert_eq!(c.accumulated, 0);
    assert_eq!(c.tick_interval, MICROS_PER_SECOND / 8);
    assert_eq!(c.tick(125_000), Some(Ok(2)));
}

#[test]
fn with_fps_sets_rate_on_instantiation() {
    let c = SpriteAnimController::new().with_fps(10);
    assert_eq!(c.fps, 10);
    assert_eq!(c.tick_interval, MICROS_PER_SECOND / 10);
}

#[test]
fn tick_accumulates_until_the_interval_is_reached() {
    let idle = SpriteAnimData::new("Idle".to_string(), vec![1, 2, 3]);
    let mut c = SpriteAnimController::new().with_anim(idle);
    assert_eq!(c.set_current_animation("Idle"), Ok(()));
    assert_eq!(c.tick(100_000), None);
    assert_eq!(c.tick(100_000), None);
    assert_eq!(c.accumulated, 200_000);
    assert_eq!(c.tick(50_000), Some(Ok(1)));
    assert_eq!(c.accumulated, 0);
}

#[test]
fn tick_takes_at_most_one_step_per_call() {
    let idle = SpriteAnimData::new("Idle".to_string(), vec![1, 2, 3]);
    let mut c = SpriteAnimController::new().with_anim(idle);
    assert_eq!(c.set_current_animation("Idle"), Ok(()));
    // A large spike advances one frame only; the rest stays accumulated.
    assert_eq!(c.tick(1_000_000), Some(Ok(1)));
    assert_eq!(c.accumulated, 750_000);
    assert_eq!(c.tick(0), Some(Ok(2)));
    assert_eq!(c.accumulated, 500_000);
}

#[test]
fn ticking_an_empty_clip_reports_and_stalls() {
    let empty = SpriteAnimData::new("Empty".to_string(), Vec::new());
    let mut c = SpriteAnimController::new().with_anim(empty);
    assert_eq!(c.set_current_animation("Empty"), Ok(()));
    assert_eq!(
        c.tick(250_000),
        Some(Err(SpriteAnimError::NoFrames("Empty".to_string())))
    );
    assert_eq!(
        c.tick(250_000),
        Some(Err(SpriteAnimError::NoFrames("Empty".to_string())))
    );
}

#[test]
fn huge_elapsed_spike_still_steps_once() {
    let idle = SpriteAnimData::new("Idle".to_string(), vec![1, 2, 3]);
    let mut c = SpriteAnimController::new().with_anim(idle);
    assert_eq!(c.set_current_animation("Idle"), Ok(()));
    assert_eq!(c.tick(u64::MAX), Some(Ok(1)));
    assert_eq!(c.accumulated, u64::MAX - MICROS_PER_SECOND / 4);
}

#[test]
fn fps_beyond_the_time_unit_fires_every_tick() {
    let idle = SpriteAnimData::new("Idle".to_string(), vec![1, 2, 3]);
    let mut c = SpriteAnimController::new().with_anim(idle);
    assert_eq!(c.set_current_animation("Idle"), Ok(()));
    c.set_fps(2_000_000);
    assert_eq!(c.tick_interval, 0);
    assert_eq!(c.tick(0), Some(Ok(1)));
    assert_eq!(c.tick(0), Some(Ok(2)));
}

#[test]
fn with_anim_replaces_an_entry_with_the_same_name() {
    let idle_a = SpriteAnimData::new("Idle".to_string(), vec![1, 2]);
    let idle_b = SpriteAnimData::new("Idle".to_string(), vec![5, 6, 7]);
    let mut c = SpriteAnimController::new().with_anim(idle_a).with_anim(idle_b);
    assert_eq!(c.set_current_animation("Idle"), Ok(()));
    assert_eq!(c.current.frames, vec![5, 6, 7]);
}
