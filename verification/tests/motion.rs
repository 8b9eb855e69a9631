use player_motion::angle::atan2_mrad;
use player_motion::angle::wrap_mrad;
use player_motion::controller::CameraRotation;
use player_motion::controller::KeyState;
use player_motion::controller::Player;
use player_motion::controller::Vec3Milli;
use player_motion::controller::apply_velocity;
use player_motion::controller::resolve_keyboard_inputs;
use player_motion::controller::tick;
use player_motion::math::div_trunc;
use player_motion::math::isqrt;

fn vec3(x: i64, y: i64, z: i64) -> Vec3Milli {
    Vec3Milli { x, y, z }
}

/// The camera turned a quarter turn about the vertical axis: the rotated
/// vector's x picks up the input's z, its z picks up minus the input's x.
fn quarter_turn_camera() -> CameraRotation {
    CameraRotation {
        xx: 0,
        xy: 0,
        xz: 1000,
        yx: 0,
        yy: 1000,
        yz: 0,
        zx: -1000,
        zy: 0,
        zz: 0,
    }
}

#[test]
fn spawn_defaults() {
    let p = Player::spawn();
    assert_eq!(p.position, vec3(200, -100, -250));
    assert_eq!(p.yaw_mrad, 0);
    assert_eq!(p.scale, vec3(1000, 1000, 1000));
    assert_eq!(p.velocity, vec3(0, 0, 0));
    assert_eq!(p.accumulated_input, vec3(0, 0, 0));
}

#[test]
fn idle_frame_keeps_transform() {
    let mut p = Player::spawn();
    let keys = KeyState::released();
    let cam = CameraRotation::identity();
    tick(&mut p, &keys, &cam, 16);
    assert_eq!(p.position, vec3(200, -100, -250));
    assert_eq!(p.yaw_mrad, 0);
    assert_eq!(p.velocity, vec3(0, 0, 0));
    assert_eq!(p.scale, vec3(500, 500, 1000));
}

#[test]
fn forward_key_gives_max_speed_backward_z() {
    let mut p = Player::spawn();
    let keys = KeyState { forward: true, back: false, left: false, right: false };
    let cam = CameraRotation::identity();
    resolve_keyboard_inputs(&mut p, &keys, &cam);
    assert_eq!(p.accumulated_input, vec3(0, 0, -1000));
    assert_eq!(p.velocity, vec3(0, 0, -3000));
}

#[test]
fn opposed_keys_cancel() {
    let mut p = Player::spawn();
    let keys = KeyState { forward: true, back: true, left: true, right: true };
    let cam = CameraRotation::identity();
    resolve_keyboard_inputs(&mut p, &keys, &cam);
    assert_eq!(p.accumulated_input, vec3(0, 0, 0));
    assert_eq!(p.velocity, vec3(0, 0, 0));
}

#[test]
fn single_axis_contributions() {
    let mut p = Player::spawn();
    let cam = CameraRotation::identity();
    let keys = KeyState { forward: false, back: false, left: false, right: true };
    resolve_keyboard_inputs(&mut p, &keys, &cam);
    assert_eq!(p.accumulated_input, vec3(1000, 0, 0));
    let keys = KeyState { forward: false, back: true, left: false, right: false };
    resolve_keyboard_inputs(&mut p, &keys, &cam);
    assert_eq!(p.accumulated_input, vec3(0, 0, 1000));
    let keys = KeyState { forward: false, back: false, left: true, right: false };
    resolve_keyboard_inputs(&mut p, &keys, &cam);
    assert_eq!(p.accumulated_input, vec3(-1000, 0, 0));
}

#[test]
fn zero_input_under_rotated_camera_is_zero_velocity() {
    let mut p = Player::spawn();
    let keys = KeyState::released();
    let cam = quarter_turn_camera();
    resolve_keyboard_inputs(&mut p, &keys, &cam);
    assert_eq!(p.velocity, vec3(0, 0, 0));
    assert_eq!(p.accumulated_input, vec3(0, 0, 0));
}

#[test]
fn camera_relative_motion() {
    let mut p = Player::spawn();
    let keys = KeyState { forward: true, back: false, left: false, right: false };
    let cam = quarter_turn_camera();
    resolve_keyboard_inputs(&mut p, &keys, &cam);
    assert_eq!(p.accumulated_input, vec3(0, 0, -1000));
    assert_eq!(p.velocity, vec3(-3000, 0, 0));
}

#[test]
fn normalization_never_exceeds_max_speed() {
    // a well-formed camera tilting the intent nearly vertical: the projected
    // horizontal remainder of back+right is (1, 1) thousandths
    let cam = CameraRotation {
        xx: 1,
        xy: 0,
        xz: 0,
        yx: 707,
        yy: 0,
        yz: 707,
        zx: 0,
        zy: 0,
        zz: 1,
    };
    let mut p = Player::spawn();
    let keys = KeyState { forward: false, back: true, left: false, right: true };
    resolve_keyboard_inputs(&mut p, &keys, &cam);
    // ceiling magnitude 2 over the (1, 1) remainder: half speed per axis
    assert_eq!(p.velocity, vec3(1500, 0, 1500));
    let mag_sq = p.velocity.x * p.velocity.x + p.velocity.z * p.velocity.z;
    assert!(mag_sq <= 3000 * 3000);

    // a shallower tilt leaving a (100, 10) remainder for the right key
    let cam = CameraRotation {
        xx: 100,
        xy: 0,
        xz: 0,
        yx: 900,
        yy: 0,
        yz: 0,
        zx: 10,
        zy: 0,
        zz: 1000,
    };
    let mut q = Player::spawn();
    let keys = KeyState { forward: false, back: false, left: false, right: true };
    resolve_keyboard_inputs(&mut q, &keys, &cam);
    // ceiling magnitude 101 over (100, 10): just under full speed
    assert_eq!(q.velocity, vec3(2970, 0, 297));
    let mag_sq = q.velocity.x * q.velocity.x + q.velocity.z * q.velocity.z;
    assert!(mag_sq <= 3000 * 3000);
}

#[test]
fn diagonal_intent_stays_under_max_speed() {
    let mut p = Player::spawn();
    let keys = KeyState { forward: true, back: false, left: false, right: true };
    let cam = CameraRotation::identity();
    resolve_keyboard_inputs(&mut p, &keys, &cam);
    // ceiling magnitude 1415 over (1000, -1000)
    assert_eq!(p.velocity, vec3(2120, 0, -2120));
    let mag_sq = p.velocity.x * p.velocity.x + p.velocity.z * p.velocity.z;
    assert!(mag_sq <= 3000 * 3000);
}

#[test]
fn moving_tick_integrates_and_decays() {
    let mut p = Player::spawn();
    p.velocity = vec3(0, 0, -3000);
    apply_velocity(&mut p, 1000);
    assert_eq!(p.position, vec3(200, -100, -3250));
    assert_eq!(p.velocity, vec3(0, 0, -1500));
    assert_eq!(p.scale, vec3(500, 500, 1000));
    // heading (0, -3000) is half a turn from the reference forward; the fast
    // step covers half of it in one tick
    assert_eq!(p.yaw_mrad, 1571);
}

#[test]
fn decay_halves_magnitude_each_tick() {
    let mut p = Player::spawn();
    p.velocity = vec3(0, 0, -3000);
    apply_velocity(&mut p, 0);
    assert_eq!(p.velocity, vec3(0, 0, -1500));
    apply_velocity(&mut p, 0);
    assert_eq!(p.velocity, vec3(0, 0, -750));
    apply_velocity(&mut p, 0);
    // three ticks: exactly the initial magnitude times one eighth, not yet zero
    assert_eq!(p.velocity, vec3(0, 0, -375));
    assert_ne!(p.velocity.z, 0);
    // squared magnitude scaled by a quarter per tick while components stay even
    assert_eq!(4 * 1500 * 1500, 3000 * 3000);
}

#[test]
fn decay_applies_without_movement() {
    let mut p = Player::spawn();
    p.velocity = vec3(600, 0, -800);
    let pos = p.position;
    apply_velocity(&mut p, 0);
    // dt of zero: no displacement, yet the decay still ran
    assert_eq!(p.position, pos);
    assert_eq!(p.velocity, vec3(300, 0, -400));
}

#[test]
fn turn_step_switches_exactly_at_threshold() {
    // heading (0, -3000): target yaw is a half turn, 3142 mrad
    let mut p = Player::spawn();
    p.velocity = vec3(0, 0, -3000);
    p.yaw_mrad = 3142 - 50;
    apply_velocity(&mut p, 0);
    // at the threshold: slow step, a twentieth of 50 is 2
    assert_eq!(p.yaw_mrad, 3142 - 50 + 2);

    let mut q = Player::spawn();
    q.velocity = vec3(0, 0, -3000);
    q.yaw_mrad = 3142 - 51;
    apply_velocity(&mut q, 0);
    // one past the threshold: fast step, half of 51 truncates to 25
    assert_eq!(q.yaw_mrad, 3142 - 51 + 25);
}

#[test]
fn turning_converges_without_overshoot() {
    // heading (0, -3000): target yaw 3142; facing starts at zero and climbs
    // toward the target, never past it
    let mut p = Player::spawn();
    let mut prev = p.yaw_mrad;
    for _ in 0..20 {
        p.velocity = vec3(0, 0, -3000);
        apply_velocity(&mut p, 0);
        assert!(p.yaw_mrad >= prev);
        assert!(p.yaw_mrad <= 3142);
        prev = p.yaw_mrad;
    }
    assert!(p.yaw_mrad >= 3090);
}

#[test]
fn atan2_cardinal_directions() {
    assert_eq!(atan2_mrad(0, 1000), 0);
    assert_eq!(atan2_mrad(1000, 0), 1571);
    assert_eq!(atan2_mrad(0, -1000), 3142);
    assert_eq!(atan2_mrad(-1000, 0), -1571);
    assert_eq!(atan2_mrad(1000, 1000), 785);
    assert_eq!(atan2_mrad(-500, 500), -785);
}

#[test]
fn wrap_stays_within_half_turn() {
    assert_eq!(wrap_mrad(0), 0);
    assert_eq!(wrap_mrad(3142), 3142);
    assert_eq!(wrap_mrad(3143), -3141);
    assert_eq!(wrap_mrad(-3143), 3141);
    assert_eq!(wrap_mrad(-3142), -3142);
}

#[test]
fn division_truncates_toward_zero() {
    assert_eq!(div_trunc(7, 2), 3);
    assert_eq!(div_trunc(-7, 2), -3);
    assert_eq!(div_trunc(-1, 2), 0);
    assert_eq!(div_trunc(1, 20), 0);
}

#[test]
fn integer_square_roots() {
    assert_eq!(isqrt(0), 0);
    assert_eq!(isqrt(1), 1);
    assert_eq!(isqrt(2), 1);
    assert_eq!(isqrt(3), 1);
    assert_eq!(isqrt(4), 2);
    assert_eq!(isqrt(999_999), 999);
    assert_eq!(isqrt(1_000_000), 1000);
    assert_eq!(isqrt(0xFFFF_FFFF), 65535);
}
