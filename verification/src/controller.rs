//! The player motion controller.
//!
//! Two systems run in order once per tick. The input resolver turns the held
//! directional keys into an intent vector, rotates it by the camera's
//! rotation, projects it onto the horizontal plane and scales it up to the
//! maximum speed — never past it — writing the player's velocity. The velocity integrator
//! advances the position by velocity times elapsed time, steers the facing
//! toward the direction of travel with a threshold-switched step, and then
//! halves the velocity.
//!
//! Lengths are fixed point with 1000 per world unit, angles are
//! milliradians, time is milliseconds.

use vstd::prelude::*;
use vstd::math::abs;
use crate::math::div_down;
use crate::math::div_trunc;
use crate::math::isqrt_up;
use crate::math::isqrt_up_spec;
use crate::math::lemma_abs_le_isqrt;
use crate::math::lemma_isqrt_up_bounds;
use crate::math::lemma_div_down_abs_le;
use crate::angle::atan2_spec;
use crate::angle::atan2_mrad;
use crate::angle::wrap_mrad_spec;
use crate::angle::wrap_mrad;
use crate::angle::PI_MRAD;

verus! {

/// One world unit, in fixed-point thousandths.
pub const UNIT_MILLI: i64 = 1000;

/// The player's maximum speed: three world units per second.
pub const MAX_SPEED_MILLI: i64 = 3000;

/// Velocity is divided by this every tick (a decay factor of one half).
pub const DECAY_DIV: u64 = 2;

/// Angular difference above which the facing turns with the fast step.
pub const TURN_THRESHOLD_MRAD: i64 = 50;

/// Fast turn step: half of the remaining angular difference.
pub const TURN_DIV_FAST: u64 = 2;

/// Slow turn step: a twentieth of the remaining angular difference.
pub const TURN_DIV_SLOW: u64 = 20;

/// The longest tick the integrator accepts, in milliseconds.
pub const MAX_TICK_MS: u64 = 1_000_000_000;

/// Positions stay within this bound so that one tick cannot overflow.
pub const POS_LIMIT_MILLI: i64 = 4_000_000_000_000_000_000;

/// A three-component vector in fixed-point thousandths of a world unit.
#[derive(Clone, Copy, Debug, PartialEq, Eq, Structural)]
pub struct Vec3Milli {
    pub x: i64,
    pub y: i64,
    pub z: i64,
}

impl Vec3Milli {
    /// The squared magnitude, exact over the mathematical integers.
    pub open spec fn mag_sq(self) -> int {
        self.x * self.x + self.y * self.y + self.z * self.z
    }

}

impl Default for Vec3Milli {
    fn default() -> (v: Vec3Milli)
        ensures
            v == (Vec3Milli { x: 0, y: 0, z: 0 }),
    {
        Vec3Milli { x: 0, y: 0, z: 0 }
    }
}

/// The four directional keys, true while held.
#[derive(Clone, Copy, Debug, PartialEq, Eq, Structural)]
pub struct KeyState {
    pub forward: bool,
    pub back: bool,
    pub left: bool,
    pub right: bool,
}

impl KeyState {
    /// No key held.
    pub fn released() -> (k: KeyState)
        ensures
            k == (KeyState { forward: false, back: false, left: false, right: false }),
    {
        KeyState { forward: false, back: false, left: false, right: false }
    }
}

/// The active camera's rotation as a fixed-point matrix, row major: row `x`
/// is `(xx, xy, xz)` and gives the rotated vector's `x` component. For a
/// rotation every entry is at most one unit in magnitude.
#[derive(Clone, Copy, Debug, PartialEq, Eq, Structural)]
pub struct CameraRotation {
    pub xx: i64,
    pub xy: i64,
    pub xz: i64,
    pub yx: i64,
    pub yy: i64,
    pub yz: i64,
    pub zx: i64,
    pub zy: i64,
    pub zz: i64,
}

impl CameraRotation {
    /// Every entry is at most one unit in magnitude, as holds of any
    /// rotation matrix.
    pub open spec fn wf(self) -> bool {
        &&& -UNIT_MILLI <= self.xx <= UNIT_MILLI
        &&& -UNIT_MILLI <= self.xy <= UNIT_MILLI
        &&& -UNIT_MILLI <= self.xz <= UNIT_MILLI
        &&& -UNIT_MILLI <= self.yx <= UNIT_MILLI
        &&& -UNIT_MILLI <= self.yy <= UNIT_MILLI
        &&& -UNIT_MILLI <= self.yz <= UNIT_MILLI
        &&& -UNIT_MILLI <= self.zx <= UNIT_MILLI
        &&& -UNIT_MILLI <= self.zy <= UNIT_MILLI
        &&& -UNIT_MILLI <= self.zz <= UNIT_MILLI
    }

    /// The identity rotation.
    pub fn identity() -> (c: CameraRotation)
        ensures
            c.wf(),
            c == (CameraRotation {
                xx: UNIT_MILLI,
                xy: 0,
                xz: 0,
                yx: 0,
                yy: UNIT_MILLI,
                yz: 0,
                zx: 0,
                zy: 0,
                zz: UNIT_MILLI,
            }),
    {
        CameraRotation {
            xx: UNIT_MILLI,
            xy: 0,
            xz: 0,
            yx: 0,
            yy: UNIT_MILLI,
            yz: 0,
            zx: 0,
            zy: 0,
            zz: UNIT_MILLI,
        }
    }
}

/// The single controllable actor: its transform (position, facing, scale)
/// and the two components the systems write each tick.
#[derive(Clone, Copy, Debug, PartialEq, Eq, Structural)]
pub struct Player {
    pub position: Vec3Milli,
    pub yaw_mrad: i64,
    pub scale: Vec3Milli,
    pub velocity: Vec3Milli,
    pub accumulated_input: Vec3Milli,
}

impl Player {
    /// The state invariant: velocity is horizontal and bounded by the
    /// maximum speed on each axis, and the facing angle is wrapped.
    pub open spec fn wf(self) -> bool {
        &&& -MAX_SPEED_MILLI <= self.velocity.x <= MAX_SPEED_MILLI
        &&& self.velocity.y == 0
        &&& -MAX_SPEED_MILLI <= self.velocity.z <= MAX_SPEED_MILLI
        &&& -PI_MRAD <= self.yaw_mrad <= PI_MRAD
    }

    /// The player as spawned at startup: at its initial position, unrotated,
    /// at rest.
    pub fn spawn() -> (p: Player)
        ensures
            p.position.x == 200 && p.position.y == -100 && p.position.z == -250,
            p.yaw_mrad == 0,
            p.scale == (Vec3Milli { x: UNIT_MILLI, y: UNIT_MILLI, z: UNIT_MILLI }),
            p.velocity == (Vec3Milli { x: 0, y: 0, z: 0 }),
            p.accumulated_input == (Vec3Milli { x: 0, y: 0, z: 0 }),
            p.wf(),
    {
        Player {
            position: Vec3Milli { x: 200, y: -100, z: -250 },
            yaw_mrad: 0,
            scale: Vec3Milli { x: UNIT_MILLI, y: UNIT_MILLI, z: UNIT_MILLI },
            velocity: Vec3Milli { x: 0, y: 0, z: 0 },
            accumulated_input: Vec3Milli { x: 0, y: 0, z: 0 },
        }
    }
}

/// One axis of raw intent: plus one for the positive key, minus one for the
/// negative key.
pub open spec fn axis_units(pos: bool, neg: bool) -> int {
    (if pos {
        1int
    } else {
        0int
    }) - (if neg {
        1int
    } else {
        0int
    })
}

/// Raw intent on the `x` axis: right minus left.
pub open spec fn input_x_units(k: KeyState) -> int {
    axis_units(k.right, k.left)
}

/// Raw intent on the `z` axis: back minus forward.
pub open spec fn input_z_units(k: KeyState) -> int {
    axis_units(k.back, k.forward)
}

/// The accumulated input vector: raw intent scaled to fixed point, with no
/// vertical component.
pub open spec fn input_vector(k: KeyState) -> Vec3Milli {
    Vec3Milli {
        x: (input_x_units(k) * UNIT_MILLI) as i64,
        y: 0,
        z: (input_z_units(k) * UNIT_MILLI) as i64,
    }
}

/// The `x` component of `v` rotated by `c`.
pub open spec fn rotated_x(c: CameraRotation, v: Vec3Milli) -> int {
    div_down(c.xx * v.x + c.xy * v.y + c.xz * v.z, UNIT_MILLI as int)
}

/// The `z` component of `v` rotated by `c`.
pub open spec fn rotated_z(c: CameraRotation, v: Vec3Milli) -> int {
    div_down(c.zx * v.x + c.zy * v.y + c.zz * v.z, UNIT_MILLI as int)
}

/// The magnitude of the horizontal plane vector `(rx, rz)`, rounded up: the
/// ceiling keeps the scaled vector's magnitude at or below the maximum speed,
/// and axis-aligned intents still reach it exactly.
pub open spec fn planar_mag(rx: int, rz: int) -> int {
    isqrt_up_spec((rx * rx + rz * rz) as nat) as int
}

/// One component of the normalize-and-scale step: zero stays zero, anything
/// else is scaled toward the maximum speed's magnitude.
pub open spec fn steered_component(c: int, m: int) -> int {
    if m == 0 {
        0
    } else {
        div_down(c * MAX_SPEED_MILLI, m)
    }
}

/// The `x` component of the velocity the input resolver writes.
pub open spec fn steered_velocity_x(c: CameraRotation, inp: Vec3Milli) -> int {
    steered_component(rotated_x(c, inp), planar_mag(rotated_x(c, inp), rotated_z(c, inp)))
}

/// The `z` component of the velocity the input resolver writes.
pub open spec fn steered_velocity_z(c: CameraRotation, inp: Vec3Milli) -> int {
    steered_component(rotated_z(c, inp), planar_mag(rotated_x(c, inp), rotated_z(c, inp)))
}

/// The whole velocity the input resolver writes for held keys `k` under
/// camera `c`.
pub open spec fn resolved_velocity(c: CameraRotation, k: KeyState) -> Vec3Milli {
    Vec3Milli {
        x: steered_velocity_x(c, input_vector(k)) as i64,
        y: 0,
        z: steered_velocity_z(c, input_vector(k)) as i64,
    }
}

/// One velocity component after a tick's exponential decay.
pub open spec fn decayed(c: int) -> int {
    div_down(c, DECAY_DIV as int)
}

/// One position component after moving at `v` for `dt` milliseconds.
pub open spec fn moved(p: int, v: int, dt: int) -> int {
    p + div_down(v * dt, 1000)
}

/// The facing the integrator steers toward: the signed angle of the heading
/// `(-v.x, v.z)` from the reference forward axis.
pub open spec fn target_yaw(v: Vec3Milli) -> int {
    atan2_spec(-(v.x as int), v.z as int)
}

/// The divisor that picks the turn step: the fast step above the threshold,
/// the slow step at or below it.
pub open spec fn turn_div(d: int) -> int {
    if abs(d) > TURN_THRESHOLD_MRAD {
        TURN_DIV_FAST as int
    } else {
        TURN_DIV_SLOW as int
    }
}

/// The facing after one tick of steering from `yaw` toward the heading of
/// `v`.
pub open spec fn steered_yaw(yaw: int, v: Vec3Milli) -> int {
    let t = target_yaw(v);
    let d = wrap_mrad_spec(t - yaw);
    wrap_mrad_spec(yaw + div_down(d, turn_div(d)))
}

/// Scaling and truncating never grows the product: the quotient's magnitude
/// times the divisor stays under the scaled magnitude.
proof fn lemma_scaled_quotient(c: int, m: int, k: int)
    requires
        m >= 1,
        k >= 0,
    ensures
        abs(div_down(c * k, m)) * m <= abs(c) * k,
{
    let p = c * k;
    assert(abs(c) * k == abs(p)) by (nonlinear_arith)
        requires
            k >= 0,
            p == c * k,
    ;
    if p >= 0 {
        assert((p / m) * m <= p && 0 <= p / m) by (nonlinear_arith)
            requires
                p >= 0,
                m >= 1,
        ;
    } else {
        assert(((-p) / m) * m <= -p && 0 <= (-p) / m) by (nonlinear_arith)
            requires
                -p >= 0,
                m >= 1,
        ;
    }
}

/// Normalizing against a divisor that covers the vector — its square at
/// least the squared magnitude — keeps the scaled vector's squared magnitude
/// at or below the scale's square.
proof fn lemma_normalized_mag_bound(rx: int, rz: int, m: int, k: int)
    requires
        m >= 1,
        k >= 0,
        rx * rx + rz * rz <= m * m,
    ensures
        div_down(rx * k, m) * div_down(rx * k, m) + div_down(rz * k, m) * div_down(rz * k, m)
            <= k * k,
{
    let a = div_down(rx * k, m);
    let b = div_down(rz * k, m);
    lemma_scaled_quotient(rx, m, k);
    lemma_scaled_quotient(rz, m, k);
    let aa = abs(a) as int;
    let bb = abs(b) as int;
    let u = abs(rx) as int;
    let w = abs(rz) as int;
    assert(u * u == rx * rx && w * w == rz * rz && a * a == aa * aa && b * b == bb * bb)
        by (nonlinear_arith)
        requires
            u == rx || u == -rx,
            w == rz || w == -rz,
            a == aa || a == -aa,
            b == bb || b == -bb,
    ;
    assert(aa * aa * (m * m) <= (u * k) * (u * k)) by (nonlinear_arith)
        requires
            0 <= aa,
            0 <= m,
            aa * m <= u * k,
    ;
    assert(bb * bb * (m * m) <= (w * k) * (w * k)) by (nonlinear_arith)
        requires
            0 <= bb,
            0 <= m,
            bb * m <= w * k,
    ;
    assert((u * k) * (u * k) + (w * k) * (w * k) <= (k * k) * (m * m)) by (nonlinear_arith)
        requires
            0 <= k,
            u * u + w * w <= m * m,
    ;
    assert((aa * aa + bb * bb) * (m * m) == aa * aa * (m * m) + bb * bb * (m * m))
        by (nonlinear_arith);
    assert(aa * aa + bb * bb <= k * k) by (nonlinear_arith)
        requires
            (aa * aa + bb * bb) * (m * m) <= (k * k) * (m * m),
            m >= 1,
    ;
}

/// One row of the fixed-point matrix product, truncated back to fixed point.
fn rotate_component(a: i64, b: i64, c: i64, v: &Vec3Milli) -> (r: i64)
    requires
        -UNIT_MILLI <= a <= UNIT_MILLI,
        -UNIT_MILLI <= b <= UNIT_MILLI,
        -UNIT_MILLI <= c <= UNIT_MILLI,
        -UNIT_MILLI <= v.x <= UNIT_MILLI,
        -UNIT_MILLI <= v.y <= UNIT_MILLI,
        -UNIT_MILLI <= v.z <= UNIT_MILLI,
    ensures
        r == div_down(a * v.x + b * v.y + c * v.z, UNIT_MILLI as int),
        -3 * UNIT_MILLI <= r <= 3 * UNIT_MILLI,
{
    proof {
        assert(-1_000_000 <= a * v.x <= 1_000_000 && -1_000_000 <= b * v.y <= 1_000_000
            && -1_000_000 <= c * v.z <= 1_000_000) by (nonlinear_arith)
            requires
                -1000 <= a <= 1000,
                -1000 <= b <= 1000,
                -1000 <= c <= 1000,
                -1000 <= v.x <= 1000,
                -1000 <= v.y <= 1000,
                -1000 <= v.z <= 1000,
        ;
    }
    let s: i64 = a * v.x + b * v.y + c * v.z;
    let r = div_trunc(s, UNIT_MILLI as u64);
    proof {
        lemma_div_down_abs_le(s as int, UNIT_MILLI as int, 3 * UNIT_MILLI as int);
    }
    r
}

/// One component of normalize-and-scale: `c * MAX_SPEED_MILLI / m`, bounded
/// by the maximum speed whenever `m` dominates `c`.
fn steer_component(c: i64, m: u64) -> (r: i64)
    requires
        1 <= m <= 100_000,
        -100_000 <= c <= 100_000,
        abs(c as int) <= m,
    ensures
        r == steered_component(c as int, m as int),
        -MAX_SPEED_MILLI <= r <= MAX_SPEED_MILLI,
{
    let prod: i64 = c * MAX_SPEED_MILLI;
    let r = div_trunc(prod, m);
    proof {
        assert(abs(prod as int) <= MAX_SPEED_MILLI * (m as int));
        lemma_div_down_abs_le(prod as int, m as int, MAX_SPEED_MILLI as int);
    }
    r
}

/// The input resolver. Accumulates the held keys into an intent vector,
/// rotates it by the camera, projects away the vertical component and scales
/// it to at most the maximum speed, reaching it exactly on axis-aligned
/// intents; a zero intent yields a zero velocity with no normalization. The
/// transform is untouched.
pub fn resolve_keyboard_inputs(p: &mut Player, keys: &KeyState, camera: &CameraRotation)
    requires
        old(p).wf(),
        camera.wf(),
    ensures
        final(p).accumulated_input == input_vector(*keys),
        final(p).velocity == resolved_velocity(*camera, *keys),
        final(p).velocity.x == steered_velocity_x(*camera, input_vector(*keys)),
        final(p).velocity.y == 0,
        final(p).velocity.z == steered_velocity_z(*camera, input_vector(*keys)),
        final(p).velocity.mag_sq() <= MAX_SPEED_MILLI * MAX_SPEED_MILLI,
        final(p).position == old(p).position,
        final(p).yaw_mrad == old(p).yaw_mrad,
        final(p).scale == old(p).scale,
        final(p).wf(),
{
    let mut input = Vec3Milli { x: 0, y: 0, z: 0 };
    if keys.forward {
        input.z = input.z - UNIT_MILLI;
    }
    if keys.back {
        input.z = input.z + UNIT_MILLI;
    }
    if keys.left {
        input.x = input.x - UNIT_MILLI;
    }
    if keys.right {
        input.x = input.x + UNIT_MILLI;
    }
    assert(input == input_vector(*keys));
    p.accumulated_input = input;
    let rx = rotate_component(camera.xx, camera.xy, camera.xz, &input);
    let rz = rotate_component(camera.zx, camera.zy, camera.zz, &input);
    proof {
        assert(0 <= rx * rx <= 9_000_000 && 0 <= rz * rz <= 9_000_000) by (nonlinear_arith)
            requires
                -3000 <= rx <= 3000,
                -3000 <= rz <= 3000,
        ;
    }
    let sq: u64 = ((rx * rx) + (rz * rz)) as u64;
    let m: u64 = isqrt_up(sq);
    proof {
        crate::math::lemma_isqrt_spec_bounds(sq as nat);
        lemma_isqrt_up_bounds(sq as nat);
        assert(crate::math::isqrt_spec(sq as nat) <= 99_999) by (nonlinear_arith)
            requires
                crate::math::isqrt_spec(sq as nat) * crate::math::isqrt_spec(sq as nat)
                    <= 18_000_000,
        ;
    }
    if m == 0 {
        p.velocity = Vec3Milli { x: 0, y: 0, z: 0 };
    } else {
        proof {
            lemma_abs_le_isqrt(rx as int, sq as nat);
            lemma_abs_le_isqrt(rz as int, sq as nat);
            lemma_normalized_mag_bound(rx as int, rz as int, m as int, MAX_SPEED_MILLI as int);
        }
        let vx = steer_component(rx, m);
        let vz = steer_component(rz, m);
        p.velocity = Vec3Milli { x: vx, y: 0, z: vz };
    }
    assert(p.velocity == resolved_velocity(*camera, *keys));
}

/// One position component stepped by `v` for `dt` milliseconds.
fn scaled_step(v: i64, dt: i64) -> (r: i64)
    requires
        -MAX_SPEED_MILLI <= v <= MAX_SPEED_MILLI,
        0 <= dt <= MAX_TICK_MS as i64,
    ensures
        r == div_down(v * dt, 1000),
        -3_000_000_000 <= r <= 3_000_000_000,
{
    proof {
        assert(-3_000_000_000_000 <= v * dt <= 3_000_000_000_000) by (nonlinear_arith)
            requires
                -3000 <= v <= 3000,
                0 <= dt <= 1_000_000_000,
        ;
    }
    let prod: i64 = v * dt;
    let r = div_trunc(prod, 1000);
    proof {
        lemma_div_down_abs_le(prod as int, 1000, 3_000_000_000);
    }
    r
}

/// The velocity integrator. Pins the scale, and while the velocity is
/// non-zero moves the position by velocity times elapsed time and steers the
/// facing toward the direction of travel, with the fast turn step above the
/// angular threshold and the slow step at or below it. The velocity then
/// decays by half, moving or not.
pub fn apply_velocity(p: &mut Player, dt_ms: u64)
    requires
        old(p).wf(),
        dt_ms <= MAX_TICK_MS,
        -POS_LIMIT_MILLI <= old(p).position.x <= POS_LIMIT_MILLI,
        -POS_LIMIT_MILLI <= old(p).position.y <= POS_LIMIT_MILLI,
        -POS_LIMIT_MILLI <= old(p).position.z <= POS_LIMIT_MILLI,
    ensures
        final(p).scale == (Vec3Milli { x: 500, y: 500, z: 1000 }),
        final(p).accumulated_input == old(p).accumulated_input,
        final(p).velocity.x == decayed(old(p).velocity.x as int),
        final(p).velocity.y == 0,
        final(p).velocity.z == decayed(old(p).velocity.z as int),
        4 * final(p).velocity.mag_sq() <= old(p).velocity.mag_sq(),
        old(p).velocity.mag_sq() == 0 ==> final(p).position == old(p).position
            && final(p).yaw_mrad == old(p).yaw_mrad,
        old(p).velocity.mag_sq() != 0 ==> {
            &&& final(p).position.x == moved(old(p).position.x as int, old(p).velocity.x as int, dt_ms as int)
            &&& final(p).position.y == old(p).position.y
            &&& final(p).position.z == moved(old(p).position.z as int, old(p).velocity.z as int, dt_ms as int)
            &&& final(p).yaw_mrad == steered_yaw(old(p).yaw_mrad as int, old(p).velocity)
        },
        final(p).wf(),
{
    p.scale = Vec3Milli { x: 500, y: 500, z: 1000 };
    let vx = p.velocity.x;
    let vz = p.velocity.z;
    proof {
        assert(0 <= vx * vx <= 9_000_000 && 0 <= vz * vz <= 9_000_000) by (nonlinear_arith)
            requires
                -3000 <= vx <= 3000,
                -3000 <= vz <= 3000,
        ;
    }
    let sq: i64 = (vx * vx) + (vz * vz);
    if sq > 0 {
        let dt: i64 = dt_ms as i64;
        p.position.x = p.position.x + scaled_step(vx, dt);
        p.position.z = p.position.z + scaled_step(vz, dt);
        let target = atan2_mrad(-vx, vz);
        let diff = wrap_mrad(target - p.yaw_mrad);
        let adiff: i64 = if diff >= 0 {
            diff
        } else {
            -diff
        };
        let step_div: u64 = if adiff > TURN_THRESHOLD_MRAD {
            TURN_DIV_FAST
        } else {
            TURN_DIV_SLOW
        };
        let step = div_trunc(diff, step_div);
        proof {
            lemma_div_down_abs_le(diff as int, step_div as int, PI_MRAD as int);
        }
        p.yaw_mrad = wrap_mrad(p.yaw_mrad + step);
    }
    let nvx = div_trunc(vx, DECAY_DIV);
    let nvz = div_trunc(vz, DECAY_DIV);
    proof {
        lemma_div_down_abs_le(vx as int, DECAY_DIV as int, MAX_SPEED_MILLI as int);
        lemma_div_down_abs_le(vz as int, DECAY_DIV as int, MAX_SPEED_MILLI as int);
        lemma_quarter_square(vx as int);
        lemma_quarter_square(vz as int);
    }
    p.velocity = Vec3Milli { x: nvx, y: 0, z: nvz };
}

/// One whole frame: the input resolver, then the velocity integrator, in the
/// order the engine runs them.
pub fn tick(p: &mut Player, keys: &KeyState, camera: &CameraRotation, dt_ms: u64)
    requires
        old(p).wf(),
        camera.wf(),
        dt_ms <= MAX_TICK_MS,
        -POS_LIMIT_MILLI <= old(p).position.x <= POS_LIMIT_MILLI,
        -POS_LIMIT_MILLI <= old(p).position.y <= POS_LIMIT_MILLI,
        -POS_LIMIT_MILLI <= old(p).position.z <= POS_LIMIT_MILLI,
    ensures
        final(p).accumulated_input == input_vector(*keys),
        final(p).scale == (Vec3Milli { x: 500, y: 500, z: 1000 }),
        final(p).velocity.x == decayed(resolved_velocity(*camera, *keys).x as int),
        final(p).velocity.y == 0,
        final(p).velocity.z == decayed(resolved_velocity(*camera, *keys).z as int),
        final(p).velocity.mag_sq() <= MAX_SPEED_MILLI * MAX_SPEED_MILLI,
        resolved_velocity(*camera, *keys).mag_sq() == 0 ==> final(p).position == old(p).position
            && final(p).yaw_mrad == old(p).yaw_mrad,
        resolved_velocity(*camera, *keys).mag_sq() != 0 ==> {
            &&& final(p).position.x == moved(
                old(p).position.x as int,
                resolved_velocity(*camera, *keys).x as int,
                dt_ms as int,
            )
            &&& final(p).position.y == old(p).position.y
            &&& final(p).position.z == moved(
                old(p).position.z as int,
                resolved_velocity(*camera, *keys).z as int,
                dt_ms as int,
            )
            &&& final(p).yaw_mrad == steered_yaw(
                old(p).yaw_mrad as int,
                resolved_velocity(*camera, *keys),
            )
        },
        final(p).wf(),
{
    resolve_keyboard_inputs(p, keys, camera);
    apply_velocity(p, dt_ms);
}

/// A zero intent vector yields a zero velocity under every camera rotation:
/// the rotated vector is zero, its magnitude is zero, and the resolver's
/// guard skips normalization instead of dividing by it.
pub proof fn law_zero_input_gives_zero_velocity(camera: CameraRotation)
    ensures
        steered_velocity_x(camera, Vec3Milli { x: 0, y: 0, z: 0 }) == 0,
        steered_velocity_z(camera, Vec3Milli { x: 0, y: 0, z: 0 }) == 0,
{
    let zero = Vec3Milli { x: 0, y: 0, z: 0 };
    assert(camera.xx * zero.x == 0 && camera.xy * zero.y == 0 && camera.xz * zero.z == 0
        && camera.zx * zero.x == 0 && camera.zy * zero.y == 0 && camera.zz * zero.z == 0)
        by (nonlinear_arith)
        requires
            zero.x == 0,
            zero.y == 0,
            zero.z == 0,
    ;
    assert(rotated_x(camera, zero) == 0);
    assert(rotated_z(camera, zero) == 0);
}

/// With no directional key held the resolver writes a zero velocity, so the
/// integrator's guard leaves position and facing exactly as they were: a
/// resting frame does not move the transform.
pub proof fn law_idle_frame_is_still(keys: KeyState, camera: CameraRotation)
    requires
        !keys.forward,
        !keys.back,
        !keys.left,
        !keys.right,
    ensures
        resolved_velocity(camera, keys) == (Vec3Milli { x: 0, y: 0, z: 0 }),
        resolved_velocity(camera, keys).mag_sq() == 0,
{
    assert(input_vector(keys) == (Vec3Milli { x: 0, y: 0, z: 0 }));
    law_zero_input_gives_zero_velocity(camera);
}

/// Each axis of the raw intent is minus one, zero or plus one: the two keys
/// of a pair contribute one unit each and cancel when both are held.
pub proof fn law_input_axis_bounded(keys: KeyState)
    ensures
        -1 <= input_x_units(keys) <= 1,
        -1 <= input_z_units(keys) <= 1,
        keys.right == keys.left ==> input_x_units(keys) == 0,
        keys.forward == keys.back ==> input_z_units(keys) == 0,
{
}

/// Halving an even value is exact.
proof fn lemma_halve_even(a: int)
    requires
        a % 2 == 0,
    ensures
        2 * div_down(a, 2) == a,
{
}

/// While every axis of the velocity is even, one tick's decay scales the
/// squared magnitude by exactly a quarter — that is, the magnitude by
/// exactly the damping factor of one half, whether or not the tick moved the
/// player. (An odd axis truncates toward zero and loses up to half a
/// thousandth of a unit.)
pub proof fn law_decay_scales_magnitude(v: Vec3Milli)
    requires
        v.x as int % 2 == 0,
        v.y as int % 2 == 0,
        v.z as int % 2 == 0,
    ensures
        4 * (decayed(v.x as int) * decayed(v.x as int) + decayed(v.y as int) * decayed(v.y as int)
            + decayed(v.z as int) * decayed(v.z as int)) == v.mag_sq(),
{
    lemma_halve_even(v.x as int);
    lemma_halve_even(v.y as int);
    lemma_halve_even(v.z as int);
    let dx = decayed(v.x as int);
    let dy = decayed(v.y as int);
    let dz = decayed(v.z as int);
    assert(4 * (dx * dx + dy * dy + dz * dz) == v.mag_sq()) by (nonlinear_arith)
        requires
            v.x == 2 * dx,
            v.y == 2 * dy,
            v.z == 2 * dz,
    ;
}

/// For every velocity, even or odd, one tick's decay takes the squared
/// magnitude to at most a quarter: truncation toward zero only loses ground,
/// never gains it.
pub proof fn law_decay_never_grows(v: Vec3Milli)
    ensures
        4 * (decayed(v.x as int) * decayed(v.x as int) + decayed(v.y as int) * decayed(v.y as int)
            + decayed(v.z as int) * decayed(v.z as int)) <= v.mag_sq(),
{
    lemma_quarter_square(v.x as int);
    lemma_quarter_square(v.y as int);
    lemma_quarter_square(v.z as int);
}

/// Four times the square of a truncated half is at most the square.
proof fn lemma_quarter_square(c: int)
    ensures
        4 * (decayed(c) * decayed(c)) <= c * c,
{
    let d = decayed(c);
    assert(4 * (d * d) <= c * c) by (nonlinear_arith)
        requires
            2 * abs(d) <= abs(c),
    ;
}

/// The decay drives every velocity axis strictly toward zero: a zero axis
/// stays zero, a non-zero one strictly shrinks each tick, so the magnitude
/// approaches rest and never grows.
pub proof fn law_decay_shrinks(c: int)
    ensures
        decayed(0) == 0,
        c != 0 ==> abs(decayed(c)) < abs(c),
        abs(decayed(c)) <= abs(c),
{
}

/// Steering is a true interpolation toward the heading of travel: one tick's
/// step never overshoots, so the angular distance to the target facing never
/// grows, whichever step factor the threshold picked.
pub proof fn law_steering_approaches_target(yaw: int, v: Vec3Milli)
    requires
        -PI_MRAD <= yaw <= PI_MRAD,
    ensures
        -PI_MRAD <= steered_yaw(yaw, v) <= PI_MRAD,
        abs(wrap_mrad_spec(target_yaw(v) - steered_yaw(yaw, v))) <= abs(
            wrap_mrad_spec(target_yaw(v) - yaw),
        ),
{
    crate::angle::lemma_atan2_spec_range(-(v.x as int), v.z as int);
    let t = target_yaw(v);
    let d = wrap_mrad_spec(t - yaw);
    let s = div_down(d, turn_div(d));
    if abs(d) > TURN_THRESHOLD_MRAD {
        assert(turn_div(d) == 2);
        assert(s == div_down(d, 2));
    } else {
        assert(turn_div(d) == 20);
        assert(s == div_down(d, 20));
    }
    assert(0 <= d ==> 2 * s <= d && 0 <= s);
    assert(d <= 0 ==> d <= 2 * s && s <= 0);
}

/// The turn step switches exactly at the angular threshold: the fast step
/// applies to any difference strictly above it, the slow step at the
/// threshold and below.
pub proof fn law_turn_step_switches_at_threshold(d: int)
    ensures
        abs(d) > TURN_THRESHOLD_MRAD ==> turn_div(d) == TURN_DIV_FAST,
        abs(d) <= TURN_THRESHOLD_MRAD ==> turn_div(d) == TURN_DIV_SLOW,
        turn_div(TURN_THRESHOLD_MRAD as int) == TURN_DIV_SLOW,
        turn_div(TURN_THRESHOLD_MRAD + 1) == TURN_DIV_FAST,
{
}

} // verus!
