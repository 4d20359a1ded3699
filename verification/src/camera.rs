//! The first-person camera: view state and the controller that
//! integrates accumulated input over elapsed time.
//!
//! All state is fixed point, so integration is exact and
//! frame-rate independence is a theorem rather than a hope:
//! - angles (yaw, pitch) are signed binary angles, `2^32` units per
//!   turn;
//! - `speed` and `sensitivity` are configured in thousandths;
//! - elapsed time enters in microseconds;
//! - positions are kept in fine units of
//!   `1 / (TRIG_SCALE * 1000 * 1000000)` of a world unit, so a
//!   movement step is the plain product
//!   `trig * amount * speed * dt` with no rounding at all.
//!
//! Held keys contribute a level (1 while held) sampled every frame;
//! pointer and scroll input are one-shot deltas consumed by the next
//! [`CameraController::update_camera`] call and then reset, so a frame
//! without new pointer input contributes no rotation.

use vstd::prelude::*;

verus! {

use crate::trig::{TRIG_SCALE, spec_sin_fp, spec_cos_fp, spec_bam_of, sin_fp, cos_fp, bam_of};

/// Upper bound on the pitch angle: a quarter turn (2^30) minus about
/// 0.0001 radians, keeping the look direction away from the vertical
/// singularity where yaw becomes undefined.
pub const PITCH_LIMIT: i64 = 1_073_673_467;

/// Binary-angle units per radian, rounded to the nearest integer:
/// `2^32 / (2*pi)`.
pub const RAD_TO_BAM: i64 = 683_565_276;

/// Largest accepted `speed` (thousandths of a world unit per second).
pub const SPEED_LIMIT: u32 = 1_000_000;

/// Largest accepted `sensitivity` (thousandths).
pub const SENS_LIMIT: u32 = 1_000_000;

/// Largest accepted one-shot rotation accumulator (thousandths of a
/// pixel).
pub const ROT_LIMIT: i64 = 10_000_000;

/// Largest accepted one-shot scroll accumulator (thousandths of a
/// pixel).
pub const SCROLL_LIMIT: i64 = 10_000_000;

/// Largest accepted single pointer-motion delta, in pixels.
pub const MOUSE_LIMIT: i64 = 10_000;

/// Largest accepted integration interval, in microseconds.
pub const DT_LIMIT: u64 = 100_000_000;

/// Largest position magnitude accepted by the integrator, in fine
/// units.
pub const POS_LIMIT: i128 = 1_000_000_000_000_000_000_000_000_000;

/// Largest angle magnitude accepted by the integrator.
pub const ANGLE_LIMIT: i64 = 0x1000_0000_0000_0000;

/// A position in camera fine units, one component per axis.
#[derive(Clone, Copy, PartialEq, Eq, Structural, Debug)]
pub struct Vec3Fine {
    pub x: i128,
    pub y: i128,
    pub z: i128,
}

/// The camera's view state: position in fine units, yaw and pitch as
/// signed binary angles.
#[derive(Clone, Copy, PartialEq, Eq, Structural, Debug)]
pub struct View {
    /// Position in camera fine units.
    pub position: Vec3Fine,
    /// Heading in the horizontal plane, binary angle.
    pub yaw: i64,
    /// Elevation of the look direction, binary angle.
    pub pitch: i64,
}

impl View {
    /// A view at the given position and orientation.
    pub fn new(position: Vec3Fine, yaw: i64, pitch: i64) -> (v: View)
        ensures
            v == (View { position, yaw, pitch }),
    {
        View { position, yaw, pitch }
    }
}

/// The eight logical key actions the camera consumes.
#[derive(Clone, Copy, PartialEq, Eq, Structural, Debug)]
pub enum KeyAction {
    MoveForward,
    MoveBackward,
    MoveLeft,
    MoveRight,
    MoveUp,
    MoveDown,
    /// Keyboard-driven left rotation, half a pixel per sample.
    RotateLeft,
    /// Keyboard-driven right rotation, half a pixel per sample.
    RotateRight,
}

/// Accumulates discrete input into continuous per-frame motion and
/// rotation: six held-key levels, two one-shot rotation deltas, one
/// one-shot scroll delta, and the speed and sensitivity scales.
#[derive(Clone, Copy, PartialEq, Eq, Structural, Debug)]
pub struct CameraController {
    /// 1 while the leftward key is held, else 0.
    pub amount_left: u32,
    /// 1 while the rightward key is held, else 0.
    pub amount_right: u32,
    /// 1 while the forward key is held, else 0.
    pub amount_forward: u32,
    /// 1 while the backward key is held, else 0.
    pub amount_backward: u32,
    /// 1 while the upward key is held, else 0.
    pub amount_up: u32,
    /// 1 while the downward key is held, else 0.
    pub amount_down: u32,
    /// Pending yaw rotation, thousandths of a pixel; consumed once.
    pub rotate_horizontal: i64,
    /// Pending pitch rotation, thousandths of a pixel; consumed once.
    pub rotate_vertical: i64,
    /// Pending scroll, thousandths of a pixel; consumed once.
    pub scroll: i64,
    /// Movement speed, thousandths of a world unit per second.
    pub speed: u32,
    /// Rotation sensitivity, thousandths.
    pub sensitivity: u32,
}

/// Signed integer division truncating toward zero, the rounding used
/// for every consumed one-shot delta.
pub open spec fn spec_trunc_div(a: int, b: int) -> int {
    if a >= 0 {
        a / b
    } else {
        -((-a) / b)
    }
}

/// The binary-angle rotation produced by consuming a rotation
/// accumulator `r` over `dt` microseconds.
pub open spec fn spec_rot_delta(r: int, sens: int, dt: int) -> int {
    spec_trunc_div(r * sens * dt * RAD_TO_BAM, 1_000_000_000_000)
}

/// One held-key movement contribution in fine units: exact, with no
/// division, which is what makes integration additive in `dt`.
pub open spec fn spec_move_term(trig: int, m: int, speed: int, dt: int) -> int {
    trig * m * speed * dt
}

/// One scroll ("zoom") contribution in fine units; `n` is a product of
/// two scaled trig values.
pub open spec fn spec_scroll_term(n: int, scroll: int, speed: int, sens: int, dt: int) -> int {
    spec_trunc_div(n * scroll * speed * sens * dt, 32_768_000_000)
}

/// Pitch clamped to the safe range around the horizontal.
pub open spec fn spec_clamp_pitch(p: int) -> int {
    if p < -PITCH_LIMIT {
        -PITCH_LIMIT as int
    } else if p > PITCH_LIMIT {
        PITCH_LIMIT as int
    } else {
        p
    }
}

/// Net forward level: forward minus backward.
pub open spec fn spec_move_fwd(c: CameraController) -> int {
    c.amount_forward - c.amount_backward
}

/// Net rightward level: right minus left.
pub open spec fn spec_move_lat(c: CameraController) -> int {
    c.amount_right - c.amount_left
}

/// Net upward level: up minus down.
pub open spec fn spec_move_vert(c: CameraController) -> int {
    c.amount_up - c.amount_down
}

/// The x displacement of one integration step: forward motion along
/// `cos(yaw)`, lateral motion along `sin(yaw)`, and the consumed
/// scroll along `cos(pitch) * cos(yaw)`.
pub open spec fn spec_dx(c: CameraController, yaw: int, pitch: int, dt: int) -> int {
    let cy = spec_cos_fp(spec_bam_of(yaw));
    let sy = spec_sin_fp(spec_bam_of(yaw));
    let cp = spec_cos_fp(spec_bam_of(pitch));
    spec_move_term(cy, spec_move_fwd(c), c.speed as int, dt) + spec_move_term(
        sy,
        spec_move_lat(c),
        c.speed as int,
        dt,
    ) + spec_scroll_term(cp * cy, c.scroll as int, c.speed as int, c.sensitivity as int, dt)
}

/// The y displacement of one integration step: the consumed scroll
/// along `sin(pitch)`, and the vertical held-key motion.
pub open spec fn spec_dy(c: CameraController, pitch: int, dt: int) -> int {
    let sp = spec_sin_fp(spec_bam_of(pitch));
    spec_scroll_term(
        sp * (TRIG_SCALE as int),
        c.scroll as int,
        c.speed as int,
        c.sensitivity as int,
        dt,
    ) + spec_move_term(TRIG_SCALE as int, spec_move_vert(c), c.speed as int, dt)
}

/// The z displacement of one integration step: forward motion along
/// `sin(yaw)`, lateral motion along `-cos(yaw)`, and the consumed
/// scroll along `cos(pitch) * sin(yaw)`.
pub open spec fn spec_dz(c: CameraController, yaw: int, pitch: int, dt: int) -> int {
    let cy = spec_cos_fp(spec_bam_of(yaw));
    let sy = spec_sin_fp(spec_bam_of(yaw));
    let cp = spec_cos_fp(spec_bam_of(pitch));
    spec_move_term(sy, spec_move_fwd(c), c.speed as int, dt) + spec_move_term(
        -cy,
        spec_move_lat(c),
        c.speed as int,
        dt,
    ) + spec_scroll_term(cp * sy, c.scroll as int, c.speed as int, c.sensitivity as int, dt)
}

/// The yaw rotation of one integration step.
pub open spec fn spec_dyaw(c: CameraController, dt: int) -> int {
    spec_rot_delta(c.rotate_horizontal as int, c.sensitivity as int, dt)
}

/// The pitch after one integration step: rotated, then clamped.
pub open spec fn spec_new_pitch(c: CameraController, pitch: int, dt: int) -> int {
    spec_clamp_pitch(pitch + spec_rot_delta(c.rotate_vertical as int, c.sensitivity as int, dt))
}

/// The controller state a key event leaves behind: held-key levels
/// follow the key's press state; the rotation keys write a half-pixel
/// one-shot delta instead.
pub open spec fn spec_controller_after_key(
    c: CameraController,
    key: KeyAction,
    pressed: bool,
) -> CameraController {
    let amount: u32 = if pressed {
        1
    } else {
        0
    };
    match key {
        KeyAction::MoveForward => CameraController { amount_forward: amount, ..c },
        KeyAction::MoveBackward => CameraController { amount_backward: amount, ..c },
        KeyAction::MoveLeft => CameraController { amount_left: amount, ..c },
        KeyAction::MoveRight => CameraController { amount_right: amount, ..c },
        KeyAction::MoveUp => CameraController { amount_up: amount, ..c },
        KeyAction::MoveDown => CameraController { amount_down: amount, ..c },
        KeyAction::RotateLeft => CameraController {
            rotate_horizontal: (500 * amount) as i64,
            ..c
        },
        KeyAction::RotateRight => CameraController {
            rotate_horizontal: (-500 * amount) as i64,
            ..c
        },
    }
}

/// Whether a key action feeds a held movement level (the rotation
/// keys feed a one-shot delta instead).
pub open spec fn spec_key_is_movement(key: KeyAction) -> bool {
    !(key == KeyAction::RotateLeft || key == KeyAction::RotateRight)
}

impl CameraController {
    /// Every level and accumulator within its documented range.
    pub open spec fn wf(&self) -> bool {
        &&& self.amount_left <= 1
        &&& self.amount_right <= 1
        &&& self.amount_forward <= 1
        &&& self.amount_backward <= 1
        &&& self.amount_up <= 1
        &&& self.amount_down <= 1
        &&& -ROT_LIMIT <= self.rotate_horizontal <= ROT_LIMIT
        &&& -ROT_LIMIT <= self.rotate_vertical <= ROT_LIMIT
        &&& -SCROLL_LIMIT <= self.scroll <= SCROLL_LIMIT
        &&& self.speed <= SPEED_LIMIT
        &&& self.sensitivity <= SENS_LIMIT
    }

    /// A controller at rest with the given speed and sensitivity.
    pub fn new(speed: u32, sensitivity: u32) -> (c: CameraController)
        requires
            speed <= SPEED_LIMIT,
            sensitivity <= SENS_LIMIT,
        ensures
            c == (CameraController {
                amount_left: 0,
                amount_right: 0,
                amount_forward: 0,
                amount_backward: 0,
                amount_up: 0,
                amount_down: 0,
                rotate_horizontal: 0,
                rotate_vertical: 0,
                scroll: 0,
                speed,
                sensitivity,
            }),
            c.wf(),
    {
        CameraController {
            amount_left: 0,
            amount_right: 0,
            amount_forward: 0,
            amount_backward: 0,
            amount_up: 0,
            amount_down: 0,
            rotate_horizontal: 0,
            rotate_vertical: 0,
            scroll: 0,
            speed,
            sensitivity,
        }
    }

    /// Feeds one key press or release; returns whether the key was a
    /// movement key.  A held movement key contributes a level of 1
    /// until its release; the rotation keys write a one-shot delta.
    pub fn process_keyboard(&mut self, key: KeyAction, pressed: bool) -> (r: bool)
        requires
            old(self).wf(),
        ensures
            *final(self) == spec_controller_after_key(*old(self), key, pressed),
            final(self).wf(),
            r == spec_key_is_movement(key),
    {
        let amount: u32 = if pressed {
            1
        } else {
            0
        };
        match key {
            KeyAction::MoveForward => {
                self.amount_forward = amount;
                true
            },
            KeyAction::MoveBackward => {
                self.amount_backward = amount;
                true
            },
            KeyAction::MoveLeft => {
                self.amount_left = amount;
                true
            },
            KeyAction::MoveRight => {
                self.amount_right = amount;
                true
            },
            KeyAction::MoveUp => {
                self.amount_up = amount;
                true
            },
            KeyAction::MoveDown => {
                self.amount_down = amount;
                true
            },
            KeyAction::RotateLeft => {
                let rot: i64 = 500 * amount as i64;
                self.rotate_horizontal = rot;
                false
            },
            KeyAction::RotateRight => {
                let rot: i64 = 500 * amount as i64;
                self.rotate_horizontal = -rot;
                false
            },
        }
    }

    /// Feeds one pointer-motion sample of `dx`, `dy` pixels: writes
    /// the one-shot rotation deltas (negated, in thousandths of a
    /// pixel), overwriting any unconsumed previous sample.
    pub fn process_mouse(&mut self, dx: i64, dy: i64)
        requires
            old(self).wf(),
            -MOUSE_LIMIT <= dx <= MOUSE_LIMIT,
            -MOUSE_LIMIT <= dy <= MOUSE_LIMIT,
        ensures
            *final(self) == (CameraController {
                rotate_horizontal: (-dx * 1000) as i64,
                rotate_vertical: (-dy * 1000) as i64,
                ..*old(self)
            }),
            final(self).wf(),
    {
        self.rotate_horizontal = -dx * 1000;
        self.rotate_vertical = -dy * 1000;
    }

    /// Feeds one scroll sample of `delta` thousandths of a pixel:
    /// writes the one-shot scroll delta (negated), overwriting any
    /// unconsumed previous sample.
    pub fn process_scroll(&mut self, delta: i64)
        requires
            old(self).wf(),
            -SCROLL_LIMIT <= delta <= SCROLL_LIMIT,
        ensures
            *final(self) == (CameraController { scroll: (-delta) as i64, ..*old(self) }),
            final(self).wf(),
    {
        self.scroll = -delta;
    }

    /// Integrates the view over `dt` microseconds: held-key movement
    /// along the heading, the consumed scroll along the look
    /// direction, vertical movement, then rotation from the consumed
    /// pointer deltas, with pitch clamped to the safe range.  The
    /// one-shot accumulators are reset; held-key levels persist.
    pub fn update_camera(&mut self, view: &mut View, dt: u64)
        requires
            old(self).wf(),
            dt <= DT_LIMIT,
            -ANGLE_LIMIT <= old(view).yaw <= ANGLE_LIMIT,
            -ANGLE_LIMIT <= old(view).pitch <= ANGLE_LIMIT,
            -POS_LIMIT <= old(view).position.x <= POS_LIMIT,
            -POS_LIMIT <= old(view).position.y <= POS_LIMIT,
            -POS_LIMIT <= old(view).position.z <= POS_LIMIT,
        ensures
            final(view).position.x == old(view).position.x + spec_dx(
                *old(self),
                old(view).yaw as int,
                old(view).pitch as int,
                dt as int,
            ),
            final(view).position.y == old(view).position.y + spec_dy(
                *old(self),
                old(view).pitch as int,
                dt as int,
            ),
            final(view).position.z == old(view).position.z + spec_dz(
                *old(self),
                old(view).yaw as int,
                old(view).pitch as int,
                dt as int,
            ),
            final(view).yaw == old(view).yaw + spec_dyaw(*old(self), dt as int),
            final(view).pitch == spec_new_pitch(*old(self), old(view).pitch as int, dt as int),
            -PITCH_LIMIT <= final(view).pitch <= PITCH_LIMIT,
            *final(self) == (CameraController {
                rotate_horizontal: 0,
                rotate_vertical: 0,
                scroll: 0,
                ..*old(self)
            }),
            final(self).wf(),
    {
        let yaw_bam = bam_of(view.yaw);
        let pitch_bam = bam_of(view.pitch);
        let cy = cos_fp(yaw_bam);
        let sy = sin_fp(yaw_bam);
        let cp = cos_fp(pitch_bam);
        let sp = sin_fp(pitch_bam);

        let mf: i64 = self.amount_forward as i64 - self.amount_backward as i64;
        let ml: i64 = self.amount_right as i64 - self.amount_left as i64;
        let mv: i64 = self.amount_up as i64 - self.amount_down as i64;

        proof {
            assert(-0x1_0000_0000i64 < cp * cy < 0x1_0000_0000 && -0x1_0000_0000i64 < cp * sy
                < 0x1_0000_0000 && -0x1_0000_0000i64 < sp * TRIG_SCALE < 0x1_0000_0000)
                by (nonlinear_arith)
                requires
                    -51476 <= cp <= 51476,
                    -51476 <= cy <= 51476,
                    -51476 <= sy <= 51476,
                    -51476 <= sp <= 51476,
                    TRIG_SCALE == 32768,
            ;
        }
        let nx: i64 = cp * cy;
        let ny: i64 = sp * TRIG_SCALE;
        let nz: i64 = cp * sy;

        let fwd_x = move_term(cy, mf, self.speed, dt);
        let fwd_z = move_term(sy, mf, self.speed, dt);
        let lat_x = move_term(sy, ml, self.speed, dt);
        let lat_z = move_term(-cy, ml, self.speed, dt);
        let up_y = move_term(32768, mv, self.speed, dt);
        let scr_x = scroll_term(nx, self.scroll, self.speed, self.sensitivity, dt);
        let scr_y = scroll_term(ny, self.scroll, self.speed, self.sensitivity, dt);
        let scr_z = scroll_term(nz, self.scroll, self.speed, self.sensitivity, dt);

        view.position.x = view.position.x + fwd_x + lat_x + scr_x;
        view.position.y = view.position.y + scr_y + up_y;
        view.position.z = view.position.z + fwd_z + lat_z + scr_z;
        self.scroll = 0;

        let dyaw = rot_delta(self.rotate_horizontal, self.sensitivity, dt);
        let dpitch = rot_delta(self.rotate_vertical, self.sensitivity, dt);
        view.yaw = view.yaw + dyaw;
        view.pitch = view.pitch + dpitch;
        self.rotate_horizontal = 0;
        self.rotate_vertical = 0;

        if view.pitch < -PITCH_LIMIT {
            view.pitch = -PITCH_LIMIT;
        } else if view.pitch > PITCH_LIMIT {
            view.pitch = PITCH_LIMIT;
        }
    }
}

/// One held-key movement contribution, computed exactly in wide
/// integers.
fn move_term(trig: i64, m: i64, speed: u32, dt: u64) -> (t: i128)
    requires
        -65536 <= trig <= 65536,
        -1 <= m <= 1,
        speed <= SPEED_LIMIT,
        dt <= DT_LIMIT,
    ensures
        t == spec_move_term(trig as int, m as int, speed as int, dt as int),
        -0x8000_0000_0000_0000_0000i128 <= t <= 0x8000_0000_0000_0000_0000i128,
{
    proof {
        let a = (trig as int) * (m as int);
        let b = a * (speed as int);
        let c = b * (dt as int);
        assert(-65536 <= a <= 65536 && -0x1_0000_0000_0000i128 <= b <= 0x1_0000_0000_0000i128
            && -0x8000_0000_0000_0000_0000i128 <= c <= 0x8000_0000_0000_0000_0000i128)
            by (nonlinear_arith)
            requires
                a == trig * m,
                b == a * speed,
                c == b * dt,
                -65536 <= trig <= 65536,
                -1 <= m <= 1,
                0 <= speed <= 1_000_000,
                0 <= dt <= 100_000_000,
        ;
    }
    (trig as i128) * (m as i128) * (speed as i128) * (dt as i128)
}

/// One scroll contribution: the wide product divided (truncating
/// toward zero) by the trig scale and the microsecond scale.
fn scroll_term(n: i64, scroll: i64, speed: u32, sens: u32, dt: u64) -> (t: i128)
    requires
        -0x1_0000_0000 <= n <= 0x1_0000_0000,
        -SCROLL_LIMIT <= scroll <= SCROLL_LIMIT,
        speed <= SPEED_LIMIT,
        sens <= SENS_LIMIT,
        dt <= DT_LIMIT,
    ensures
        t == spec_scroll_term(n as int, scroll as int, speed as int, sens as int, dt as int),
        -POS_LIMIT <= t <= POS_LIMIT,
{
    proof {
        let a = (n as int) * (scroll as int);
        let b = a * (speed as int);
        let c = b * (sens as int);
        let d = c * (dt as int);
        let lim_a = 0x1_0000_0000int * 10_000_000;
        let lim_b = lim_a * 1_000_000;
        let lim_c = lim_b * 1_000_000;
        let lim_d = lim_c * 100_000_000;
        assert(-lim_a <= a <= lim_a && -lim_b <= b <= lim_b && -lim_c <= c <= lim_c && -lim_d <= d
            <= lim_d && lim_d < 0x7fff_ffff_ffff_ffff_ffff_ffff_ffff_ffffi128)
            by (nonlinear_arith)
            requires
                a == n * scroll,
                b == a * speed,
                c == b * sens,
                d == c * dt,
                lim_a == 0x1_0000_0000int * 10_000_000,
                lim_b == lim_a * 1_000_000,
                lim_c == lim_b * 1_000_000,
                lim_d == lim_c * 100_000_000,
                -0x1_0000_0000 <= n <= 0x1_0000_0000,
                -10_000_000 <= scroll <= 10_000_000,
                0 <= speed <= 1_000_000,
                0 <= sens <= 1_000_000,
                0 <= dt <= 100_000_000,
        ;
    }
    let num: i128 = (n as i128) * (scroll as i128) * (speed as i128) * (sens as i128) * (
    dt as i128);
    let t: i128 = if num >= 0 {
        proof {
            lemma_trunc_div_bound(num as int, 32_768_000_000);
        }
        ((num as u128) / 32_768_000_000) as i128
    } else {
        proof {
            lemma_trunc_div_bound(-num as int, 32_768_000_000);
        }
        -((((-num) as u128) / 32_768_000_000) as i128)
    };
    t
}

/// The binary-angle rotation from consuming one rotation accumulator.
fn rot_delta(r: i64, sens: u32, dt: u64) -> (d: i64)
    requires
        -ROT_LIMIT <= r <= ROT_LIMIT,
        sens <= SENS_LIMIT,
        dt <= DT_LIMIT,
    ensures
        d == spec_rot_delta(r as int, sens as int, dt as int),
        -700_000_000_000_000_000 <= d <= 700_000_000_000_000_000,
{
    proof {
        let a = (r as int) * (sens as int);
        let b = a * (dt as int);
        let c = b * (RAD_TO_BAM as int);
        let lim_a = 10_000_000int * 1_000_000;
        let lim_b = lim_a * 100_000_000;
        let lim_c = lim_b * 683_565_276;
        assert(-lim_a <= a <= lim_a && -lim_b <= b <= lim_b && -lim_c <= c <= lim_c)
            by (nonlinear_arith)
            requires
                a == r * sens,
                b == a * dt,
                c == b * RAD_TO_BAM,
                lim_a == 10_000_000int * 1_000_000,
                lim_b == lim_a * 100_000_000,
                lim_c == lim_b * 683_565_276,
                -10_000_000 <= r <= 10_000_000,
                0 <= sens <= 1_000_000,
                0 <= dt <= 100_000_000,
                RAD_TO_BAM == 683_565_276,
        ;
    }
    let num: i128 = (r as i128) * (sens as i128) * (dt as i128) * (RAD_TO_BAM as i128);
    if num >= 0 {
        proof {
            lemma_trunc_div_bound(num as int, 1_000_000_000_000);
        }
        ((num as u128) / 1_000_000_000_000) as i64
    } else {
        proof {
            lemma_trunc_div_bound(-num as int, 1_000_000_000_000);
        }
        -((((-num) as u128) / 1_000_000_000_000) as i64)
    }
}

/// Dividing a nonnegative number by a positive divisor shrinks it.
proof fn lemma_trunc_div_bound(a: int, b: int)
    requires
        a >= 0,
        b >= 1,
    ensures
        0 <= a / b <= a,
{
    vstd::arithmetic::div_mod::lemma_div_pos_is_pos(a, b);
    vstd::arithmetic::div_mod::lemma_div_nonincreasing(a, b);
}

/// Frame-rate independence: with no pending one-shot input, one
/// integration step over `dt1 + dt2` displaces the camera exactly as
/// two consecutive steps over `dt1` and then `dt2`, and leaves yaw,
/// pitch, and the controller unchanged between steps.
pub proof fn lemma_frame_rate_independence(
    c: CameraController,
    yaw: int,
    pitch: int,
    dt1: int,
    dt2: int,
)
    requires
        c.rotate_horizontal == 0,
        c.rotate_vertical == 0,
        c.scroll == 0,
        -PITCH_LIMIT <= pitch <= PITCH_LIMIT,
    ensures
        spec_dyaw(c, dt1) == 0,
        spec_new_pitch(c, pitch, dt1) == pitch,
        spec_dx(c, yaw, pitch, dt1) + spec_dx(c, yaw, pitch, dt2) == spec_dx(
            c,
            yaw,
            pitch,
            dt1 + dt2,
        ),
        spec_dy(c, pitch, dt1) + spec_dy(c, pitch, dt2) == spec_dy(c, pitch, dt1 + dt2),
        spec_dz(c, yaw, pitch, dt1) + spec_dz(c, yaw, pitch, dt2) == spec_dz(
            c,
            yaw,
            pitch,
            dt1 + dt2,
        ),
{
    let cy = spec_cos_fp(spec_bam_of(yaw));
    let sy = spec_sin_fp(spec_bam_of(yaw));
    let cp = spec_cos_fp(spec_bam_of(pitch));
    let sp = spec_sin_fp(spec_bam_of(pitch));
    let sens = c.sensitivity as int;
    let speed = c.speed as int;

    lemma_rot_delta_zero(sens, dt1);
    lemma_rot_delta_zero(sens, dt2);
    lemma_scroll_term_zero(cp * cy, speed, sens, dt1);
    lemma_scroll_term_zero(cp * cy, speed, sens, dt2);
    lemma_scroll_term_zero(cp * cy, speed, sens, dt1 + dt2);
    lemma_scroll_term_zero(cp * sy, speed, sens, dt1);
    lemma_scroll_term_zero(cp * sy, speed, sens, dt2);
    lemma_scroll_term_zero(cp * sy, speed, sens, dt1 + dt2);
    lemma_scroll_term_zero(sp * (TRIG_SCALE as int), speed, sens, dt1);
    lemma_scroll_term_zero(sp * (TRIG_SCALE as int), speed, sens, dt2);
    lemma_scroll_term_zero(sp * (TRIG_SCALE as int), speed, sens, dt1 + dt2);

    lemma_move_term_additive(cy, spec_move_fwd(c), speed, dt1, dt2);
    lemma_move_term_additive(sy, spec_move_fwd(c), speed, dt1, dt2);
    lemma_move_term_additive(sy, spec_move_lat(c), speed, dt1, dt2);
    lemma_move_term_additive(-cy, spec_move_lat(c), speed, dt1, dt2);
    lemma_move_term_additive(TRIG_SCALE as int, spec_move_vert(c), speed, dt1, dt2);
}

/// A rotation accumulator of zero produces no rotation.
proof fn lemma_rot_delta_zero(sens: int, dt: int)
    ensures
        spec_rot_delta(0, sens, dt) == 0,
{
    assert(0int * sens * dt * RAD_TO_BAM == 0) by (nonlinear_arith);
    vstd::arithmetic::div_mod::lemma_div_of0(1_000_000_000_000);
}

/// A scroll accumulator of zero produces no displacement.
proof fn lemma_scroll_term_zero(n: int, speed: int, sens: int, dt: int)
    ensures
        spec_scroll_term(n, 0, speed, sens, dt) == 0,
{
    assert(n * 0 * speed * sens * dt == 0) by (nonlinear_arith);
    vstd::arithmetic::div_mod::lemma_div_of0(32_768_000_000);
}

/// Movement terms are additive in elapsed time: the heart of
/// frame-rate independence.
proof fn lemma_move_term_additive(trig: int, m: int, speed: int, dt1: int, dt2: int)
    ensures
        spec_move_term(trig, m, speed, dt1) + spec_move_term(trig, m, speed, dt2)
            == spec_move_term(trig, m, speed, dt1 + dt2),
{
    assert(trig * m * speed * dt1 + trig * m * speed * dt2 == trig * m * speed * (dt1 + dt2))
        by (nonlinear_arith);
}

} // verus!
