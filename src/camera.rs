use vstd::prelude::*;
use vstd::arithmetic::div_mod::{
    lemma_add_mod_noop_right, lemma_fundamental_div_mod, lemma_fundamental_div_mod_converse,
    lemma_mod_multiples_vanish, lemma_mod_pos_bound,
};

verus! {

/// Angles are kept as binary angles: a full turn is `2^32` units, so the yaw
/// wraps exactly and every angle has one canonical representative.
pub const FULL_TURN: u64 = 0x1_0000_0000;

pub const QUARTER_TURN: i64 = 0x4000_0000;

/// The largest pitch magnitude: a quarter turn less 0.0001 radian, so the
/// camera never looks straight up or down.
pub const PITCH_LIMIT: i64 = 1073673467;

/// Angle units in one radian, rounded (`2^32 / 2π`).
pub const UNITS_PER_RADIAN: u32 = 683565276;

/// The yaw of a fresh camera: three quarters of a turn, that is -90°, which
/// looks down `-z`.
pub const DEFAULT_YAW: u32 = 0xC000_0000;

pub const DEFAULT_FOVY_DEGREES: u32 = 90;

/// Movement speed of a fresh controller, in millionths of a world unit per
/// second (2.5 units per second).
pub const DEFAULT_SPEED: u64 = 2_500_000;

/// Mouse motion is counted in 1/256 of a pixel, so fractional deltas from
/// high-resolution devices are kept.
pub const SUBPIXELS_PER_PIXEL: u32 = 256;

/// Turn rate of a fresh controller, in angle units per pixel of mouse motion
/// per second (one radian).
pub const DEFAULT_SENSITIVITY: u32 = UNITS_PER_RADIAN;

/// A movement key, as the window layer reports it.
#[derive(Clone, Copy, Debug, PartialEq, Eq)]
pub enum Key {
    Forward,
    Backward,
    Left,
    Right,
    /// Any key that moves nothing.
    Unbound,
}

/// The orientation of a first-person camera.
#[derive(Clone, Copy, Debug, PartialEq, Eq)]
pub struct Camera {
    /// Heading in angle units, in `[0, FULL_TURN)`.
    pub yaw: u32,
    /// Elevation in angle units, within `±PITCH_LIMIT`.
    pub pitch: i32,
    pub fovy_degrees: u32,
}

/// Input state that the next `update` turns into motion.
#[derive(Clone, Copy, Debug, PartialEq, Eq)]
pub struct CameraController {
    pub left: bool,
    pub right: bool,
    pub forward: bool,
    pub backward: bool,
    /// Pending mouse motion, in 1/256 of a pixel; the last report wins.
    pub rotate_horizontal: i32,
    pub rotate_vertical: i32,
    /// Millionths of a world unit per second.
    pub speed: u64,
    /// Angle units per pixel per second.
    pub sensitivity: u32,
}

/// A camera together with the controller that drives it.
#[derive(Clone, Copy, Debug, PartialEq, Eq)]
pub struct CameraWrapper {
    pub camera: Camera,
    pub camera_controller: CameraController,
}

/// How far the camera moves in one update, in millionths of a world unit,
/// along the front and right vectors that held before the update.
#[derive(Clone, Copy, Debug, PartialEq, Eq)]
pub struct Motion {
    pub forward: i128,
    pub right: i128,
}

impl Camera {
    pub open spec fn wf(self) -> bool {
        -PITCH_LIMIT <= self.pitch <= PITCH_LIMIT
    }
}

impl CameraWrapper {
    pub open spec fn wf(self) -> bool {
        self.camera.wf()
    }
}

/// The angle that `px` sub-pixels of mouse motion turn in `dt_us`
/// microseconds (the sensitivity counts whole pixels, so the product is
/// divided by `SUBPIXELS_PER_PIXEL` as well as by a million):
/// rounded towards zero, the same for both directions.
pub open spec fn turn(px: int, sensitivity: int, dt_us: int) -> int {
    if px >= 0 {
        (px * sensitivity * dt_us) / 256_000_000
    } else {
        -(((-px) * sensitivity * dt_us) / 256_000_000)
    }
}

/// The canonical representative of an angle, in `[0, FULL_TURN)`.
pub open spec fn wrap_yaw(a: int) -> int {
    a % (FULL_TURN as int)
}

pub open spec fn clamp_pitch(p: int) -> int {
    if p < -PITCH_LIMIT {
        -PITCH_LIMIT as int
    } else if p > PITCH_LIMIT {
        PITCH_LIMIT as int
    } else {
        p
    }
}

/// +1, -1 or 0: which way a pair of opposed keys pushes.
pub open spec fn axis(positive: bool, negative: bool) -> int {
    (if positive { 1int } else { 0int }) - (if negative { 1int } else { 0int })
}

/// Distance covered at `speed` in `dt_us` microseconds, rounded down.
pub open spec fn travel(speed: int, dt_us: int) -> int {
    (speed * dt_us) / 1_000_000
}

/// The state of `c` after it has been advanced by `dt_us` microseconds
/// under `ctl`.
pub open spec fn turned(c: Camera, ctl: CameraController, dt_us: int) -> (Camera, CameraController) {
    (
        Camera {
            yaw: wrap_yaw(c.yaw + turn(ctl.rotate_horizontal as int, ctl.sensitivity as int, dt_us))
                as u32,
            pitch: clamp_pitch(
                c.pitch - turn(ctl.rotate_vertical as int, ctl.sensitivity as int, dt_us),
            ) as i32,
            ..c
        },
        CameraController { rotate_horizontal: 0, rotate_vertical: 0, ..ctl },
    )
}

impl Camera {
    pub fn default() -> (c: Camera)
        ensures
            c.wf(),
            c.yaw == DEFAULT_YAW,
            c.pitch == 0,
            c.fovy_degrees == DEFAULT_FOVY_DEGREES,
    {
        Camera { yaw: DEFAULT_YAW, pitch: 0, fovy_degrees: DEFAULT_FOVY_DEGREES }
    }
}

impl CameraController {
    pub fn default() -> (c: CameraController)
        ensures
            !c.left && !c.right && !c.forward && !c.backward,
            c.rotate_horizontal == 0,
            c.rotate_vertical == 0,
            c.speed == DEFAULT_SPEED,
            c.sensitivity == DEFAULT_SENSITIVITY,
    {
        CameraController {
            left: false,
            right: false,
            forward: false,
            backward: false,
            rotate_horizontal: 0,
            rotate_vertical: 0,
            speed: DEFAULT_SPEED,
            sensitivity: DEFAULT_SENSITIVITY,
        }
    }

    /// Holds or releases the direction that `key` stands for; other keys
    /// change nothing.
    pub fn handle_keyboard(&mut self, key: Key, pressed: bool)
        ensures
            *final(self) == (match key {
                Key::Forward => CameraController { forward: pressed, ..*old(self) },
                Key::Backward => CameraController { backward: pressed, ..*old(self) },
                Key::Left => CameraController { left: pressed, ..*old(self) },
                Key::Right => CameraController { right: pressed, ..*old(self) },
                Key::Unbound => *old(self),
            }),
    {
        match key {
            Key::Forward => {
                self.forward = pressed;
            },
            Key::Backward => {
                self.backward = pressed;
            },
            Key::Left => {
                self.left = pressed;
            },
            Key::Right => {
                self.right = pressed;
            },
            Key::Unbound => {},
        }
    }

    /// Records mouse motion for the next update, replacing what was pending.
    pub fn handle_mouse_motion(&mut self, dx: i32, dy: i32)
        ensures
            *final(self) == (CameraController {
                rotate_horizontal: dx,
                rotate_vertical: dy,
                ..*old(self)
            }),
    {
        self.rotate_horizontal = dx;
        self.rotate_vertical = dy;
    }

    /// Advances `camera` by `dt_us` microseconds: returns the distance to
    /// move along the old front and right vectors, turns the camera by the
    /// pending mouse motion (yaw wrapped into a turn, pitch clamped to
    /// `±PITCH_LIMIT`) and clears that motion.
    pub fn update_camera(&mut self, camera: &mut Camera, dt_us: u64) -> (m: Motion)
        requires
            old(camera).wf(),
        ensures
            final(camera).wf(),
            (*final(camera), *final(self)) == turned(*old(camera), *old(self), dt_us as int),
            m.forward == axis(old(self).forward, old(self).backward) * travel(
                old(self).speed as int,
                dt_us as int,
            ),
            m.right == axis(old(self).right, old(self).left) * travel(
                old(self).speed as int,
                dt_us as int,
            ),
    {
        let dist = travel_exec(self.speed, dt_us);
        let forward: i128 = if self.forward == self.backward {
            0
        } else if self.forward {
            dist as i128
        } else {
            -(dist as i128)
        };
        let right: i128 = if self.right == self.left {
            0
        } else if self.right {
            dist as i128
        } else {
            -(dist as i128)
        };
        proof {
            let t = travel(self.speed as int, dt_us as int);
            let a = axis(self.forward, self.backward);
            let b = axis(self.right, self.left);
            assert(a == 0 ==> a * t == 0);
            assert(a == 1 ==> a * t == t);
            assert(a == -1 ==> a * t == -t);
            assert(b == 0 ==> b * t == 0);
            assert(b == 1 ==> b * t == t);
            assert(b == -1 ==> b * t == -t);
        }
        camera.yaw = turn_yaw(camera.yaw, self.rotate_horizontal, self.sensitivity, dt_us);
        camera.pitch = turn_pitch(camera.pitch, self.rotate_vertical, self.sensitivity, dt_us);
        self.rotate_horizontal = 0;
        self.rotate_vertical = 0;
        Motion { forward, right }
    }
}

impl CameraWrapper {
    /// A camera at the default orientation, with no key held and no
    /// motion pending.
    pub open spec fn spec_default() -> CameraWrapper {
        CameraWrapper {
            camera: Camera { yaw: DEFAULT_YAW, pitch: 0, fovy_degrees: DEFAULT_FOVY_DEGREES },
            camera_controller: CameraController {
                left: false,
                right: false,
                forward: false,
                backward: false,
                rotate_horizontal: 0,
                rotate_vertical: 0,
                speed: DEFAULT_SPEED,
                sensitivity: DEFAULT_SENSITIVITY,
            },
        }
    }

    pub fn default() -> (w: CameraWrapper)
        ensures
            w.wf(),
            w == CameraWrapper::spec_default(),
    {
        CameraWrapper { camera: Camera::default(), camera_controller: CameraController::default() }
    }

    /// Advances the camera by `dt_us` microseconds (see
    /// `CameraController::update_camera`).
    pub fn update(&mut self, dt_us: u64) -> (m: Motion)
        requires
            old(self).wf(),
        ensures
            final(self).wf(),
            (final(self).camera, final(self).camera_controller) == turned(
                old(self).camera,
                old(self).camera_controller,
                dt_us as int,
            ),
            m.forward == axis(
                old(self).camera_controller.forward,
                old(self).camera_controller.backward,
            ) * travel(old(self).camera_controller.speed as int, dt_us as int),
            m.right == axis(old(self).camera_controller.right, old(self).camera_controller.left)
                * travel(old(self).camera_controller.speed as int, dt_us as int),
    {
        self.camera_controller.update_camera(&mut self.camera, dt_us)
    }

    pub fn handle_mouse_motion(&mut self, dx: i32, dy: i32)
        ensures
            final(self).camera == old(self).camera,
            final(self).camera_controller == (CameraController {
                rotate_horizontal: dx,
                rotate_vertical: dy,
                ..old(self).camera_controller
            }),
    {
        self.camera_controller.handle_mouse_motion(dx, dy);
    }

    pub fn handle_keyboard(&mut self, key: Key, pressed: bool)
        ensures
            final(self).camera == old(self).camera,
            final(self).camera_controller == (match key {
                Key::Forward => CameraController {
                    forward: pressed,
                    ..old(self).camera_controller
                },
                Key::Backward => CameraController {
                    backward: pressed,
                    ..old(self).camera_controller
                },
                Key::Left => CameraController { left: pressed, ..old(self).camera_controller },
                Key::Right => CameraController { right: pressed, ..old(self).camera_controller },
                Key::Unbound => old(self).camera_controller,
            }),
    {
        self.camera_controller.handle_keyboard(key, pressed);
    }
}

/// The camera after a run of frames: before frame `i` the mouse reports
/// `moves[i].0` and `moves[i].1` sub-pixels, then the frame lasts `moves[i].2`
/// microseconds.
pub open spec fn replay(c: Camera, ctl: CameraController, moves: Seq<(i32, i32, u64)>) -> Camera
    decreases moves.len(),
{
    if moves.len() == 0 {
        c
    } else {
        let step = turned(
            c,
            CameraController {
                rotate_horizontal: moves[0].0,
                rotate_vertical: moves[0].1,
                ..ctl
            },
            moves[0].2 as int,
        );
        replay(step.0, step.1, moves.drop_first())
    }
}

/// The sum of the horizontal turns of a run of frames.
pub open spec fn total_turn(sensitivity: int, moves: Seq<(i32, i32, u64)>) -> int
    decreases moves.len(),
{
    if moves.len() == 0 {
        0
    } else {
        turn(moves[0].0 as int, sensitivity, moves[0].2 as int) + total_turn(
            sensitivity,
            moves.drop_first(),
        )
    }
}

/// However the mouse moves, the pitch stays strictly between a quarter turn
/// down and a quarter turn up: the camera never looks straight up or down.
pub proof fn lemma_pitch_never_vertical(
    c: Camera,
    ctl: CameraController,
    moves: Seq<(i32, i32, u64)>,
)
    requires
        c.wf(),
    ensures
        replay(c, ctl, moves).wf(),
        -QUARTER_TURN < replay(c, ctl, moves).pitch < QUARTER_TURN,
    decreases moves.len(),
{
    if moves.len() > 0 {
        let step = turned(
            c,
            CameraController {
                rotate_horizontal: moves[0].0,
                rotate_vertical: moves[0].1,
                ..ctl
            },
            moves[0].2 as int,
        );
        lemma_pitch_never_vertical(step.0, step.1, moves.drop_first());
    }
}

/// The yaw after a run of frames is the starting yaw plus every horizontal
/// turn, wrapped once into `[0, FULL_TURN)`.
pub proof fn lemma_yaw_accumulates(c: Camera, ctl: CameraController, moves: Seq<(i32, i32, u64)>)
    ensures
        0 <= replay(c, ctl, moves).yaw < FULL_TURN,
        replay(c, ctl, moves).yaw == wrap_yaw(c.yaw + total_turn(ctl.sensitivity as int, moves)),
    decreases moves.len(),
{
    let f = FULL_TURN as int;
    if moves.len() == 0 {
        lemma_fundamental_div_mod_converse(c.yaw as int, f, 0, c.yaw as int);
    } else {
        let ctl1 = CameraController {
            rotate_horizontal: moves[0].0,
            rotate_vertical: moves[0].1,
            ..ctl
        };
        let step = turned(c, ctl1, moves[0].2 as int);
        let d = turn(moves[0].0 as int, ctl.sensitivity as int, moves[0].2 as int);
        let rest = total_turn(ctl.sensitivity as int, moves.drop_first());
        lemma_yaw_accumulates(step.0, step.1, moves.drop_first());
        assert(step.0.yaw == wrap_yaw(c.yaw + d));
        lemma_add_mod_noop_right(rest, c.yaw + d, f);
        assert(c.yaw + d + rest == c.yaw + total_turn(ctl.sensitivity as int, moves));
    }
}

/// Turning by whole turns in all brings the yaw back to where it started.
pub proof fn lemma_yaw_full_turns(
    c: Camera,
    ctl: CameraController,
    moves: Seq<(i32, i32, u64)>,
    turns: int,
)
    requires
        total_turn(ctl.sensitivity as int, moves) == turns * FULL_TURN,
    ensures
        replay(c, ctl, moves).yaw == c.yaw,
{
    let f = FULL_TURN as int;
    lemma_yaw_accumulates(c, ctl, moves);
    lemma_mod_multiples_vanish(turns, c.yaw as int, f);
    assert(f * turns + c.yaw == c.yaw + turns * f) by (nonlinear_arith);
    lemma_fundamental_div_mod_converse(c.yaw as int, f, 0, c.yaw as int);
}

/// `speed · dt_us / 10^6`, which cannot overflow: the product is below
/// `2^128`.
fn travel_exec(speed: u64, dt_us: u64) -> (d: u128)
    ensures
        d == travel(speed as int, dt_us as int),
        d <= 0xFFFF_FFFF_FFFF_FFFFnat * 0xFFFF_FFFF_FFFF_FFFF / 1_000_000,
{
    proof {
        assert((speed as int) * (dt_us as int) <= 0xFFFF_FFFF_FFFF_FFFF * 0xFFFF_FFFF_FFFF_FFFF)
            by (nonlinear_arith)
            requires 0 <= speed <= 0xFFFF_FFFF_FFFF_FFFF, 0 <= dt_us <= 0xFFFF_FFFF_FFFF_FFFF;
    }
    let p: u128 = speed as u128 * dt_us as u128;
    p / 1_000_000
}

/// `|px| · sensitivity · dt_us / (256 · 10^6)`.
fn turn_magnitude(px: i32, sensitivity: u32, dt_us: u64) -> (mag: u128)
    ensures
        px >= 0 ==> mag == turn(px as int, sensitivity as int, dt_us as int),
        px < 0 ==> mag == -turn(px as int, sensitivity as int, dt_us as int),
        mag <= 0x8000_0000 * 0xFFFF_FFFFnat * 0xFFFF_FFFF_FFFF_FFFF / 256_000_000,
{
    let a: u64 = if px >= 0 { px as u64 } else { (-(px as i64)) as u64 };
    proof {
        assert((a as int) * (sensitivity as int) <= 0x8000_0000 * 0xFFFF_FFFF) by (nonlinear_arith)
            requires 0 <= a <= 0x8000_0000, 0 <= sensitivity <= 0xFFFF_FFFF;
        assert((a as int) * (sensitivity as int) * (dt_us as int) <= 0x8000_0000 * 0xFFFF_FFFF
            * 0xFFFF_FFFF_FFFF_FFFF) by (nonlinear_arith)
            requires
                0 <= (a as int) * (sensitivity as int) <= 0x8000_0000 * 0xFFFF_FFFF,
                0 <= dt_us <= 0xFFFF_FFFF_FFFF_FFFF;
    }
    let p: u128 = (a as u128 * sensitivity as u128) * dt_us as u128;
    proof {
        if px < 0 {
            assert((-(px as int)) * (sensitivity as int) * (dt_us as int) == (a as int) * (
            sensitivity as int) * (dt_us as int));
        }
    }
    p / 256_000_000
}

/// The yaw after turning by the pending horizontal motion, wrapped into a
/// turn.
fn turn_yaw(yaw: u32, px: i32, sensitivity: u32, dt_us: u64) -> (y: u32)
    ensures
        y == wrap_yaw(yaw + turn(px as int, sensitivity as int, dt_us as int)),
{
    let mag = turn_magnitude(px, sensitivity, dt_us);
    let rm: u64 = (mag % 0x1_0000_0000) as u64;
    let ghost f = FULL_TURN as int;
    let ghost m = mag as int;
    proof {
        lemma_fundamental_div_mod(m, f);
        lemma_mod_pos_bound(m, f);
    }
    let step: u64 = if px >= 0 || rm == 0 { rm } else { 0x1_0000_0000 - rm };
    let t: u64 = yaw as u64 + step;
    let y: u64 = t % 0x1_0000_0000;
    proof {
        let q = m / f;
        lemma_fundamental_div_mod(t as int, f);
        lemma_mod_pos_bound(t as int, f);
        let k = (t as int) / f;
        if px >= 0 {
            assert(yaw + m == (k + q) * f + y) by (nonlinear_arith)
                requires
                    m == f * q + rm,
                    t == yaw + rm,
                    t == f * k + y;
            lemma_fundamental_div_mod_converse(yaw + m, f, k + q, y as int);
        } else if rm == 0 {
            assert(yaw - m == (k - q) * f + y) by (nonlinear_arith)
                requires
                    m == f * q + rm,
                    rm == 0,
                    t == yaw,
                    t == f * k + y;
            lemma_fundamental_div_mod_converse(yaw - m, f, k - q, y as int);
        } else {
            assert(yaw - m == (k - 1 - q) * f + y) by (nonlinear_arith)
                requires
                    m == f * q + rm,
                    t == yaw + f - rm,
                    t == f * k + y;
            lemma_fundamental_div_mod_converse(yaw - m, f, k - 1 - q, y as int);
        }
    }
    y as u32
}

/// The pitch after turning by the pending vertical motion (moving the mouse
/// down, `px > 0`, lowers it), clamped to `±PITCH_LIMIT`.
fn turn_pitch(pitch: i32, px: i32, sensitivity: u32, dt_us: u64) -> (p: i32)
    requires
        -PITCH_LIMIT <= pitch <= PITCH_LIMIT,
    ensures
        p == clamp_pitch(pitch - turn(px as int, sensitivity as int, dt_us as int)),
        -PITCH_LIMIT <= p <= PITCH_LIMIT,
{
    let mag = turn_magnitude(px, sensitivity, dt_us);
    let d: i128 = if px >= 0 { mag as i128 } else { -(mag as i128) };
    let raw: i128 = pitch as i128 - d;
    if raw < -(PITCH_LIMIT as i128) {
        -(PITCH_LIMIT as i32)
    } else if raw > PITCH_LIMIT as i128 {
        PITCH_LIMIT as i32
    } else {
        raw as i32
    }
}

} // verus!
