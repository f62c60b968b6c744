//! The orbit camera: orientation, pitch limiting, zoom and target following.

use vstd::prelude::*;
use crate::fixed::{
    Rotor, Vec3, ONE, WORLD_LIMIT, div_tz, div_toward_zero, floor_sqrt, isqrt,
    lemma_rotor_bounds, lemma_product_bound, lemma_div_tz_scaled, lemma_div_tz_square,
};

verus! {

/// How the camera is turned: `yaw` about the world's vertical axis, then
/// `pitch` about the camera's own horizontal axis. As a rotation this is
/// `Ry(yaw) * Rx(pitch)`; yaw steps compose on the left and pitch steps on the
/// right, so every reachable orientation keeps this form.
#[derive(Clone, Copy, Debug, PartialEq, Eq)]
pub struct Orientation {
    pub yaw: Rotor,
    pub pitch: Rotor,
}

impl Orientation {
    /// Vertical component of the camera's up vector, scaled by `ONE`.
    /// The up vector is `Ry(yaw) * Rx(pitch) * (0, 1, 0)`
    /// = `(sin p * sin y, cos p, sin p * cos y)`.
    pub open spec fn up_y(self) -> int {
        self.pitch.cos as int
    }

    /// Both rotations at most unit length, and the camera not flipped over
    /// the pole.
    pub open spec fn wf(self) -> bool {
        self.yaw.wf() && self.pitch.wf() && self.up_y() > 0
    }

    /// Yaw always turns; pitch tilts only where the up vector stays above
    /// the horizon.
    pub open spec fn spec_orbit(self, yaw: Rotor, pitch: Rotor) -> Orientation {
        let tilted = self.pitch.spec_compose(pitch);
        Orientation {
            yaw: self.yaw.spec_compose(yaw),
            pitch: if tilted.cos > 0 {
                tilted
            } else {
                self.pitch
            },
        }
    }

    /// The orientation that looks along the world's `-z` axis, level.
    pub fn level() -> (r: Orientation)
        ensures
            r.yaw.is_identity(),
            r.pitch.is_identity(),
            r.wf(),
    {
        Orientation { yaw: Rotor::identity(), pitch: Rotor::identity() }
    }

    /// Whether the orientation meets `wf`.
    pub fn is_valid(&self) -> (r: bool)
        ensures
            r == self.wf(),
    {
        self.yaw.is_valid() && self.pitch.is_valid() && self.pitch.cos > 0
    }

    /// Applies a yaw step about the world vertical and a pitch step about the
    /// camera's horizontal axis; the pitch step alone is dropped where it
    /// would turn the up vector to or below the horizon.
    pub fn orbit(&self, yaw: &Rotor, pitch: &Rotor) -> (r: Orientation)
        requires
            self.wf(),
            yaw.wf(),
            pitch.wf(),
        ensures
            r == self.spec_orbit(*yaw, *pitch),
            r.wf(),
    {
        let turned = self.yaw.compose(yaw);
        let tilted = self.pitch.compose(pitch);
        if tilted.cos > 0 {
            Orientation { yaw: turned, pitch: tilted }
        } else {
            Orientation { yaw: turned, pitch: self.pitch }
        }
    }
}

/// `x` offset of the camera from its target: `radius * cos p * sin y`.
pub open spec fn offset_x(o: Orientation, radius: int) -> int {
    div_tz(radius * o.pitch.cos * o.yaw.sin, ONE * ONE)
}

/// `y` offset of the camera from its target: `-radius * sin p`.
pub open spec fn offset_y(o: Orientation, radius: int) -> int {
    div_tz(-(radius * o.pitch.sin), ONE as int)
}

/// `z` offset of the camera from its target: `radius * cos p * cos y`.
pub open spec fn offset_z(o: Orientation, radius: int) -> int {
    div_tz(radius * o.pitch.cos * o.yaw.cos, ONE * ONE)
}

/// Where the camera stands: the target plus the orientation applied to
/// `(0, 0, radius)`.
pub open spec fn camera_position(target: Vec3, o: Orientation, radius: int) -> Vec3 {
    Vec3 {
        x: (target.x + offset_x(o, radius)) as i64,
        y: (target.y + offset_y(o, radius)) as i64,
        z: (target.z + offset_z(o, radius)) as i64,
    }
}

/// The offset from the target never exceeds the radius on any axis.
pub proof fn lemma_offset_bounds(o: Orientation, radius: int)
    requires
        o.wf(),
        0 <= radius,
    ensures
        -radius <= offset_x(o, radius) <= radius,
        -radius <= offset_y(o, radius) <= radius,
        -radius <= offset_z(o, radius) <= radius,
        -(radius * (ONE * ONE)) <= radius * o.pitch.cos * o.yaw.sin <= radius * (ONE * ONE),
        -(radius * (ONE * ONE)) <= radius * o.pitch.cos * o.yaw.cos <= radius * (ONE * ONE),
        -(radius * ONE) <= radius * o.pitch.sin <= radius * ONE,
{
    let m = ONE as int;
    lemma_rotor_bounds(o.yaw);
    lemma_rotor_bounds(o.pitch);
    let (cp, sp, cy, sy) = (o.pitch.cos as int, o.pitch.sin as int, o.yaw.cos as int, o.yaw.sin as int);
    lemma_product_bound(cp, sy, m);
    lemma_product_bound(cp, cy, m);
    assert(-(radius * (m * m)) <= radius * (cp * sy) <= radius * (m * m)) by (nonlinear_arith)
        requires
            radius >= 0,
            -(m * m) <= cp * sy <= m * m,
    ;
    assert(-(radius * (m * m)) <= radius * (cp * cy) <= radius * (m * m)) by (nonlinear_arith)
        requires
            radius >= 0,
            -(m * m) <= cp * cy <= m * m,
    ;
    assert(-(radius * m) <= radius * sp <= radius * m) by (nonlinear_arith)
        requires
            radius >= 0,
            -m <= sp <= m,
    ;
    vstd::arithmetic::mul::lemma_mul_is_associative(radius, cp, sy);
    vstd::arithmetic::mul::lemma_mul_is_associative(radius, cp, cy);
    lemma_div_tz_scaled(radius * cp * sy, radius, m * m);
    lemma_div_tz_scaled(radius * cp * cy, radius, m * m);
    lemma_div_tz_scaled(-(radius * sp), radius, m);
}

/// The camera's offset from its target: the orientation applied to
/// `(0, 0, radius)`.
pub fn orbit_offset(o: &Orientation, radius: i64) -> (r: Vec3)
    requires
        o.wf(),
        0 <= radius <= WORLD_LIMIT,
    ensures
        r.x == offset_x(*o, radius as int),
        r.y == offset_y(*o, radius as int),
        r.z == offset_z(*o, radius as int),
{
    proof {
        lemma_offset_bounds(*o, radius as int);
        lemma_rotor_bounds(o.yaw);
        lemma_rotor_bounds(o.pitch);
        lemma_product_bound(radius as int, o.pitch.cos as int, WORLD_LIMIT as int);
    }
    let r = radius as i128;
    let one = ONE as i128;
    let x = div_toward_zero(r * (o.pitch.cos as i128) * (o.yaw.sin as i128), one * one);
    let y = div_toward_zero(-(r * (o.pitch.sin as i128)), one);
    let z = div_toward_zero(r * (o.pitch.cos as i128) * (o.yaw.cos as i128), one * one);
    Vec3 { x: x as i64, y: y as i64, z: z as i64 }
}

/// The button that must be held for pointer motion to orbit the camera.
#[derive(Clone, Copy, Debug, PartialEq, Eq)]
pub enum MouseButton {
    Left,
    Right,
    Middle,
}

/// Settings and state of an orbit camera. Lengths are in micro-units of the
/// world; a scroll arrives in thousandths of a wheel line and a frame's
/// elapsed time in microseconds. The scroll sensitivity counts world units
/// per wheel line per second. The orbit sensitivity turns a pointer movement,
/// as a fraction of the viewport's extent, times the elapsed seconds, into
/// half-turns.
#[derive(Clone, Copy, Debug, PartialEq, Eq)]
pub struct OrbitCamera {
    pub radius: i64,
    pub target: Vec3,
    pub orbit_button: MouseButton,
    pub orbit_sensitivity: u32,
    pub scroll_sensitivity: u32,
    pub max_scroll: i64,
    pub min_scroll: i64,
}

impl OrbitCamera {
    /// Bounds ordered and inside the world, the radius between them, and the
    /// target inside the world.
    pub open spec fn wf(self) -> bool {
        0 <= self.min_scroll <= self.radius <= self.max_scroll <= WORLD_LIMIT
            && self.target.in_world()
    }

    /// Whether the camera meets `wf`.
    pub fn is_valid(&self) -> (r: bool)
        ensures
            r == self.wf(),
    {
        0 <= self.min_scroll && self.min_scroll <= self.radius && self.radius <= self.max_scroll
            && self.max_scroll <= WORLD_LIMIT && self.target.is_in_world()
    }
}

/// Where the camera stands and how it is turned.
#[derive(Clone, Copy, Debug, PartialEq, Eq)]
pub struct CameraPose {
    pub orientation: Orientation,
    pub position: Vec3,
}

/// A pointer movement turned into an angle, in billionths of a half-turn:
/// `delta * sensitivity * seconds / extent` half-turns, rounded toward zero.
pub open spec fn pointer_angle(delta: int, sensitivity: int, dt_micros: int, extent: int) -> int {
    div_tz(delta * sensitivity * dt_micros * 1000, extent)
}

/// The yaw and pitch angles (billionths of a half-turn) that one frame of
/// pointer motion asks for. Moving right or down gives a negative angle.
/// Nothing turns unless the orbit button is held, or when the viewport has no
/// extent.
pub open spec fn spec_orbit_angles(
    cam: OrbitCamera,
    pressed: bool,
    dx: int,
    dy: int,
    dt_micros: int,
    width: int,
    height: int,
) -> (int, int) {
    if !pressed || width == 0 || height == 0 {
        (0, 0)
    } else {
        (
            -pointer_angle(dx, cam.orbit_sensitivity as int, dt_micros, width),
            -pointer_angle(dy, cam.orbit_sensitivity as int, dt_micros, height),
        )
    }
}

fn scaled_pointer_delta(delta: i32, sensitivity: u32, dt_micros: u32, extent: u32) -> (r: i128)
    requires
        extent > 0,
    ensures
        r == pointer_angle(delta as int, sensitivity as int, dt_micros as int, extent as int),
        -0x1_0000_0000_0000_0000_0000_0000_0000 <= r <= 0x1_0000_0000_0000_0000_0000_0000_0000,
{
    proof {
        let bound: int = 0x1_0000_0000int;
        assert(-(bound * bound * bound * 1000) <= delta * sensitivity * dt_micros * 1000 <= bound
            * bound * bound * 1000) by (nonlinear_arith)
            requires
                -bound <= delta <= bound,
                0 <= sensitivity <= bound,
                0 <= dt_micros <= bound,
        ;
        assert(-(bound * bound) <= delta * sensitivity <= bound * bound) by (nonlinear_arith)
            requires
                -bound <= delta <= bound,
                0 <= sensitivity <= bound,
        ;
        assert(-(bound * bound * bound) <= delta * sensitivity * dt_micros <= bound * bound * bound)
            by (nonlinear_arith)
            requires
                -(bound * bound) <= delta * sensitivity <= bound * bound,
                0 <= dt_micros <= bound,
        ;
    }
    let p: i128 = (delta as i128) * (sensitivity as i128) * (dt_micros as i128) * 1000;
    proof {
        let k: int = 0x1_0000_0000_0000_0000_0000_0000_0000int;
        assert(-(k * extent) <= p <= k * extent) by (nonlinear_arith)
            requires
                -k <= p <= k,
                extent >= 1,
        ;
        lemma_div_tz_scaled(p as int, k, extent as int);
    }
    div_toward_zero(p, extent as i128)
}

/// Turns one frame of pointer motion into yaw and pitch angles, in
/// billionths of a half-turn.
pub fn orbit_angles(
    cam: &OrbitCamera,
    pressed: bool,
    dx: i32,
    dy: i32,
    dt_micros: u32,
    width: u32,
    height: u32,
) -> (r: (i128, i128))
    ensures
        (r.0 as int, r.1 as int) == spec_orbit_angles(
            *cam,
            pressed,
            dx as int,
            dy as int,
            dt_micros as int,
            width as int,
            height as int,
        ),
{
    if !pressed || width == 0 || height == 0 {
        return (0, 0);
    }
    let yaw = scaled_pointer_delta(dx, cam.orbit_sensitivity, dt_micros, width);
    let pitch = scaled_pointer_delta(dy, cam.orbit_sensitivity, dt_micros, height);
    (-yaw, -pitch)
}

/// The orientation after a frame's yaw and pitch steps; a frame with no turn
/// leaves it as it is.
pub open spec fn turned(o: Orientation, yaw: Rotor, pitch: Rotor) -> Orientation {
    if yaw.is_identity() && pitch.is_identity() {
        o
    } else {
        o.spec_orbit(yaw, pitch)
    }
}

/// Turns the camera by a frame's yaw and pitch steps; a frame with no turn
/// leaves the pose as it is. The position is brought up to date by
/// `sync_camera_with_player`.
pub fn orbit_mouse(pose: &mut CameraPose, yaw: &Rotor, pitch: &Rotor)
    requires
        old(pose).orientation.wf(),
        yaw.wf(),
        pitch.wf(),
    ensures
        final(pose).orientation == turned(old(pose).orientation, *yaw, *pitch),
        final(pose).position == old(pose).position,
        final(pose).orientation.wf(),
{
    if yaw.cos == ONE && yaw.sin == 0 && pitch.cos == ONE && pitch.sin == 0 {
        return ;
    }
    pose.orientation = pose.orientation.orbit(yaw, pitch);
}

/// Snaps the target to the tracked position and places the camera on its
/// sphere around it.
pub fn sync_camera_with_player(cam: &mut OrbitCamera, pose: &mut CameraPose, player: &Vec3)
    requires
        old(cam).wf(),
        old(pose).orientation.wf(),
        player.in_world(),
    ensures
        *final(cam) == (OrbitCamera { target: *player, ..*old(cam) }),
        final(pose).orientation == old(pose).orientation,
        final(pose).position == camera_position(
            *player,
            old(pose).orientation,
            old(cam).radius as int,
        ),
        final(cam).wf(),
{
    cam.target = *player;
    let offset = orbit_offset(&pose.orientation, cam.radius);
    proof {
        lemma_offset_bounds(pose.orientation, cam.radius as int);
    }
    pose.position = Vec3 {
        x: player.x + offset.x,
        y: player.y + offset.y,
        z: player.z + offset.z,
    };
}

/// Sum of a frame's scroll events.
pub open spec fn scroll_total(scrolls: Seq<i32>) -> int
    decreases scrolls.len(),
{
    if scrolls.len() == 0 {
        0
    } else {
        scroll_total(scrolls.drop_last()) + scrolls.last()
    }
}

pub open spec fn clamp(x: int, lo: int, hi: int) -> int {
    if x < lo {
        lo
    } else if x > hi {
        hi
    } else {
        x
    }
}

/// How far a scroll total moves the camera in, in length units:
/// `total * sensitivity * dt_micros / 1000`, rounded toward zero.
pub open spec fn zoom_distance(total: int, sensitivity: int, dt_micros: int) -> int {
    div_tz(total * sensitivity * dt_micros, 1000)
}

/// The radius after a frame whose scroll events add up to `total`, held
/// within the camera's bounds.
pub open spec fn zoomed_radius(cam: OrbitCamera, total: int, dt_micros: int) -> int {
    clamp(
        cam.radius - zoom_distance(total, cam.scroll_sensitivity as int, dt_micros),
        cam.min_scroll as int,
        cam.max_scroll as int,
    )
}

proof fn lemma_scale_grows(p: int, d: int)
    by (nonlinear_arith)
    requires
        p >= 0,
        d >= 1,
    ensures
        p * d >= p,
{
}

proof fn lemma_scale_bound(p: int, d: int, bp: int, bd: int)
    by (nonlinear_arith)
    requires
        -bp <= p <= bp,
        0 <= d <= bd,
    ensures
        -(bp * bd) <= p * d <= bp * bd,
{
}

fn sum_scrolls(scrolls: &Vec<i32>) -> (r: i128)
    ensures
        r == scroll_total(scrolls@),
        -(scrolls@.len() * 0x8000_0000) <= r <= scrolls@.len() * 0x8000_0000,
{
    let mut sum: i128 = 0;
    let mut i: usize = 0;
    while i < scrolls.len()
        invariant
            i <= scrolls@.len(),
            sum == scroll_total(scrolls@.take(i as int)),
            -(i * 0x8000_0000) <= sum <= i * 0x8000_0000,
        decreases scrolls@.len() - i,
    {
        assert(scrolls@.take(i as int + 1).drop_last() == scrolls@.take(i as int));
        sum = sum + scrolls[i] as i128;
        i = i + 1;
    }
    assert(scrolls@.take(i as int) == scrolls@);
    sum
}

/// Applies one frame of scroll events: they are summed, and the radius moves
/// in by the total times the sensitivity and the elapsed time, clamped to
/// `[min_scroll, max_scroll]`.
pub fn zoom_camera(cam: &mut OrbitCamera, scrolls: &Vec<i32>, dt_micros: u32)
    requires
        old(cam).wf(),
    ensures
        *final(cam) == (OrbitCamera {
            radius: zoomed_radius(*old(cam), scroll_total(scrolls@), dt_micros as int) as i64,
            ..*old(cam)
        }),
        final(cam).radius == zoomed_radius(*old(cam), scroll_total(scrolls@), dt_micros as int),
        old(cam).min_scroll <= final(cam).radius <= old(cam).max_scroll,
        final(cam).wf(),
{
    let total = sum_scrolls(scrolls);
    let sens = cam.scroll_sensitivity as i128;
    let n = scrolls.len();
    proof {
        assert(-(n * 0x8000_0000 * 0x1_0000_0000) <= total * sens <= n * 0x8000_0000
            * 0x1_0000_0000) by (nonlinear_arith)
            requires
                -(n * 0x8000_0000) <= total <= n * 0x8000_0000,
                0 <= sens < 0x1_0000_0000,
        ;
        assert(n * 0x8000_0000 * 0x1_0000_0000 < 0x8000_0000_0000_0000_0000_0000_0000_0000)
            by (nonlinear_arith)
            requires
                0 <= n < 0x1_0000_0000_0000_0000,
        ;
    }
    let per_micro: i128 = total * sens;
    let limit: i128 = 0x1_0000_0000_0000_0000_0000;
    let radius: i128;
    if dt_micros > 0 && per_micro >= limit {
        // Moves in by far more than any bound allows.
        proof {
            let t = total * (cam.scroll_sensitivity as int) * dt_micros;
            lemma_scale_grows(per_micro as int, dt_micros as int);
            vstd::arithmetic::div_mod::lemma_div_is_ordered(limit as int, t, 1000);
        }
        radius = cam.min_scroll as i128;
    } else if dt_micros > 0 && per_micro <= -limit {
        // Moves out by far more than any bound allows.
        proof {
            let t = total * (cam.scroll_sensitivity as int) * dt_micros;
            lemma_scale_grows(-per_micro, dt_micros as int);
            vstd::arithmetic::mul::lemma_mul_unary_negation(per_micro as int, dt_micros as int);
            vstd::arithmetic::div_mod::lemma_div_is_ordered(limit as int, -t, 1000);
        }
        radius = cam.max_scroll as i128;
    } else {
        proof {
            let t = total * (cam.scroll_sensitivity as int) * dt_micros;
            if dt_micros == 0 {
                vstd::arithmetic::mul::lemma_mul_basics(per_micro as int);
            } else {
                lemma_scale_bound(per_micro as int, dt_micros as int, limit as int, 0x1_0000_0000);
            }
            lemma_div_tz_scaled(t, limit * 0x1_0000_0000, 1000);
        }
        let distance = div_toward_zero(per_micro * (dt_micros as i128), 1000);
        let moved = cam.radius as i128 - distance;
        radius = if moved < cam.min_scroll as i128 {
            cam.min_scroll as i128
        } else if moved > cam.max_scroll as i128 {
            cam.max_scroll as i128
        } else {
            moved
        };
    }
    cam.radius = radius as i64;
}

/// One frame of input: the yaw and pitch steps from pointer motion, the
/// scroll events, the elapsed time and where the tracked target now is.
#[derive(Debug)]
pub struct FrameInput {
    pub yaw: Rotor,
    pub pitch: Rotor,
    pub scrolls: Vec<i32>,
    pub dt_micros: u32,
    pub target: Vec3,
}

/// The camera settings after one frame: zoomed, and following the target.
pub open spec fn stepped_camera(
    cam: OrbitCamera,
    scrolls: Seq<i32>,
    dt_micros: int,
    target: Vec3,
) -> OrbitCamera {
    OrbitCamera {
        radius: zoomed_radius(cam, scroll_total(scrolls), dt_micros) as i64,
        target,
        ..cam
    }
}

/// The camera pose after one frame: turned, then placed on the sphere of the
/// new radius around the new target.
pub open spec fn stepped_pose(
    cam: OrbitCamera,
    pose: CameraPose,
    yaw: Rotor,
    pitch: Rotor,
    scrolls: Seq<i32>,
    dt_micros: int,
    target: Vec3,
) -> CameraPose {
    let o = turned(pose.orientation, yaw, pitch);
    CameraPose {
        orientation: o,
        position: camera_position(
            target,
            o,
            stepped_camera(cam, scrolls, dt_micros, target).radius as int,
        ),
    }
}

/// Runs one frame: rotation first, then zoom, then the position is
/// recomputed around the target.
pub fn update(cam: &mut OrbitCamera, pose: &mut CameraPose, input: &FrameInput)
    requires
        old(cam).wf(),
        old(pose).orientation.wf(),
        input.yaw.wf(),
        input.pitch.wf(),
        input.target.in_world(),
    ensures
        *final(cam) == stepped_camera(
            *old(cam),
            input.scrolls@,
            input.dt_micros as int,
            input.target,
        ),
        *final(pose) == stepped_pose(
            *old(cam),
            *old(pose),
            input.yaw,
            input.pitch,
            input.scrolls@,
            input.dt_micros as int,
            input.target,
        ),
        final(cam).wf(),
        final(pose).orientation.wf(),
{
    orbit_mouse(pose, &input.yaw, &input.pitch);
    zoom_camera(cam, &input.scrolls, input.dt_micros);
    sync_camera_with_player(cam, pose, &input.target);
}

/// The orientation whose `+z` axis points along `v` (from the point looked
/// at toward the camera), with no roll. Each cosine and sine is a coordinate
/// ratio scaled by `ONE`, divided by one more than the rounded-down length so
/// that rounding never makes a rotation longer than unit length.
pub open spec fn spec_look_along(v: Vec3) -> Orientation {
    let flat = floor_sqrt(v.x * v.x + v.z * v.z);
    let full = floor_sqrt(v.x * v.x + v.y * v.y + v.z * v.z);
    Orientation {
        yaw: Rotor {
            cos: div_tz(v.z * ONE, flat + 1) as i64,
            sin: div_tz(v.x * ONE, flat + 1) as i64,
        },
        pitch: Rotor {
            cos: div_tz(flat * ONE, full + 1) as i64,
            sin: div_tz(-(v.y * ONE), full + 1) as i64,
        },
    }
}

/// A rotation from two legs of a right triangle whose hypotenuse is below
/// `len + 1` stays within unit length.
proof fn lemma_ratio_rotor(a: int, b: int, len: int)
    requires
        len >= 0,
        a * a + b * b < (len + 1) * (len + 1),
        -WORLD_LIMIT * 2 <= a <= WORLD_LIMIT * 2,
        -WORLD_LIMIT * 2 <= b <= WORLD_LIMIT * 2,
    ensures
        ({
            let c = div_tz(a * ONE, len + 1);
            let s = div_tz(b * ONE, len + 1);
            c * c + s * s <= ONE * ONE && -ONE <= c <= ONE && -ONE <= s <= ONE
        }),
{
    let m = ONE as int;
    let d = len + 1;
    let c = div_tz(a * m, d);
    let s = div_tz(b * m, d);
    lemma_div_tz_square(a * m, d);
    lemma_div_tz_square(b * m, d);
    assert((c * c + s * s) * (d * d) <= (a * a + b * b) * (m * m)) by (nonlinear_arith)
        requires
            c * c * (d * d) <= (a * m) * (a * m),
            s * s * (d * d) <= (b * m) * (b * m),
    ;
    assert((a * a + b * b) * (m * m) <= (d * d) * (m * m)) by (nonlinear_arith)
        requires
            a * a + b * b < d * d,
            m > 0,
    ;
    assert(c * c + s * s <= m * m) by (nonlinear_arith)
        requires
            (c * c + s * s) * (d * d) <= (d * d) * (m * m),
            d > 0,
    ;
    assert(c * c <= m * m && s * s <= m * m) by (nonlinear_arith)
        requires
            c * c + s * s <= m * m,
    ;
    crate::fixed::lemma_square_bound(c, m);
    crate::fixed::lemma_square_bound(s, m);
}

/// The orientation that looks from `v` toward the origin with the world's
/// vertical as up; `None` where the view is too close to vertical for the up
/// vector to stay above the horizon.
pub fn look_along(v: &Vec3) -> (r: Option<Orientation>)
    requires
        v.in_world(),
    ensures
        spec_look_along(*v).up_y() > 0 ==> r == Some(spec_look_along(*v)),
        spec_look_along(*v).up_y() <= 0 ==> r is None,
        r matches Some(o) ==> o.wf(),
{
    let (x, y, z) = (v.x as i128, v.y as i128, v.z as i128);
    let ghost w = WORLD_LIMIT as int;
    proof {
        lemma_product_bound(x as int, x as int, w);
        lemma_product_bound(y as int, y as int, w);
        lemma_product_bound(z as int, z as int, w);
        assert(x * x >= 0 && y * y >= 0 && z * z >= 0) by (nonlinear_arith);
    }
    let flat_sq = x * x + z * z;
    let flat = isqrt(flat_sq as u128) as i128;
    let full = isqrt((flat_sq + y * y) as u128) as i128;
    proof {
        assert(flat <= 2 * w) by (nonlinear_arith)
            requires
                flat * flat <= flat_sq <= 2 * (w * w),
                flat >= 0,
                w > 1,
        ;
        assert(flat * flat + y * y < (full + 1) * (full + 1));
        assert((-y) * (-y) == y * y) by (nonlinear_arith);
        lemma_ratio_rotor(z as int, x as int, flat as int);
        lemma_ratio_rotor(flat as int, -y, full as int);
    }
    let one = ONE as i128;
    let yaw = Rotor {
        cos: div_toward_zero(z * one, flat + 1) as i64,
        sin: div_toward_zero(x * one, flat + 1) as i64,
    };
    let pitch = Rotor {
        cos: div_toward_zero(flat * one, full + 1) as i64,
        sin: div_toward_zero(-(y * one), full + 1) as i64,
    };
    if pitch.cos > 0 {
        Some(Orientation { yaw, pitch })
    } else {
        None
    }
}

/// The camera as the scene starts: orbiting a point 2.5 units up, 10 units
/// away, zoomable between 5 and 20 units; placed at (-2, 2.5, 5) and
/// looking at the origin (level, should that view be too steep).
pub open spec fn spec_spawn_camera() -> (OrbitCamera, CameraPose) {
    let position = Vec3 { x: -2_000_000i64, y: 2_500_000, z: 5_000_000 };
    let look = spec_look_along(position);
    (
        OrbitCamera {
            radius: 10_000_000,
            target: Vec3 { x: 0, y: 2_500_000, z: 0 },
            orbit_button: MouseButton::Left,
            orbit_sensitivity: 300,
            scroll_sensitivity: 20,
            max_scroll: 20_000_000,
            min_scroll: 5_000_000,
        },
        CameraPose {
            orientation: if look.up_y() > 0 {
                look
            } else {
                Orientation { yaw: Rotor { cos: ONE, sin: 0 }, pitch: Rotor { cos: ONE, sin: 0 } }
            },
            position,
        },
    )
}

/// The camera's initial settings and pose.
pub fn spawn_camera() -> (r: (OrbitCamera, CameraPose))
    ensures
        r == spec_spawn_camera(),
        r.0.wf(),
        r.1.orientation.wf(),
{
    let position = Vec3 { x: -2_000_000, y: 2_500_000, z: 5_000_000 };
    let orientation = match look_along(&position) {
        Some(o) => o,
        None => Orientation::level(),
    };
    let cam = OrbitCamera {
        radius: 10_000_000,
        target: Vec3 { x: 0, y: 2_500_000, z: 0 },
        orbit_button: MouseButton::Left,
        orbit_sensitivity: 300,
        scroll_sensitivity: 20,
        max_scroll: 20_000_000,
        min_scroll: 5_000_000,
    };
    (cam, CameraPose { orientation, position })
}

} // verus!
