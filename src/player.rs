//! Moving the player relative to where the camera looks.

use vstd::prelude::*;
use crate::fixed::{
    Vec3, ONE, div_tz, div_toward_zero, floor_sqrt, is_floor_sqrt, isqrt, lemma_div_tz_scaled,
    lemma_product_bound, lemma_rotor_bounds,
};
use crate::camera::Orientation;

verus! {

/// The movement keys held during a frame.
#[derive(Clone, Copy, Debug, PartialEq, Eq)]
pub struct MoveKeys {
    pub forward: bool,
    pub back: bool,
    pub left: bool,
    pub right: bool,
}

/// How fast the player moves, in world units per second.
#[derive(Clone, Copy, Debug, PartialEq, Eq)]
pub struct Speed {
    pub value: u32,
}

/// `v` when the first key alone is held, `-v` for the second alone, else `0`.
pub open spec fn along(positive: bool, negative: bool, v: int) -> int {
    (if positive {
        v
    } else {
        0
    }) - (if negative {
        v
    } else {
        0
    })
}

/// The camera's forward vector `-(cos p * sin y, -sin p, cos p * cos y)`
/// with its vertical part dropped, scaled by `ONE`: `x` component.
pub open spec fn forward_x(o: Orientation) -> int {
    -div_tz(o.pitch.cos * o.yaw.sin, ONE as int)
}

/// `z` component of the flattened forward vector, scaled by `ONE`.
pub open spec fn forward_z(o: Orientation) -> int {
    -div_tz(o.pitch.cos * o.yaw.cos, ONE as int)
}

/// Horizontal direction asked for by the keys: forward and back along the
/// flattened forward vector, left and right along the camera's right vector
/// `(cos y, 0, -sin y)`; `x` component, scaled by `ONE`.
pub open spec fn heading_x(keys: MoveKeys, o: Orientation) -> int {
    along(keys.forward, keys.back, forward_x(o)) + along(keys.right, keys.left, o.yaw.cos as int)
}

/// `z` component of the direction asked for by the keys, scaled by `ONE`.
pub open spec fn heading_z(keys: MoveKeys, o: Orientation) -> int {
    along(keys.forward, keys.back, forward_z(o)) + along(keys.right, keys.left, -o.yaw.sin)
}

/// Length of the heading, rounded down.
pub open spec fn heading_len(keys: MoveKeys, o: Orientation) -> int {
    floor_sqrt(heading_x(keys, o) * heading_x(keys, o) + heading_z(keys, o) * heading_z(keys, o))
}

/// One component of a frame's movement: the heading scaled to length
/// `speed * dt_micros` (micro-units), or nothing when no direction is asked for.
pub open spec fn moved(component: int, len: int, speed: int, dt_micros: int) -> int {
    if len == 0 {
        0
    } else {
        div_tz(component * speed * dt_micros, len)
    }
}

proof fn lemma_component_within_len(a: int, b: int, len: int)
    requires
        is_floor_sqrt(len, a * a + b * b),
    ensures
        -len <= a <= len,
{
    assert(a * a < (len + 1) * (len + 1)) by (nonlinear_arith)
        requires
            a * a + b * b < (len + 1) * (len + 1),
    ;
    if a > len {
        assert(a * a >= (len + 1) * (len + 1)) by (nonlinear_arith)
            requires
                a >= len + 1,
                len >= 0,
        ;
    }
    if a < -len {
        assert(a * a >= (len + 1) * (len + 1)) by (nonlinear_arith)
            requires
                a <= -(len + 1),
                len >= 0,
        ;
    }
}

fn scaled_component(component: i64, len: u64, step: i64) -> (r: i64)
    requires
        -2 * ONE <= component <= 2 * ONE,
        -(len as int) <= component <= len,
        len > 0,
        step >= 0,
    ensures
        r == div_tz(component * step, len as int),
{
    proof {
        assert(-(step * len) <= component * step <= step * len) by (nonlinear_arith)
            requires
                -(len as int) <= component <= len,
                step >= 0,
        ;
        lemma_product_bound(component as int, step as int, 0x8000_0000_0000_0000);
        lemma_div_tz_scaled(component * step, step as int, len as int);
        vstd::arithmetic::mul::lemma_mul_is_commutative(step as int, len as int);
    }
    div_toward_zero((component as i128) * (step as i128), len as i128) as i64
}

/// The player's displacement for one frame, in micro-units: the keys give a
/// horizontal direction relative to the camera, which is normalized and
/// scaled to `speed * seconds`.
pub fn player_movements(keys: MoveKeys, o: &Orientation, speed: Speed, dt_micros: u32) -> (r: Vec3)
    requires
        o.wf(),
        speed.value as int * dt_micros as int <= i64::MAX,
    ensures
        r.x == moved(heading_x(keys, *o), heading_len(keys, *o), speed.value as int, dt_micros as int),
        r.y == 0,
        r.z == moved(heading_z(keys, *o), heading_len(keys, *o), speed.value as int, dt_micros as int),
{
    proof {
        lemma_rotor_bounds(o.yaw);
        lemma_rotor_bounds(o.pitch);
        lemma_product_bound(o.pitch.cos as int, o.yaw.sin as int, ONE as int);
        lemma_product_bound(o.pitch.cos as int, o.yaw.cos as int, ONE as int);
        lemma_div_tz_scaled(o.pitch.cos * o.yaw.sin, ONE as int, ONE as int);
        lemma_div_tz_scaled(o.pitch.cos * o.yaw.cos, ONE as int, ONE as int);
    }
    let one = ONE as i128;
    let fx = -(div_toward_zero((o.pitch.cos as i128) * (o.yaw.sin as i128), one) as i64);
    let fz = -(div_toward_zero((o.pitch.cos as i128) * (o.yaw.cos as i128), one) as i64);
    let mut hx: i64 = 0;
    let mut hz: i64 = 0;
    if keys.forward {
        hx = hx + fx;
        hz = hz + fz;
    }
    if keys.back {
        hx = hx - fx;
        hz = hz - fz;
    }
    if keys.right {
        hx = hx + o.yaw.cos;
        hz = hz - o.yaw.sin;
    }
    if keys.left {
        hx = hx - o.yaw.cos;
        hz = hz + o.yaw.sin;
    }
    assert(hx == heading_x(keys, *o) && hz == heading_z(keys, *o));
    proof {
        lemma_product_bound(hx as int, hx as int, 2 * ONE as int);
        lemma_product_bound(hz as int, hz as int, 2 * ONE as int);
        assert(hx * hx >= 0 && hz * hz >= 0) by (nonlinear_arith);
    }
    let len = isqrt((hx as i128 * hx as i128 + hz as i128 * hz as i128) as u128);
    if len == 0 {
        return Vec3 { x: 0, y: 0, z: 0 };
    }
    proof {
        lemma_component_within_len(hx as int, hz as int, len as int);
        lemma_component_within_len(hz as int, hx as int, len as int);
        vstd::arithmetic::mul::lemma_mul_is_associative(
            hx as int,
            speed.value as int,
            dt_micros as int,
        );
        vstd::arithmetic::mul::lemma_mul_is_associative(
            hz as int,
            speed.value as int,
            dt_micros as int,
        );
    }
    let step = (speed.value as i64) * (dt_micros as i64);
    Vec3 { x: scaled_component(hx, len, step), y: 0, z: scaled_component(hz, len, step) }
}

} // verus!
