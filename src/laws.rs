//! Properties that hold across the camera operations.

use vstd::prelude::*;
use crate::fixed::{Rotor, Vec3, lemma_div_tz_exact};
use crate::camera::{
    CameraPose, Orientation, OrbitCamera, camera_position, lemma_offset_bounds, scroll_total,
    stepped_camera, stepped_pose, zoomed_radius,
};

verus! {

/// A pitch step that would tip the up vector to or below the horizon is
/// dropped: the up vector stays above the horizon, the pitch stays as it
/// was, and the yaw step is still applied.
pub proof fn lemma_flip_rejected(o: Orientation, yaw: Rotor, pitch: Rotor)
    requires
        o.wf(),
        yaw.wf(),
        pitch.wf(),
        o.pitch.spec_compose(pitch).cos <= 0,
    ensures
        o.spec_orbit(yaw, pitch).up_y() > 0,
        o.spec_orbit(yaw, pitch).pitch == o.pitch,
        o.spec_orbit(yaw, pitch).yaw == o.yaw.spec_compose(yaw),
{
}

/// The camera after zooming through a sequence of frames, each given by its
/// scroll events and its elapsed time.
pub open spec fn zoom_frames(cam: OrbitCamera, frames: Seq<(Seq<i32>, u32)>) -> OrbitCamera
    decreases frames.len(),
{
    if frames.len() == 0 {
        cam
    } else {
        let before = zoom_frames(cam, frames.drop_last());
        OrbitCamera {
            radius: zoomed_radius(before, scroll_total(frames.last().0), frames.last().1 as int)
                as i64,
            ..before
        }
    }
}

/// Whatever the scroll input, over any number of frames, the radius stays
/// within `[min_scroll, max_scroll]`.
pub proof fn lemma_zoom_stays_in_bounds(cam: OrbitCamera, frames: Seq<(Seq<i32>, u32)>)
    requires
        cam.wf(),
    ensures
        cam.min_scroll <= zoom_frames(cam, frames).radius <= cam.max_scroll,
        zoom_frames(cam, frames).wf(),
        zoom_frames(cam, frames).min_scroll == cam.min_scroll,
        zoom_frames(cam, frames).max_scroll == cam.max_scroll,
    decreases frames.len(),
{
    if frames.len() > 0 {
        lemma_zoom_stays_in_bounds(cam, frames.drop_last());
    }
}

proof fn lemma_no_zoom(cam: OrbitCamera, dt_micros: int)
    requires
        cam.wf(),
    ensures
        zoomed_radius(cam, 0, dt_micros) == cam.radius,
{
    vstd::arithmetic::mul::lemma_mul_basics(cam.scroll_sensitivity as int);
    vstd::arithmetic::mul::lemma_mul_basics(dt_micros);
    lemma_div_tz_exact(0, 1000);
}

/// A frame with no turn, no net scroll and an unmoved target leaves the
/// orientation, the radius and the camera's position as they were.
pub proof fn lemma_idle_frame(
    cam: OrbitCamera,
    pose: CameraPose,
    yaw: Rotor,
    pitch: Rotor,
    scrolls: Seq<i32>,
    dt_micros: int,
)
    requires
        cam.wf(),
        pose.orientation.wf(),
        pose.position == camera_position(cam.target, pose.orientation, cam.radius as int),
        yaw.is_identity(),
        pitch.is_identity(),
        scroll_total(scrolls) == 0,
    ensures
        stepped_camera(cam, scrolls, dt_micros, cam.target) == cam,
        stepped_pose(cam, pose, yaw, pitch, scrolls, dt_micros, cam.target) == pose,
{
    lemma_no_zoom(cam, dt_micros);
}

/// With no turn and no net scroll, moving the target from `p` to `q` moves
/// the camera by exactly `q - p`.
pub proof fn lemma_follow_shift(
    cam: OrbitCamera,
    pose: CameraPose,
    yaw: Rotor,
    pitch: Rotor,
    scrolls: Seq<i32>,
    dt_micros: int,
    p: Vec3,
    q: Vec3,
)
    requires
        cam.wf(),
        pose.orientation.wf(),
        yaw.is_identity(),
        pitch.is_identity(),
        scroll_total(scrolls) == 0,
        p.in_world(),
        q.in_world(),
    ensures
        ({
            let from = stepped_pose(cam, pose, yaw, pitch, scrolls, dt_micros, p).position;
            let to = stepped_pose(cam, pose, yaw, pitch, scrolls, dt_micros, q).position;
            to.x - from.x == q.x - p.x && to.y - from.y == q.y - p.y && to.z - from.z == q.z - p.z
        }),
{
    lemma_no_zoom(cam, dt_micros);
    lemma_offset_bounds(pose.orientation, cam.radius as int);
}

} // verus!
