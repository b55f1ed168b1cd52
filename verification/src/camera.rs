//! Turntable ("pan/orbit") camera controller.
//!
//! Each tick the host hands the controller one aggregated input sample, the
//! viewport size and the projection parameters. Exactly one of rotate, pan
//! or zoom applies per tick, chosen by precedence from the input channels;
//! afterwards the camera position is recomposed so that it always sits at
//! `radius` behind the focus along the rotated local Z axis. All scalars
//! are fixed-point millionths.

use vstd::prelude::*;

verus! {

use vstd::arithmetic::mul::lemma_mul_inequality;
use crate::fixed::{div_fx, fx_div, fx_mul, i128_tdiv, lemma_tdiv_bound, lemma_tdiv_exact,
    mul_fx, tdiv, SCALE};
use crate::geom::{dist_fx, q4_bounded, quat_mul, quat_mul_fx, quat_normalize, quat_normalize_fx,
    quat_rotate, quat_rotate_fx, v3_add, v3_bounded, v3_dist, v3_plus, v3_scale, v3_scale_fx,
    Quat, Vec2, Vec3};
use crate::trig::{rot_x_fx, rot_y_fx, PI_FX, TWO_PI_FX};

/// Smallest orbit radius: zooming clamps here so the camera never reaches
/// its own focus point.
pub const MIN_RADIUS: i64 = 50_000;

/// Zoom speed: each scroll unit shrinks the radius by two thousandths of
/// itself.
pub const ZOOM_RATE: i64 = 2_000;

/// Largest pointer motion accepted in one tick (two thousand pixels).
pub const MOTION_LIMIT: i64 = 2_000_000_000;

/// Largest scroll amount accepted in one tick (one thousand lines).
pub const SCROLL_LIMIT: i64 = 1_000_000_000;

/// Smallest accepted viewport extent (one pixel).
pub const VIEW_MIN: i64 = 1_000_000;

/// Largest accepted viewport extent (a million pixels).
pub const VIEW_LIMIT: i64 = 1_000_000_000_000;

/// Largest accepted field of view (four radians).
pub const FOV_LIMIT: i64 = 4_000_000;

/// Largest accepted aspect ratio (ten to one).
pub const ASPECT_LIMIT: i64 = 10_000_000;

/// Largest focus coordinate the update accepts (a billion units).
pub const FOCUS_LIMIT: i64 = 1_000_000_000_000_000;

/// Largest radius the update accepts (four million units).
pub const RADIUS_LIMIT: i64 = 4_000_000_000_000;

/// Orbit state owned by a camera entity.
pub struct PanOrbitCamera {
    /// The focus point the camera orbits around; panning and recentering
    /// move it.
    pub focus: Vec3,
    /// Distance from the focus to the camera.
    pub radius: i64,
    /// Cached orientation flag, recomputed only on the tick an orbit
    /// gesture starts or ends; it flips the horizontal rotation input.
    pub upside_down: bool,
}

/// Camera position and orientation, owned by the host and rewritten by the
/// controller.
pub struct Transform {
    /// World-space camera position.
    pub translation: Vec3,
    /// World-space camera orientation.
    pub rotation: Quat,
}

/// One tick's aggregated input.
pub struct FrameInput {
    /// Summed pointer motion of the tick, in fixed-point pixels.
    pub motion: Vec2,
    /// Summed scroll of the tick, in fixed-point lines.
    pub scroll: i64,
    /// The orbit/pan button is held.
    pub orbit_pressed: bool,
    /// A pan modifier key is held.
    pub pan_key: bool,
    /// The orbit button was pressed or released this tick.
    pub orbit_changed: bool,
}

/// The viewport extent in fixed-point pixels.
pub struct Viewport {
    pub width: i64,
    pub height: i64,
}

/// Projection parameters that scale panning.
pub enum Projection {
    /// Perspective projection: panning speed follows the field of view
    /// (fixed-point radians) and the aspect ratio.
    Perspective { fov: i64, aspect_ratio: i64 },
    /// Orthographic projection: pointer motion pans unscaled.
    Orthographic,
}

/// The single action a tick performs, chosen by precedence.
pub enum CameraAction {
    /// Orbit by the contained pointer motion.
    Rotate(Vec2),
    /// Pan by the contained pointer motion.
    Pan(Vec2),
    /// Zoom by the contained scroll amount.
    Zoom(i64),
    /// Nothing to do.
    Idle,
}

impl PanOrbitCamera {
    /// The state lies within the bounds the per-tick update accepts.
    pub open spec fn wf(&self) -> bool {
        &&& v3_bounded(self.focus@, FOCUS_LIMIT as int)
        &&& 0 <= self.radius <= RADIUS_LIMIT
    }
}

impl Default for PanOrbitCamera {
    /// A camera orbiting the origin at five units' distance.
    fn default() -> (s: Self)
        ensures
            s.focus@ == (0int, 0int, 0int),
            s.radius == 5 * SCALE,
            !s.upside_down,
            s.wf(),
    {
        PanOrbitCamera { focus: Vec3 { x: 0, y: 0, z: 0 }, radius: 5 * SCALE, upside_down: false }
    }
}

impl Default for Transform {
    /// The identity transform: at the origin, looking down the local axes.
    fn default() -> (t: Self)
        ensures
            t.translation@ == (0int, 0int, 0int),
            t.rotation@ == (0int, 0int, 0int, SCALE as int),
    {
        Transform {
            translation: Vec3 { x: 0, y: 0, z: 0 },
            rotation: Quat { x: 0, y: 0, z: 0, w: SCALE },
        }
    }
}

/// The input sample lies within the accepted per-tick bounds.
pub open spec fn input_wf(input: FrameInput) -> bool {
    &&& -MOTION_LIMIT <= input.motion.x <= MOTION_LIMIT
    &&& -MOTION_LIMIT <= input.motion.y <= MOTION_LIMIT
    &&& -SCROLL_LIMIT <= input.scroll <= SCROLL_LIMIT
}

/// The viewport extent lies within the accepted bounds.
pub open spec fn viewport_wf(vp: Viewport) -> bool {
    &&& VIEW_MIN <= vp.width <= VIEW_LIMIT
    &&& VIEW_MIN <= vp.height <= VIEW_LIMIT
}

/// The projection parameters lie within the accepted bounds.
pub open spec fn projection_wf(p: Projection) -> bool {
    match p {
        Projection::Perspective { fov, aspect_ratio } => 1 <= fov <= FOV_LIMIT && 1 <= aspect_ratio
            <= ASPECT_LIMIT,
        Projection::Orthographic => true,
    }
}

/// An orbit gesture is feeding pointer motion: the orbit button is held
/// without a pan modifier and the motion is nonzero.
pub open spec fn rotation_active(input: FrameInput) -> bool {
    input.orbit_pressed && !input.pan_key && input.motion@ != (0int, 0int)
}

/// A pan gesture is feeding pointer motion: the button is held together
/// with a pan modifier and the motion is nonzero.
pub open spec fn pan_active(input: FrameInput) -> bool {
    input.orbit_pressed && input.pan_key && input.motion@ != (0int, 0int)
}

/// The action of a tick: rotation is checked first, then panning, then
/// scrolling; while input is not allowed, none of the three applies.
pub open spec fn decide_fx(input: FrameInput, allow_input: bool) -> CameraAction {
    if !allow_input {
        CameraAction::Idle
    } else if rotation_active(input) {
        CameraAction::Rotate(input.motion)
    } else if pan_active(input) {
        CameraAction::Pan(input.motion)
    } else if input.scroll != 0 {
        CameraAction::Zoom(input.scroll)
    } else {
        CameraAction::Idle
    }
}

/// The cached upside-down flag after a tick: recomputed from the current
/// orientation only on the tick the orbit button changed, by projecting
/// world-up through the rotation.
pub open spec fn upside_after(
    s: PanOrbitCamera,
    t: Transform,
    input: FrameInput,
    allow_input: bool,
) -> bool {
    if allow_input && input.orbit_changed {
        quat_rotate_fx(t.rotation@, (0, SCALE as int, 0)).1 <= 0
    } else {
        s.upside_down
    }
}

/// Yaw angle of a horizontal motion: a full viewport width turns one whole
/// turn; the sign flips while the camera is upside down.
pub open spec fn yaw_angle(mx: int, width: int, upside_down: bool) -> int {
    let base = div_fx(mul_fx(mx, TWO_PI_FX as int), width);
    if upside_down {
        base
    } else {
        -base
    }
}

/// Pitch angle of a vertical motion: a full viewport height turns half a
/// turn.
pub open spec fn pitch_angle(my: int, height: int) -> int {
    -div_fx(mul_fx(my, PI_FX as int), height)
}

/// The orientation after an orbit step: yaw composed on the left (world
/// axis), pitch on the right (camera-local axis), then normalized.
pub open spec fn rotate_after(
    q: (int, int, int, int),
    m: (int, int),
    vp: Viewport,
    upside_down: bool,
) -> (int, int, int, int) {
    let yaw = rot_y_fx(yaw_angle(m.0, vp.width as int, upside_down));
    let pitch = rot_x_fx(pitch_angle(m.1, vp.height as int));
    quat_normalize_fx(quat_mul_fx(quat_mul_fx(yaw, q), pitch))
}

/// Pointer motion scaled for panning: under a perspective projection the
/// motion is made resolution- and field-of-view-independent; under an
/// orthographic one it is used unscaled.
pub open spec fn pan_scaled(m: (int, int), vp: Viewport, proj: Projection) -> (int, int) {
    match proj {
        Projection::Perspective { fov, aspect_ratio } => (
            mul_fx(m.0, div_fx(mul_fx(fov as int, aspect_ratio as int), vp.width as int)),
            mul_fx(m.1, div_fx(fov as int, vp.height as int)),
        ),
        Projection::Orthographic => m,
    }
}

/// The focus point after a pan step: displaced along the camera's right
/// and up axes, proportionally to the current radius.
pub open spec fn pan_after(
    focus: (int, int, int),
    q: (int, int, int, int),
    m: (int, int),
    vp: Viewport,
    proj: Projection,
    radius: int,
) -> (int, int, int) {
    let p = pan_scaled(m, vp, proj);
    let right = v3_scale_fx(quat_rotate_fx(q, (SCALE as int, 0, 0)), -p.0);
    let upv = v3_scale_fx(quat_rotate_fx(q, (0, SCALE as int, 0)), p.1);
    let translation = v3_scale_fx(v3_add(right, upv), radius);
    v3_add(focus, translation)
}

/// The radius after a zoom step: shrunk in proportion to itself and
/// clamped at the floor.
pub open spec fn zoom_after(radius: int, scroll: int) -> int {
    let shrunk = radius - mul_fx(mul_fx(scroll, radius), ZOOM_RATE as int);
    if shrunk < MIN_RADIUS as int {
        MIN_RADIUS as int
    } else {
        shrunk
    }
}

/// The camera position: at distance `radius` behind the focus along the
/// rotated local Z axis.
pub open spec fn recompose_fx(
    focus: (int, int, int),
    q: (int, int, int, int),
    radius: int,
) -> (int, int, int) {
    v3_add(focus, quat_rotate_fx(q, (0, 0, radius)))
}

/// Whether the camera may consume pointer input this tick: not while the
/// host UI layer reports the pointer over one of its surfaces, in use by a
/// widget, or wanted by one.
pub fn plugin_enabled(wants_pointer: bool, pointer_over_area: bool, using_pointer: bool) -> (r:
    bool)
    ensures
        r == !(wants_pointer || pointer_over_area || using_pointer),
{
    !(wants_pointer || pointer_over_area || using_pointer)
}

/// Choose the single action of this tick from the raw input.
pub fn decide(input: &FrameInput, allow_input: bool) -> (a: CameraAction)
    ensures
        a == decide_fx(*input, allow_input),
{
    if !allow_input {
        return CameraAction::Idle;
    }
    let moving = input.motion.x != 0 || input.motion.y != 0;
    if input.orbit_pressed && !input.pan_key && moving {
        CameraAction::Rotate(input.motion)
    } else if input.orbit_pressed && input.pan_key && moving {
        CameraAction::Pan(input.motion)
    } else if input.scroll != 0 {
        CameraAction::Zoom(input.scroll)
    } else {
        CameraAction::Idle
    }
}

/// Apply an orbit step to the camera orientation.
fn apply_rotate(transform: &mut Transform, m: Vec2, viewport: &Viewport, upside_down: bool)
    requires
        q4_bounded(old(transform).rotation@, SCALE as int),
        -MOTION_LIMIT <= m.x <= MOTION_LIMIT,
        -MOTION_LIMIT <= m.y <= MOTION_LIMIT,
        viewport_wf(*viewport),
    ensures
        final(transform).rotation@ == rotate_after(
            old(transform).rotation@,
            m@,
            *viewport,
            upside_down,
        ),
        final(transform).translation == old(transform).translation,
        q4_bounded(final(transform).rotation@, SCALE as int),
{
    let mx2pi = fx_mul(m.x, TWO_PI_FX, Ghost(2_000_000_000), Ghost(6_283_185));
    let base = fx_div(mx2pi, viewport.width, Ghost(12_566_370_000), Ghost(1_000_000));
    let dx = if upside_down {
        base
    } else {
        -base
    };
    let my_pi = fx_mul(m.y, PI_FX, Ghost(2_000_000_000), Ghost(3_141_593));
    let dy = -fx_div(my_pi, viewport.height, Ghost(6_283_186_000), Ghost(1_000_000));
    let yaw = Quat::from_rotation_y(dx);
    let pitch = Quat::from_rotation_x(dy);
    let q1 = quat_mul(&yaw, &transform.rotation, Ghost(1_000_000), Ghost(1_000_000));
    let q2 = quat_mul(&q1, &pitch, Ghost(4_000_000), Ghost(1_000_000));
    let qn = quat_normalize(&q2, Ghost(16_000_000));
    transform.rotation = qn;
}

/// Apply a pan step to the focus point.
fn apply_pan(
    state: &mut PanOrbitCamera,
    rotation: &Quat,
    m: Vec2,
    viewport: &Viewport,
    projection: &Projection,
)
    requires
        old(state).wf(),
        q4_bounded(rotation@, SCALE as int),
        -MOTION_LIMIT <= m.x <= MOTION_LIMIT,
        -MOTION_LIMIT <= m.y <= MOTION_LIMIT,
        viewport_wf(*viewport),
        projection_wf(*projection),
    ensures
        final(state).focus@ == pan_after(
            old(state).focus@,
            rotation@,
            m@,
            *viewport,
            *projection,
            old(state).radius as int,
        ),
        final(state).radius == old(state).radius,
        final(state).upside_down == old(state).upside_down,
        v3_bounded(final(state).focus@, 8_400_000_000_000_000_000),
{
    let p: Vec2 = match projection {
        Projection::Perspective { fov, aspect_ratio } => {
            let fa = fx_mul(*fov, *aspect_ratio, Ghost(4_000_000), Ghost(10_000_000));
            let sx = fx_div(fa, viewport.width, Ghost(40_000_000), Ghost(1_000_000));
            let sy = fx_div(*fov, viewport.height, Ghost(4_000_000), Ghost(1_000_000));
            Vec2 {
                x: fx_mul(m.x, sx, Ghost(2_000_000_000), Ghost(40_000_000)),
                y: fx_mul(m.y, sy, Ghost(2_000_000_000), Ghost(4_000_000)),
            }
        },
        Projection::Orthographic => m,
    };
    proof {
        assert(p@ == pan_scaled(m@, *viewport, *projection));
        assert(-80_000_000_000 <= p.x <= 80_000_000_000);
        assert(-80_000_000_000 <= p.y <= 80_000_000_000);
    }
    let right0 = quat_rotate(rotation, &Vec3 { x: SCALE, y: 0, z: 0 }, Ghost(1_000_000));
    let up0 = quat_rotate(rotation, &Vec3 { x: 0, y: SCALE, z: 0 }, Ghost(1_000_000));
    let right = v3_scale(&right0, -p.x, Ghost(13_000_000), Ghost(80_000_000_000));
    let upm = v3_scale(&up0, p.y, Ghost(13_000_000), Ghost(80_000_000_000));
    let summ = v3_plus(&right, &upm, Ghost(1_040_000_000_000), Ghost(1_040_000_000_000));
    let trans = v3_scale(&summ, state.radius, Ghost(2_080_000_000_000), Ghost(4_000_000_000_000));
    let newf = v3_plus(
        &state.focus,
        &trans,
        Ghost(1_000_000_000_000_000),
        Ghost(8_320_000_000_000_000_000),
    );
    state.focus = newf;
}

/// Apply a zoom step to the radius.
fn apply_zoom(state: &mut PanOrbitCamera, scroll: i64)
    requires
        old(state).wf(),
        -SCROLL_LIMIT <= scroll <= SCROLL_LIMIT,
    ensures
        final(state).radius as int == zoom_after(old(state).radius as int, scroll as int),
        final(state).focus == old(state).focus,
        final(state).upside_down == old(state).upside_down,
        MIN_RADIUS <= final(state).radius <= 12_000_000_000_000,
{
    let z1 = fx_mul(scroll, state.radius, Ghost(1_000_000_000), Ghost(4_000_000_000_000));
    let z2 = fx_mul(z1, ZOOM_RATE, Ghost(4_000_000_000_000_000), Ghost(2_000));
    let shrunk = state.radius - z2;
    state.radius = if shrunk < MIN_RADIUS {
        MIN_RADIUS
    } else {
        shrunk
    };
}

/// The per-tick camera update.
///
/// While input is allowed, the cached upside-down flag is refreshed on
/// orbit-button transitions, the tick's single action (rotate, pan or zoom)
/// is applied, and the camera position is recomposed; a tick that changes
/// nothing leaves the transform untouched. While the UI holds the pointer
/// the whole state is left as it was.
pub fn pan_orbit_camera(
    state: &mut PanOrbitCamera,
    transform: &mut Transform,
    input: &FrameInput,
    viewport: &Viewport,
    projection: &Projection,
    allow_input: bool,
)
    requires
        old(state).wf(),
        q4_bounded(old(transform).rotation@, SCALE as int),
        input_wf(*input),
        viewport_wf(*viewport),
        projection_wf(*projection),
    ensures
        final(state).upside_down == upside_after(*old(state), *old(transform), *input, allow_input),
        (match decide_fx(*input, allow_input) {
            CameraAction::Rotate(m) => {
                &&& final(transform).rotation@ == rotate_after(
                    old(transform).rotation@,
                    m@,
                    *viewport,
                    upside_after(*old(state), *old(transform), *input, allow_input),
                )
                &&& final(state).focus == old(state).focus
                &&& final(state).radius == old(state).radius
                &&& final(transform).translation@ == recompose_fx(
                    final(state).focus@,
                    final(transform).rotation@,
                    final(state).radius as int,
                )
            },
            CameraAction::Pan(m) => {
                &&& final(state).focus@ == pan_after(
                    old(state).focus@,
                    old(transform).rotation@,
                    m@,
                    *viewport,
                    *projection,
                    old(state).radius as int,
                )
                &&& final(state).radius == old(state).radius
                &&& final(transform).rotation == old(transform).rotation
                &&& final(transform).translation@ == recompose_fx(
                    final(state).focus@,
                    final(transform).rotation@,
                    final(state).radius as int,
                )
            },
            CameraAction::Zoom(s) => {
                &&& final(state).radius as int == zoom_after(old(state).radius as int, s as int)
                &&& final(state).focus == old(state).focus
                &&& final(transform).rotation == old(transform).rotation
                &&& final(transform).translation@ == recompose_fx(
                    final(state).focus@,
                    final(transform).rotation@,
                    final(state).radius as int,
                )
            },
            CameraAction::Idle => {
                &&& final(state).focus == old(state).focus
                &&& final(state).radius == old(state).radius
                &&& *final(transform) == *old(transform)
            },
        }),
        q4_bounded(final(transform).rotation@, SCALE as int),
        !allow_input ==> *final(state) == *old(state) && *final(transform) == *old(transform),
        input.motion@ == (0int, 0int) && input.scroll == 0 ==> final(state).focus == old(state).focus
            && final(state).radius == old(state).radius && *final(transform) == *old(transform),
        final(state).radius == old(state).radius || final(state).radius >= MIN_RADIUS,
        v3_bounded(final(state).focus@, 8_400_000_000_000_000_000),
        0 <= final(state).radius <= 12_000_000_000_000,
{
    if !allow_input {
        return ;
    }
    if input.orbit_changed {
        let upv = quat_rotate(
            &transform.rotation,
            &Vec3 { x: 0, y: SCALE, z: 0 },
            Ghost(1_000_000),
        );
        state.upside_down = upv.y <= 0;
    }
    let action = decide(input, allow_input);
    match action {
        CameraAction::Rotate(m) => {
            apply_rotate(transform, m, viewport, state.upside_down);
        },
        CameraAction::Pan(m) => {
            apply_pan(state, &transform.rotation, m, viewport, projection);
        },
        CameraAction::Zoom(s) => {
            apply_zoom(state, s);
        },
        CameraAction::Idle => {
            return ;
        },
    }
    adjust(state, transform);
}

/// The always-run pass: re-derive the camera position from the latest
/// focus, orientation and radius. It guards against other code moving the
/// focus or radius without going through the input path.
pub fn adjust(state: &PanOrbitCamera, transform: &mut Transform)
    requires
        q4_bounded(old(transform).rotation@, SCALE as int),
        v3_bounded(state.focus@, 8_400_000_000_000_000_000),
        0 <= state.radius <= 13_000_000_000_000,
    ensures
        final(transform).rotation == old(transform).rotation,
        final(transform).translation@ == recompose_fx(
            state.focus@,
            old(transform).rotation@,
            state.radius as int,
        ),
{
    let offs = quat_rotate(
        &transform.rotation,
        &Vec3 { x: 0, y: 0, z: state.radius },
        Ghost(13_000_000_000_000),
    );
    let newpos = v3_plus(
        &state.focus,
        &offs,
        Ghost(8_400_000_000_000_000_000),
        Ghost(169_000_000_000_000),
    );
    transform.translation = newpos;
}

/// Sum of a sequence of points, component-wise.
pub open spec fn sum_points(s: Seq<Vec3>) -> (int, int, int)
    decreases s.len(),
{
    if s.len() == 0 {
        (0, 0, 0)
    } else {
        v3_add(sum_points(s.drop_last()), s.last()@)
    }
}

/// The mean of a nonempty sequence of points, each component rounded
/// toward zero.
pub open spec fn centroid(s: Seq<Vec3>) -> (int, int, int) {
    let n = s.len() as int;
    let total = sum_points(s);
    (tdiv(total.0, n), tdiv(total.1, n), tdiv(total.2, n))
}

/// Recenter the camera on the selected points: the focus moves to their
/// centroid and the radius becomes the distance from the current camera
/// position to it; the orientation is untouched. An empty selection is a
/// no-op.
pub fn center_selection(state: &mut PanOrbitCamera, camera_translation: &Vec3, points: &Vec<Vec3>)
    requires
        forall|i: int|
            0 <= i < points@.len() ==> v3_bounded(
                (#[trigger] points@[i])@,
                1_000_000_000_000_000,
            ),
        v3_bounded(camera_translation@, 2_000_000_000_000_000_000),
    ensures
        points@.len() == 0 ==> *final(state) == *old(state),
        points@.len() > 0 ==> final(state).focus@ == centroid(points@),
        points@.len() > 0 ==> final(state).radius as int == dist_fx(
            camera_translation@,
            centroid(points@),
        ),
        points@.len() > 0 ==> final(state).upside_down == old(state).upside_down,
        points@.len() > 0 ==> v3_bounded(final(state).focus@, 1_000_000_000_000_000)
            && 0 <= final(state).radius,
{
    let n = points.len();
    if n == 0 {
        return ;
    }
    let mut ax: i128 = 0;
    let mut ay: i128 = 0;
    let mut az: i128 = 0;
    let mut i: usize = 0;
    while i < n
        invariant
            n == points@.len(),
            0 < n,
            i <= n,
            forall|j: int|
                0 <= j < points@.len() ==> v3_bounded(
                    (#[trigger] points@[j])@,
                    1_000_000_000_000_000,
                ),
            (ax as int, ay as int, az as int) == sum_points(points@.take(i as int)),
            -((i as int) * 1_000_000_000_000_000) <= ax <= (i as int) * 1_000_000_000_000_000,
            -((i as int) * 1_000_000_000_000_000) <= ay <= (i as int) * 1_000_000_000_000_000,
            -((i as int) * 1_000_000_000_000_000) <= az <= (i as int) * 1_000_000_000_000_000,
        decreases n - i,
    {
        proof {
            lemma_mul_inequality(i as int + 1, 0x1_0000_0000_0000_0000, 1_000_000_000_000_000);
            assert(((i as int) + 1) * 1_000_000_000_000_000 == (i as int) * 1_000_000_000_000_000
                + 1_000_000_000_000_000) by (nonlinear_arith);
        }
        let p = points[i];
        ax = ax + p.x as i128;
        ay = ay + p.y as i128;
        az = az + p.z as i128;
        proof {
            assert(points@.take(i as int + 1).drop_last() =~= points@.take(i as int));
            assert(points@.take(i as int + 1).last() == points@[i as int]);
        }
        i += 1;
    }
    proof {
        assert(points@.take(n as int) =~= points@);
    }
    let ni: i128 = n as i128;
    proof {
        lemma_mul_inequality(n as int, 0x1_0000_0000_0000_0000, 1_000_000_000_000_000);
        lemma_tdiv_bound(ax as int, (n as int) * 1_000_000_000_000_000, n as int);
        lemma_tdiv_bound(ay as int, (n as int) * 1_000_000_000_000_000, n as int);
        lemma_tdiv_bound(az as int, (n as int) * 1_000_000_000_000_000, n as int);
        lemma_tdiv_exact(1_000_000_000_000_000, n as int);
    }
    let cx128 = i128_tdiv(ax, ni);
    let cy128 = i128_tdiv(ay, ni);
    let cz128 = i128_tdiv(az, ni);
    let cx = cx128 as i64;
    let cy = cy128 as i64;
    let cz = cz128 as i64;
    state.focus = Vec3 { x: cx, y: cy, z: cz };
    proof {
        assert(state.focus@ == centroid(points@));
    }
    state.radius = v3_dist(camera_translation, &state.focus);
}

/// Law: one zoom step always leaves the radius at or above its floor,
/// whatever scroll amount accumulated and whatever the radius was.
pub proof fn lemma_zoom_floor(radius: int, scroll: int)
    ensures
        zoom_after(radius, scroll) >= MIN_RADIUS as int,
{
}

/// The radius left by a run of zoom steps, one per scroll amount.
pub open spec fn zoom_run(radius: int, scrolls: Seq<int>) -> int
    decreases scrolls.len(),
{
    if scrolls.len() == 0 {
        radius
    } else {
        zoom_after(zoom_run(radius, scrolls.drop_last()), scrolls.last())
    }
}

/// Law: after any nonempty sequence of zoom steps the radius sits at or
/// above its floor, however large the accumulated scroll input was in
/// either direction.
pub proof fn lemma_zoom_run_floor(radius: int, scrolls: Seq<int>)
    requires
        scrolls.len() > 0,
    ensures
        zoom_run(radius, scrolls) >= MIN_RADIUS as int,
{
    lemma_zoom_floor(zoom_run(radius, scrolls.drop_last()), scrolls.last());
}

/// Law: the always-run recompose pass is idempotent. If a transform
/// already equals the recomposition of a state over some orientation,
/// recomposing it again over the same state changes nothing.
pub proof fn lemma_adjust_idempotent(s: PanOrbitCamera, t0: Transform, t1: Transform, t2: Transform)
    requires
        t1.rotation == t0.rotation,
        t1.translation@ == recompose_fx(s.focus@, t0.rotation@, s.radius as int),
        t2.rotation == t1.rotation,
        t2.translation@ == recompose_fx(s.focus@, t1.rotation@, s.radius as int),
    ensures
        t2.translation == t1.translation,
        t2.rotation == t1.rotation,
{
}

} // verus!
