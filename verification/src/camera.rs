use vstd::prelude::*;
use crate::fixed::{div_milli, fits_i64, lemma_mul_le, MILLI};
use crate::input::SCROLL_TOTAL_MAX;
use crate::motion::{Transform, DT_MAX};

verus! {

/// Viewport scale the camera spawns with: a zoom factor of 1, in milli.
pub const SCALE_DEFAULT: i64 = 1000;

/// Largest zoom factor magnitude the cursor mapping accepts, in milli
/// (a factor of one million).
pub const SCALE_ABS_MAX: i64 = 1_000_000_000;

/// Largest viewport side length, in milli-pixels (100 000 pixels).
pub const VIEWPORT_SIDE_MAX: u64 = 100_000_000;

/// Largest camera position magnitude the cursor mapping accepts, in
/// milli-units.
pub const CAMERA_POS_MAX: i64 = 1_000_000_000_000_000;

/// Largest magnitude of a cursor's offset from the viewport center, in
/// milli-pixels: a full viewport side.
pub const AXIS_OFFSET_MAX: i64 = 100_000_000;

/// Largest magnitude of a rescaled offset-times-scale product, in
/// milli-units: `AXIS_OFFSET_MAX * SCALE_ABS_MAX / MILLI`.
pub const OFFSET_SCALED_MAX: i64 = 100_000_000_000_000;

/// Camera viewport state: the zoom factor, in milli. The reference behavior
/// never clamps it, so repeated zooming-in can drive it to zero or below — a
/// known latent hazard, preserved as observed rather than silently patched.
#[derive(Clone, Copy, Debug, PartialEq, Eq, Structural)]
pub struct ViewportState {
    pub scale_milli: i64,
}

impl ViewportState {
    /// The state a camera spawns with: a zoom factor of 1.
    pub fn new() -> (v: ViewportState)
        ensures
            v.scale_milli == SCALE_DEFAULT,
    {
        ViewportState { scale_milli: SCALE_DEFAULT }
    }
}

/// Dimensions of the window's viewport, in milli-pixels.
#[derive(Clone, Copy, Debug, PartialEq, Eq, Structural)]
pub struct Viewport {
    pub width_milli: u64,
    pub height_milli: u64,
}

impl Viewport {
    /// Both sides are within the supported viewport size.
    pub open spec fn wf(self) -> bool {
        self.width_milli <= VIEWPORT_SIDE_MAX && self.height_milli <= VIEWPORT_SIDE_MAX
    }
}

/// Cursor position in screen space, in milli-pixels: origin at the top-left
/// corner of the viewport, y growing downward.
#[derive(Clone, Copy, Debug, PartialEq, Eq, Structural)]
pub struct ScreenPos {
    pub x_milli: u64,
    pub y_milli: u64,
}

/// A point in world space, in milli-units.
#[derive(Clone, Copy, Debug, PartialEq, Eq, Structural)]
pub struct WorldPos {
    pub x_milli: i64,
    pub y_milli: i64,
}

/// The viewport scale after one frame's zoom: `scale - scroll_delta * dt`,
/// rescaled by the fixed-point divisor. Scrolling up (a positive delta)
/// zooms in by shrinking the scale; nothing bounds the result.
pub open spec fn zoom_applied(scale_milli: int, scroll_delta_milli: int, dt_milli: int) -> int {
    scale_milli - div_milli(scroll_delta_milli * dt_milli)
}

/// Camera zoom: shrink the viewport scale by `scroll_delta * dt`. The scale
/// is deliberately not clamped (observed behavior, kept as is), so a long
/// zoom-in can push it to zero or below.
pub fn zoom_in(viewport: &mut ViewportState, scroll_delta_milli: i64, dt_milli: u64)
    requires
        -SCROLL_TOTAL_MAX <= scroll_delta_milli <= SCROLL_TOTAL_MAX,
        dt_milli <= DT_MAX,
        fits_i64(zoom_applied(old(viewport).scale_milli as int, scroll_delta_milli as int, dt_milli as int)),
    ensures
        final(viewport).scale_milli == zoom_applied(
            old(viewport).scale_milli as int,
            scroll_delta_milli as int,
            dt_milli as int,
        ),
{
    if scroll_delta_milli >= 0 {
        proof {
            lemma_mul_le(
                scroll_delta_milli as int,
                dt_milli as int,
                SCROLL_TOTAL_MAX as int,
                DT_MAX as int,
            );
        }
        let m: u64 = ((scroll_delta_milli as u64) * dt_milli) / MILLI;
        proof {
            vstd::arithmetic::div_mod::lemma_div_nonincreasing(
                scroll_delta_milli * dt_milli,
                MILLI as int,
            );
        }
        viewport.scale_milli = viewport.scale_milli - (m as i64);
    } else {
        let mag: u64 = (-scroll_delta_milli) as u64;
        proof {
            lemma_mul_le(mag as int, dt_milli as int, SCROLL_TOTAL_MAX as int, DT_MAX as int);
            assert(mag as int * dt_milli as int == -(scroll_delta_milli * dt_milli))
                by (nonlinear_arith)
                requires mag as int == -(scroll_delta_milli as int);
        }
        let m: u64 = (mag * dt_milli) / MILLI;
        proof {
            vstd::arithmetic::div_mod::lemma_div_nonincreasing(mag as int * dt_milli, MILLI as int);
        }
        viewport.scale_milli = viewport.scale_milli + (m as i64);
    }
}

/// One axis of the cursor mapping: a centered screen offset times the zoom
/// factor, rescaled by the fixed-point divisor, truncating toward zero.
fn mul_scale_milli(offset: i64, scale: i64) -> (r: i64)
    requires
        -AXIS_OFFSET_MAX <= offset <= AXIS_OFFSET_MAX,
        -SCALE_ABS_MAX <= scale <= SCALE_ABS_MAX,
    ensures
        r == div_milli(offset * scale),
        -OFFSET_SCALED_MAX <= r <= OFFSET_SCALED_MAX,
{
    let negative: bool = (offset < 0) != (scale < 0);
    let mo: u64 = if offset < 0 { (-offset) as u64 } else { offset as u64 };
    let ms: u64 = if scale < 0 { (-scale) as u64 } else { scale as u64 };
    proof {
        lemma_mul_le(mo as int, ms as int, AXIS_OFFSET_MAX as int, SCALE_ABS_MAX as int);
        if offset >= 0 && scale >= 0 {
            assert(mo as int * ms as int == offset * scale);
        } else if offset < 0 && scale < 0 {
            assert(mo as int * ms as int == offset * scale) by (nonlinear_arith)
                requires mo as int == -(offset as int), ms as int == -(scale as int);
        } else {
            assert(mo as int * ms as int == -(offset * scale)) by (nonlinear_arith)
                requires
                    (mo as int == offset as int && ms as int == -(scale as int))
                        || (mo as int == -(offset as int) && ms as int == scale as int);
        }
    }
    let m: u64 = (mo * ms) / MILLI;
    proof {
        vstd::arithmetic::div_mod::lemma_div_is_ordered(
            mo as int * ms as int,
            AXIS_OFFSET_MAX * SCALE_ABS_MAX,
            MILLI as int,
        );
        vstd::arithmetic::div_mod::lemma_div_pos_is_pos(mo as int * ms as int, MILLI as int);
    }
    if negative {
        -(m as i64)
    } else {
        m as i64
    }
}

/// The cursor is inside the viewport.
pub open spec fn cursor_in_viewport(cursor: ScreenPos, viewport: Viewport) -> bool {
    cursor.x_milli <= viewport.width_milli && cursor.y_milli <= viewport.height_milli
}

/// World-space x under the cursor: the camera position plus the cursor's
/// offset from the viewport center, scaled by the zoom factor.
pub open spec fn world_x_of(cursor: ScreenPos, camera: Transform, viewport: Viewport, scale_milli: int) -> int {
    camera.x_milli + div_milli((cursor.x_milli - viewport.width_milli / 2) * scale_milli)
}

/// World-space y under the cursor. Screen y grows downward while world y
/// grows upward, so the centered offset is flipped.
pub open spec fn world_y_of(cursor: ScreenPos, camera: Transform, viewport: Viewport, scale_milli: int) -> int {
    camera.y_milli + div_milli((viewport.height_milli / 2 - cursor.y_milli) * scale_milli)
}

/// Cursor-to-world mapping for the overlay marker. Returns the world point
/// under the cursor, or nothing when the cursor position is unavailable
/// (window not focused, no pointer device) or lies outside the viewport:
/// the caller skips the overlay for that frame rather than treating the
/// missing point as an error.
pub fn screen_to_world(
    cursor: Option<ScreenPos>,
    camera: &Transform,
    viewport: &Viewport,
    scale_milli: i64,
) -> (r: Option<WorldPos>)
    requires
        viewport.wf(),
        -SCALE_ABS_MAX <= scale_milli <= SCALE_ABS_MAX,
        -CAMERA_POS_MAX <= camera.x_milli <= CAMERA_POS_MAX,
        -CAMERA_POS_MAX <= camera.y_milli <= CAMERA_POS_MAX,
    ensures
        r is Some <==> (cursor matches Some(c) && cursor_in_viewport(c, *viewport)),
        r matches Some(w) ==> cursor matches Some(c) && {
            &&& w.x_milli == world_x_of(c, *camera, *viewport, scale_milli as int)
            &&& w.y_milli == world_y_of(c, *camera, *viewport, scale_milli as int)
        },
{
    let c: ScreenPos = match cursor {
        Some(c) => c,
        None => {
            return None;
        },
    };
    if c.x_milli > viewport.width_milli || c.y_milli > viewport.height_milli {
        return None;
    }
    let half_w: u64 = viewport.width_milli / 2;
    let half_h: u64 = viewport.height_milli / 2;
    let dx: i64 = (c.x_milli as i64) - (half_w as i64);
    let dy: i64 = (half_h as i64) - (c.y_milli as i64);
    let wx: i64 = camera.x_milli + mul_scale_milli(dx, scale_milli);
    let wy: i64 = camera.y_milli + mul_scale_milli(dy, scale_milli);
    Some(WorldPos { x_milli: wx, y_milli: wy })
}

} // verus!
