//! Camera state: orientation, field of view, projection model, and the
//! clamped mutations that user input performs on them.
use vstd::prelude::*;

verus! {

/// Micro-degrees per degree: the unit of every angle in this crate.
pub const DEGREE: i64 = 1000000;

/// Smallest field of view of every mode but the stereographic one.
pub const MIN_FOV: i64 = 5 * DEGREE;

/// Smallest field of view of the stereographic mode.
pub const MIN_FOV_STEREOGRAPHIC: i64 = 10 * DEGREE;

/// Largest field of view of the modes that take `tan(fov / 2)`.
pub const MAX_FOV_TANGENT: i64 = 179900000;

/// Largest field of view of the other modes.
pub const MAX_FOV: i64 = 180 * DEGREE;

/// Field of view after a reset: the 50 mm equivalent, 46.8 degrees.
pub const DEFAULT_FOV: i64 = 46800000;

/// Yaw units per micro-degree. The yaw is held this much finer than the
/// other angles, so that a one-pixel drag still tells apart any two
/// horizontal fields of view, whatever the window width.
pub const YAW_UNITS_PER_MICRO_DEGREE: i128 = 100000000000;

/// Yaw units per degree.
pub const YAW_DEGREE: i128 = 100000000000000000;

/// Bound of the interactive pitch, in either direction.
pub const PITCH_LIMIT: i64 = 90 * DEGREE;

/// Change of the field of view per scroll step, in micro-degrees per
/// thousandth of a step (2.5 degrees per step).
pub const ZOOM_PER_MILLI_STEP: i64 = 2500;

/// Sensitivity is held in thousandths: this is a factor of 1.
pub const SENSITIVITY_ONE: u32 = 1000;

/// Lowest sensitivity that can be set (a factor of 0.1).
pub const SENSITIVITY_MIN: u32 = 100;

/// Highest sensitivity that can be set (a factor of 5).
pub const SENSITIVITY_MAX: u32 = 5000;

/// The lens model used to turn a screen position into a viewing ray.
#[derive(Debug, Clone, Copy, PartialEq, Eq, Structural)]
pub enum ProjectionMode {
    /// Standard perspective: straight lines stay straight.
    Rectilinear,
    /// Fisheye: distance from the centre is linear in angle.
    Equidistant,
    /// "Little planet": `angle = 2 atan(r tan(fov / 4))`.
    Stereographic,
    /// Perspective with a cylindrical horizontal correction.
    Pannini,
    /// Direct unwrap of the source image.
    Equirectangular,
    /// Perspective with vertical lines kept vertical.
    Architectural,
}

/// Whether the mode's formula takes `tan(fov / 2)`, and so must stay
/// below 180 degrees.
pub open spec fn uses_half_fov_tangent(mode: ProjectionMode) -> bool {
    mode == ProjectionMode::Rectilinear || mode == ProjectionMode::Pannini
        || mode == ProjectionMode::Architectural
}

pub open spec fn min_fov_of(mode: ProjectionMode) -> int {
    if mode == ProjectionMode::Stereographic {
        MIN_FOV_STEREOGRAPHIC as int
    } else {
        MIN_FOV as int
    }
}

pub open spec fn max_fov_of(mode: ProjectionMode) -> int {
    if uses_half_fov_tangent(mode) {
        MAX_FOV_TANGENT as int
    } else {
        MAX_FOV as int
    }
}

/// `v` limited to `[lo, hi]`.
pub open spec fn clamp(v: int, lo: int, hi: int) -> int {
    if v < lo {
        lo
    } else if v > hi {
        hi
    } else {
        v
    }
}

impl ProjectionMode {
    /// The smallest field of view that zooming reaches in this mode.
    pub fn min_fov(self) -> (r: i64)
        ensures
            r == min_fov_of(self),
    {
        match self {
            ProjectionMode::Stereographic => MIN_FOV_STEREOGRAPHIC,
            _ => MIN_FOV,
        }
    }

    /// The largest field of view that zooming reaches in this mode.
    pub fn max_fov(self) -> (r: i64)
        ensures
            r == max_fov_of(self),
    {
        match self {
            ProjectionMode::Rectilinear | ProjectionMode::Pannini
            | ProjectionMode::Architectural => MAX_FOV_TANGENT,
            _ => MAX_FOV,
        }
    }
}

/// The viewer's session state: orientation, zoom, lens model and window
/// mode. The yaw is in yaw units (`YAW_DEGREE` per degree), the other
/// angles in micro-degrees; the sensitivity is in thousandths.
pub struct PanoramaViewer3D {
    pub yaw: i128,
    pub pitch: i64,
    pub fov: i64,
    pub sensitivity_scale: u32,
    pub projection_mode: ProjectionMode,
    pub is_fullscreen: bool,
}

impl PanoramaViewer3D {
    /// Pitch within a quarter turn either way, the field of view within
    /// the widest bounds of any mode, and a sensitivity within its range.
    pub open spec fn wf(&self) -> bool {
        &&& -PITCH_LIMIT <= self.pitch <= PITCH_LIMIT
        &&& MIN_FOV <= self.fov <= MAX_FOV
        &&& SENSITIVITY_MIN <= self.sensitivity_scale <= SENSITIVITY_MAX
    }

    /// Looking at yaw 0 and pitch 0 through the default field of view,
    /// rectilinear, sensitivity 1, windowed.
    pub fn new() -> (r: PanoramaViewer3D)
        ensures
            r.wf(),
            r.yaw == 0,
            r.pitch == 0,
            r.fov == DEFAULT_FOV,
            r.sensitivity_scale == SENSITIVITY_ONE,
            r.projection_mode == ProjectionMode::Rectilinear,
            !r.is_fullscreen,
    {
        PanoramaViewer3D {
            yaw: 0,
            pitch: 0,
            fov: DEFAULT_FOV,
            sensitivity_scale: SENSITIVITY_ONE,
            projection_mode: ProjectionMode::Rectilinear,
            is_fullscreen: false,
        }
    }

    /// Turns the view by `-delta`: a positive drag to the right turns the
    /// view left. The yaw is not reduced to a range.
    pub fn set_yaw(&mut self, delta: i128)
        requires
            i128::MIN <= old(self).yaw - delta <= i128::MAX,
        ensures
            final(self).yaw == old(self).yaw - delta,
            final(self).pitch == old(self).pitch,
            final(self).fov == old(self).fov,
            final(self).sensitivity_scale == old(self).sensitivity_scale,
            final(self).projection_mode == old(self).projection_mode,
            final(self).is_fullscreen == old(self).is_fullscreen,
    {
        self.yaw = self.yaw - delta;
    }

    /// Tilts the view by `-delta`, stopping at straight up and straight down.
    pub fn set_pitch(&mut self, delta: i64)
        ensures
            final(self).pitch == clamp(old(self).pitch - delta, -PITCH_LIMIT as int, PITCH_LIMIT as int),
            -PITCH_LIMIT <= final(self).pitch <= PITCH_LIMIT,
            final(self).yaw == old(self).yaw,
            final(self).fov == old(self).fov,
            final(self).sensitivity_scale == old(self).sensitivity_scale,
            final(self).projection_mode == old(self).projection_mode,
            final(self).is_fullscreen == old(self).is_fullscreen,
            old(self).wf() ==> final(self).wf(),
    {
        let p: i128 = self.pitch as i128 - delta as i128;
        self.pitch = if p < -(PITCH_LIMIT as i128) {
            -PITCH_LIMIT
        } else if p > PITCH_LIMIT as i128 {
            PITCH_LIMIT
        } else {
            p as i64
        };
    }

    /// Narrows the view by 2.5 degrees per scroll step; `delta` counts
    /// thousandths of a step. The result stays within the bounds of the
    /// current mode.
    pub fn zoom(&mut self, delta: i64)
        ensures
            final(self).fov == zoomed_fov(old(self).fov as int, delta as int, old(self).projection_mode),
            min_fov_of(old(self).projection_mode) <= final(self).fov <= max_fov_of(old(self).projection_mode),
            final(self).yaw == old(self).yaw,
            final(self).pitch == old(self).pitch,
            final(self).sensitivity_scale == old(self).sensitivity_scale,
            final(self).projection_mode == old(self).projection_mode,
            final(self).is_fullscreen == old(self).is_fullscreen,
            old(self).wf() ==> final(self).wf(),
    {
        let lo = self.projection_mode.min_fov();
        let hi = self.projection_mode.max_fov();
        assert(-0x1_0000_0000_0000_0000_0000 <= delta * ZOOM_PER_MILLI_STEP
            <= 0x1_0000_0000_0000_0000_0000) by (nonlinear_arith)
            requires
                i64::MIN <= delta <= i64::MAX,
        ;
        let f: i128 = self.fov as i128 - (delta as i128) * (ZOOM_PER_MILLI_STEP as i128);
        self.fov = if f < lo as i128 {
            lo
        } else if f > hi as i128 {
            hi
        } else {
            f as i64
        };
    }

    /// Back to yaw 0, pitch 0 and the default field of view; the mode, the
    /// sensitivity and the window mode are kept.
    pub fn reset(&mut self)
        ensures
            final(self).yaw == 0,
            final(self).pitch == 0,
            final(self).fov == DEFAULT_FOV,
            final(self).sensitivity_scale == old(self).sensitivity_scale,
            final(self).projection_mode == old(self).projection_mode,
            final(self).is_fullscreen == old(self).is_fullscreen,
            old(self).wf() ==> final(self).wf(),
    {
        self.yaw = 0;
        self.pitch = 0;
        self.fov = DEFAULT_FOV;
    }

    /// Switches the lens model. The field of view is not re-clamped here:
    /// the per-frame safety clamp takes care of it.
    pub fn set_projection_mode(&mut self, mode: ProjectionMode)
        ensures
            final(self).projection_mode == mode,
            final(self).yaw == old(self).yaw,
            final(self).pitch == old(self).pitch,
            final(self).fov == old(self).fov,
            final(self).sensitivity_scale == old(self).sensitivity_scale,
            final(self).is_fullscreen == old(self).is_fullscreen,
            old(self).wf() ==> final(self).wf(),
    {
        self.projection_mode = mode;
    }

    /// Sets the drag sensitivity (in thousandths), limited to its range.
    pub fn set_sensitivity(&mut self, scale: u32)
        ensures
            final(self).sensitivity_scale == clamp(
                scale as int,
                SENSITIVITY_MIN as int,
                SENSITIVITY_MAX as int,
            ),
            final(self).yaw == old(self).yaw,
            final(self).pitch == old(self).pitch,
            final(self).fov == old(self).fov,
            final(self).projection_mode == old(self).projection_mode,
            final(self).is_fullscreen == old(self).is_fullscreen,
            old(self).wf() ==> final(self).wf(),
    {
        self.sensitivity_scale = if scale < SENSITIVITY_MIN {
            SENSITIVITY_MIN
        } else if scale > SENSITIVITY_MAX {
            SENSITIVITY_MAX
        } else {
            scale
        };
    }

    /// Flips between windowed and fullscreen; returns the new state.
    pub fn toggle_fullscreen(&mut self) -> (r: bool)
        ensures
            r == final(self).is_fullscreen,
            final(self).is_fullscreen == !old(self).is_fullscreen,
            final(self).yaw == old(self).yaw,
            final(self).pitch == old(self).pitch,
            final(self).fov == old(self).fov,
            final(self).sensitivity_scale == old(self).sensitivity_scale,
            final(self).projection_mode == old(self).projection_mode,
    {
        self.is_fullscreen = !self.is_fullscreen;
        self.is_fullscreen
    }
}

/// The field of view after one zoom by `delta` thousandths of a step.
pub open spec fn zoomed_fov(fov: int, delta: int, mode: ProjectionMode) -> int {
    clamp(fov - delta * ZOOM_PER_MILLI_STEP, min_fov_of(mode), max_fov_of(mode))
}

/// The field of view after zooming by each of `deltas` in turn.
pub open spec fn zoomed_fov_seq(fov: int, deltas: Seq<int>, mode: ProjectionMode) -> int
    decreases deltas.len(),
{
    if deltas.len() == 0 {
        fov
    } else {
        zoomed_fov(zoomed_fov_seq(fov, deltas.drop_last(), mode), deltas.last(), mode)
    }
}

/// After one or more zooms, whatever the deltas, the field of view lies
/// within the bounds of the mode.
pub proof fn lemma_zoom_stays_in_mode_bounds(fov: int, deltas: Seq<int>, mode: ProjectionMode)
    requires
        deltas.len() > 0,
    ensures
        min_fov_of(mode) <= zoomed_fov_seq(fov, deltas, mode) <= max_fov_of(mode),
{
}

} // verus!
