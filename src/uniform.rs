//! The per-frame camera block handed to the renderer: the camera state
//! after the safety clamps, and the lens model as an index.
use vstd::prelude::*;
use crate::panorama::{
    clamp, uses_half_fov_tangent, PanoramaViewer3D, ProjectionMode, DEFAULT_FOV, DEGREE,
    MAX_FOV, MAX_FOV_TANGENT,
};

verus! {

/// Smallest field of view that reaches the renderer.
pub const SAFE_MIN_FOV: i64 = DEGREE;

/// Bound of the pitch that reaches the renderer, in either direction:
/// short of the poles, where `tan(pitch)` diverges.
pub const SAFE_PITCH_LIMIT: i64 = 89900000;

/// The field of view after the safety clamp: short of 180 degrees for the
/// modes that take `tan(fov / 2)`.
pub open spec fn safe_fov(mode: ProjectionMode, fov: int) -> int {
    if uses_half_fov_tangent(mode) {
        clamp(fov, SAFE_MIN_FOV as int, MAX_FOV_TANGENT as int)
    } else {
        clamp(fov, SAFE_MIN_FOV as int, MAX_FOV as int)
    }
}

pub open spec fn safe_pitch(pitch: int) -> int {
    clamp(pitch, -SAFE_PITCH_LIMIT as int, SAFE_PITCH_LIMIT as int)
}

pub open spec fn mode_index_of(mode: ProjectionMode) -> u32 {
    match mode {
        ProjectionMode::Rectilinear => 0,
        ProjectionMode::Equidistant => 1,
        ProjectionMode::Stereographic => 2,
        ProjectionMode::Pannini => 3,
        ProjectionMode::Equirectangular => 4,
        ProjectionMode::Architectural => 5,
    }
}

impl ProjectionMode {
    /// The index by which the renderer tells the modes apart.
    pub fn index(self) -> (r: u32)
        ensures
            r == mode_index_of(self),
            r <= 5,
    {
        match self {
            ProjectionMode::Rectilinear => 0,
            ProjectionMode::Equidistant => 1,
            ProjectionMode::Stereographic => 2,
            ProjectionMode::Pannini => 3,
            ProjectionMode::Equirectangular => 4,
            ProjectionMode::Architectural => 5,
        }
    }
}

/// The camera as the renderer receives it each frame. The aspect ratio is
/// `aspect_width / aspect_height`; the yaw is in yaw units, the other
/// angles in micro-degrees.
pub struct CameraUniform {
    pub aspect_width: u32,
    pub aspect_height: u32,
    pub fov: i64,
    pub yaw: i128,
    pub pitch: i64,
    pub mode: u32,
}

impl CameraUniform {
    /// The block for a `width` x `height` viewport before the first frame:
    /// default field of view, looking ahead, rectilinear.
    pub fn new(width: u32, height: u32) -> (r: CameraUniform)
        ensures
            r.aspect_width == width,
            r.aspect_height == height,
            r.fov == DEFAULT_FOV,
            r.yaw == 0,
            r.pitch == 0,
            r.mode == 0,
    {
        CameraUniform {
            aspect_width: width,
            aspect_height: height,
            fov: DEFAULT_FOV,
            yaw: 0,
            pitch: 0,
            mode: 0,
        }
    }

    /// Takes the aspect ratio of a resized viewport; an empty one (a
    /// minimised window) is ignored.
    pub fn resize(&mut self, width: u32, height: u32)
        ensures
            width > 0 && height > 0 ==> final(self).aspect_width == width
                && final(self).aspect_height == height,
            !(width > 0 && height > 0) ==> final(self).aspect_width == old(self).aspect_width
                && final(self).aspect_height == old(self).aspect_height,
            final(self).fov == old(self).fov,
            final(self).yaw == old(self).yaw,
            final(self).pitch == old(self).pitch,
            final(self).mode == old(self).mode,
    {
        if width > 0 && height > 0 {
            self.aspect_width = width;
            self.aspect_height = height;
        }
    }

    /// Takes the camera state of this frame, after the safety clamps: the
    /// field of view within `[1, 179.9]` degrees for the modes that take
    /// `tan(fov / 2)` and within `[1, 180]` for the others, the pitch within
    /// `[-89.9, 89.9]` degrees. The yaw passes unchanged.
    pub fn update_camera(&mut self, yaw: i128, pitch: i64, fov: i64, mode: ProjectionMode)
        ensures
            final(self).yaw == yaw,
            final(self).pitch == safe_pitch(pitch as int),
            final(self).fov == safe_fov(mode, fov as int),
            final(self).mode == mode_index_of(mode),
            final(self).aspect_width == old(self).aspect_width,
            final(self).aspect_height == old(self).aspect_height,
            -SAFE_PITCH_LIMIT <= final(self).pitch <= SAFE_PITCH_LIMIT,
            SAFE_MIN_FOV <= final(self).fov <= MAX_FOV,
            uses_half_fov_tangent(mode) ==> final(self).fov <= MAX_FOV_TANGENT,
    {
        let hi = if matches!(
            mode,
            ProjectionMode::Rectilinear | ProjectionMode::Pannini | ProjectionMode::Architectural
        ) {
            MAX_FOV_TANGENT
        } else {
            MAX_FOV
        };
        self.fov = if fov < SAFE_MIN_FOV {
            SAFE_MIN_FOV
        } else if fov > hi {
            hi
        } else {
            fov
        };
        self.pitch = if pitch < -SAFE_PITCH_LIMIT {
            -SAFE_PITCH_LIMIT
        } else if pitch > SAFE_PITCH_LIMIT {
            SAFE_PITCH_LIMIT
        } else {
            pitch
        };
        self.yaw = yaw;
        self.mode = mode.index();
    }

    /// Takes the viewer's state of this frame (see `update_camera`).
    pub fn update_from_viewer(&mut self, viewer: &PanoramaViewer3D)
        ensures
            final(self).yaw == viewer.yaw,
            final(self).pitch == safe_pitch(viewer.pitch as int),
            final(self).fov == safe_fov(viewer.projection_mode, viewer.fov as int),
            final(self).mode == mode_index_of(viewer.projection_mode),
            final(self).aspect_width == old(self).aspect_width,
            final(self).aspect_height == old(self).aspect_height,
    {
        self.update_camera(viewer.yaw, viewer.pitch, viewer.fov, viewer.projection_mode);
    }
}

/// Whatever pitch the viewer holds, the renderer receives one within
/// `[-89.9, 89.9]` degrees.
pub proof fn lemma_safe_pitch_in_range(pitch: int)
    ensures
        -SAFE_PITCH_LIMIT <= safe_pitch(pitch) <= SAFE_PITCH_LIMIT,
{
}

/// In rectilinear mode the renderer never receives a field of view above
/// 179.9 degrees, even where the viewer holds 180 or more.
pub proof fn lemma_rectilinear_fov_below_singularity(fov: int)
    ensures
        safe_fov(ProjectionMode::Rectilinear, fov) <= MAX_FOV_TANGENT,
        fov >= MAX_FOV_TANGENT ==> safe_fov(ProjectionMode::Rectilinear, fov) == MAX_FOV_TANGENT,
{
}

} // verus!
