use panorama_viewer::panorama::{
    PanoramaViewer3D, ProjectionMode, DEFAULT_FOV, DEGREE, MAX_FOV, MAX_FOV_TANGENT, MIN_FOV,
    MIN_FOV_STEREOGRAPHIC, PITCH_LIMIT, YAW_DEGREE,
};
use panorama_viewer::uniform::{CameraUniform, SAFE_PITCH_LIMIT};

const ALL_MODES: [ProjectionMode; 6] = [
    ProjectionMode::Rectilinear,
    ProjectionMode::Equidistant,
    ProjectionMode::Stereographic,
    ProjectionMode::Pannini,
    ProjectionMode::Equirectangular,
    ProjectionMode::Architectural,
];

#[test]
fn new_viewer_defaults() {
    let v = PanoramaViewer3D::new();
    assert_eq!(v.yaw, 0);
    assert_eq!(v.pitch, 0);
    assert_eq!(v.fov, 46_800_000);
    assert_eq!(v.sensitivity_scale, 1000);
    assert_eq!(v.projection_mode, ProjectionMode::Rectilinear);
    assert!(!v.is_fullscreen);
}

#[test]
fn fov_bounds_per_mode() {
    assert_eq!(ProjectionMode::Stereographic.min_fov(), 10 * DEGREE);
    assert_eq!(ProjectionMode::Rectilinear.min_fov(), 5 * DEGREE);
    assert_eq!(ProjectionMode::Equidistant.min_fov(), 5 * DEGREE);
    assert_eq!(ProjectionMode::Rectilinear.max_fov(), 179_900_000);
    assert_eq!(ProjectionMode::Pannini.max_fov(), 179_900_000);
    assert_eq!(ProjectionMode::Architectural.max_fov(), 179_900_000);
    assert_eq!(ProjectionMode::Equidistant.max_fov(), 180 * DEGREE);
    assert_eq!(ProjectionMode::Stereographic.max_fov(), 180 * DEGREE);
    assert_eq!(ProjectionMode::Equirectangular.max_fov(), 180 * DEGREE);
}

#[test]
fn zoom_sequences_stay_within_mode_bounds() {
    let deltas: [i64; 9] = [1000, -1000, 100_000, -100_000, 37, -5, i64::MAX, i64::MIN, 0];
    for mode in ALL_MODES {
        let mut v = PanoramaViewer3D::new();
        v.set_projection_mode(mode);
        for d in deltas {
            v.zoom(d);
            assert!(v.fov >= mode.min_fov() && v.fov <= mode.max_fov());
        }
    }
}

#[test]
fn zoom_one_step_is_two_and_a_half_degrees() {
    let mut v = PanoramaViewer3D::new();
    v.zoom(1000);
    assert_eq!(v.fov, 46_800_000 - 2_500_000);
    v.zoom(-2000);
    assert_eq!(v.fov, 46_800_000 + 2_500_000);
    v.zoom(500);
    assert_eq!(v.fov, 46_800_000 + 1_250_000);
}

#[test]
fn stereographic_zoom_clamps_to_ten_degrees() {
    let mut v = PanoramaViewer3D::new();
    v.set_projection_mode(ProjectionMode::Stereographic);
    v.fov = 20 * DEGREE;
    // 20 - 6.8 * 2.5 = 3 degrees, below the mode's minimum
    v.zoom(6800);
    assert_eq!(v.fov, MIN_FOV_STEREOGRAPHIC);
    assert_ne!(v.fov, 3 * DEGREE);
}

#[test]
fn zoom_out_stops_below_the_tangent_singularity() {
    let mut v = PanoramaViewer3D::new();
    v.zoom(-1_000_000);
    assert_eq!(v.fov, MAX_FOV_TANGENT);
    v.set_projection_mode(ProjectionMode::Equidistant);
    v.zoom(-1_000_000);
    assert_eq!(v.fov, MAX_FOV);
    v.zoom(1_000_000);
    assert_eq!(v.fov, MIN_FOV);
}

#[test]
fn mode_switch_keeps_fov_until_next_zoom() {
    let mut v = PanoramaViewer3D::new();
    v.set_projection_mode(ProjectionMode::Equidistant);
    v.zoom(-1_000_000);
    assert_eq!(v.fov, 180 * DEGREE);
    v.set_projection_mode(ProjectionMode::Rectilinear);
    assert_eq!(v.fov, 180 * DEGREE);
    v.zoom(0);
    assert_eq!(v.fov, MAX_FOV_TANGENT);
}

#[test]
fn set_yaw_subtracts_without_wrapping() {
    let mut v = PanoramaViewer3D::new();
    v.set_yaw(30 * YAW_DEGREE);
    assert_eq!(v.yaw, -30 * YAW_DEGREE);
    v.set_yaw(-400 * YAW_DEGREE);
    assert_eq!(v.yaw, 370 * YAW_DEGREE);
}

#[test]
fn set_pitch_stays_within_quarter_turn() {
    let deltas: [i64; 7] = [10 * DEGREE, 200 * DEGREE, -500 * DEGREE, i64::MAX, i64::MIN, 1, -1];
    let mut v = PanoramaViewer3D::new();
    for d in deltas {
        v.set_pitch(d);
        assert!(v.pitch >= -PITCH_LIMIT && v.pitch <= PITCH_LIMIT);
    }
    let mut w = PanoramaViewer3D::new();
    w.set_pitch(10 * DEGREE);
    assert_eq!(w.pitch, -10 * DEGREE);
    w.set_pitch(-200 * DEGREE);
    assert_eq!(w.pitch, 90 * DEGREE);
    w.set_pitch(1000 * DEGREE);
    assert_eq!(w.pitch, -90 * DEGREE);
}

#[test]
fn reset_restores_orientation_and_fov_only() {
    let mut v = PanoramaViewer3D::new();
    v.set_yaw(12 * YAW_DEGREE);
    v.set_pitch(7 * DEGREE);
    v.zoom(3000);
    v.set_projection_mode(ProjectionMode::Pannini);
    v.set_sensitivity(2500);
    v.reset();
    assert_eq!(v.yaw, 0);
    assert_eq!(v.pitch, 0);
    assert_eq!(v.fov, DEFAULT_FOV);
    assert_eq!(v.projection_mode, ProjectionMode::Pannini);
    assert_eq!(v.sensitivity_scale, 2500);
}

#[test]
fn sensitivity_is_held_within_its_range() {
    let mut v = PanoramaViewer3D::new();
    v.set_sensitivity(50);
    assert_eq!(v.sensitivity_scale, 100);
    v.set_sensitivity(9000);
    assert_eq!(v.sensitivity_scale, 5000);
    v.set_sensitivity(1500);
    assert_eq!(v.sensitivity_scale, 1500);
}

#[test]
fn fullscreen_toggles() {
    let mut v = PanoramaViewer3D::new();
    assert!(v.toggle_fullscreen());
    assert!(v.is_fullscreen);
    assert!(!v.toggle_fullscreen());
    assert!(!v.is_fullscreen);
}

#[test]
fn uniform_mode_indices() {
    let expected: [u32; 6] = [0, 1, 2, 3, 4, 5];
    for (mode, idx) in ALL_MODES.iter().zip(expected.iter()) {
        assert_eq!(mode.index(), *idx);
        let mut u = CameraUniform::new(4, 3);
        u.update_camera(0, 0, 90 * DEGREE, *mode);
        assert_eq!(u.mode, *idx);
    }
}

#[test]
fn uniform_rectilinear_fov_never_reaches_180() {
    let mut u = CameraUniform::new(16, 9);
    u.update_camera(0, 0, 180 * DEGREE, ProjectionMode::Rectilinear);
    assert_eq!(u.fov, 179_900_000);
    u.update_camera(0, 0, 180 * DEGREE, ProjectionMode::Architectural);
    assert_eq!(u.fov, 179_900_000);
    u.update_camera(0, 0, 180 * DEGREE, ProjectionMode::Equidistant);
    assert_eq!(u.fov, 180 * DEGREE);
    u.update_camera(0, 0, 0, ProjectionMode::Stereographic);
    assert_eq!(u.fov, DEGREE);
    u.update_camera(0, 0, 46_800_000, ProjectionMode::Pannini);
    assert_eq!(u.fov, 46_800_000);
}

#[test]
fn uniform_pitch_is_kept_off_the_poles() {
    let mut u = CameraUniform::new(16, 9);
    u.update_camera(5, 90 * DEGREE, 90 * DEGREE, ProjectionMode::Architectural);
    assert_eq!(u.pitch, SAFE_PITCH_LIMIT);
    assert_eq!(u.pitch, 89_900_000);
    assert_eq!(u.yaw, 5);
    u.update_camera(5, -90 * DEGREE, 90 * DEGREE, ProjectionMode::Architectural);
    assert_eq!(u.pitch, -89_900_000);
    u.update_camera(5, 45 * DEGREE, 90 * DEGREE, ProjectionMode::Architectural);
    assert_eq!(u.pitch, 45 * DEGREE);
}

#[test]
fn uniform_from_viewer_and_resize() {
    let mut v = PanoramaViewer3D::new();
    v.set_yaw(-720 * YAW_DEGREE);
    v.set_pitch(-90 * DEGREE);
    let mut u = CameraUniform::new(1280, 720);
    assert_eq!(u.fov, DEFAULT_FOV);
    assert_eq!(u.mode, 0);
    u.update_from_viewer(&v);
    assert_eq!(u.yaw, 720 * YAW_DEGREE);
    assert_eq!(u.pitch, 89_900_000);
    u.resize(0, 500);
    assert_eq!((u.aspect_width, u.aspect_height), (1280, 720));
    u.resize(800, 600);
    assert_eq!((u.aspect_width, u.aspect_height), (800, 600));
    assert_eq!(u.yaw, 720 * YAW_DEGREE);
}
