use panorama_viewer::panorama::{ProjectionMode, DEGREE, YAW_DEGREE};
use panorama_viewer::projection::{equirect_sample, texture_coord};
use panorama_viewer::uniform::CameraUniform;

#[test]
fn screen_centre_maps_to_image_centre() {
    let mut cam = CameraUniform::new(1, 1);
    cam.update_camera(0, 0, 90 * DEGREE, ProjectionMode::Equirectangular);
    let t = equirect_sample(0, 0, &cam);
    assert_eq!((t.u, t.v), (500_000, 500_000));
}

#[test]
fn equirect_edges_follow_fov_and_aspect() {
    let mut cam = CameraUniform::new(2, 1);
    cam.update_camera(0, 0, 90 * DEGREE, ProjectionMode::Equirectangular);
    // right edge: 45 degrees times aspect 2 = 90 degrees east
    let right = equirect_sample(1_000_000, 0, &cam);
    assert_eq!(right.u, 750_000);
    // top edge: 45 degrees north
    let top = equirect_sample(0, 1_000_000, &cam);
    assert_eq!(top.v, 250_000);
    let left = equirect_sample(-1_000_000, -1_000_000, &cam);
    assert_eq!((left.u, left.v), (250_000, 750_000));
}

#[test]
fn equirect_follows_yaw_and_pitch() {
    let mut cam = CameraUniform::new(1, 1);
    cam.update_camera(90 * YAW_DEGREE, 30 * DEGREE, 60 * DEGREE, ProjectionMode::Equirectangular);
    let t = equirect_sample(0, 0, &cam);
    assert_eq!(t.u, 750_000);
    assert_eq!(t.v, 333_333);
    // a yaw of any size wraps around
    cam.update_camera(-3690 * YAW_DEGREE, 0, 60 * DEGREE, ProjectionMode::Equirectangular);
    assert_eq!(equirect_sample(0, 0, &cam).u, 250_000);
    cam.update_camera(i128::MIN, 0, 60 * DEGREE, ProjectionMode::Equirectangular);
    assert!(equirect_sample(0, 0, &cam).u < 1_000_000);
}

#[test]
fn texture_u_wraps_and_v_clamps() {
    assert_eq!(texture_coord(0, 0).u, 500_000);
    assert_eq!(texture_coord(180 * DEGREE, 0).u, 0);
    assert_eq!(texture_coord(-180 * DEGREE, 0).u, 0);
    assert_eq!(texture_coord(-90 * DEGREE, 0).u, 250_000);
    assert_eq!(texture_coord(450 * DEGREE, 0).u, 750_000);
    assert_eq!(texture_coord(-1080 * DEGREE, 0).u, 500_000);
    assert_eq!(texture_coord(i64::MIN, 0).u < 1_000_000, true);
    assert_eq!(texture_coord(0, 90 * DEGREE).v, 0);
    assert_eq!(texture_coord(0, -90 * DEGREE).v, 1_000_000);
    assert_eq!(texture_coord(0, 120 * DEGREE).v, 0);
    assert_eq!(texture_coord(0, -120 * DEGREE).v, 1_000_000);
    assert_eq!(texture_coord(0, 45 * DEGREE).v, 250_000);
}
