//! From view angles to sampling positions in the equirectangular source:
//! longitude runs across the width, latitude down the height, north on top.
use vstd::prelude::*;
use crate::input::div_toward_zero;
use crate::panorama::{clamp, MAX_FOV, YAW_UNITS_PER_MICRO_DEGREE};
use crate::uniform::CameraUniform;

verus! {

/// Millionths per unit: the scale of texture and screen coordinates.
pub const UNIT: i64 = 1000000;

/// A full turn and a half turn, in micro-degrees.
pub const FULL_TURN: i64 = 360000000;

pub const HALF_TURN: i64 = 180000000;

pub const QUARTER_TURN: i64 = 90000000;

/// A sampling position in the source image, in millionths of its width
/// and height from the top left corner.
pub struct TexCoord {
    pub u: u32,
    pub v: u32,
}

/// `u = 0.5 + longitude / 360°`, wrapped into `[0, 1)` as the sampler
/// repeats horizontally.
pub open spec fn u_of(lon: int) -> int {
    ((lon + HALF_TURN) % (FULL_TURN as int)) / 360
}

/// `v = 0.5 - latitude / 180°`, held within `[0, 1]` as the sampler clamps
/// vertically.
pub open spec fn v_of(lat: int) -> int {
    clamp(QUARTER_TURN - lat, 0, HALF_TURN as int) / 180
}

/// A multiple of a full turn above any longitude handled here.
const TURNS_OFFSET: i128 = 3400103867666144553861120000000;

fn u_coord(lon: i128) -> (r: u32)
    requires
        -0x10_0000_0000_0000_0000_0000_0000 <= lon <= 0x10_0000_0000_0000_0000_0000_0000,
    ensures
        r == u_of(lon as int),
        r < UNIT,
{
    let shifted: u128 = (lon + HALF_TURN as i128 + TURNS_OFFSET) as u128;
    proof {
        assert(TURNS_OFFSET == FULL_TURN * 9444732965739290427392);
        vstd::arithmetic::div_mod::lemma_mod_multiples_vanish(
            9444732965739290427392,
            lon + HALF_TURN,
            FULL_TURN as int,
        );
        vstd::arithmetic::mul::lemma_mul_is_commutative(9444732965739290427392, FULL_TURN as int);
    }
    let r = shifted % (FULL_TURN as u128);
    (r / 360) as u32
}

fn v_coord(lat: i128) -> (r: u32)
    requires
        -0x1_0000_0000_0000_0000 <= lat <= 0x1_0000_0000_0000_0000,
    ensures
        r == v_of(lat as int),
        r <= UNIT,
{
    let d: i128 = QUARTER_TURN as i128 - lat;
    let c: i128 = if d < 0 {
        0
    } else if d > HALF_TURN as i128 {
        HALF_TURN as i128
    } else {
        d
    };
    (c / 180) as u32
}

/// The sampling position of the direction at longitude `lon` and latitude
/// `lat`, both in micro-degrees.
pub fn texture_coord(lon: i64, lat: i64) -> (r: TexCoord)
    ensures
        r.u == u_of(lon as int),
        r.v == v_of(lat as int),
        r.u < UNIT,
        r.v <= UNIT,
{
    TexCoord { u: u_coord(lon as i128), v: v_coord(lat as i128) }
}

/// Longitude seen at horizontal screen position `x` (millionths, -1 at the
/// left edge, 1 at the right) in the unwrapped mode: the yaw (in whole
/// micro-degrees, rounded toward zero) plus `x` times
/// half the horizontal extent, which is the field of view times the aspect.
pub open spec fn equirect_longitude(cam: CameraUniform, x: int) -> int {
    div_toward_zero(cam.yaw as int, YAW_UNITS_PER_MICRO_DEGREE as int) + div_toward_zero(
        x * cam.fov * cam.aspect_width,
        2 * UNIT * cam.aspect_height,
    )
}

/// Latitude seen at vertical screen position `y` (millionths, 1 at the top)
/// in the unwrapped mode: the pitch plus `y` times half the field of view.
pub open spec fn equirect_latitude(cam: CameraUniform, y: int) -> int {
    cam.pitch + div_toward_zero(y * cam.fov, 2 * UNIT)
}

/// The yaw in whole micro-degrees, rounded toward zero.
fn yaw_micro_degrees(yaw: i128) -> (r: i128)
    ensures
        r == div_toward_zero(yaw as int, YAW_UNITS_PER_MICRO_DEGREE as int),
        -0x2_0000_0000_0000_0000_0000_0000 <= r <= 0x2_0000_0000_0000_0000_0000_0000,
{
    let mag: u128 = if yaw >= 0 { yaw as u128 } else { (-(yaw + 1)) as u128 + 1 };
    let q: u128 = mag / (YAW_UNITS_PER_MICRO_DEGREE as u128);
    proof {
        vstd::arithmetic::div_mod::lemma_div_is_ordered(
            mag as int,
            0x8000_0000_0000_0000_0000_0000_0000_0000,
            YAW_UNITS_PER_MICRO_DEGREE as int,
        );
    }
    if yaw >= 0 {
        q as i128
    } else {
        -(q as i128)
    }
}

/// `n * m / den`, rounded toward zero, for `|n| <= 1` unit.
fn scaled(n: i32, m: u64, den: u64) -> (r: i128)
    requires
        -UNIT <= n <= UNIT,
        m <= MAX_FOV * 0x1_0000_0000,
        den >= 2 * UNIT,
    ensures
        r == div_toward_zero(n * m, den as int),
        -0x4000_0000_0000_0000 <= r <= 0x4000_0000_0000_0000,
{
    let mag: u64 = if n >= 0 { n as u64 } else { (-(n as i64)) as u64 };
    proof {
        assert(mag * m <= 1000000 * (180000000 * 0x1_0000_0000)) by (nonlinear_arith)
            requires
                mag <= 1000000,
                m <= 180000000 * 0x1_0000_0000,
        ;
        vstd::arithmetic::div_mod::lemma_div_is_ordered_by_denominator(
            (mag * m) as int,
            2 * UNIT,
            den as int,
        );
        vstd::arithmetic::div_mod::lemma_div_is_ordered(
            (mag * m) as int,
            1000000 * (180000000 * 0x1_0000_0000int),
            2 * UNIT,
        );
        assert(n < 0 ==> n * m == -(mag * m)) by (nonlinear_arith)
            requires
                n < 0 ==> mag == -n,
        ;
        assert(n >= 0 ==> n * m == mag * m) by (nonlinear_arith)
            requires
                n >= 0 ==> mag == n,
        ;
        assert(n * m >= 0 <==> n >= 0 || m == 0) by (nonlinear_arith);
    }
    let q: u128 = (mag as u128) * (m as u128) / (den as u128);
    assert(q <= (1000000 * (180000000 * 0x1_0000_0000int)) / (2 * UNIT));
    assert((1000000 * (180000000 * 0x1_0000_0000int)) / 2000000 == 90000000 * 0x1_0000_0000int)
        by (nonlinear_arith);
    if n >= 0 {
        q as i128
    } else {
        -(q as i128)
    }
}

/// Where the unwrapped (equirectangular) mode samples the source for the
/// screen position `(x, y)`, in millionths within `[-1, 1]`, y up.
pub fn equirect_sample(x: i32, y: i32, cam: &CameraUniform) -> (r: TexCoord)
    requires
        -UNIT <= x <= UNIT,
        -UNIT <= y <= UNIT,
        0 <= cam.fov <= MAX_FOV,
        cam.aspect_height > 0,
    ensures
        r.u == u_of(equirect_longitude(*cam, x as int)),
        r.v == v_of(equirect_latitude(*cam, y as int)),
{
    proof {
        assert(cam.fov * cam.aspect_width <= MAX_FOV * 0x1_0000_0000) by (nonlinear_arith)
            requires
                0 <= cam.fov <= MAX_FOV,
                cam.aspect_width < 0x1_0000_0000,
        ;
    }
    let h_extent: u64 = (cam.fov as u64) * (cam.aspect_width as u64);
    let dlon = scaled(x, h_extent, 2 * (UNIT as u64) * (cam.aspect_height as u64));
    let dlat = scaled(y, cam.fov as u64, 2 * (UNIT as u64));
    proof {
        assert(x * cam.fov * cam.aspect_width == x * h_extent) by (nonlinear_arith)
            requires
                h_extent == cam.fov * cam.aspect_width,
        ;
    }
    let lon: i128 = yaw_micro_degrees(cam.yaw) + dlon;
    let lat: i128 = cam.pitch as i128 + dlat;
    TexCoord { u: u_coord(lon), v: v_coord(lat) }
}

} // verus!
