//! Turning pointer drags and scroll steps into changes of the view, at a
//! rate that follows the visible angle so that dragging across the whole
//! window turns the view by what the window shows.
use vstd::prelude::*;
use crate::panorama::{
    clamp, PanoramaViewer3D, MAX_FOV, PITCH_LIMIT, SENSITIVITY_MAX, SENSITIVITY_MIN,
    SENSITIVITY_ONE, YAW_UNITS_PER_MICRO_DEGREE,
};

verus! {

/// `n / d` rounded toward zero, so that opposite drags turn by equal angles.
pub open spec fn div_toward_zero(n: int, d: int) -> int {
    if n >= 0 {
        n / d
    } else {
        -((-n) / d)
    }
}

/// The angle that a drag of `d` pixels turns the view by, on an axis of
/// `extent` pixels that shows `span` micro-degrees, at sensitivity `sens`
/// thousandths, counted in steps of `1 / unit` micro-degree.
pub open spec fn drag_angle(d: int, span: int, extent: int, sens: int, unit: int) -> int {
    div_toward_zero(d * span * sens * unit, extent * SENSITIVITY_ONE)
}

/// The yaw change of a horizontal drag, in yaw units.
pub open spec fn yaw_turn(dx: int, hfov: int, width: int, sens: int) -> int {
    drag_angle(dx, hfov, width, sens, YAW_UNITS_PER_MICRO_DEGREE as int)
}

/// The pitch change of a vertical drag, in micro-degrees.
pub open spec fn pitch_turn(dy: int, fov: int, height: int, sens: int) -> int {
    drag_angle(dy, fov, height, sens, 1)
}

/// Largest magnitude of `d * span * sens` for the ranges a viewer can be in.
pub open spec fn drag_product_bound() -> int {
    9223372036854775808int * 180000000 * 5000
}

proof fn lemma_drag_product(d: int, mag: int, span: int, sens: int)
    requires
        mag == (if d >= 0 { d } else { -d }),
        mag <= 9223372036854775808,
        0 <= span <= MAX_FOV,
        0 <= sens <= SENSITIVITY_MAX,
    ensures
        0 <= mag * span <= 9223372036854775808 * 180000000,
        0 <= mag * span * sens <= drag_product_bound(),
        d >= 0 ==> d * span * sens == mag * span * sens,
        d < 0 ==> d * span * sens == -(mag * span * sens),
{
    assert(0 <= mag * span <= 9223372036854775808 * 180000000) by (nonlinear_arith)
        requires
            0 <= mag <= 9223372036854775808,
            0 <= span <= 180000000,
    ;
    assert(mag * span * sens <= 9223372036854775808 * 180000000 * 5000) by (nonlinear_arith)
        requires
            0 <= mag * span <= 9223372036854775808 * 180000000,
            0 <= sens <= 5000,
    ;
    assert(0 <= mag * span * sens) by (nonlinear_arith)
        requires
            0 <= mag * span,
            0 <= sens,
    ;
    assert(d >= 0 ==> d * span * sens == mag * span * sens) by (nonlinear_arith)
        requires
            d >= 0 ==> mag == d,
    ;
    assert(d < 0 ==> d * span * sens == -(mag * span * sens)) by (nonlinear_arith)
        requires
            d < 0 ==> mag == -d,
    ;
}

/// The pitch change of any drag is far inside the range of an `i128`.
proof fn lemma_pitch_turn_bounded(dy: int, fov: int, height: int, sens: int)
    requires
        -9223372036854775808 <= dy <= 9223372036854775807,
        0 <= fov <= MAX_FOV,
        0 <= sens <= SENSITIVITY_MAX,
        height > 0,
    ensures
        -drag_product_bound() <= pitch_turn(dy, fov, height, sens) <= drag_product_bound(),
{
    let mag = if dy >= 0 { dy } else { -dy };
    lemma_drag_product(dy, mag, fov, sens);
    vstd::arithmetic::div_mod::lemma_div_is_ordered_by_denominator(
        mag * fov * sens,
        1,
        height * SENSITIVITY_ONE,
    );
    assert(dy * fov * sens * 1 == dy * fov * sens);
}

/// Exact `drag_angle` for the ranges a viewer can be in, wherever the
/// result fits an `i128`.
fn drag_delta(d: i64, span: i64, extent: u32, sens: u32, unit: u64) -> (r: i128)
    requires
        extent > 0,
        0 <= span <= MAX_FOV,
        sens <= SENSITIVITY_MAX,
        1 <= unit <= YAW_UNITS_PER_MICRO_DEGREE,
        -i128::MAX <= drag_angle(d as int, span as int, extent as int, sens as int, unit as int)
            <= i128::MAX,
    ensures
        r == drag_angle(d as int, span as int, extent as int, sens as int, unit as int),
{
    let mag: u64 = if d >= 0 { d as u64 } else { (-(d as i128)) as u64 };
    proof {
        lemma_drag_product(d as int, mag as int, span as int, sens as int);
    }
    let n: u128 = (mag as u128) * (span as u128) * (sens as u128);
    let den: u128 = (extent as u128) * 1000;
    let whole: u128 = n / den;
    let rest: u128 = n % den;
    proof {
        assert(rest * unit < den * unit) by (nonlinear_arith)
            requires
                rest < den,
                unit >= 1,
        ;
        assert(den * unit <= 0x1_0000_0000 * 1000 * 100000000000) by (nonlinear_arith)
            requires
                den <= 0x1_0000_0000 * 1000,
                0 <= unit <= 100000000000,
        ;
    }
    let low: u128 = rest * (unit as u128) / den;
    proof {
        vstd::arithmetic::div_mod::lemma_fundamental_div_mod(n as int, den as int);
        assert(n * unit == rest * unit + (whole * unit) * den) by (nonlinear_arith)
            requires
                n == den * whole + rest,
        ;
        vstd::arithmetic::div_mod::lemma_hoist_over_denominator(
            (rest * unit) as int,
            (whole * unit) as int,
            den as nat,
        );
        assert(d * span * sens * unit == (d * span * sens) * unit);
        assert(mag * span * sens * unit == n * unit);
        assert(d < 0 ==> (d * span * sens) * unit == -(n * unit)) by (nonlinear_arith)
            requires
                d < 0 ==> d * span * sens == -n,
        ;
        assert(d >= 0 ==> (d * span * sens) * unit == n * unit) by (nonlinear_arith)
            requires
                d >= 0 ==> d * span * sens == n,
        ;
        assert(0 <= whole * unit) by (nonlinear_arith)
            requires
                0 <= whole,
                0 <= unit,
        ;
    }
    let q: u128 = whole * (unit as u128) + low;
    if d >= 0 {
        q as i128
    } else {
        -(q as i128)
    }
}

impl PanoramaViewer3D {
    /// Applies a drag of `(dx, dy)` pixels in a `width` x `height` viewport
    /// whose horizontal field of view is `hfov` (`2 atan(tan(fov / 2) *
    /// width / height)`, in micro-degrees): the yaw turns by the drag's
    /// share of `hfov`, the pitch by its share of the vertical field of
    /// view, both scaled by the sensitivity. An empty viewport changes
    /// nothing.
    pub fn apply_drag(&mut self, dx: i64, dy: i64, width: u32, height: u32, hfov: i64)
        requires
            old(self).wf(),
            0 <= hfov <= MAX_FOV,
            width > 0 ==> -i128::MAX <= yaw_turn(
                dx as int,
                hfov as int,
                width as int,
                old(self).sensitivity_scale as int,
            ) <= i128::MAX,
            width > 0 ==> i128::MIN <= old(self).yaw - yaw_turn(
                dx as int,
                hfov as int,
                width as int,
                old(self).sensitivity_scale as int,
            ) <= i128::MAX,
        ensures
            final(self).wf(),
            width > 0 && height > 0 ==> final(self).yaw == old(self).yaw - yaw_turn(
                dx as int,
                hfov as int,
                width as int,
                old(self).sensitivity_scale as int,
            ),
            width > 0 && height > 0 ==> final(self).pitch == clamp(
                old(self).pitch - pitch_turn(
                    dy as int,
                    old(self).fov as int,
                    height as int,
                    old(self).sensitivity_scale as int,
                ),
                -PITCH_LIMIT as int,
                PITCH_LIMIT as int,
            ),
            width == 0 || height == 0 ==> final(self).yaw == old(self).yaw && final(self).pitch
                == old(self).pitch,
            final(self).fov == old(self).fov,
            final(self).sensitivity_scale == old(self).sensitivity_scale,
            final(self).projection_mode == old(self).projection_mode,
            final(self).is_fullscreen == old(self).is_fullscreen,
    {
        if width > 0 && height > 0 {
            proof {
                lemma_pitch_turn_bounded(
                    dy as int,
                    self.fov as int,
                    height as int,
                    self.sensitivity_scale as int,
                );
            }
            let yaw_step = drag_delta(
                dx,
                hfov,
                width,
                self.sensitivity_scale,
                YAW_UNITS_PER_MICRO_DEGREE as u64,
            );
            let pitch_step = drag_delta(dy, self.fov, height, self.sensitivity_scale, 1);
            self.yaw = self.yaw - yaw_step;
            let p: i128 = self.pitch as i128 - pitch_step;
            self.pitch = if p < -(PITCH_LIMIT as i128) {
                -PITCH_LIMIT
            } else if p > PITCH_LIMIT as i128 {
                PITCH_LIMIT
            } else {
                p as i64
            };
        }
    }
}

/// For one and the same drag across viewports of equal width, a wider
/// horizontal field of view (a wider aspect at the same vertical field of
/// view) turns the view strictly further, in the direction against the
/// drag: the yaw is fine enough that no width rounds the difference away.
pub proof fn lemma_wider_view_turns_further(
    dx: int,
    width: int,
    sens: int,
    hfov_narrow: int,
    hfov_wide: int,
)
    requires
        dx != 0,
        0 < width <= u32::MAX,
        SENSITIVITY_MIN <= sens,
        0 <= hfov_narrow < hfov_wide,
    ensures
        dx > 0 ==> 0 <= yaw_turn(dx, hfov_narrow, width, sens) < yaw_turn(
            dx,
            hfov_wide,
            width,
            sens,
        ),
        dx < 0 ==> 0 >= yaw_turn(dx, hfov_narrow, width, sens) > yaw_turn(
            dx,
            hfov_wide,
            width,
            sens,
        ),
{
    let k = YAW_UNITS_PER_MICRO_DEGREE as int;
    let mag = if dx > 0 { dx } else { -dx };
    let m1 = mag * hfov_narrow * sens * k;
    let m2 = mag * hfov_wide * sens * k;
    let den = width * SENSITIVITY_ONE;
    assert(0 <= m1 && m2 - m1 >= den) by (nonlinear_arith)
        requires
            m1 == mag * hfov_narrow * sens * k,
            m2 == mag * hfov_wide * sens * k,
            mag >= 1,
            sens >= 100,
            k == 100000000000,
            0 <= hfov_narrow,
            hfov_narrow + 1 <= hfov_wide,
            den == width * 1000,
            width <= 0xffff_ffff,
    ;
    assert(dx * hfov_narrow * sens * k == (if dx > 0 { m1 } else { -m1 })) by (nonlinear_arith)
        requires
            m1 == mag * hfov_narrow * sens * k,
            mag == (if dx > 0 { dx } else { -dx }),
    ;
    assert(dx * hfov_wide * sens * k == (if dx > 0 { m2 } else { -m2 })) by (nonlinear_arith)
        requires
            m2 == mag * hfov_wide * sens * k,
            mag == (if dx > 0 { dx } else { -dx }),
    ;
    vstd::arithmetic::div_mod::lemma_hoist_over_denominator(m1, 1, den as nat);
    vstd::arithmetic::div_mod::lemma_div_is_ordered(m1 + den, m2, den);
    vstd::arithmetic::div_mod::lemma_div_pos_is_pos(m1, den);
}

/// Tracks the pointer while the dragging button is held, and yields the
/// motion between successive positions.
pub struct DragTracker {
    pub pressed: bool,
    pub last: Option<(i32, i32)>,
}

impl DragTracker {
    pub fn new() -> (r: DragTracker)
        ensures
            !r.pressed,
            r.last.is_none(),
    {
        DragTracker { pressed: false, last: None }
    }

    /// The dragging button went down or up; releasing it forgets the last
    /// position, so that the next drag starts afresh.
    pub fn button(&mut self, pressed: bool)
        ensures
            final(self).pressed == pressed,
            final(self).last == (if pressed { old(self).last } else { None }),
    {
        self.pressed = pressed;
        if !pressed {
            self.last = None;
        }
    }

    /// The pointer moved to `(x, y)`. While the button is held, returns the
    /// motion since the last position seen during this drag, if any, and
    /// remembers the new one; otherwise nothing happens.
    pub fn cursor_moved(&mut self, x: i32, y: i32) -> (r: Option<(i64, i64)>)
        ensures
            final(self).pressed == old(self).pressed,
            final(self).last == (if old(self).pressed { Some((x, y)) } else { old(self).last }),
            r == (if old(self).pressed && old(self).last.is_some() {
                Some(
                    (
                        (x - old(self).last.unwrap().0) as i64,
                        (y - old(self).last.unwrap().1) as i64,
                    ),
                )
            } else {
                None
            }),
    {
        if !self.pressed {
            return None;
        }
        let r = match self.last {
            Some((lx, ly)) => Some(((x as i64) - (lx as i64), (y as i64) - (ly as i64))),
            None => None,
        };
        self.last = Some((x, y));
        r
    }
}

/// One scroll event as the window system reports it.
pub enum ScrollDelta {
    /// Thousandths of a line (of a wheel notch).
    Lines(i64),
    /// Whole pixels of a smooth-scrolling device.
    Pixels(i32),
}

/// Thousandths of a step per pixel of smooth scrolling: twenty pixels
/// count as one wheel step.
pub const MILLI_STEPS_PER_PIXEL: i64 = 50;

/// The zoom amount of a scroll event, in thousandths of a step.
pub open spec fn scroll_amount(d: ScrollDelta) -> int {
    match d {
        ScrollDelta::Lines(m) => m as int,
        ScrollDelta::Pixels(p) => p * MILLI_STEPS_PER_PIXEL,
    }
}

/// The zoom amount of a scroll event, in thousandths of a step: a line is
/// a step, twenty pixels are a step.
pub fn scroll_steps(d: ScrollDelta) -> (r: i64)
    ensures
        r == scroll_amount(d),
{
    match d {
        ScrollDelta::Lines(m) => m,
        ScrollDelta::Pixels(p) => (p as i64) * MILLI_STEPS_PER_PIXEL,
    }
}

} // verus!
