//! The 8-bit hue/saturation/value encoding and inclusive ranges over it.
//!
//! Hue is stored in half-degrees (0 to 180), saturation and value on the full
//! byte scale. All quotients are rounded to the nearest integer, a tie going
//! to the larger one.

use vstd::prelude::*;

verus! {

/// The largest of three channel values.
pub open spec fn max3(a: int, b: int, c: int) -> int {
    if a >= b && a >= c {
        a
    } else if b >= c {
        b
    } else {
        c
    }
}

/// The smallest of three channel values.
pub open spec fn min3(a: int, b: int, c: int) -> int {
    if a <= b && a <= c {
        a
    } else if b <= c {
        b
    } else {
        c
    }
}

/// `n / d` rounded to the nearest integer, a tie going up. Meant for
/// `n >= 0` and `d > 0`.
pub open spec fn round_div(n: int, d: int) -> int {
    (2 * n + d) / (2 * d)
}

/// Value: the largest channel.
pub open spec fn hsv_value(r: int, g: int, b: int) -> int {
    max3(r, g, b)
}

/// Saturation: the spread of the channels relative to the largest, scaled to
/// a byte. Black has saturation 0.
pub open spec fn hsv_saturation(r: int, g: int, b: int) -> int {
    let hi = max3(r, g, b);
    let lo = min3(r, g, b);
    if hi == 0 {
        0
    } else {
        round_div(255 * (hi - lo), hi)
    }
}

/// The hue in half-degrees, multiplied by the channel spread `max - min`.
///
/// The dominant channel picks one of three sectors of the colour circle (red
/// first, then green, then blue, when channels tie for the largest); inside
/// it the hue moves by 30 half-degrees per unit of relative difference of the
/// other two channels. A negative angle is taken once around the circle.
pub open spec fn hue_scaled(r: int, g: int, b: int) -> int {
    let hi = max3(r, g, b);
    let d = hi - min3(r, g, b);
    let n = if hi == r {
        30 * (g - b)
    } else if hi == g {
        30 * (b - r) + 60 * d
    } else {
        30 * (r - g) + 120 * d
    };
    if n < 0 {
        n + 180 * d
    } else {
        n
    }
}

/// Hue in half-degrees. A grey has hue 0.
pub open spec fn hsv_hue(r: int, g: int, b: int) -> int {
    let d = max3(r, g, b) - min3(r, g, b);
    if d == 0 {
        0
    } else {
        round_div(hue_scaled(r, g, b), d)
    }
}

/// `round_div(n, d)` is the integer nearest to `n / d`: it is the one `q`
/// with `2n - d < 2qd <= 2n + d`.
pub proof fn lemma_round_div_nearest(n: int, d: int)
    requires
        d > 0,
    ensures
        2 * n - d < 2 * (round_div(n, d) * d) <= 2 * n + d,
{
    let q = round_div(n, d);
    let m = 2 * n + d;
    let e = 2 * d;
    assert(m == e * (m / e) + m % e && 0 <= m % e < e) by {
        vstd::arithmetic::div_mod::lemma_fundamental_div_mod(m, e);
        vstd::arithmetic::div_mod::lemma_mod_bound(m, e);
    }
    assert(e * q == 2 * (q * d)) by (nonlinear_arith)
        requires
            e == 2 * d,
    ;
}

/// `round_div` keeps a quotient inside `0..=k` when `0 <= n <= k * d`.
pub proof fn lemma_round_div_bounds(n: int, d: int, k: int)
    requires
        d > 0,
        k >= 0,
        0 <= n <= k * d,
    ensures
        0 <= round_div(n, d) <= k,
{
    lemma_round_div_nearest(n, d);
    let q = round_div(n, d);
    assert(q >= 0) by (nonlinear_arith)
        requires
            d > 0,
            n >= 0,
            2 * n - d < 2 * (q * d),
    ;
    assert(q <= k) by (nonlinear_arith)
        requires
            d > 0,
            n <= k * d,
            2 * (q * d) <= 2 * n + d,
    ;
}

/// The scaled hue lies on the circle: `0 <= hue_scaled < 180 * spread`
/// whenever the channels are not all equal.
pub proof fn lemma_hue_scaled_bounds(r: int, g: int, b: int)
    requires
        max3(r, g, b) > min3(r, g, b),
    ensures
        0 <= hue_scaled(r, g, b) < 180 * (max3(r, g, b) - min3(r, g, b)),
{
}

/// Every byte triple maps into the encoding: hue at most 180, saturation and
/// value at most 255.
pub proof fn lemma_hsv_in_range(r: int, g: int, b: int)
    requires
        0 <= r <= 255,
        0 <= g <= 255,
        0 <= b <= 255,
    ensures
        0 <= hsv_hue(r, g, b) <= 180,
        0 <= hsv_saturation(r, g, b) <= 255,
        0 <= hsv_value(r, g, b) <= 255,
{
    let hi = max3(r, g, b);
    let d = hi - min3(r, g, b);
    if d > 0 {
        lemma_hue_scaled_bounds(r, g, b);
        lemma_round_div_bounds(hue_scaled(r, g, b), d, 180);
    }
    if hi > 0 {
        assert(255 * d <= 255 * hi);
        lemma_round_div_bounds(255 * d, hi, 255);
    }
}

/// Converts one RGB pixel to hue (half-degrees, 0 to 180), saturation and
/// value (0 to 255 each).
pub fn rgb_to_hsv_opencv(r: u8, g: u8, b: u8) -> (hsv: (u8, u8, u8))
    ensures
        hsv.0 == hsv_hue(r as int, g as int, b as int),
        hsv.1 == hsv_saturation(r as int, g as int, b as int),
        hsv.2 == hsv_value(r as int, g as int, b as int),
{
    let hi: u8 = if r >= g && r >= b {
        r
    } else if g >= b {
        g
    } else {
        b
    };
    let lo: u8 = if r <= g && r <= b {
        r
    } else if g <= b {
        g
    } else {
        b
    };
    let d: u32 = (hi - lo) as u32;
    let top: u32 = hi as u32;
    proof {
        lemma_hsv_in_range(r as int, g as int, b as int);
    }
    let s: u32 = if hi == 0 {
        0
    } else {
        (510 * d + top) / (2 * top)
    };
    let h: u32 = if d == 0 {
        0
    } else {
        let ri: i32 = r as i32;
        let gi: i32 = g as i32;
        let bi: i32 = b as i32;
        let di: i32 = d as i32;
        let n: i32 = if hi == r {
            30 * (gi - bi)
        } else if hi == g {
            30 * (bi - ri) + 60 * di
        } else {
            30 * (ri - gi) + 120 * di
        };
        let turned: i32 = if n < 0 {
            n + 180 * di
        } else {
            n
        };
        proof {
            lemma_hue_scaled_bounds(r as int, g as int, b as int);
        }
        (2 * (turned as u32) + d) / (2 * d)
    };
    (h as u8, s as u8, hi)
}

/// Inclusive per-channel bounds in the hue/saturation/value encoding:
/// index 0 is hue, 1 saturation, 2 value.
#[derive(Clone, Copy, Debug)]
pub struct ColorRange {
    pub lower: [u8; 3],
    pub upper: [u8; 3],
}

impl ColorRange {
    /// Each lower bound is at most its upper bound.
    pub open spec fn valid(&self) -> bool {
        forall|i: int| 0 <= i < 3 ==> self.lower[i] <= self.upper[i]
    }

    /// The triple lies inside the range, both ends included.
    pub open spec fn spec_contains(&self, h: int, s: int, v: int) -> bool {
        &&& self.lower[0] <= h <= self.upper[0]
        &&& self.lower[1] <= s <= self.upper[1]
        &&& self.lower[2] <= v <= self.upper[2]
    }

    /// The pixel `(r, g, b)`, once converted, lies inside the range.
    pub open spec fn matches_rgb(&self, r: int, g: int, b: int) -> bool {
        self.spec_contains(hsv_hue(r, g, b), hsv_saturation(r, g, b), hsv_value(r, g, b))
    }

    /// Builds a range from its two corners.
    pub fn new(lower: [u8; 3], upper: [u8; 3]) -> (range: Self)
        ensures
            range.lower == lower,
            range.upper == upper,
    {
        ColorRange { lower, upper }
    }

    /// Whether each lower bound is at most its upper bound.
    pub fn is_valid(&self) -> (ok: bool)
        ensures
            ok == self.valid(),
    {
        self.lower[0] <= self.upper[0] && self.lower[1] <= self.upper[1] && self.lower[2]
            <= self.upper[2]
    }

    /// Whether a hue/saturation/value triple lies inside the range. A value
    /// exactly on a bound is inside.
    pub fn contains(&self, h: u8, s: u8, v: u8) -> (inside: bool)
        ensures
            inside == self.spec_contains(h as int, s as int, v as int),
    {
        self.lower[0] <= h && h <= self.upper[0] && self.lower[1] <= s && s <= self.upper[1]
            && self.lower[2] <= v && v <= self.upper[2]
    }

    /// Whether an RGB pixel falls inside the range after conversion.
    pub fn matches(&self, r: u8, g: u8, b: u8) -> (inside: bool)
        ensures
            inside == self.matches_rgb(r as int, g as int, b as int),
    {
        let (h, s, v) = rgb_to_hsv_opencv(r, g, b);
        self.contains(h, s, v)
    }
}

impl Default for ColorRange {
    /// The stock range: a band of saturated, bright purples.
    fn default() -> (range: Self)
        ensures
            range.lower@ == seq![140u8, 120u8, 180u8],
            range.upper@ == seq![160u8, 200u8, 255u8],
    {
        ColorRange { lower: [140, 120, 180], upper: [160, 200, 255] }
    }
}

} // verus!
