//! Finding the target: the centroid of the pixels inside a colour range.

use crate::color::ColorRange;
use crate::frame::{lemma_index_of, lemma_index_split, Frame, FrameView};
use vstd::prelude::*;

verus! {

/// The `k`-th pixel of the frame, in row-major order, lies inside the range.
pub open spec fn pixel_matches(f: FrameView, range: ColorRange, k: int) -> bool {
    let rgb = f.rgb(k);
    range.matches_rgb(rgb.0 as int, rgb.1 as int, rgb.2 as int)
}

/// The pixel at `(x, y)` lies inside the range.
pub open spec fn matches_at(f: FrameView, range: ColorRange, x: int, y: int) -> bool {
    pixel_matches(f, range, f.index_of(x, y))
}

/// `(px, py)` is a pixel of the frame, it lies inside the range, and no
/// other pixel does.
pub open spec fn only_match_at(f: FrameView, range: ColorRange, px: int, py: int) -> bool {
    &&& f.in_bounds(px, py)
    &&& forall|x: int, y: int|
        f.in_bounds(x, y) ==> (#[trigger] matches_at(f, range, x, y) <==> x == px && y == py)
}

/// How many of the first `k` pixels lie inside the range.
pub open spec fn match_count(f: FrameView, range: ColorRange, k: nat) -> nat
    decreases k,
{
    if k == 0 {
        0
    } else {
        match_count(f, range, (k - 1) as nat) + if pixel_matches(f, range, k - 1) {
            1nat
        } else {
            0nat
        }
    }
}

/// The sum of the column numbers of those of the first `k` pixels that lie
/// inside the range.
pub open spec fn match_sum_x(f: FrameView, range: ColorRange, k: nat) -> nat
    decreases k,
{
    if k == 0 {
        0
    } else {
        match_sum_x(f, range, (k - 1) as nat) + if pixel_matches(f, range, k - 1) {
            ((k - 1) % (f.width as int)) as nat
        } else {
            0nat
        }
    }
}

/// The sum of the row numbers of those of the first `k` pixels that lie
/// inside the range.
pub open spec fn match_sum_y(f: FrameView, range: ColorRange, k: nat) -> nat
    decreases k,
{
    if k == 0 {
        0
    } else {
        match_sum_y(f, range, (k - 1) as nat) + if pixel_matches(f, range, k - 1) {
            ((k - 1) / (f.width as int)) as nat
        } else {
            0nat
        }
    }
}

/// The mean column and mean row of the pixels inside the range, each
/// rounded down; nothing when no pixel is inside.
pub open spec fn centroid(f: FrameView, range: ColorRange) -> Option<(int, int)> {
    let n = f.pixel_count();
    let hits = match_count(f, range, n);
    if hits == 0 {
        None
    } else {
        Some(
            (
                match_sum_x(f, range, n) as int / hits as int,
                match_sum_y(f, range, n) as int / hits as int,
            ),
        )
    }
}

/// Among the first `k` pixels there are at most `k` matches, and the
/// coordinate sums stay below the count times the frame's sides.
pub proof fn lemma_match_bounds(f: FrameView, range: ColorRange, k: nat)
    requires
        k <= f.pixel_count(),
    ensures
        match_count(f, range, k) <= k,
        match_sum_x(f, range, k) <= match_count(f, range, k) * f.width,
        match_sum_y(f, range, k) <= match_count(f, range, k) * f.height,
        match_count(f, range, k) > 0 ==> f.width > 0 && f.height > 0,
        match_count(f, range, k) > 0 ==> match_sum_x(f, range, k) <= match_count(f, range, k) * (
        f.width - 1),
        match_count(f, range, k) > 0 ==> match_sum_y(f, range, k) <= match_count(f, range, k) * (
        f.height - 1),
    decreases k,
{
    if k > 0 {
        let j = (k - 1) as nat;
        lemma_match_bounds(f, range, j);
        lemma_index_split(f.width as int, f.height as int, j as int);
        let c = match_count(f, range, j);
        let w = f.width as int;
        let h = f.height as int;
        assert((c + 1) * w == c * w + w && (c + 1) * h == c * h + h && (c + 1) * (w - 1) == c * (w
            - 1) + (w - 1) && (c + 1) * (h - 1) == c * (h - 1) + (h - 1)) by (nonlinear_arith);
        assert(0 * w == 0 && 0 * h == 0 && 0 * (w - 1) == 0 && 0 * (h - 1) == 0);
    }
}

/// Where none of the first `k` pixels lies inside the range, the count is 0.
pub proof fn lemma_no_match(f: FrameView, range: ColorRange, k: nat)
    requires
        forall|j: int| 0 <= j < k ==> !pixel_matches(f, range, j),
    ensures
        match_count(f, range, k) == 0,
    decreases k,
{
    if k > 0 {
        lemma_no_match(f, range, (k - 1) as nat);
    }
}

/// Where the count over the first `k` pixels is 0, none of them lies inside
/// the range.
pub proof fn lemma_count_zero(f: FrameView, range: ColorRange, k: nat)
    requires
        match_count(f, range, k) == 0,
    ensures
        forall|j: int| 0 <= j < k ==> !pixel_matches(f, range, j),
    decreases k,
{
    if k > 0 {
        lemma_count_zero(f, range, (k - 1) as nat);
    }
}

/// Where pixel `p` is the only one of the first `k` inside the range, the
/// count is 1 and the sums are its column and its row.
pub proof fn lemma_single_match(f: FrameView, range: ColorRange, k: nat, p: int)
    requires
        f.width > 0,
        0 <= p < k,
        forall|j: int| 0 <= j < k ==> (pixel_matches(f, range, j) <==> j == p),
    ensures
        match_count(f, range, k) == 1,
        match_sum_x(f, range, k) == p % (f.width as int),
        match_sum_y(f, range, k) == p / (f.width as int),
    decreases k,
{
    let j = (k - 1) as nat;
    if p == j {
        lemma_no_match(f, range, j);
        lemma_no_sum(f, range, j);
        assert(p % (f.width as int) >= 0 && p / (f.width as int) >= 0) by (nonlinear_arith)
            requires
                p >= 0,
                f.width > 0,
        ;
    } else {
        lemma_single_match(f, range, j, p);
    }
}

/// Where the count over the first `k` pixels is 0, so are both sums.
pub proof fn lemma_no_sum(f: FrameView, range: ColorRange, k: nat)
    requires
        match_count(f, range, k) == 0,
    ensures
        match_sum_x(f, range, k) == 0,
        match_sum_y(f, range, k) == 0,
    decreases k,
{
    if k > 0 {
        lemma_no_sum(f, range, (k - 1) as nat);
    }
}

/// A frame without a pixel inside the range has no centroid, and a frame
/// without a centroid has no such pixel.
pub proof fn lemma_centroid_none(f: FrameView, range: ColorRange)
    requires
        f.wf(),
    ensures
        centroid(f, range) is None <==> forall|x: int, y: int|
            f.in_bounds(x, y) ==> !#[trigger] matches_at(f, range, x, y),
{
    let n = f.pixel_count();
    let w = f.width as int;
    let h = f.height as int;
    if centroid(f, range) is None {
        lemma_count_zero(f, range, n);
        assert forall|x: int, y: int| f.in_bounds(x, y) implies !#[trigger] matches_at(
            f,
            range,
            x,
            y,
        ) by {
            lemma_index_of(w, h, x, y);
        }
    }
    if forall|x: int, y: int| f.in_bounds(x, y) ==> !#[trigger] matches_at(f, range, x, y) {
        assert forall|j: int| 0 <= j < n implies !pixel_matches(f, range, j) by {
            lemma_index_split(w, h, j);
            assert(f.in_bounds(j % w, j / w));
            assert(f.index_of(j % w, j / w) == j);
            assert(!matches_at(f, range, j % w, j / w));
        }
        lemma_no_match(f, range, n);
    }
}

/// A frame whose only pixel inside the range is `(px, py)` has exactly that
/// pixel as its centroid.
pub proof fn lemma_centroid_single(f: FrameView, range: ColorRange, px: int, py: int)
    requires
        f.wf(),
        only_match_at(f, range, px, py),
    ensures
        centroid(f, range) == Some((px, py)),
{
    let n = f.pixel_count();
    let w = f.width as int;
    let h = f.height as int;
    lemma_index_of(w, h, px, py);
    let p = f.index_of(px, py);
    assert forall|j: int| 0 <= j < n implies (pixel_matches(f, range, j) <==> j == p) by {
        lemma_index_split(w, h, j);
        assert(f.in_bounds(j % w, j / w));
        assert(f.index_of(j % w, j / w) == j);
        assert(matches_at(f, range, j % w, j / w) <==> (j % w == px && j / w == py));
    }
    lemma_single_match(f, range, n, p);
}

/// Scans the whole frame and returns the mean position of the pixels inside
/// `range`, each coordinate rounded down, or `None` when no pixel is inside.
/// A pixel whose channel sits exactly on a bound counts as inside.
pub fn locate(frame: &Frame, range: ColorRange) -> (target: Option<(i32, i32)>)
    ensures
        target is None <==> centroid(frame@, range) is None,
        target matches Some(t) ==> centroid(frame@, range) == Some((t.0 as int, t.1 as int)),
        (forall|x: int, y: int|
            frame@.in_bounds(x, y) ==> !#[trigger] matches_at(frame@, range, x, y))
            ==> target is None,
        forall|px: int, py: int| #[trigger]
            only_match_at(frame@, range, px, py) ==> target == Some((px as i32, py as i32)),
{
    let w: u32 = frame.width();
    let h: u32 = frame.height();
    let ghost f = frame@;
    let ghost n = f.pixel_count();
    let mut hits: u64 = 0;
    let mut sum_x: u128 = 0;
    let mut sum_y: u128 = 0;
    let mut k: usize = 0;
    let mut y: u32 = 0;
    let len: usize = frame.as_bytes().len();
    assert(n <= usize::MAX) by {
        assert(len == n * 3);
    }
    while y < h
        invariant
            f == frame@,
            f.wf(),
            w == f.width,
            h == f.height,
            n == f.pixel_count(),
            n <= usize::MAX,
            y <= h,
            k == y * w,
            hits == match_count(f, range, k as nat),
            sum_x == match_sum_x(f, range, k as nat),
            sum_y == match_sum_y(f, range, k as nat),
        decreases h - y,
    {
        let mut x: u32 = 0;
        while x < w
            invariant
                f == frame@,
                f.wf(),
                w == f.width,
                h == f.height,
                n == f.pixel_count(),
                n <= usize::MAX,
                y < h,
                x <= w,
                k == y * w + x,
                hits == match_count(f, range, k as nat),
                sum_x == match_sum_x(f, range, k as nat),
                sum_y == match_sum_y(f, range, k as nat),
            decreases w - x,
        {
            proof {
                lemma_index_of(w as int, h as int, x as int, y as int);
                lemma_match_bounds(f, range, k as nat);
                lemma_match_bounds(f, range, (k + 1) as nat);
                assert(match_count(f, range, k as nat) * f.width <= 0xffff_ffff_ffff_ffff
                    * 0x7fff_ffff) by (nonlinear_arith)
                    requires
                        match_count(f, range, k as nat) <= 0xffff_ffff_ffff_ffff,
                        f.width <= 0x7fff_ffff,
                ;
                assert(match_count(f, range, k as nat) * f.height <= 0xffff_ffff_ffff_ffff
                    * 0x7fff_ffff) by (nonlinear_arith)
                    requires
                        match_count(f, range, k as nat) <= 0xffff_ffff_ffff_ffff,
                        f.height <= 0x7fff_ffff,
                ;
            }
            let rgb = frame.pixel(k);
            if range.matches(rgb.0, rgb.1, rgb.2) {
                hits = hits + 1;
                sum_x = sum_x + x as u128;
                sum_y = sum_y + y as u128;
            }
            x = x + 1;
            k = k + 1;
        }
        proof {
            assert((y + 1) * w == y * w + w) by (nonlinear_arith);
        }
        y = y + 1;
    }
    proof {
        assert(k == n) by (nonlinear_arith)
            requires
                k == y * w,
                y == h,
                n == w * h,
        ;
        lemma_match_bounds(f, range, n);
        lemma_centroid_none(f, range);
        assert forall|px: int, py: int| #[trigger]
            only_match_at(f, range, px, py) implies centroid(f, range) == Some((px, py)) by {
            lemma_centroid_single(f, range, px, py);
        }
    }
    if hits == 0 {
        None
    } else {
        let ghost c = hits as int;
        assert(sum_x as int / c <= w - 1 && sum_y as int / c <= h - 1 && sum_x as int / c >= 0
            && sum_y as int / c >= 0) by (nonlinear_arith)
            requires
                c > 0,
                0 <= sum_x <= c * (w - 1),
                0 <= sum_y <= c * (h - 1),
        ;
        let mean_x: u128 = sum_x / hits as u128;
        let mean_y: u128 = sum_y / hits as u128;
        Some((mean_x as i32, mean_y as i32))
    }
}

} // verus!
