//! Captured frames: dense row-major RGB pixels, three bytes each.

use vstd::prelude::*;

verus! {

/// The largest width or height a frame can have: pixel coordinates are
/// reported as `i32`.
pub const MAX_DIMENSION: u32 = 0x7fff_ffff;

/// What a frame is, mathematically: its size and its bytes.
pub struct FrameView {
    pub width: nat,
    pub height: nat,
    pub bytes: Seq<u8>,
}

impl FrameView {
    /// The buffer holds exactly three bytes per pixel, and both sides fit
    /// `MAX_DIMENSION`.
    pub open spec fn wf(&self) -> bool {
        &&& self.width <= MAX_DIMENSION
        &&& self.height <= MAX_DIMENSION
        &&& self.bytes.len() == self.width * self.height * 3
    }

    /// Pixels in the frame.
    pub open spec fn pixel_count(&self) -> nat {
        self.width * self.height
    }

    /// `(x, y)` names a pixel of the frame.
    pub open spec fn in_bounds(&self, x: int, y: int) -> bool {
        0 <= x < self.width && 0 <= y < self.height
    }

    /// Row-major position of the pixel at `(x, y)`.
    pub open spec fn index_of(&self, x: int, y: int) -> int {
        y * self.width + x
    }

    /// Red, green and blue of the `k`-th pixel in row-major order.
    pub open spec fn rgb(&self, k: int) -> (u8, u8, u8) {
        (self.bytes[3 * k], self.bytes[3 * k + 1], self.bytes[3 * k + 2])
    }

    /// Red, green and blue of the pixel at `(x, y)`.
    pub open spec fn rgb_at(&self, x: int, y: int) -> (u8, u8, u8) {
        self.rgb(self.index_of(x, y))
    }
}

/// Inside a `width` by `height` grid, the row-major index of `(x, y)` is
/// below `width * height`, and `x` and `y` are recovered from it by
/// remainder and quotient.
pub proof fn lemma_index_of(width: int, height: int, x: int, y: int)
    requires
        0 <= x < width,
        0 <= y < height,
    ensures
        0 <= y * width + x < width * height,
        (y * width + x) % width == x,
        (y * width + x) / width == y,
{
    assert(y * width + x < width * height && 0 <= y * width) by (nonlinear_arith)
        requires
            0 <= x < width,
            0 <= y < height,
    ;
    assert(y * width == width * y) by (nonlinear_arith);
    vstd::arithmetic::div_mod::lemma_fundamental_div_mod_converse(y * width + x, width, y, x);
}

/// Every row-major index below `width * height` names one pixel `(x, y)` of
/// the grid.
pub proof fn lemma_index_split(width: int, height: int, k: int)
    requires
        0 <= k < width * height,
        0 <= height,
    ensures
        0 <= k % width < width,
        0 <= k / width < height,
        (k / width) * width + k % width == k,
{
    assert(width > 0) by (nonlinear_arith)
        requires
            0 <= k < width * height,
            0 <= height,
    ;
    vstd::arithmetic::div_mod::lemma_fundamental_div_mod(k, width);
    vstd::arithmetic::div_mod::lemma_mod_bound(k, width);
    let q = k / width;
    assert(width * q == q * width) by (nonlinear_arith);
    assert(0 <= q < height) by (nonlinear_arith)
        requires
            width > 0,
            0 <= k < width * height,
            k == q * width + k % width,
            0 <= k % width < width,
    ;
}

/// `bytes` with the first and third byte of every complete triple exchanged.
/// One or two bytes left over at the end stay as they are.
pub open spec fn swap_channels(bytes: Seq<u8>) -> Seq<u8> {
    Seq::new(
        bytes.len(),
        |i: int|
            if i >= 3 * (bytes.len() / 3) {
                bytes[i]
            } else if i % 3 == 0 {
                bytes[i + 2]
            } else if i % 3 == 2 {
                bytes[i - 2]
            } else {
                bytes[i]
            },
    )
}

/// Turns a blue-green-red buffer into red-green-blue (or back): the outer
/// bytes of each pixel change places.
pub fn bgr_to_rgb(raw: &Vec<u8>) -> (out: Vec<u8>)
    ensures
        out@ == swap_channels(raw@),
{
    let n: usize = raw.len();
    let whole: usize = n - n % 3;
    let mut out: Vec<u8> = Vec::with_capacity(n);
    let mut i: usize = 0;
    while i < whole
        invariant
            n == raw@.len(),
            whole == 3 * (n / 3),
            i <= whole,
            i % 3 == 0,
            out@.len() == i,
            forall|j: int| 0 <= j < i ==> out@[j] == #[trigger] swap_channels(raw@)[j],
        decreases whole - i,
    {
        out.push(raw[i + 2]);
        out.push(raw[i + 1]);
        out.push(raw[i]);
        i = i + 3;
    }
    while i < n
        invariant
            n == raw@.len(),
            whole == 3 * (n / 3),
            whole <= i <= n,
            out@.len() == i,
            forall|j: int| 0 <= j < i ==> out@[j] == #[trigger] swap_channels(raw@)[j],
        decreases n - i,
    {
        out.push(raw[i]);
        i = i + 1;
    }
    assert(out@ =~= swap_channels(raw@));
    out
}

/// One captured frame. Its buffer always holds `width * height * 3` bytes.
#[derive(Debug)]
pub struct Frame {
    width: u32,
    height: u32,
    data: Vec<u8>,
}

impl View for Frame {
    type V = FrameView;

    closed spec fn view(&self) -> FrameView {
        FrameView { width: self.width as nat, height: self.height as nat, bytes: self.data@ }
    }
}

impl Frame {
    #[verifier::type_invariant]
    spec fn well_formed(&self) -> bool {
        self@.wf()
    }

    /// Wraps a buffer of red-green-blue bytes. The buffer is taken exactly
    /// when it holds three bytes for each of the `width * height` pixels and
    /// neither side is above `MAX_DIMENSION`.
    pub fn from_raw(width: u32, height: u32, data: Vec<u8>) -> (frame: Option<Frame>)
        ensures
            frame is Some <==> (FrameView {
                width: width as nat,
                height: height as nat,
                bytes: data@,
            }).wf(),
            frame matches Some(f) ==> f@ == (FrameView {
                width: width as nat,
                height: height as nat,
                bytes: data@,
            }),
    {
        if width > MAX_DIMENSION || height > MAX_DIMENSION {
            return None;
        }
        assert(width * height * 3 <= 0x3fff_ffff_0000_0001 * 3) by (nonlinear_arith)
            requires
                width <= 0x7fff_ffff,
                height <= 0x7fff_ffff,
        ;
        let need: u64 = (width as u64) * (height as u64) * 3;
        if data.len() as u64 != need {
            return None;
        }
        Some(Frame { width, height, data })
    }

    /// Wraps a buffer that came in blue-green-red order, as `from_raw` does
    /// after exchanging the outer channels of every pixel.
    pub fn from_bgr(width: u32, height: u32, raw: &Vec<u8>) -> (frame: Option<Frame>)
        ensures
            frame is Some <==> (FrameView {
                width: width as nat,
                height: height as nat,
                bytes: raw@,
            }).wf(),
            frame matches Some(f) ==> f@ == (FrameView {
                width: width as nat,
                height: height as nat,
                bytes: swap_channels(raw@),
            }),
    {
        Frame::from_raw(width, height, bgr_to_rgb(raw))
    }

    /// Width in pixels.
    pub fn width(&self) -> (w: u32)
        ensures
            w == self@.width,
            self@.wf(),
    {
        proof {
            use_type_invariant(self);
        }
        self.width
    }

    /// Height in pixels.
    pub fn height(&self) -> (h: u32)
        ensures
            h == self@.height,
            self@.wf(),
    {
        proof {
            use_type_invariant(self);
        }
        self.height
    }

    /// The bytes, row by row, red-green-blue.
    pub fn as_bytes(&self) -> (bytes: &Vec<u8>)
        ensures
            bytes@ == self@.bytes,
            self@.wf(),
    {
        proof {
            use_type_invariant(self);
        }
        &self.data
    }

    /// Red, green and blue at `(x, y)`.
    pub fn get_pixel(&self, x: u32, y: u32) -> (rgb: (u8, u8, u8))
        requires
            self@.in_bounds(x as int, y as int),
        ensures
            rgb == self@.rgb_at(x as int, y as int),
    {
        let len: usize = self.data.len();
        proof {
            use_type_invariant(self);
            lemma_index_of(self.width as int, self.height as int, x as int, y as int);
            assert(0 <= y * self.width) by (nonlinear_arith);
            assert(self.width * self.height <= len);
        }
        let k: usize = y as usize * self.width as usize + x as usize;
        self.pixel(k)
    }

    /// Red, green and blue of the `k`-th pixel in row-major order.
    pub fn pixel(&self, k: usize) -> (rgb: (u8, u8, u8))
        requires
            k < self@.pixel_count(),
        ensures
            rgb == self@.rgb(k as int),
    {
        let len: usize = self.data.len();
        proof {
            use_type_invariant(self);
            assert(3 * k + 3 <= len);
        }
        let base: usize = 3 * k;
        (self.data[base], self.data[base + 1], self.data[base + 2])
    }
}

impl Clone for Frame {
    /// An independent copy with the same size and bytes.
    fn clone(&self) -> (copy: Self)
        ensures
            copy@ == self@,
            copy@.wf(),
    {
        proof {
            use_type_invariant(self);
        }
        Frame { width: self.width, height: self.height, data: self.data.clone() }
    }
}

} // verus!
