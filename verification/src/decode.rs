use vstd::prelude::*;

verus! {

/// A decoded frame: a tightly packed buffer of 8-bit RGB triples, three
/// bytes per pixel in row-major order, paired with its dimensions.
pub struct RgbImage {
    /// Width in pixels.
    pub width: u32,
    /// Height in pixels.
    pub height: u32,
    /// The packed bytes, exactly `3 * width * height` of them.
    pub data: Vec<u8>,
}

impl RgbImage {
    /// A decoded image holds exactly three bytes for every pixel.
    pub open spec fn wf(self) -> bool {
        self.data@.len() == 3 * self.width * self.height
    }
}

/// Byte `j` of the packed RGB rewrite of the 4-byte-per-pixel buffer `b`:
/// pixel `i` of `b` lies at bytes `4i..4i+4` in the order blue, green,
/// red, alpha, and yields output bytes `3i..3i+3` in the order red,
/// green, blue, the alpha byte being dropped.
pub open spec fn bgra_byte(b: Seq<u8>, j: int) -> u8 {
    if j % 3 == 0 {
        b[4 * (j / 3) + 2]
    } else if j % 3 == 1 {
        b[4 * (j / 3) + 1]
    } else {
        b[4 * (j / 3)]
    }
}

/// Decode a frame that is already packed RGB: the buffer is taken as the
/// image's bytes unchanged, provided its length is exactly three bytes
/// per pixel. A buffer of any other length yields no image — the frame is
/// skipped, not an error.
pub fn decode_rgb(width: u32, height: u32, data: Vec<u8>) -> (r: Option<RgbImage>)
    ensures
        data@.len() == 3 * width * height ==> (r matches Some(img) && img.width == width
            && img.height == height && img.data@ == data@ && img.wf()),
        data@.len() != 3 * width * height ==> r is None,
{
    proof {
        assert((width as u64) * (height as u64) <= (u32::MAX as u64) * (u32::MAX as u64))
            by (nonlinear_arith)
            requires
                width <= u32::MAX,
                height <= u32::MAX,
        ;
    }
    let pixels: u64 = (width as u64) * (height as u64);
    proof {
        assert(3 * width * height == 3 * (pixels as int)) by (nonlinear_arith)
            requires
                pixels == width * height,
        ;
    }
    let n: usize = data.len();
    if pixels > u64::MAX / 3 {
        assert(3 * pixels > u64::MAX >= n);
        return None;
    }
    let need: u64 = 3 * pixels;
    if n as u64 != need {
        return None;
    }
    Some(RgbImage { width, height, data })
}

/// Decode a frame with four bytes per pixel in blue, green, red, alpha
/// order into packed RGB: for every pixel the three colour bytes are
/// emitted in reversed order and the alpha byte is dropped. A buffer
/// whose length is not exactly four bytes per pixel yields no image —
/// the frame is skipped, not an error.
pub fn decode_bgra(width: u32, height: u32, data: &Vec<u8>) -> (r: Option<RgbImage>)
    ensures
        data@.len() == 4 * width * height ==> (r matches Some(img) && img.width == width
            && img.height == height && img.wf() && forall|j: int|
            0 <= j < img.data@.len() ==> img.data@[j] == bgra_byte(data@, j)),
        data@.len() != 4 * width * height ==> r is None,
{
    proof {
        assert((width as u64) * (height as u64) <= (u32::MAX as u64) * (u32::MAX as u64))
            by (nonlinear_arith)
            requires
                width <= u32::MAX,
                height <= u32::MAX,
        ;
    }
    let pixels: u64 = (width as u64) * (height as u64);
    proof {
        assert(4 * width * height == 4 * (pixels as int) && 3 * width * height == 3 * (
        pixels as int)) by (nonlinear_arith)
            requires
                pixels == width * height,
        ;
    }
    let n: usize = data.len();
    if pixels > u64::MAX / 4 {
        assert(4 * pixels > u64::MAX >= n);
        return None;
    }
    let need: u64 = 4 * pixels;
    if n as u64 != need {
        return None;
    }
    let count: usize = n / 4;
    let mut out: Vec<u8> = Vec::new();
    let mut i: usize = 0;
    while i < count
        invariant
            i <= count,
            4 * count == data@.len(),
            4 * count <= usize::MAX,
            out@.len() == 3 * i,
            forall|j: int| 0 <= j < out@.len() ==> out@[j] == bgra_byte(data@, j),
        decreases count - i,
    {
        let blue = data[i * 4];
        let green = data[i * 4 + 1];
        let red = data[i * 4 + 2];
        out.push(red);
        out.push(green);
        out.push(blue);
        proof {
            assert forall|j: int| 0 <= j < out@.len() implies out@[j] == bgra_byte(data@, j) by {
                if j >= 3 * i {
                    assert(j / 3 == i && (j % 3 == j - 3 * i));
                }
            }
        }
        i = i + 1;
    }
    Some(RgbImage { width, height, data: out })
}

} // verus!
