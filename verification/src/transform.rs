//! The transform stage: collapse a pixel buffer to a single luminance
//! channel.  The luminance of a color pixel is fixed to the integer ITU-R
//! BT.601 weighting; the alpha channel, where present, is dropped.
use vstd::prelude::*;

use crate::pixel::{ChannelLayout, GrayscaleBuffer, PixelBuffer};

verus! {

/// Integer luminance of an RGB triple under the ITU-R BT.601 weighting
/// (299/1000, 587/1000, 114/1000), rounded to the nearest integer.
pub open spec fn luma601(r: u8, g: u8, b: u8) -> u8 {
    ((299 * (r as int) + 587 * (g as int) + 114 * (b as int) + 500) / 1000) as u8
}

/// Luminance of one pixel, computed by the fixed BT.601 formula.
pub fn luma601_of(r: u8, g: u8, b: u8) -> (l: u8)
    ensures
        l == luma601(r, g, b),
{
    let acc: u32 = 299 * (r as u32) + 587 * (g as u32) + 114 * (b as u32) + 500;
    proof {
        assert(acc as int / 1000 <= 255) by (nonlinear_arith)
            requires
                acc <= 255500,
        ;
    }
    (acc / 1000) as u8
}

/// Luminance of pixel `i` of a sample sequence with `channels` samples per
/// pixel: the single sample for one- and two-channel layouts (the second
/// channel is alpha), the BT.601 weighting of the first three samples
/// otherwise.
pub open spec fn sample_luma(channels: int, data: Seq<u8>, i: int) -> u8 {
    if channels == 1 {
        data[i]
    } else if channels == 2 {
        data[2 * i]
    } else if channels == 3 {
        luma601(data[3 * i], data[3 * i + 1], data[3 * i + 2])
    } else {
        luma601(data[4 * i], data[4 * i + 1], data[4 * i + 2])
    }
}

/// The luminance plane of a raster of `pixels` pixels whose samples are
/// `data`, `channels` per pixel, in row-major pixel order.
pub open spec fn luma_plane(pixels: nat, channels: int, data: Seq<u8>) -> Seq<u8> {
    Seq::new(pixels, |i: int| sample_luma(channels, data, i))
}

/// A single-channel buffer is a fixed point of the transform: its luminance
/// plane is the buffer itself.
pub proof fn lemma_grayscale_idempotent(pixels: nat, data: Seq<u8>)
    requires
        data.len() == pixels,
    ensures
        luma_plane(pixels, 1, data) == data,
{
    assert(luma_plane(pixels, 1, data) =~= data);
}

/// Collapse a pixel buffer to its luminance plane.  Total on well-formed
/// buffers; dimensions are preserved exactly, pixels keep their row-major
/// order, and a buffer that is already single-channel comes back with its
/// samples unchanged.
pub fn to_grayscale(buf: &PixelBuffer) -> (g: GrayscaleBuffer)
    requires
        buf.wf(),
    ensures
        g.wf(),
        g.width == buf.width,
        g.height == buf.height,
        g.data@ == luma_plane(
            buf.pixel_count() as nat,
            buf.layout.spec_channels() as int,
            buf.data@,
        ),
        buf.layout is Gray ==> g.data@ == buf.data@,
{
    let ch: usize = buf.layout.channels() as usize;
    let n: usize = buf.data.len() / ch;
    proof {
        assert(n as int == buf.pixel_count()) by (nonlinear_arith)
            requires
                1 <= ch <= 4,
                buf.data@.len() == buf.pixel_count() * ch as int,
                n as int == buf.data@.len() as int / ch as int,
                buf.pixel_count() >= 0,
        ;
    }
    let len: usize = buf.data.len();
    proof {
        assert(len as int == n as int * ch as int) by (nonlinear_arith)
            requires
                n as int == buf.pixel_count(),
                len as int == buf.pixel_count() * ch as int,
        ;
    }
    let mut out: Vec<u8> = Vec::new();
    let mut i: usize = 0;
    while i < n
        invariant
            i <= n,
            1 <= ch <= 4,
            ch == buf.layout.spec_channels(),
            n as int == buf.pixel_count(),
            len == buf.data@.len(),
            len as int == n as int * ch as int,
            out@.len() == i as int,
            forall|j: int|
                0 <= j < i ==> out@[j] == sample_luma(ch as int, buf.data@, j),
        decreases n - i,
    {
        proof {
            assert(i * ch + ch <= n * ch) by (nonlinear_arith)
                requires
                    i < n,
                    ch >= 1,
            ;
            assert(i * ch + ch <= len);
        }
        let base: usize = i * ch;
        proof {
            assert((ch == 1 ==> base as int == 1 * i as int) && (ch == 2 ==> base as int == 2 * i
                as int) && (ch == 3 ==> base as int == 3 * i as int) && (ch == 4 ==> base as int
                == 4 * i as int)) by (nonlinear_arith)
                requires
                    base as int == i as int * ch as int,
            ;
        }
        let l: u8 = match buf.layout {
            ChannelLayout::Gray => buf.data[base],
            ChannelLayout::GrayAlpha => buf.data[base],
            ChannelLayout::Rgb => luma601_of(
                buf.data[base],
                buf.data[base + 1],
                buf.data[base + 2],
            ),
            ChannelLayout::Rgba => luma601_of(
                buf.data[base],
                buf.data[base + 1],
                buf.data[base + 2],
            ),
        };
        assert(l == sample_luma(ch as int, buf.data@, i as int));
        out.push(l);
        i = i + 1;
    }
    proof {
        assert(out@ =~= luma_plane(
            buf.pixel_count() as nat,
            buf.layout.spec_channels() as int,
            buf.data@,
        ));
        if buf.layout is Gray {
            lemma_grayscale_idempotent(buf.pixel_count() as nat, buf.data@);
        }
    }
    GrayscaleBuffer { width: buf.width, height: buf.height, data: out }
}

} // verus!
