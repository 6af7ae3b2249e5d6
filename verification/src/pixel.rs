//! The in-memory raster model: a decoded pixel buffer with an explicit
//! channel layout, and its single-channel (luminance) counterpart.
use vstd::prelude::*;

verus! {

/// Per-pixel channel layout of a decoded raster, eight bits per channel.
#[derive(Clone, Copy, Debug, PartialEq, Eq, Structural)]
pub enum ChannelLayout {
    /// One luminance sample per pixel.
    Gray,
    /// A luminance sample followed by an alpha sample.
    GrayAlpha,
    /// Red, green and blue samples.
    Rgb,
    /// Red, green and blue samples followed by an alpha sample.
    Rgba,
}

impl ChannelLayout {
    /// How many samples one pixel holds under this layout.
    pub open spec fn spec_channels(self) -> nat {
        match self {
            ChannelLayout::Gray => 1,
            ChannelLayout::GrayAlpha => 2,
            ChannelLayout::Rgb => 3,
            ChannelLayout::Rgba => 4,
        }
    }

    /// Executable channel count.
    pub fn channels(&self) -> (n: u8)
        ensures
            n as nat == self.spec_channels(),
            1 <= n <= 4,
    {
        match self {
            ChannelLayout::Gray => 1,
            ChannelLayout::GrayAlpha => 2,
            ChannelLayout::Rgb => 3,
            ChannelLayout::Rgba => 4,
        }
    }
}

/// A decoded raster: positive dimensions, a channel layout, and one byte per
/// sample in row-major pixel order.
#[derive(Debug)]
pub struct PixelBuffer {
    /// Width in pixels.
    pub width: u32,
    /// Height in pixels.
    pub height: u32,
    /// Layout of the samples of one pixel.
    pub layout: ChannelLayout,
    /// Sample bytes, row-major, `spec_channels` bytes per pixel.
    pub data: Vec<u8>,
}

impl PixelBuffer {
    /// Structural invariant: both dimensions are positive and the sample
    /// vector holds exactly one byte per channel of every pixel.
    pub open spec fn wf(self) -> bool {
        &&& self.width > 0
        &&& self.height > 0
        &&& self.data@.len() == self.width as int * self.height as int
            * self.layout.spec_channels() as int
    }

    /// Number of pixels.
    pub open spec fn pixel_count(self) -> int {
        self.width as int * self.height as int
    }

    /// The buffer as a plain mathematical value: width, height, channel
    /// count, and the sample bytes.
    pub open spec fn model(self) -> (int, int, int, Seq<u8>) {
        (
            self.width as int,
            self.height as int,
            self.layout.spec_channels() as int,
            self.data@,
        )
    }

    /// Checked constructor: accepts exactly the values that satisfy the
    /// structural invariant.
    pub fn new(width: u32, height: u32, layout: ChannelLayout, data: Vec<u8>) -> (r: Option<
        PixelBuffer,
    >)
        ensures
            match r {
                Some(pb) => {
                    &&& pb.wf()
                    &&& pb.width == width
                    &&& pb.height == height
                    &&& pb.layout == layout
                    &&& pb.data@ == data@
                },
                None => !(width > 0 && height > 0 && data@.len() == width as int * height as int
                    * layout.spec_channels() as int),
            },
    {
        let ch: u8 = layout.channels();
        proof {
            assert((width as int) * (height as int) <= 0xffffffff * 0xffffffff && (
            width as int) * (height as int) * (ch as int) <= 0xffffffff * 0xffffffff * 4)
                by (nonlinear_arith)
                requires
                    width <= 0xffffffffu32,
                    height <= 0xffffffffu32,
                    1 <= ch <= 4,
            ;
        }
        if width > 0 && height > 0 && (data.len() as u128) == (width as u128) * (height as u128)
            * (ch as u128) {
            Some(PixelBuffer { width, height, layout, data })
        } else {
            None
        }
    }
}

/// A luminance-only raster: positive dimensions and one byte per pixel in
/// row-major order.
#[derive(Debug)]
pub struct GrayscaleBuffer {
    /// Width in pixels.
    pub width: u32,
    /// Height in pixels.
    pub height: u32,
    /// One luminance sample per pixel, row-major.
    pub data: Vec<u8>,
}

impl GrayscaleBuffer {
    /// Structural invariant: positive dimensions, one sample per pixel.
    pub open spec fn wf(self) -> bool {
        &&& self.width > 0
        &&& self.height > 0
        &&& self.data@.len() == self.width as int * self.height as int
    }

    /// Checked constructor: accepts exactly the values that satisfy the
    /// structural invariant.
    pub fn new(width: u32, height: u32, data: Vec<u8>) -> (r: Option<GrayscaleBuffer>)
        ensures
            match r {
                Some(g) => {
                    &&& g.wf()
                    &&& g.width == width
                    &&& g.height == height
                    &&& g.data@ == data@
                },
                None => !(width > 0 && height > 0 && data@.len() == width as int * height as int),
            },
    {
        proof {
            assert((width as int) * (height as int) <= 0xffffffff * 0xffffffff)
                by (nonlinear_arith)
                requires
                    width <= 0xffffffffu32,
                    height <= 0xffffffffu32,
            ;
        }
        if width > 0 && height > 0 && (data.len() as u128) == (width as u128) * (height as u128) {
            Some(GrayscaleBuffer { width, height, data })
        } else {
            None
        }
    }
}

} // verus!
