//! The pixel formats the analysis accepts, and their ffmpeg names.

use vstd::prelude::*;

verus! {

/// A pixel format of the streams under analysis. The GPU path only supports
/// 8-bit 4:2:0; other formats are coerced to it there.
#[derive(Debug, Clone, Copy, PartialEq, Eq, Hash, Structural)]
pub enum PixelFormat {
    /// 8-bit 4:2:0.
    Yuv420p,
    /// 10-bit 4:2:0.
    Yuv420p10le,
    /// 10-bit 4:4:4.
    Yuv444p10le,
}

/// The ffmpeg name of a pixel format.
pub open spec fn pix_fmt_name(p: PixelFormat) -> Seq<char> {
    match p {
        PixelFormat::Yuv420p => "yuv420p"@,
        PixelFormat::Yuv420p10le => "yuv420p10le"@,
        PixelFormat::Yuv444p10le => "yuv444p10le"@,
    }
}

impl PixelFormat {
    /// The ffmpeg name, as used inside `format=`/`scale_cuda=format=` clauses.
    pub fn as_str(&self) -> (r: &'static str)
        ensures
            r@ == pix_fmt_name(*self),
    {
        match self {
            PixelFormat::Yuv420p => "yuv420p",
            PixelFormat::Yuv420p10le => "yuv420p10le",
            PixelFormat::Yuv444p10le => "yuv444p10le",
        }
    }
}

} // verus!
