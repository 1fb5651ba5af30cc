//! Builds the textual ffmpeg filter graph for a VMAF quality analysis.
//!
//! Given the analysis options, the distorted stream's resolution and pixel
//! format, and an optional reference-side filter, the library composes the
//! `lavfi`/`filter_complex` value that invokes `libvmaf` (or `libvmaf_cuda`),
//! together with the per-input process arguments the GPU path needs. Every
//! function is pure: the same inputs always produce the same strings.

pub mod digits;
pub mod model;
pub mod pixel;
pub mod scale;
pub mod text;
pub mod vmaf;

pub use model::VmafModel;
pub use pixel::PixelFormat;
pub use scale::VmafScale;
pub use scale::minimally_scale;
pub use scale::parse_vmaf_scale;
pub use text::str_contains;
pub use text::str_ends_with;
pub use text::str_equal;
pub use vmaf::Vmaf;
pub use vmaf::parse_vmaf_arg;
