//! Texture-format capability table, compute-dispatch sizing, and the
//! pure parts of the diagnostics helpers of a GPU abstraction layer.

pub mod diag;
pub mod dispatch;
pub mod format;

pub use diag::build_span_labels;
pub use diag::format_error_chain;
pub use diag::SpanLabel;
pub use dispatch::ComputePipeline;
pub use dispatch::Extent;
pub use format::TexelAspects;
pub use format::TexelBlockInfo;
pub use format::TextureFormat;
