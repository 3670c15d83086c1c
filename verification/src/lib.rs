//! Motion detection over a sequence of frames by adaptive background
//! subtraction, with mask-driven highlighting of the moving regions.

pub mod buffer;
pub mod compose;
pub mod detector;
pub mod grayscale;
pub mod luma;
pub mod ops;
pub mod pipeline;
pub mod score;
