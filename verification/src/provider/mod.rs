//! The image hosts that need more than the URL to find their images.

pub mod gfycat;
pub mod imgur;
