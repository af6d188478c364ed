//! The call that the pages make for a code: the image for some data.

pub use crate::render::generate_qr_code;
