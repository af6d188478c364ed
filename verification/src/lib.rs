//! QR codes for cup records: encoding the number of a cup into a symbol,
//! drawing it, and reading it back from the grid that was found in a
//! picture.
//!
//! The crate `qrcode` protects the codewords and draws the grid, and the
//! crate `quircs` reads a sampled grid. What the library decides itself is
//! verified: the version that a payload gets, the bit stream that carries
//! it, the mask that the symbol is drawn under, and what each outcome of a
//! search and of a reading means. The search of a picture itself is left to
//! the caller: it runs on floating point inside `quircs`, and nothing can
//! be promised of it.

pub mod bitstream;
pub mod cup;
pub mod decoder;
pub mod encoder;
pub mod error;
pub mod penalty;
pub mod qr;
pub mod render;
pub mod symbol;
pub mod tables;
pub mod version;
