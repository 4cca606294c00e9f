//! Text to QR code to PNG bytes.
//!
//! The QR symbol is built by the `qrcode` crate and rasterised by its
//! renderer; the pixels are compressed by `lodepng`. What this crate states
//! and proves is how those pieces are joined: which image the encoder is
//! handed, and which error a caller sees for each failure.

pub mod error;
pub mod generate;
pub mod png;
pub mod symbol;

pub use error::{qr_failure_text, qrerror_string, EncodingError, QrFailure};
pub use generate::{finish_png, gen_qr_code, generate_qr_png};
