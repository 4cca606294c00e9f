use crate::error::QrFailure;
use qrcode::types::{Color, QrError};
use image::Rgba;
use qrcode::render::Renderer;
use qrcode::QrCode;
use vstd::prelude::*;

verus! {

#[verifier::external_type_specification]
pub struct ExQrError(QrError);

/// Pixels per module side used by the renderer for RGBA images.
pub const MODULE_PIXELS: u32 = 8;

/// A built QR symbol: `width` modules per side, `dark` in row-major order.
pub struct QrSymbol {
    pub width: usize,
    pub dark: Vec<bool>,
    pub micro: bool,
}

impl QrSymbol {
    /// One entry per module, and no wider than the largest version.
    pub open spec fn wf(&self) -> bool {
        &&& self.dark@.len() == self.width * self.width
        &&& self.width <= 177
    }

    /// The light border, in modules, that the renderer leaves around the symbol.
    pub fn quiet_zone(&self) -> (r: u32)
        ensures
            r == quiet_zone_of(self.micro),
    {
        if self.micro {
            2
        } else {
            4
        }
    }
}

/// Micro QR symbols get a border of two modules, the others one of four.
pub open spec fn quiet_zone_of(micro: bool) -> nat {
    if micro {
        2
    } else {
        4
    }
}

/// Pixels per side of the rendered image of a symbol `width` modules wide.
pub open spec fn image_side(width: nat, quiet_zone: nat) -> nat {
    (width + 2 * quiet_zone) * MODULE_PIXELS as nat
}

/// Whether pixel (x, y) of the rendered image falls on a dark module.
pub open spec fn is_dark_pixel(width: nat, dark: Seq<bool>, quiet_zone: nat, x: nat, y: nat) -> bool {
    let mx = x / MODULE_PIXELS as nat;
    let my = y / MODULE_PIXELS as nat;
    &&& quiet_zone <= mx < width + quiet_zone
    &&& quiet_zone <= my < width + quiet_zone
    &&& dark[(my - quiet_zone) * width + (mx - quiet_zone)]
}

/// The rendered image as RGBA bytes, row by row: opaque black on dark
/// modules, opaque white elsewhere.
pub open spec fn rendered_rgba(width: nat, dark: Seq<bool>, quiet_zone: nat) -> Seq<u8> {
    let side = image_side(width, quiet_zone) as int;
    Seq::new(
        (side * side * 4) as nat,
        |i: int|
            {
                let p = i / 4;
                if i % 4 == 3 {
                    255u8
                } else if is_dark_pixel(width, dark, quiet_zone, (p % side) as nat, (p / side) as nat) {
                    0u8
                } else {
                    255u8
                }
            },
    )
}

/// Relies on qrcode's `Renderer::<Rgba<u8>>::new(..).build()`: each module
/// becomes an 8 by 8 block, dark ones opaque black, light ones and the border
/// of `quiet_zone` modules opaque white, in an `ImageBuffer` laid out row by
/// row with four bytes per pixel. The renderer asserts that the module count
/// is the square of the width.
#[verifier::external_body]
pub(crate) fn render_rgba(symbol: &QrSymbol, quiet_zone: u32) -> (r: (u32, u32, Vec<u8>))
    requires
        symbol.wf(),
        quiet_zone <= 4,
    ensures
        r.0 == image_side(symbol.width as nat, quiet_zone as nat),
        r.1 == r.0,
        r.2@ == rendered_rgba(symbol.width as nat, symbol.dark@, quiet_zone as nat),
{
    let colors: Vec<Color> =
        symbol.dark.iter().map(|&d| if d { Color::Dark } else { Color::Light }).collect();
    let image = Renderer::<Rgba<u8>>::new(&colors, symbol.width, quiet_zone).build();
    (image.width(), image.height(), image.into_raw())
}

/// What `QrCode::new` builds from the given bytes: the module count per side
/// and the dark modules in row-major order, or the reason it gave up.
pub uninterp spec fn qr_code_of(data: Seq<u8>) -> Result<(nat, Seq<bool>), QrError>;

/// Relies on `qrcode::QrCode::new`: it picks the smallest normal (not Micro)
/// version 1 to 40 that holds the data at error correction level M, so a
/// symbol is 21 to 177 modules wide and holds width * width modules.
#[verifier::external_body]
pub(crate) fn build_symbol(data: &[u8]) -> (r: Result<QrSymbol, QrError>)
    ensures
        match r {
            Ok(s) => {
                &&& qr_code_of(data@) == Ok::<(nat, Seq<bool>), QrError>((s.width as nat, s.dark@))
                &&& s.wf()
                &&& 21 <= s.width
                &&& !s.micro
            },
            Err(e) => qr_code_of(data@) == Err::<(nat, Seq<bool>), QrError>(e),
        },
{
    match QrCode::new(data) {
        Ok(code) => Ok(QrSymbol {
            width: code.width(),
            micro: code.version().is_micro(),
            dark: code.into_colors().into_iter().map(|c| c == Color::Dark).collect(),
        }),
        Err(e) => Err(e),
    }
}

/// The library's own name for each failure of the QR builder.
pub open spec fn failure_of(e: QrError) -> QrFailure {
    match e {
        QrError::DataTooLong => QrFailure::DataTooLong,
        QrError::InvalidVersion => QrFailure::InvalidVersion,
        QrError::UnsupportedCharacterSet => QrFailure::UnsupportedCharacterSet,
        QrError::InvalidEciDesignator => QrFailure::InvalidEciDesignator,
        QrError::InvalidCharacter => QrFailure::InvalidCharacter,
    }
}

/// Maps a failure of the QR builder to the library's own name for it.
pub fn qr_failure(e: QrError) -> (r: QrFailure)
    ensures
        r == failure_of(e),
{
    match e {
        QrError::DataTooLong => QrFailure::DataTooLong,
        QrError::InvalidVersion => QrFailure::InvalidVersion,
        QrError::UnsupportedCharacterSet => QrFailure::UnsupportedCharacterSet,
        QrError::InvalidEciDesignator => QrFailure::InvalidEciDesignator,
        QrError::InvalidCharacter => QrFailure::InvalidCharacter,
    }
}

} // verus!
