use crate::error::{EncodingError, QrFailure};
use crate::png::{
    encode_png, has_png_signature, png_error_text, png_message_of, png_of, OUT_OF_MEMORY,
};
use lodepng::ErrorCode;
use crate::symbol::{
    build_symbol, failure_of, image_side, qr_code_of, qr_failure, quiet_zone_of, render_rgba,
    rendered_rgba, MODULE_PIXELS,
};
use qrcode::types::QrError;
use vstd::prelude::*;
use vstd::utf8::encode_utf8;

verus! {

/// The PNG file that encoding `data` is meant to give, or the reason the QR
/// symbol could not be built. The symbol is rendered with the renderer's
/// defaults, and the square RGBA image is handed to the PNG encoder.
pub open spec fn qr_png_of(data: Seq<u8>) -> Result<Seq<u8>, QrFailure> {
    match qr_code_of(data) {
        Err(e) => Err(failure_of(e)),
        Ok((width, dark)) => {
            let quiet_zone = quiet_zone_of(false);
            let side = image_side(width, quiet_zone);
            Ok(png_of(rendered_rgba(width, dark, quiet_zone), side, side))
        },
    }
}

/// Whether `r` is a possible outcome of encoding `data`: the bytes of
/// `qr_png_of(data)`, which start with the PNG signature; the QR failure it
/// names; or, for a symbol that was built, the PNG encoder running out of
/// memory, reported with lodepng's description of that failure.
pub open spec fn is_outcome_of(data: Seq<u8>, r: Result<Vec<u8>, EncodingError>) -> bool {
    match r {
        Ok(b) => qr_png_of(data) == Ok::<Seq<u8>, QrFailure>(b@) && has_png_signature(b@),
        Err(EncodingError::Qr(f)) => qr_png_of(data) == Err::<Seq<u8>, QrFailure>(f),
        Err(EncodingError::Png(m)) => qr_png_of(data) is Ok && m@ == png_message_of(
            OUT_OF_MEMORY,
        ),
    }
}

/// Turns the PNG encoder's answer into this library's result: the file as it
/// came, or the error with lodepng's description of its code.
pub fn finish_png(encoded: Result<Vec<u8>, ErrorCode>) -> (r: Result<Vec<u8>, EncodingError>)
    ensures
        match encoded {
            Ok(b) => r is Ok && r->Ok_0 == b,
            Err(c) => r is Err && r->Err_0 is Png && r->Err_0->Png_0@ == png_message_of(c.0),
        },
{
    match encoded {
        Ok(bytes) => Ok(bytes),
        Err(code) => Err(EncodingError::Png(png_error_text(&code))),
    }
}

/// Encodes `data` as a QR symbol and returns the PNG file of its image.
pub fn generate_qr_png(data: &[u8]) -> (r: Result<Vec<u8>, EncodingError>)
    ensures
        is_outcome_of(data@, r),
        r is Ok ==> has_png_signature(r->Ok_0@),
        qr_code_of(data@) == Err::<(nat, Seq<bool>), QrError>(QrError::DataTooLong) ==> r is Err
            && r->Err_0 == EncodingError::Qr(QrFailure::DataTooLong),
{
    let symbol = match build_symbol(data) {
        Ok(s) => s,
        Err(e) => return Err(EncodingError::Qr(qr_failure(e))),
    };
    let quiet_zone = symbol.quiet_zone();
    let (width, height, pixels) = render_rgba(&symbol, quiet_zone);
    // Widening: a `u32` always fits in a `usize`.
    let width = width as usize;
    let height = height as usize;
    proof {
        let side = width as int;
        assert(0 < side <= 1480);
        assert(side * side <= 1480 * 1480) by (nonlinear_arith)
            requires
                0 < side <= 1480,
        ;
    }
    finish_png(encode_png(pixels.as_slice(), width, height))
}

/// Encodes the UTF-8 bytes of `text` as a QR symbol and returns the PNG file
/// of its image.
pub fn gen_qr_code(text: String) -> (r: Result<Vec<u8>, EncodingError>)
    ensures
        is_outcome_of(encode_utf8(text@), r),
{
    generate_qr_png(text.as_str().as_bytes())
}

/// Encoding is a function of the input bytes: two runs on the same bytes
/// give the same result, except that a run may instead report that the PNG
/// encoder ran out of memory. Two files are the same file, a QR failure is
/// the same failure in both, and two PNG errors carry the same message.
pub proof fn lemma_deterministic(
    data: Seq<u8>,
    r1: Result<Vec<u8>, EncodingError>,
    r2: Result<Vec<u8>, EncodingError>,
)
    requires
        is_outcome_of(data, r1),
        is_outcome_of(data, r2),
    ensures
        r1 is Ok && r2 is Ok ==> r1->Ok_0@ == r2->Ok_0@,
        r1 is Ok ==> r2 is Ok || (r2->Err_0 is Png && r2->Err_0->Png_0@ == png_message_of(
            OUT_OF_MEMORY,
        )),
        r1 is Err && r1->Err_0 is Qr ==> r2 is Err && r2->Err_0 == r1->Err_0,
        r1 is Err && r1->Err_0 is Png && r2 is Err && r2->Err_0 is Png ==> r1->Err_0->Png_0@
            == r2->Err_0->Png_0@,
{
}

/// The file that a built symbol yields encodes a square image whose side is
/// a whole number of 8-pixel modules: the symbol's modules plus a border of
/// four on each side.
pub proof fn lemma_image_dimensions(data: Seq<u8>)
    requires
        qr_code_of(data) is Ok,
    ensures
        ({
            let (width, dark) = qr_code_of(data)->Ok_0;
            let side = image_side(width, quiet_zone_of(false));
            &&& side == (width + 8) * MODULE_PIXELS as nat
            &&& side % MODULE_PIXELS as nat == 0
            &&& side / MODULE_PIXELS as nat == width + 8
            &&& qr_png_of(data) == Ok::<Seq<u8>, QrFailure>(
                png_of(rendered_rgba(width, dark, 4), side, side),
            )
        }),
{
    let (width, _) = qr_code_of(data)->Ok_0;
    assert(((width + 8) * 8) % 8 == 0 && ((width + 8) * 8) / 8 == width + 8) by (nonlinear_arith);
}

} // verus!
