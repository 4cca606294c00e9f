use lodepng::ErrorCode;
use vstd::prelude::*;

verus! {

#[verifier::external_type_specification]
pub struct ExErrorCode(ErrorCode);

/// lodepng's code for a zero width or height, or one beyond `u32`.
pub const BAD_DIMENSIONS: u32 = 93;

/// lodepng's code for a failed memory allocation.
pub const OUT_OF_MEMORY: u32 = 83;

/// The eight bytes every PNG file starts with.
pub open spec fn png_signature() -> Seq<u8> {
    seq![137u8, 80u8, 78u8, 71u8, 13u8, 10u8, 26u8, 10u8]
}

pub open spec fn has_png_signature(b: Seq<u8>) -> bool {
    b.len() >= 8 && b.subrange(0, 8) == png_signature()
}

/// The PNG file that lodepng's default encoder makes of an 8-bit RGBA buffer
/// of the given dimensions.
pub uninterp spec fn png_of(rgba: Seq<u8>, width: nat, height: nat) -> Seq<u8>;

/// lodepng's English description of an error code.
pub uninterp spec fn png_message_of(code: u32) -> Seq<char>;

/// Relies on `lodepng::Encoder::encode` with a fresh encoder, whose raw input
/// mode is 8-bit RGBA and which sets no palette, text, interlacing or custom
/// filters: the file depends on the pixels and dimensions alone and starts
/// with the signature, written before any chunk. A zero dimension, or one
/// beyond `u32`, gives code 93; past that, the only failures left are failed
/// allocations, code 83. The error is handed back through lodepng's own
/// `From<Error> for ErrorCode`. Debug assertions fire on a buffer of the
/// wrong length and on an image chunk of 2^31 bytes or more, hence the
/// `requires`.
#[verifier::external_body]
pub(crate) fn encode_png(rgba: &[u8], width: usize, height: usize) -> (r: Result<Vec<u8>, ErrorCode>)
    requires
        rgba@.len() == width * height * 4,
        rgba@.len() <= 0x4000_0000,
    ensures
        r is Ok ==> r->Ok_0@ == png_of(rgba@, width as nat, height as nat),
        r is Ok ==> has_png_signature(r->Ok_0@),
        (width == 0 || height == 0 || width > u32::MAX || height > u32::MAX) ==> (r is Err
            && r->Err_0.0 == BAD_DIMENSIONS),
        (0 < width <= u32::MAX && 0 < height <= u32::MAX && r is Err) ==> r->Err_0.0
            == OUT_OF_MEMORY,
{
    lodepng::Encoder::new().encode(rgba, width, height).map_err(ErrorCode::from)
}

/// Relies on `lodepng::ErrorCode::as_str`, the text that lodepng's `Display`
/// for its error prints: it depends on the code alone.
#[verifier::external_body]
pub(crate) fn png_error_text(code: &ErrorCode) -> (r: String)
    ensures
        r@ == png_message_of(code.0),
{
    code.as_str().to_owned()
}

} // verus!
