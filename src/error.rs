use vstd::prelude::*;

verus! {

/// The ways in which a QR symbol can fail to be built.
#[derive(Clone, Copy, Debug, PartialEq, Eq, Structural)]
pub enum QrFailure {
    DataTooLong,
    InvalidVersion,
    UnsupportedCharacterSet,
    InvalidEciDesignator,
    InvalidCharacter,
}

/// What went wrong while turning text into PNG bytes.
#[derive(Clone, Debug)]
pub enum EncodingError {
    /// The QR symbol could not be built.
    Qr(QrFailure),
    /// The PNG encoder refused the pixel buffer; holds its message.
    Png(String),
}

/// The description a caller is shown for each QR failure.
pub open spec fn qr_failure_text(f: QrFailure) -> Seq<char> {
    match f {
        QrFailure::DataTooLong =>
            "The data is too long to encode into a QR code for the given version."@,
        QrFailure::InvalidVersion =>
            "The provided version / error correction level combination is invalid."@,
        QrFailure::UnsupportedCharacterSet =>
            "Some characters in the data cannot be supported by the provided QR code version."@,
        QrFailure::InvalidEciDesignator =>
            "The provided ECI designator is invalid. A valid designator should be between 0 and 999999."@,
        QrFailure::InvalidCharacter =>
            "A character not belonging to the character set is found."@,
    }
}

/// Describes a QR failure in words.
pub fn qrerror_string(f: QrFailure) -> (r: &'static str)
    ensures
        r@ == qr_failure_text(f),
{
    match f {
        QrFailure::DataTooLong =>
            "The data is too long to encode into a QR code for the given version.",
        QrFailure::InvalidVersion =>
            "The provided version / error correction level combination is invalid.",
        QrFailure::UnsupportedCharacterSet =>
            "Some characters in the data cannot be supported by the provided QR code version.",
        QrFailure::InvalidEciDesignator =>
            "The provided ECI designator is invalid. A valid designator should be between 0 and 999999.",
        QrFailure::InvalidCharacter => "A character not belonging to the character set is found.",
    }
}

impl EncodingError {
    /// The message a caller is shown for this error.
    pub open spec fn message(&self) -> Seq<char> {
        match self {
            EncodingError::Qr(f) => qr_failure_text(*f),
            EncodingError::Png(m) => m@,
        }
    }

    /// The error's message as an owned string.
    pub fn to_string(&self) -> (r: String)
        ensures
            r@ == self.message(),
    {
        match self {
            EncodingError::Qr(f) => qrerror_string(*f).to_owned(),
            EncodingError::Png(m) => m.clone(),
        }
    }
}

} // verus!
