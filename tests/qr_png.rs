use qr_builder::{
    finish_png, gen_qr_code, generate_qr_png, qrerror_string, EncodingError, QrFailure,
};

const SIGNATURE: [u8; 8] = [137, 80, 78, 71, 13, 10, 26, 10];

/// Decodes a PNG file and returns its side, checking that the image is square.
fn decoded_side(bytes: &[u8]) -> usize {
    let image = lodepng::decode32(bytes).expect("the file decodes");
    assert_eq!(image.width, image.height);
    assert_eq!(image.buffer.len(), image.width * image.height);
    image.width
}

#[test]
fn check_png_header() {
    let data = match gen_qr_code("Who ya gonna call?".to_string()) {
        Ok(d) => d,
        Err(e) => {
            println!("There was a problem creating the image data: {}", e.to_string());
            return;
        }
    };
    assert_eq!(&data[..8], &vec![137u8, 80, 78, 71, 13, 10, 26, 10][..]);
}

#[test]
fn short_text_succeeds_with_signature() {
    let data = gen_qr_code("Who ya gonna call?".to_string()).expect("short text encodes");
    assert!(data.len() > 8);
    assert_eq!(&data[..8], &SIGNATURE[..]);
}

#[test]
fn far_too_long_text_is_data_too_long() {
    let text = "Who ya gonna call? Ghostbusters! ".repeat(200);
    assert!(text.len() > 6000);
    match gen_qr_code(text) {
        Err(e) => {
            assert!(matches!(e, EncodingError::Qr(QrFailure::DataTooLong)));
            assert_eq!(
                e.to_string(),
                "The data is too long to encode into a QR code for the given version."
            );
        }
        Ok(_) => panic!("several kilobytes cannot fit in one QR symbol"),
    }
}

#[test]
fn too_long_bytes_give_no_file() {
    let data = vec![0xA5u8; 4000];
    assert!(matches!(generate_qr_png(&data), Err(EncodingError::Qr(QrFailure::DataTooLong))));
}

#[test]
fn empty_text_gives_valid_png() {
    let data = gen_qr_code(String::new()).expect("an empty payload encodes");
    assert_eq!(&data[..8], &SIGNATURE[..]);
    // Version 1 is 21 modules wide; with the border of 4 that is 29 modules of 8 pixels.
    assert_eq!(decoded_side(&data), 29 * 8);
}

#[test]
fn same_input_gives_same_bytes() {
    let a = gen_qr_code("determinism".to_string()).expect("encodes");
    let b = gen_qr_code("determinism".to_string()).expect("encodes");
    assert_eq!(a, b);
    let c = generate_qr_png("determinism".as_bytes()).expect("encodes");
    assert_eq!(a, c);
}

#[test]
fn different_inputs_give_different_bytes() {
    let a = gen_qr_code("alpha".to_string()).expect("encodes");
    let b = gen_qr_code("omega".to_string()).expect("encodes");
    assert_ne!(a, b);
}

#[test]
fn decoded_side_is_whole_modules_with_border() {
    for text in ["", "Who ya gonna call?", "0123456789", &"q".repeat(300)] {
        let data = gen_qr_code(text.to_string()).expect("encodes");
        let side = decoded_side(&data);
        assert_eq!(side % 8, 0);
        let modules = side / 8 - 8;
        assert!((21..=177).contains(&modules));
        assert_eq!(modules % 4, 1);
    }
}

#[test]
fn eighteen_bytes_need_version_two() {
    // 18 bytes in byte mode do not fit version 1 at level M; version 2 is 25 wide.
    let data = gen_qr_code("Who ya gonna call?".to_string()).expect("encodes");
    assert_eq!(decoded_side(&data), (25 + 8) * 8);
}

#[test]
fn pixels_show_border_and_finder_pattern() {
    let data = generate_qr_png(b"hello").expect("encodes");
    let image = lodepng::decode32(&data).expect("decodes");
    let side = image.width;
    let at = |x: usize, y: usize| image.buffer[y * side + x];
    // The quiet zone is white and opaque.
    let corner = at(0, 0);
    assert_eq!((corner.r, corner.g, corner.b, corner.a), (255, 255, 255, 255));
    let border = at(31, 31);
    assert_eq!((border.r, border.g, border.b, border.a), (255, 255, 255, 255));
    // The first module of the finder pattern starts at 4 modules of 8 pixels.
    let finder = at(32, 32);
    assert_eq!((finder.r, finder.g, finder.b, finder.a), (0, 0, 0, 255));
    let finder_end = at(39, 39);
    assert_eq!((finder_end.r, finder_end.g, finder_end.b), (0, 0, 0));
    // Its second ring is light.
    let ring = at(40, 40);
    assert_eq!((ring.r, ring.g, ring.b), (255, 255, 255));
}

#[test]
fn arbitrary_bytes_encode() {
    let data = generate_qr_png(&[0xFF, 0x00, 0xFE, 0x80]).expect("bytes encode");
    assert_eq!(&data[..8], &SIGNATURE[..]);
}

#[test]
fn every_failure_has_its_description() {
    assert_eq!(
        qrerror_string(QrFailure::DataTooLong),
        "The data is too long to encode into a QR code for the given version."
    );
    assert_eq!(
        qrerror_string(QrFailure::InvalidVersion),
        "The provided version / error correction level combination is invalid."
    );
    assert_eq!(
        qrerror_string(QrFailure::UnsupportedCharacterSet),
        "Some characters in the data cannot be supported by the provided QR code version."
    );
    assert_eq!(
        qrerror_string(QrFailure::InvalidEciDesignator),
        "The provided ECI designator is invalid. A valid designator should be between 0 and 999999."
    );
    assert_eq!(
        qrerror_string(QrFailure::InvalidCharacter),
        "A character not belonging to the character set is found."
    );
}

#[test]
fn error_messages_match_descriptions() {
    let e = EncodingError::Qr(QrFailure::InvalidCharacter);
    assert_eq!(e.to_string(), qrerror_string(QrFailure::InvalidCharacter));
    let p = EncodingError::Png("bad dimensions".to_string());
    assert_eq!(p.to_string(), "bad dimensions");
}

#[test]
fn encoder_file_passes_through() {
    let bytes = vec![137u8, 80, 78, 71, 13, 10, 26, 10, 1, 2, 3];
    match finish_png(Ok(bytes.clone())) {
        Ok(b) => assert_eq!(b, bytes),
        Err(_) => panic!("a file is handed on unchanged"),
    }
}

#[test]
fn encoder_errors_carry_lodepng_text() {
    match finish_png(Err(lodepng::ErrorCode(93))) {
        Err(EncodingError::Png(m)) => assert_eq!(m, "zero width or height is invalid"),
        _ => panic!("an encoder error is a PNG error"),
    }
    match finish_png(Err(lodepng::ErrorCode(83))) {
        Err(e) => {
            assert!(matches!(e, EncodingError::Png(_)));
            assert_eq!(e.to_string(), "memory allocation failed");
        }
        Ok(_) => panic!("an encoder error is a PNG error"),
    }
}
