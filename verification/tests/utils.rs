use rustymotion::utils::{get_bgra_from_png, rgba_to_bgra, trim_quotes, unescape_json_string};

#[test]
fn trim_quotes_strips_both_ends() {
    assert_eq!(trim_quotes("\"abc\""), "abc");
    assert_eq!(trim_quotes("\"\"abc\"", ), "abc");
    assert_eq!(trim_quotes("abc"), "abc");
    assert_eq!(trim_quotes("\"\""), "");
    assert_eq!(trim_quotes(""), "");
}

#[test]
fn unescape_resolves_json_escapes() {
    assert_eq!(
        unescape_json_string("\"line\\nbreak\"").unwrap(),
        "line\nbreak"
    );
    assert_eq!(
        unescape_json_string("\"{\\\"id\\\":\\\"HelloWorld\\\"}\"").unwrap(),
        "{\"id\":\"HelloWorld\"}"
    );
}

#[test]
fn unescape_passes_plain_strings_through() {
    assert_eq!(unescape_json_string("plain").unwrap(), "plain");
}

#[test]
fn unescape_rejects_an_invalid_escape() {
    assert!(unescape_json_string("\"bad\\x\"").is_err());
}

#[test]
fn rgba_to_bgra_swaps_the_first_and_third_channel() {
    assert_eq!(
        rgba_to_bgra(&vec![1, 2, 3, 4, 5, 6, 7, 8]),
        vec![3, 2, 1, 4, 7, 6, 5, 8]
    );
}

#[test]
fn rgba_to_bgra_of_nothing_is_nothing() {
    assert_eq!(rgba_to_bgra(&Vec::new()), Vec::<u8>::new());
}

#[test]
fn png_decoding_yields_the_bgra_raster() {
    let mut image = image::RgbaImage::new(2, 1);
    image.put_pixel(0, 0, image::Rgba([1, 2, 3, 4]));
    image.put_pixel(1, 0, image::Rgba([5, 6, 7, 8]));
    let mut png_bytes: Vec<u8> = Vec::new();
    image::DynamicImage::ImageRgba8(image)
        .write_to(
            &mut std::io::Cursor::new(&mut png_bytes),
            image::ImageFormat::Png,
        )
        .unwrap();
    assert_eq!(
        get_bgra_from_png(png_bytes).unwrap(),
        vec![3, 2, 1, 4, 7, 6, 5, 8]
    );
}

#[test]
fn png_decoding_rejects_garbage_bytes() {
    assert!(get_bgra_from_png(vec![0, 1, 2, 3]).is_err());
}
