//! Small conversions of the pipeline: frame timing, the unescaping of a
//! serialized composition record, and pixel format conversion.

use vstd::prelude::*;

verus! {

use vstd::arithmetic::mul::lemma_mul_upper_bound;

/// The presentation time of frame `frame_index` in nanoseconds from the
/// start of the artifact: `frame_index` whole frame durations, a frame
/// duration being the truncating division of one second by `fps`.
pub fn create_display_time(frame_index: u32, fps: u32) -> (r: u64)
    requires
        fps >= 1,
    ensures
        r == (frame_index as int) * (1_000_000_000int / (fps as int)),
{
    let frame_duration_nanos: u64 = 1_000_000_000u64 / (fps as u64);
    proof {
        lemma_mul_upper_bound(
            frame_index as int,
            0xffff_ffff,
            frame_duration_nanos as int,
            1_000_000_000,
        );
    }
    (frame_index as u64) * frame_duration_nanos
}

/// `s` without its leading double-quote characters.
pub open spec fn spec_trim_leading_quotes(s: Seq<char>) -> Seq<char>
    decreases s.len(),
{
    if s.len() > 0 && s[0] == '"' {
        spec_trim_leading_quotes(s.drop_first())
    } else {
        s
    }
}

/// `s` without its trailing double-quote characters.
pub open spec fn spec_trim_trailing_quotes(s: Seq<char>) -> Seq<char>
    decreases s.len(),
{
    if s.len() > 0 && s[s.len() - 1] == '"' {
        spec_trim_trailing_quotes(s.drop_last())
    } else {
        s
    }
}

/// `s` without double-quote characters on either end.
pub open spec fn spec_trim_quotes(s: Seq<char>) -> Seq<char> {
    spec_trim_trailing_quotes(spec_trim_leading_quotes(s))
}

/// Strips double-quote characters from both ends of `s`.
pub fn trim_quotes<'a>(s: &'a str) -> (r: &'a str)
    ensures
        r@ == spec_trim_quotes(s@),
{
    let n = s.unicode_len();
    proof {
        assert(s@.subrange(0, n as int) =~= s@);
    }
    let mut a: usize = 0;
    while a < n && s.get_char(a) == '"'
        invariant
            n == s@.len(),
            a <= n,
            spec_trim_leading_quotes(s@) == spec_trim_leading_quotes(s@.subrange(a as int, n as int)),
        decreases n - a,
    {
        proof {
            assert(s@.subrange(a as int, n as int).drop_first() =~= s@.subrange(
                a as int + 1,
                n as int,
            ));
        }
        a = a + 1;
    }
    proof {
        assert(spec_trim_leading_quotes(s@) == s@.subrange(a as int, n as int));
    }
    let mut b: usize = n;
    while b > a && s.get_char(b - 1) == '"'
        invariant
            n == s@.len(),
            a <= b <= n,
            spec_trim_leading_quotes(s@) == s@.subrange(a as int, n as int),
            spec_trim_trailing_quotes(s@.subrange(a as int, n as int)) == spec_trim_trailing_quotes(
                s@.subrange(a as int, b as int),
            ),
        decreases b,
    {
        proof {
            assert(s@.subrange(a as int, b as int).drop_last() =~= s@.subrange(
                a as int,
                b as int - 1,
            ));
        }
        b = b - 1;
    }
    let r = s.substring_char(a, b);
    proof {
        assert(spec_trim_trailing_quotes(s@.subrange(a as int, b as int)) == s@.subrange(
            a as int,
            b as int,
        ));
    }
    r
}

/// `s` wrapped in one pair of double quotes.
pub open spec fn spec_quote_wrap(s: Seq<char>) -> Seq<char> {
    "\""@ + s + "\""@
}

/// Whether a string is a valid JSON string literal — whether a JSON parser
/// accepts it.
pub uninterp spec fn json_parses(literal: Seq<char>) -> bool;

/// The string value denoted by a JSON string literal, escapes resolved —
/// what a JSON parser returns for it.
pub uninterp spec fn json_string_value(literal: Seq<char>) -> Seq<char>;

/// Relies on serde_json::from_str::<String>: parsing is a deterministic
/// function of the input alone; it succeeds exactly on valid JSON string
/// literals and yields the denoted string value.
#[verifier::external_body]
fn parse_json_string(s: &str) -> (r: Result<String, String>)
    ensures
        r is Ok <==> json_parses(s@),
        r matches Ok(v) ==> v@ == json_string_value(s@),
{
    serde_json::from_str::<String>(s).map_err(|e| format!("{}", e))
}

/// Unescapes one JSON-serialized string: surrounding quotes are trimmed,
/// the remainder is re-quoted and read as a JSON string literal. Succeeds
/// exactly when the re-quoted form is a valid literal; the parser's error
/// is propagated otherwise.
pub fn unescape_json_string(escaped_json: &str) -> (r: Result<String, String>)
    ensures
        r is Ok <==> json_parses(spec_quote_wrap(spec_trim_quotes(escaped_json@))),
        r matches Ok(v) ==> v@ == json_string_value(
            spec_quote_wrap(spec_trim_quotes(escaped_json@)),
        ),
{
    let trimmed = trim_quotes(escaped_json);
    let mut quoted = "\"".to_owned();
    quoted.append(trimmed);
    quoted.append("\"");
    parse_json_string(quoted.as_str())
}

/// Whether a byte stream decodes as a PNG image.
pub uninterp spec fn png_decodes(png: Seq<u8>) -> bool;

/// The width in pixels of the image a PNG byte stream decodes to.
pub uninterp spec fn png_width_of(png: Seq<u8>) -> int;

/// The height in pixels of the image a PNG byte stream decodes to.
pub uninterp spec fn png_height_of(png: Seq<u8>) -> int;

/// The RGBA raster a PNG image decodes to, row-major, four bytes per
/// pixel.
pub uninterp spec fn png_rgba_contents(png: Seq<u8>) -> Seq<u8>;

/// Relies on image::load_from_memory_with_format with the PNG format and
/// DynamicImage::to_rgba8: decoding is a deterministic function of the
/// encoded bytes alone and succeeds exactly on decodable PNG streams; the
/// RGBA raster holds exactly four bytes per pixel of the decoded
/// dimensions.
#[verifier::external_body]
fn decode_png_rgba(png: &Vec<u8>) -> (r: Result<Vec<u8>, String>)
    ensures
        r is Ok <==> png_decodes(png@),
        r matches Ok(v) ==> {
            &&& v@ == png_rgba_contents(png@)
            &&& v@.len() == 4 * png_width_of(png@) * png_height_of(png@)
            &&& v@.len() % 4 == 0
        },
{
    image::load_from_memory_with_format(png.as_slice(), image::ImageFormat::Png).map(
        |img| img.to_rgba8().into_raw(),
    ).map_err(|e| format!("{}", e))
}

/// `rgba` with the first and third channel of every pixel exchanged: the
/// same raster in BGRA order.
pub open spec fn spec_bgra_of_rgba(rgba: Seq<u8>) -> Seq<u8> {
    Seq::new(
        rgba.len(),
        |i: int|
            if i % 4 == 0 {
                rgba[i + 2]
            } else if i % 4 == 2 {
                rgba[i - 2]
            } else {
                rgba[i]
            },
    )
}

/// Reorders a whole-pixel RGBA raster into BGRA.
pub fn rgba_to_bgra(rgba: &Vec<u8>) -> (r: Vec<u8>)
    requires
        rgba@.len() % 4 == 0,
    ensures
        r@ == spec_bgra_of_rgba(rgba@),
{
    let mut out: Vec<u8> = Vec::new();
    let mut i: usize = 0;
    while i < rgba.len()
        invariant
            rgba@.len() % 4 == 0,
            i % 4 == 0,
            i <= rgba@.len(),
            out@.len() == i,
            forall|j: int| 0 <= j < i ==> out@[j] == spec_bgra_of_rgba(rgba@)[j],
        decreases rgba@.len() - i,
    {
        out.push(rgba[i + 2]);
        out.push(rgba[i + 1]);
        out.push(rgba[i]);
        out.push(rgba[i + 3]);
        i = i + 4;
    }
    proof {
        assert(out@ =~= spec_bgra_of_rgba(rgba@));
    }
    out
}

/// Decodes a PNG image and yields its raster in BGRA order: four bytes for
/// each pixel of the decoded dimensions. Fails exactly when the bytes do
/// not decode as a PNG; the decoder's error is propagated.
pub fn get_bgra_from_png(png_data: Vec<u8>) -> (r: Result<Vec<u8>, String>)
    ensures
        r is Ok <==> png_decodes(png_data@),
        r matches Ok(v) ==> {
            &&& v@ == spec_bgra_of_rgba(png_rgba_contents(png_data@))
            &&& v@.len() == 4 * png_width_of(png_data@) * png_height_of(png_data@)
            &&& v@.len() % 4 == 0
        },
{
    let rgba = match decode_png_rgba(&png_data) {
        Ok(rgba) => rgba,
        Err(message) => {
            return Err(message);
        },
    };
    Ok(rgba_to_bgra(&rgba))
}

} // verus!
