//! Application icons for the settings page, delivered to the frontend as
//! data URLs.
use vstd::prelude::*;
use base64::Engine as _;
use vstd::string::StringExecFns;

verus! {

/// The character of the six-bit value `v` in the standard base64 alphabet:
/// `A`–`Z`, `a`–`z`, `0`–`9`, `+`, `/`.
pub open spec fn base64_digit(v: int) -> char {
    if v < 26 {
        (65 + v) as char
    } else if v < 52 {
        (97 + (v - 26)) as char
    } else if v < 62 {
        (48 + (v - 52)) as char
    } else if v == 62 {
        '+'
    } else {
        '/'
    }
}

/// The standard base64 encoding of `bytes` (RFC 4648, section 4): every three
/// bytes become four characters, six bits each, most significant first; a
/// final one or two bytes are padded with zero bits and `=` to four
/// characters.
pub open spec fn base64_standard(bytes: Seq<u8>) -> Seq<char>
    decreases bytes.len(),
{
    if bytes.len() == 0 {
        seq![]
    } else if bytes.len() == 1 {
        let b0 = bytes[0] as int;
        seq![base64_digit(b0 / 4), base64_digit((b0 % 4) * 16), '=', '=']
    } else if bytes.len() == 2 {
        let b0 = bytes[0] as int;
        let b1 = bytes[1] as int;
        seq![
            base64_digit(b0 / 4),
            base64_digit((b0 % 4) * 16 + b1 / 16),
            base64_digit((b1 % 16) * 4),
            '=',
        ]
    } else {
        let b0 = bytes[0] as int;
        let b1 = bytes[1] as int;
        let b2 = bytes[2] as int;
        seq![
            base64_digit(b0 / 4),
            base64_digit((b0 % 4) * 16 + b1 / 16),
            base64_digit((b1 % 16) * 4 + b2 / 64),
            base64_digit(b2 % 64),
        ] + base64_standard(bytes.subrange(3, bytes.len() as int))
    }
}

/// `base64::engine::general_purpose::STANDARD.encode`: the padded standard
/// base64 encoding of `bytes`. The engine panics when the encoded length does
/// not fit in `usize`, so such inputs are excluded.
#[verifier::external_body]
fn encode_base64(bytes: &[u8]) -> (encoded: String)
    requires
        (bytes@.len() + 2) / 3 * 4 <= usize::MAX,
    ensures
        encoded@ == base64_standard(bytes@),
{
    base64::engine::general_purpose::STANDARD.encode(bytes)
}

/// The data URL under which a PNG icon with bytes `png` is shown.
pub open spec fn png_data_url(png: Seq<u8>) -> Seq<char> {
    "data:image/png;base64,"@ + base64_standard(png)
}

/// The data URL of the PNG icon `png`: `data:image/png;base64,` followed by
/// the icon's standard base64 encoding.
pub fn icon_data_url(png: &[u8]) -> (url: String)
    requires
        (png@.len() + 2) / 3 * 4 <= usize::MAX,
    ensures
        url@ == png_data_url(png@),
{
    let encoded = encode_base64(png);
    let mut url = "data:image/png;base64,".to_owned();
    url.append(encoded.as_str());
    url
}

} // verus!
