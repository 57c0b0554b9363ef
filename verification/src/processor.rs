//! The address of a forecast request.

use vstd::prelude::*;
use vstd::string::*;
use vstd::utf8::encode_utf8;
use crate::query::QueryParams;

verus! {

/// Whether the form encoding leaves the byte `b` as it is: the ASCII letters
/// and digits and `*`, `-`, `.` and `_`.
pub open spec fn kept(b: u8) -> bool {
    ||| b == 0x2a
    ||| b == 0x2d
    ||| b == 0x2e
    ||| b == 0x5f
    ||| 0x30 <= b <= 0x39
    ||| 0x41 <= b <= 0x5a
    ||| 0x61 <= b <= 0x7a
}

/// The upper-case hexadecimal digit of `n < 16`.
pub open spec fn hex_digit(n: int) -> char {
    if n < 10 {
        (0x30 + n) as char
    } else {
        (0x41 + n - 10) as char
    }
}

/// The form encoding of one byte: itself where it is kept, `+` for a space,
/// and `%` with its two hexadecimal digits otherwise.
pub open spec fn encoded_byte(b: u8) -> Seq<char> {
    if kept(b) {
        seq![b as char]
    } else if b == 0x20 {
        seq!['+']
    } else {
        seq!['%', hex_digit(b as int / 16), hex_digit(b as int % 16)]
    }
}

/// The `application/x-www-form-urlencoded` encoding of a sequence of bytes.
pub open spec fn form_encoded(bytes: Seq<u8>) -> Seq<char>
    decreases bytes.len(),
{
    if bytes.len() == 0 {
        Seq::empty()
    } else {
        form_encoded(bytes.drop_last()) + encoded_byte(bytes.last())
    }
}

/// The query `query` with the pair of `name` and `value` behind it: an `&`
/// where `query` is not empty, then the encoded name, `=`, and the encoded
/// value, each encoded from its UTF-8 bytes.
pub open spec fn pair_appended(query: Seq<char>, name: Seq<char>, value: Seq<char>) -> Seq<char> {
    query + (if query.len() > 0 {
        "&"@
    } else {
        Seq::empty()
    }) + form_encoded(encode_utf8(name)) + "="@ + form_encoded(encode_utf8(value))
}

/// The word for a switch in a query.
pub open spec fn yes_no(on: bool) -> Seq<char> {
    if on {
        "yes"@
    } else {
        "no"@
    }
}

/// The query of a forecast request: the key, the place, the days, whether
/// air quality is wanted, and no alerts.
pub open spec fn query_text(key: Seq<char>, query_params: QueryParams) -> Seq<char> {
    pair_appended(
        pair_appended(
            pair_appended(
                pair_appended(
                    pair_appended(Seq::empty(), "key"@, key),
                    "q"@,
                    query_params.location@,
                ),
                "days"@,
                query_params.days@,
            ),
            "aqi"@,
            yes_no(query_params.aqi),
        ),
        "alerts"@,
        "no"@,
    )
}

/// The address of a forecast request below `base_url`.
pub open spec fn url_text(base_url: Seq<char>, key: Seq<char>, query_params: QueryParams) -> Seq<
    char,
> {
    base_url + "/forecast.json?"@ + query_text(key, query_params)
}

/// form_urlencoded's `Serializer::append_pair`, on a serializer that
/// continues `query` from its start (`Serializer::for_suffix` with position
/// 0) and is finished at once. The serializer writes `&` where the text so
/// far is not empty, then the name, `=` and the value, both passed through
/// the form byte serializer.
#[verifier::external_body]
fn append_pair(query: String, name: &str, value: &str) -> (out: String)
    ensures
        out@ == pair_appended(query@, name@, value@),
{
    form_urlencoded::Serializer::for_suffix(query, 0).append_pair(name, value).finish()
}

/// The address of the forecast request for `query_params` below `base_url`,
/// made with the service key `key`.
pub fn create_url(base_url: &str, key: &str, query_params: &QueryParams) -> (url: String)
    ensures
        url@ == url_text(base_url@, key@, *query_params),
{
    let aqi = if query_params.aqi {
        "yes"
    } else {
        "no"
    };
    let params = append_pair(String::new(), "key", key);
    let params = append_pair(params, "q", query_params.location.as_str());
    let params = append_pair(params, "days", query_params.days.as_str());
    let params = append_pair(params, "aqi", aqi);
    let params = append_pair(params, "alerts", "no");
    let mut url = String::from_str(base_url);
    url.append("/forecast.json?");
    url.append(params.as_str());
    url
}

} // verus!
