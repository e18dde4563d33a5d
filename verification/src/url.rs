//! The address at which a forecast is asked of the upstream provider.

use vstd::prelude::*;
use vstd::string::StringExecFns;
use vstd::utf8::encode_utf8;
use vstd::utf8::encode_utf8_decode_utf8;
use crate::models::FORECAST_DAYS;
use crate::text::decimal_digits;
use crate::text::push_char;
use crate::text::push_decimal;

verus! {

/// Where the upstream provider is, and the credential it asks for. Set once
/// when the process starts and only read afterwards.
#[derive(Debug, Clone, PartialEq, Eq)]
pub struct Upstream {
    pub base_url: String,
    pub api_key: String,
}

/// The provider's endpoint for forecasts, used where no other is configured.
pub const DEFAULT_BASE_URL: &'static str = "http://api.weatherapi.com/v1/forecast.json";

/// The base address that a setting asks for: the setting itself where it is
/// there and not empty, else the provider's own endpoint.
pub open spec fn chosen_base_url(setting: Option<String>) -> Seq<char> {
    match setting {
        Some(base) if base@.len() > 0 => base@,
        _ => DEFAULT_BASE_URL@,
    }
}

impl Upstream {
    /// Makes the upstream configuration out of the two settings that the
    /// process was started with. The credential is required: without one, or
    /// with an empty one, there is no configuration. The base address falls
    /// back to `DEFAULT_BASE_URL`.
    pub fn from_settings(base_url: Option<String>, api_key: Option<String>) -> (made: Option<
        Upstream,
    >)
        ensures
            match api_key {
                Some(key) if key@.len() > 0 => {
                    &&& made matches Some(upstream)
                    &&& upstream.api_key@ == key@
                    &&& upstream.base_url@ == chosen_base_url(base_url)
                },
                _ => made is None,
            },
    {
        let api_key = match api_key {
            Some(key) => key,
            None => {
                return None;
            },
        };
        if api_key.as_str().is_empty() {
            return None;
        }
        let base_url = match base_url {
            Some(base) => if base.as_str().is_empty() {
                DEFAULT_BASE_URL.to_owned()
            } else {
                base
            },
            None => DEFAULT_BASE_URL.to_owned(),
        };
        Some(Upstream { base_url, api_key })
    }
}

/// Whether a byte stands for itself in a query string: an ASCII letter, a
/// digit, or one of `-`, `.`, `_`, `~`.
pub open spec fn is_unreserved(b: u8) -> bool {
    ||| 'A' as u8 <= b <= 'Z' as u8
    ||| 'a' as u8 <= b <= 'z' as u8
    ||| '0' as u8 <= b <= '9' as u8
    ||| b == '-' as u8
    ||| b == '.' as u8
    ||| b == '_' as u8
    ||| b == '~' as u8
}

/// The upper-case hexadecimal digit for `n` (0 to 15).
pub open spec fn hex_digit(n: nat) -> char {
    if n < 10 {
        (('0' as u8) + n) as char
    } else {
        (('A' as u8) + n - 10) as char
    }
}

/// How one byte is written in a query string: as itself where it is
/// unreserved, else as `%` and its two hexadecimal digits.
pub open spec fn escaped(b: u8) -> Seq<char> {
    if is_unreserved(b) {
        seq![b as char]
    } else {
        seq!['%', hex_digit((b / 16) as nat), hex_digit((b % 16) as nat)]
    }
}

/// The percent-encoding of a sequence of bytes: the bytes' escapes, one after
/// the other.
pub open spec fn percent_encoded(bytes: Seq<u8>) -> Seq<char> {
    bytes.flat_map(|b: u8| escaped(b))
}

/// Whether a character can stand in a query value without ending it or
/// changing its meaning: an unreserved character or `%`.
pub open spec fn is_query_safe(c: char) -> bool {
    c == '%' || (c as u32 <= 127 && is_unreserved(c as u8))
}

/// The address that asks the provider at `base` for the forecast of
/// `location`, with the credential `key`.
pub open spec fn request_url_text(base: Seq<char>, key: Seq<char>, location: Seq<char>) -> Seq<
    char,
> {
    base + "?key="@ + key + "&q="@ + percent_encoded(encode_utf8(location)) + "&days="@
        + decimal_digits(FORECAST_DAYS as nat)
}

/// Every character of a percent-encoding is safe in a query value.
pub proof fn lemma_percent_encoded_is_safe(bytes: Seq<u8>)
    ensures
        forall|i: int|
            0 <= i < percent_encoded(bytes).len() ==> is_query_safe(
                #[trigger] percent_encoded(bytes)[i],
            ),
    decreases bytes.len(),
{
    if bytes.len() > 0 {
        let f = |b: u8| escaped(b);
        let n = bytes.len() - 1;
        lemma_percent_encoded_is_safe(bytes.take(n));
        bytes.lemma_flat_map_take_append(f, n);
        assert(bytes.take(n + 1) =~= bytes);
        let head = percent_encoded(bytes.take(n));
        let tail = escaped(bytes[n]);
        assert(percent_encoded(bytes) == head + tail);
        assert(is_query_safe(hex_digit((bytes[n] / 16) as nat)));
        assert(is_query_safe(hex_digit((bytes[n] % 16) as nat)));
        assert(forall|j: int| 0 <= j < tail.len() ==> is_query_safe(#[trigger] tail[j]));
        assert forall|i: int| 0 <= i < percent_encoded(bytes).len() implies is_query_safe(
            #[trigger] percent_encoded(bytes)[i],
        ) by {
            if i < head.len() {
                assert(percent_encoded(bytes)[i] == head[i]);
            } else {
                assert(percent_encoded(bytes)[i] == tail[i - head.len()]);
            }
        }
    } else {
        assert(percent_encoded(bytes) =~= Seq::<char>::empty());
    }
}

/// The percent-encoding of bytes that are not empty starts with the escape
/// of the first byte and goes on with the encoding of the rest.
proof fn lemma_percent_encoded_unfolds(bytes: Seq<u8>)
    requires
        bytes.len() > 0,
    ensures
        percent_encoded(bytes) == escaped(bytes[0]) + percent_encoded(bytes.drop_first()),
{
    let f = |b: u8| escaped(b);
    assert(bytes.map_values(f).drop_first() =~= bytes.drop_first().map_values(f));
}

/// Percent-encoding loses nothing: bytes with the same encoding are the same
/// bytes.
pub proof fn lemma_percent_encoded_is_injective(a: Seq<u8>, b: Seq<u8>)
    requires
        percent_encoded(a) == percent_encoded(b),
    ensures
        a == b,
    decreases a.len(),
{
    if a.len() == 0 || b.len() == 0 {
        if a.len() > 0 {
            lemma_percent_encoded_unfolds(a);
            assert(percent_encoded(a).len() >= escaped(a[0]).len());
        }
        if b.len() > 0 {
            lemma_percent_encoded_unfolds(b);
            assert(percent_encoded(b).len() >= escaped(b[0]).len());
        }
        assert(percent_encoded(Seq::<u8>::empty()) =~= Seq::<char>::empty());
        assert(a =~= b);
    } else {
        lemma_percent_encoded_unfolds(a);
        lemma_percent_encoded_unfolds(b);
        let x = escaped(a[0]);
        let y = escaped(b[0]);
        let rest_a = percent_encoded(a.drop_first());
        let rest_b = percent_encoded(b.drop_first());
        assert((x + rest_a)[0] == x[0]);
        assert((y + rest_b)[0] == y[0]);
        assert(is_unreserved(a[0]) == is_unreserved(b[0]));
        if !is_unreserved(a[0]) {
            assert((x + rest_a)[1] == x[1]);
            assert((y + rest_b)[1] == y[1]);
            assert((x + rest_a)[2] == x[2]);
            assert((y + rest_b)[2] == y[2]);
        }
        assert(a[0] == b[0]);
        assert(rest_a =~= (x + rest_a).skip(x.len() as int));
        assert(rest_b =~= (y + rest_b).skip(y.len() as int));
        lemma_percent_encoded_is_injective(a.drop_first(), b.drop_first());
        assert(a =~= seq![a[0]] + a.drop_first());
        assert(b =~= seq![b[0]] + b.drop_first());
    }
}

/// The address tells the location: with one upstream configuration, two
/// locations that are asked for at the same address are the same location.
/// So the provider can always tell which location a request is about, however
/// many requests are under way.
pub proof fn lemma_request_url_tells_locations_apart(
    base: Seq<char>,
    key: Seq<char>,
    a: Seq<char>,
    b: Seq<char>,
)
    requires
        request_url_text(base, key, a) == request_url_text(base, key, b),
    ensures
        a == b,
{
    let head = base + "?key="@ + key + "&q="@;
    let tail = "&days="@ + decimal_digits(FORECAST_DAYS as nat);
    let x = percent_encoded(encode_utf8(a));
    let y = percent_encoded(encode_utf8(b));
    assert(request_url_text(base, key, a) =~= head + x + tail);
    assert(request_url_text(base, key, b) =~= head + y + tail);
    assert((head + x + tail).len() == (head + y + tail).len());
    assert(x.len() == y.len());
    assert forall|i: int| 0 <= i < x.len() implies x[i] == y[i] by {
        assert((head + x + tail)[head.len() + i] == x[i]);
        assert((head + y + tail)[head.len() + i] == y[i]);
    }
    assert(x =~= y);
    lemma_percent_encoded_is_injective(encode_utf8(a), encode_utf8(b));
    encode_utf8_decode_utf8(a);
    encode_utf8_decode_utf8(b);
}

fn unreserved(b: u8) -> (yes: bool)
    ensures
        yes == is_unreserved(b),
{
    ('A' as u8 <= b && b <= 'Z' as u8) || ('a' as u8 <= b && b <= 'z' as u8) || ('0' as u8 <= b
        && b <= '9' as u8) || b == '-' as u8 || b == '.' as u8 || b == '_' as u8 || b == '~' as u8
}

fn hex(n: u8) -> (c: char)
    requires
        n < 16,
    ensures
        c == hex_digit(n as nat),
{
    if n < 10 {
        ('0' as u8 + n) as char
    } else {
        ('A' as u8 + (n - 10)) as char
    }
}

/// Appends the percent-encoding of `value`'s UTF-8 bytes to `text`.
pub fn push_percent_encoded(text: &mut String, value: &str)
    ensures
        final(text)@ == old(text)@ + percent_encoded(encode_utf8(value@)),
        forall|i: int|
            old(text)@.len() <= i < final(text)@.len() ==> is_query_safe(#[trigger] final(text)@[i]),
{
    let bytes = value.as_bytes();
    let ghost f = |b: u8| escaped(b);
    let ghost start = text@;
    assert(bytes@.take(0).flat_map(f) =~= Seq::<char>::empty());
    let mut i: usize = 0;
    while i < bytes.len()
        invariant
            i <= bytes.len(),
            f == |b: u8| escaped(b),
            text@ == start + bytes@.take(i as int).flat_map(f),
        decreases bytes.len() - i,
    {
        let b = bytes[i];
        proof {
            bytes@.lemma_flat_map_take_append(f, i as int);
        }
        if unreserved(b) {
            push_char(text, b as char);
            assert(text@ =~= start + bytes@.take(i + 1).flat_map(f));
        } else {
            push_char(text, '%');
            push_char(text, hex(b / 16));
            push_char(text, hex(b % 16));
            assert(text@ =~= start + bytes@.take(i + 1).flat_map(f));
        }
        i += 1;
    }
    assert(bytes@.take(i as int) =~= bytes@);
    proof {
        lemma_percent_encoded_is_safe(bytes@);
        assert forall|k: int| start.len() <= k < text@.len() implies is_query_safe(
            #[trigger] text@[k],
        ) by {
            assert(text@[k] == percent_encoded(bytes@)[k - start.len()]);
        }
    }
}

/// The address at which to ask `upstream` for the forecast of `location`.
///
/// The location is percent-encoded, so whatever a caller sends stays inside
/// the one query value `q`.
pub fn request_url(upstream: &Upstream, location: &str) -> (url: String)
    ensures
        url@ == request_url_text(upstream.base_url@, upstream.api_key@, location@),
{
    let mut url = upstream.base_url.clone();
    url.append("?key=");
    url.append(upstream.api_key.as_str());
    url.append("&q=");
    push_percent_encoded(&mut url, location);
    url.append("&days=");
    push_decimal(&mut url, FORECAST_DAYS as u64);
    url
}

} // verus!
