use hmac::{Hmac, Mac};
use sha2::Sha256;
use vstd::prelude::*;
use vstd::string::*;

verus! {

/// The HMAC-SHA256 tag of `message` under `key`, both taken as their UTF-8 bytes.
pub uninterp spec fn hmac_sha256_of(key: Seq<char>, message: Seq<char>) -> Seq<u8>;

/// The lowercase hexadecimal digit for a nibble.
pub open spec fn hex_digit(n: u8) -> char {
    if n < 10 {
        (('0' as u8) + n) as char
    } else {
        (('a' as u8) + (n - 10)) as char
    }
}

/// Lowercase hexadecimal text of a byte string: two digits per byte, high nibble first.
pub open spec fn hex_text(b: Seq<u8>) -> Seq<char> {
    Seq::new(
        2 * b.len(),
        |i: int|
            if i % 2 == 0 {
                hex_digit(b[i / 2] / 16)
            } else {
                hex_digit(b[i / 2] % 16)
            },
    )
}

/// ASCII lowercasing of a character; every other character is kept.
pub open spec fn ascii_lower(c: char) -> char {
    if 'A' <= c && c <= 'Z' {
        ((c as u8) + 32) as char
    } else {
        c
    }
}

pub open spec fn ascii_lower_text(s: Seq<char>) -> Seq<char> {
    Seq::new(s.len(), |i: int| ascii_lower(s[i]))
}

/// The text that is signed: timestamp, API key, receive window and payload, in that order.
pub open spec fn signing_input(
    timestamp: Seq<char>,
    api_key: Seq<char>,
    recv_window: Seq<char>,
    payload: Seq<char>,
) -> Seq<char> {
    timestamp + api_key + recv_window + payload
}

/// The signature the venue expects: lowercase hex of the HMAC-SHA256 of the signing input,
/// keyed with the API secret.
pub open spec fn signature_of(
    timestamp: Seq<char>,
    api_key: Seq<char>,
    recv_window: Seq<char>,
    payload: Seq<char>,
    api_secret: Seq<char>,
) -> Seq<char> {
    hex_text(hmac_sha256_of(api_secret, signing_input(timestamp, api_key, recv_window, payload)))
}

/// `key=value` pairs joined by `&`, in the given order.
pub open spec fn query_of(params: Seq<(Seq<char>, Seq<char>)>) -> Seq<char>
    decreases params.len(),
{
    if params.len() == 0 {
        Seq::empty()
    } else if params.len() == 1 {
        params[0].0 + seq!['='] + params[0].1
    } else {
        query_of(params.drop_last()) + seq!['&'] + params.last().0 + seq!['='] + params.last().1
    }
}

pub open spec fn params_view(params: Seq<(String, String)>) -> Seq<(Seq<char>, Seq<char>)> {
    Seq::new(params.len(), |i: int| (params[i].0@, params[i].1@))
}

/// Relies on hmac's `Hmac<Sha256>` (`new_from_slice`, `update`, `finalize`): the 32-byte tag of
/// the message's bytes under the key's bytes. HMAC accepts a key of any length.
#[verifier::external_body]
fn hmac_sha256(key: &str, message: &str) -> (r: Vec<u8>)
    ensures
        r@ == hmac_sha256_of(key@, message@),
        r@.len() == 32,
{
    let mut mac = Hmac::<Sha256>::new_from_slice(key.as_bytes()).expect("any key length");
    mac.update(message.as_bytes());
    mac.finalize().into_bytes().to_vec()
}

/// Relies on hex::encode: two lowercase hex digits per byte, high nibble first.
#[verifier::external_body]
fn to_hex(bytes: &Vec<u8>) -> (r: String)
    ensures
        r@ == hex_text(bytes@),
{
    hex::encode(bytes)
}

fn signature(
    timestamp: &str,
    api_key: &str,
    recv_window: &str,
    payload: &str,
    api_secret: &str,
) -> (r: String)
    ensures
        r@ == signature_of(timestamp@, api_key@, recv_window@, payload@, api_secret@),
        r@.len() == 64,
{
    let mut input = String::from_str(timestamp);
    input.append(api_key);
    input.append(recv_window);
    input.append(payload);
    let mac = hmac_sha256(api_secret, input.as_str());
    to_hex(&mac)
}

/// Signature of a POST request whose body is exactly `body`.
pub fn _generate_post_signature(
    timestamp: &str,
    api_key: &str,
    recv_window: &str,
    body: &str,
    api_secret: &str,
) -> (r: String)
    ensures
        r@ == signature_of(timestamp@, api_key@, recv_window@, body@, api_secret@),
        r@.len() == 64,
{
    signature(timestamp, api_key, recv_window, body, api_secret)
}

/// Query string of a GET request: `k1=v1&k2=v2&...` in the given order, without encoding.
pub fn _generate_query_str(params: &Vec<(String, String)>) -> (r: String)
    ensures
        r@ == query_of(params_view(params@)),
{
    let mut out = String::new();
    let mut i: usize = 0;
    while i < params.len()
        invariant
            i <= params@.len(),
            out@ == query_of(params_view(params@.subrange(0, i as int))),
        decreases params@.len() - i,
    {
        let ghost prefix = params@.subrange(0, i as int);
        let ghost next = params@.subrange(0, i as int + 1);
        if i > 0 {
            out.append("&");
        }
        out.append(params[i].0.as_str());
        out.append("=");
        out.append(params[i].1.as_str());
        proof {
            reveal_strlit("&");
            reveal_strlit("=");
            assert(next.drop_last() =~= prefix);
            assert(params_view(next).drop_last() =~= params_view(prefix));
            assert(out@ =~= query_of(params_view(next)));
        }
        i = i + 1;
    }
    proof {
        assert(params@.subrange(0, params@.len() as int) =~= params@);
    }
    out
}

/// Signature of a GET request with the given ordered query parameters.
pub fn _generate_get_signature(
    timestamp: &str,
    api_key: &str,
    recv_window: &str,
    params: &Vec<(String, String)>,
    api_secret: &str,
) -> (r: String)
    ensures
        r@ == signature_of(
            timestamp@,
            api_key@,
            recv_window@,
            query_of(params_view(params@)),
            api_secret@,
        ),
        r@.len() == 64,
{
    let query = _generate_query_str(params);
    signature(timestamp, api_key, recv_window, query.as_str(), api_secret)
}

/// Whether `candidate` is, ignoring ASCII case, the signature of the given request.
pub fn verify_signature(
    timestamp: &str,
    api_key: &str,
    recv_window: &str,
    payload: &str,
    api_secret: &str,
    candidate: &str,
) -> (r: bool)
    ensures
        r == (ascii_lower_text(candidate@) == signature_of(
            timestamp@,
            api_key@,
            recv_window@,
            payload@,
            api_secret@,
        )),
{
    let expected = signature(timestamp, api_key, recv_window, payload, api_secret);
    let n = candidate.unicode_len();
    if n != expected.unicode_len() {
        return false;
    }
    let mut i: usize = 0;
    while i < n
        invariant
            n == candidate@.len(),
            n == expected@.len(),
            expected@ == signature_of(timestamp@, api_key@, recv_window@, payload@, api_secret@),
            i <= n,
            forall|j: int| 0 <= j < i ==> ascii_lower(#[trigger] candidate@[j]) == expected@[j],
        decreases n - i,
    {
        let c = candidate.get_char(i);
        let lowered = if 'A' <= c && c <= 'Z' {
            ((c as u8) + 32) as char
        } else {
            c
        };
        if lowered != expected.as_str().get_char(i) {
            assert(ascii_lower_text(candidate@)[i as int] != expected@[i as int]);
            assert(ascii_lower_text(candidate@) != expected@);
            return false;
        }
        i = i + 1;
    }
    assert(ascii_lower_text(candidate@) =~= expected@);
    true
}

/// Hex text is already lowercase, so lowering it changes nothing.
pub proof fn lemma_hex_text_is_lowercase(b: Seq<u8>)
    ensures
        ascii_lower_text(hex_text(b)) == hex_text(b),
{
    assert forall|i: int| 0 <= i < hex_text(b).len() implies ascii_lower(
        #[trigger] hex_text(b)[i],
    ) == hex_text(b)[i] by {
        let n: u8 = if i % 2 == 0 {
            b[i / 2] / 16
        } else {
            b[i / 2] % 16
        };
        assert(n < 16);
    }
    assert(ascii_lower_text(hex_text(b)) =~= hex_text(b));
}

/// Round trip: checking a signature against the same request inputs accepts it, whatever the
/// ASCII case in which the signature was written.
pub proof fn lemma_signature_round_trip(
    timestamp: Seq<char>,
    api_key: Seq<char>,
    recv_window: Seq<char>,
    payload: Seq<char>,
    api_secret: Seq<char>,
    candidate: Seq<char>,
)
    requires
        ascii_lower_text(candidate) == ascii_lower_text(
            signature_of(timestamp, api_key, recv_window, payload, api_secret),
        ),
    ensures
        ascii_lower_text(candidate) == signature_of(
            timestamp,
            api_key,
            recv_window,
            payload,
            api_secret,
        ),
{
    lemma_hex_text_is_lowercase(
        hmac_sha256_of(api_secret, signing_input(timestamp, api_key, recv_window, payload)),
    );
}

} // verus!
