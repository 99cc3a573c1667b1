//! The JWT expiry check: split the token into its three dot-separated
//! parts, re-pad the base64url payload for a standard-alphabet decoder,
//! decode it, read the `exp` claim and compare it with the clock.
//!
//! The caller supplies the stored token and the current time; the token
//! store and the clock live outside this crate.

use vstd::prelude::*;
use vstd::string::{StrSliceExecFns, StringExecFns, StringSliceAdditionalSpecFns};

use base64::Engine;

verus! {

/// Positions `i < j` hold the only two `.` (0x2e) bytes of `s`.
pub open spec fn two_dots_at(s: Seq<u8>, i: int, j: int) -> bool {
    &&& 0 <= i < j < s.len()
    &&& s[i] == 0x2e
    &&& s[j] == 0x2e
    &&& forall|k: int| 0 <= k < s.len() && s[k] == 0x2e ==> k == i || k == j
}

/// The token has exactly three dot-separated parts: exactly two dots.
pub open spec fn exactly_two_dots(s: Seq<u8>) -> bool {
    exists|i: int, j: int| two_dots_at(s, i, j)
}

/// Base64url payloads drop trailing `=`: restore it from the length
/// residue (a residue of one is left alone and fails to decode later).
pub open spec fn pad4(s: Seq<u8>) -> Seq<u8> {
    if s.len() % 4 == 2 {
        s + seq![0x3du8, 0x3du8]
    } else if s.len() % 4 == 3 {
        s + seq![0x3du8]
    } else {
        s
    }
}

/// Map one base64url byte to its standard-alphabet counterpart:
/// `-` to `+` and `_` to `/`.
pub open spec fn b64url_to_std(b: u8) -> u8 {
    if b == 0x2d {
        0x2b
    } else if b == 0x5f {
        0x2f
    } else {
        b
    }
}

/// The whole payload mapped to the standard alphabet.
pub open spec fn translated(s: Seq<u8>) -> Seq<u8> {
    Seq::new(s.len(), |k: int| b64url_to_std(s[k]))
}

/// The token expires within the buffer: its remaining lifetime (zero once
/// past) is under `buffer_minutes` of seconds.
pub open spec fn expiring(exp: u64, now_secs: u64, buffer_minutes: u64) -> bool {
    (if exp >= now_secs {
        exp - now_secs
    } else {
        0
    }) < buffer_minutes * 60
}

/// The error reported when the payload carries no numeric `exp` claim.
pub open spec fn missing_exp_message() -> Seq<char> {
    "Missing 'exp' claim in JWT"@
}

/// What decoding the base64 payload of `s`, as standard base64, returns.
pub uninterp spec fn base64_decoded(s: Seq<u8>) -> Option<Seq<u8>>;

/// What looking a key up in a JSON document returns: `None` when the
/// bytes are not well-formed JSON, otherwise the key's value as a `u64`
/// if it is present and is one.
pub uninterp spec fn json_u64_field(doc: Seq<u8>, key: Seq<char>) -> Option<Option<u64>>;

/// The outcome the expiry check owes once the payload between the two
/// dots is known: a failed decode or parse is an error, a well-formed
/// payload without a numeric `exp` claim is the missing-claim error, and
/// an `exp` claim decides expiry against the clock.
pub open spec fn claim_verdict(
    payload: Seq<u8>,
    buffer_minutes: u64,
    now_secs: u64,
    r: Result<bool, String>,
) -> bool {
    match base64_decoded(translated(pad4(payload))) {
        Option::None => r is Err,
        Option::Some(doc) => match json_u64_field(doc, "exp"@) {
            Option::None => r is Err,
            Option::Some(field) => match field {
                Option::None => r matches Err(m) && m@ == missing_exp_message(),
                Option::Some(exp) => r == Result::<bool, String>::Ok(
                    expiring(exp, now_secs, buffer_minutes),
                ),
            },
        },
    }
}

/// Relies on base64's `Engine::decode` with the `STANDARD` (padded)
/// engine: the result is a function of the input bytes alone, `Ok`
/// exactly on canonically padded standard-alphabet input.
#[verifier::external_body]
fn base64_decode(input: &Vec<u8>) -> (r: Result<Vec<u8>, String>)
    ensures
        r is Ok <==> base64_decoded(input@) is Some,
        r matches Ok(d) ==> Option::Some(d@) == base64_decoded(input@),
{
    base64::engine::general_purpose::STANDARD.decode(input).map_err(
        |e| format!("Failed to decode JWT payload: {}", e),
    )
}

/// Relies on serde_json's `from_slice` (for `Value`), `Value::get` and
/// `Value::as_u64`: parsing succeeds exactly on well-formed JSON, and
/// both it and the key lookup depend on the document bytes and the key
/// alone.
#[verifier::external_body]
fn json_u64_claim(doc: &Vec<u8>, key: &str) -> (r: Result<Option<u64>, String>)
    ensures
        r is Ok <==> json_u64_field(doc@, key@) is Some,
        r matches Ok(v) ==> Option::Some(v) == json_u64_field(doc@, key@),
{
    let value: serde_json::Value = match serde_json::from_slice(doc) {
        Ok(v) => v,
        Err(e) => return Err(format!("Failed to parse JWT payload: {}", e)),
    };
    Ok(value.get(key).and_then(|v| v.as_u64()))
}

/// Decide whether the access token expires within `buffer_minutes` of
/// `now_secs`. A token without exactly three dot-separated parts counts
/// as expiring; otherwise the payload part decides as `claim_verdict`
/// says.
pub fn is_token_expiring_soon(token: &str, buffer_minutes: u64, now_secs: u64) -> (r: Result<
    bool,
    String,
>)
    requires
        buffer_minutes <= u64::MAX / 60,
    ensures
        !exactly_two_dots(token.spec_bytes()) ==> r == Result::<bool, String>::Ok(true),
        forall|i: int, j: int|
            two_dots_at(token.spec_bytes(), i, j) ==> claim_verdict(
                token.spec_bytes().subrange(i + 1, j),
                buffer_minutes,
                now_secs,
                r,
            ),
{
    let bytes = token.as_bytes_vec();
    let ghost bs = token.spec_bytes();
    let n = bytes.len();
    let mut i: usize = 0;
    let mut count: u32 = 0;
    let mut first: usize = 0;
    let mut second: usize = 0;
    let ghost mut third: int = 0;
    while i < n
        invariant
            bytes@ == bs,
            n == bs.len(),
            i <= n,
            count <= 3,
            count == 0 ==> forall|k: int| 0 <= k < i ==> bs[k] != 0x2e,
            count == 1 ==> first < i && bs[first as int] == 0x2e && (forall|k: int|
                0 <= k < i && k != first ==> bs[k] != 0x2e),
            count >= 2 ==> first < second && second < i && bs[first as int] == 0x2e
                && bs[second as int] == 0x2e,
            count == 2 ==> forall|k: int| 0 <= k < i && k != first && k != second ==> bs[k] != 0x2e,
            count == 3 ==> second < third && third < i && bs[third] == 0x2e,
        decreases n - i,
    {
        if bytes[i] == 0x2e {
            if count == 0 {
                first = i;
                count = 1;
            } else if count == 1 {
                second = i;
                count = 2;
            } else if count == 2 {
                proof {
                    third = i as int;
                }
                count = 3;
            }
        }
        i = i + 1;
    }
    if count != 2 {
        proof {
            assert forall|p: int, q: int| !two_dots_at(bs, p, q) by {
                if two_dots_at(bs, p, q) {
                    if count >= 3 {
                        assert(first == p || first == q);
                        assert(second == p || second == q);
                        assert(third == p || third == q);
                    }
                }
            }
        }
        return Ok(true);
    }
    proof {
        assert(two_dots_at(bs, first as int, second as int));
        assert forall|p: int, q: int| two_dots_at(bs, p, q) implies p == first && q == second by {
            assert(first as int == p || first as int == q);
            assert(second as int == p || second as int == q);
        }
    }
    let mut payload: Vec<u8> = Vec::new();
    let mut k: usize = first + 1;
    while k < second
        invariant
            bytes@ == bs,
            first < second <= bs.len(),
            first + 1 <= k <= second,
            payload@ == bs.subrange(first + 1, k as int),
        decreases second - k,
    {
        payload.push(bytes[k]);
        k = k + 1;
    }
    let ghost raw_payload = payload@;
    proof {
        assert(raw_payload =~= bs.subrange(first + 1, second as int));
    }
    let rem = payload.len() % 4;
    if rem == 2 {
        payload.push(0x3d);
        payload.push(0x3d);
    } else if rem == 3 {
        payload.push(0x3d);
    }
    proof {
        assert(payload@ =~= pad4(raw_payload));
    }
    let mut translated_payload: Vec<u8> = Vec::new();
    let mut m: usize = 0;
    while m < payload.len()
        invariant
            payload@ == pad4(raw_payload),
            m <= payload.len(),
            translated_payload@.len() == m,
            forall|q: int| 0 <= q < m ==> translated_payload@[q] == b64url_to_std(payload@[q]),
        decreases payload.len() - m,
    {
        let b = payload[m];
        translated_payload.push(
            if b == 0x2d {
                0x2b
            } else if b == 0x5f {
                0x2f
            } else {
                b
            },
        );
        m = m + 1;
    }
    proof {
        assert(translated_payload@ =~= translated(pad4(raw_payload)));
    }
    let decoded = match base64_decode(&translated_payload) {
        Ok(d) => d,
        Err(e) => {
            return Err(e);
        },
    };
    match json_u64_claim(&decoded, "exp") {
        Err(e) => Err(e),
        Ok(None) => Err(String::from_str("Missing 'exp' claim in JWT")),
        Ok(Some(exp)) => {
            let threshold = buffer_minutes * 60;
            let remaining = if exp >= now_secs {
                exp - now_secs
            } else {
                0
            };
            Ok(remaining < threshold)
        },
    }
}

} // verus!
