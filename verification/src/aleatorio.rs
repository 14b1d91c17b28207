//! Random identifiers and secrets: version 4 UUIDs (uuid) and alphanumeric
//! strings (rand). What comes back differs on every call; the contracts state
//! only the shape that every outcome has.
use vstd::prelude::*;

use rand::distributions::DistString;

verus! {

/// `c` is an ASCII letter or digit.
pub open spec fn es_alfanumerico(c: char) -> bool {
    let u = c as u32;
    ||| 48 <= u <= 57
    ||| 65 <= u <= 90
    ||| 97 <= u <= 122
}

/// `c` is a lowercase hex digit.
pub open spec fn es_hex_minuscula(c: char) -> bool {
    let u = c as u32;
    48 <= u <= 57 || 97 <= u <= 102
}

/// `s` is a version 4 UUID in hyphenated lowercase form:
/// `xxxxxxxx-xxxx-4xxx-Vxxx-xxxxxxxxxxxx`, where V is one of `8`, `9`, `a`, `b`.
pub open spec fn es_uuid_v4(s: Seq<char>) -> bool {
    &&& s.len() == 36
    &&& forall|i: int|
        0 <= i < 36 ==> if i == 8 || i == 13 || i == 18 || i == 23 {
            #[trigger] s[i] == '-'
        } else {
            es_hex_minuscula(s[i])
        }
    &&& s[14] == '4'
    &&& (s[19] == '8' || s[19] == '9' || s[19] == 'a' || s[19] == 'b')
}

/// `uuid::Uuid::new_v4`, written with `to_string`: a random UUID.
/// Trusted: every outcome has the hyphenated lowercase form of a version 4
/// UUID; which one comes out is left open.
#[verifier::external_body]
pub(crate) fn uuid_v4() -> (r: String)
    ensures
        es_uuid_v4(r@),
{
    uuid::Uuid::new_v4().to_string()
}

/// A fresh random identifier: a version 4 UUID in hyphenated lowercase form.
pub fn id_nuevo() -> (r: String)
    ensures
        es_uuid_v4(r@),
{
    uuid_v4()
}

/// `rand::distributions::Alphanumeric`, sampled `n` times from the thread's
/// generator: a random string of ASCII letters and digits.
/// Trusted: every outcome is `n` characters long and each is a letter or a
/// digit; which ones is left open.
#[verifier::external_body]
pub(crate) fn alfanumerico_aleatorio(n: usize) -> (r: String)
    ensures
        r@.len() == n,
        forall|i: int| 0 <= i < n ==> es_alfanumerico(#[trigger] r@[i]),
{
    rand::distributions::Alphanumeric.sample_string(&mut rand::thread_rng(), n)
}

} // verus!
