//! Hashing: SHA-256 (sha2), lowercase hex (hex) and bcrypt password checks
//! (bcrypt). Each outside call stands behind one trusted wrapper.
use vstd::prelude::*;

use sha2::Digest;

use crate::aleatorio::es_hex_minuscula;

verus! {

/// The SHA-256 digest of `datos`, as `sha2::Sha256` computes it.
pub uninterp spec fn sha256_digest(datos: Seq<u8>) -> Seq<u8>;

/// The lowercase hex digit of `n` (below 16).
pub open spec fn cifra_hex(n: nat) -> char {
    if n < 10 {
        ((48 + n) as u8) as char
    } else {
        ((87 + n) as u8) as char
    }
}

/// Each byte of `b` as two lowercase hex digits, high half first.
pub open spec fn hex_minusculas(b: Seq<u8>) -> Seq<char>
    decreases b.len(),
{
    if b.len() == 0 {
        Seq::<char>::empty()
    } else {
        hex_minusculas(b.drop_last()) + seq![
            cifra_hex((b.last() / 16) as nat),
            cifra_hex((b.last() % 16) as nat),
        ]
    }
}

/// The hex text of `b` has two lowercase hex digits per byte.
pub proof fn lema_hex_minusculas(b: Seq<u8>)
    ensures
        hex_minusculas(b).len() == 2 * b.len(),
        forall|i: int| 0 <= i < hex_minusculas(b).len() ==> es_hex_minuscula(#[trigger] hex_minusculas(b)[i]),
    decreases b.len(),
{
    if b.len() > 0 {
        let p = b.drop_last();
        lema_hex_minusculas(p);
        let alto = (b.last() / 16) as nat;
        let bajo = (b.last() % 16) as nat;
        lema_cifra_hex(alto);
        lema_cifra_hex(bajo);
        let h = hex_minusculas(b);
        assert forall|i: int| 0 <= i < h.len() implies es_hex_minuscula(#[trigger] h[i]) by {
            if i < hex_minusculas(p).len() {
                assert(h[i] == hex_minusculas(p)[i]);
            }
        }
    }
}

/// A digit below 16 is a lowercase hex digit.
proof fn lema_cifra_hex(n: nat)
    requires
        n < 16,
    ensures
        es_hex_minuscula(cifra_hex(n)),
{
    if n < 10 {
        assert(((48 + n) as u8) as char as u32 == 48 + n);
    } else {
        assert(((87 + n) as u8) as char as u32 == 87 + n);
    }
}

/// What `bcrypt::verify` returns for a password and a stored hash:
/// `None` where it fails (a hash it cannot read), else whether they match.
pub uninterp spec fn bcrypt_verifica(password: Seq<char>, hash: Seq<char>) -> Option<bool>;

/// The error of `bcrypt::verify`.
#[verifier::external_type_specification]
#[verifier::external_body]
pub struct ExBcryptError(bcrypt::BcryptError);

/// `sha2::Sha256::digest`: the 32-byte SHA-256 digest of `datos`.
/// Trusted: the result is the named digest of the argument and is 32 bytes
/// long; nothing else of SHA-256 is stated.
#[verifier::external_body]
pub(crate) fn sha256(datos: &[u8]) -> (r: Vec<u8>)
    ensures
        r@ == sha256_digest(datos@),
        r@.len() == 32,
{
    sha2::Sha256::digest(datos).to_vec()
}

/// `hex::encode`: each byte as two lowercase hex digits, in order.
/// Trusted: the result is exactly `hex_minusculas` of the bytes.
#[verifier::external_body]
pub(crate) fn hex_encode(datos: &[u8]) -> (r: String)
    ensures
        r@ == hex_minusculas(datos@),
{
    hex::encode(datos)
}

/// `bcrypt::verify`: whether `password` matches the bcrypt `hash`.
/// Trusted: `Ok(b)` where the named result is `Some(b)`, an error where it
/// is `None`; which passwords match which hashes is not stated.
#[verifier::external_body]
pub(crate) fn verificar_bcrypt(password: &str, hash: &str) -> (r: Result<bool, bcrypt::BcryptError>)
    ensures
        match r {
            Ok(b) => bcrypt_verifica(password@, hash@) == Some(b),
            Err(_) => bcrypt_verifica(password@, hash@) is None,
        },
{
    bcrypt::verify(password, hash)
}

} // verus!
