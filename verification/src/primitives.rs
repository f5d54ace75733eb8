//! Trusted wrappers around the outside crates: SHA-256 (`sha2`), standard
//! base64 (`base64`) and the thread-local random generator (`rand`).
//! Nothing here is proved; every other module is proved against these contracts.

use vstd::prelude::*;
use base64::Engine;
use rand::RngCore;
use sha2::Digest;

verus! {

/// The SHA-256 digest of `data`, as computed by `sha2::Sha256`.
pub uninterp spec fn sha256_of(data: Seq<u8>) -> Seq<u8>;

/// The text that the standard base64 engine (`base64::engine::general_purpose::STANDARD`,
/// padded) produces for `bytes`.
pub uninterp spec fn base64_encoding(bytes: Seq<u8>) -> Seq<char>;

/// What the standard base64 engine makes of `text`: the decoded bytes, or the
/// text of the `base64::DecodeError` it reports.
pub uninterp spec fn base64_decoding(text: Seq<char>) -> Result<Seq<u8>, Seq<char>>;

/// Calls `<sha2::Sha256 as Digest>::digest` on `data` and returns the 32-byte digest.
/// Claimed: the result is `sha256_of(data)`, which depends on `data` alone, and
/// it is 32 bytes long (the crate's output type for SHA-256 is a 32-byte array).
#[verifier::external_body]
pub(crate) fn sha256(data: &[u8]) -> (digest: Vec<u8>)
    ensures
        digest@ == sha256_of(data@),
        digest@.len() == 32,
{
    sha2::Sha256::digest(data).to_vec()
}

/// Calls `Engine::encode` of `base64::engine::general_purpose::STANDARD`.
/// Claimed: the result is `base64_encoding(bytes)`, and decoding it with the same
/// engine gives `bytes` back (the crate's own round-trip tests check this).
/// `encode` panics when the length of the encoding overflows `usize`; the
/// `requires` keeps the input far below that.
#[verifier::external_body]
pub(crate) fn base64_encode(bytes: &[u8]) -> (text: String)
    requires
        bytes@.len() <= usize::MAX / 2,
    ensures
        text@ == base64_encoding(bytes@),
        base64_decoding(text@) is Ok,
        base64_decoding(text@)->Ok_0 == bytes@,
{
    base64::engine::general_purpose::STANDARD.encode(bytes)
}

/// Calls `Engine::decode` of `base64::engine::general_purpose::STANDARD` on the
/// bytes of `text`; a `DecodeError` is turned into its display text.
/// Claimed: the outcome is `base64_decoding(text)`, which depends on `text` alone.
#[verifier::external_body]
pub(crate) fn base64_decode(text: &str) -> (decoded: Result<Vec<u8>, String>)
    ensures
        match decoded {
            Ok(bytes) => base64_decoding(text@) matches Ok(b) && b == bytes@,
            Err(message) => base64_decoding(text@) matches Err(m) && m == message@,
        },
{
    base64::engine::general_purpose::STANDARD.decode(text).map_err(|e| e.to_string())
}

#[verifier::external_type_specification]
#[verifier::external_body]
pub struct ExThreadRng(rand::rngs::ThreadRng);

/// Calls `rand::thread_rng`. Nothing is claimed of the generator it hands out.
/// (`rand` panics here only when the operating system's entropy source fails
/// the first time a thread asks for it.)
#[verifier::external_body]
pub(crate) fn thread_rng() -> rand::rngs::ThreadRng {
    rand::thread_rng()
}

/// Calls `RngCore::fill_bytes` of `rand::rngs::ThreadRng` on the whole of `dest`.
/// Claimed: only that `dest` keeps its length; its new bytes are random.
#[verifier::external_body]
pub(crate) fn fill_bytes(rng: &mut rand::rngs::ThreadRng, dest: &mut Vec<u8>)
    ensures
        final(dest)@.len() == old(dest)@.len(),
{
    rng.fill_bytes(dest.as_mut_slice())
}

} // verus!
