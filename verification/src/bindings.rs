//! The calls into outside crates that the library's logic makes. Each item
//! here is trusted: its contract is believed, not proved.

use vstd::prelude::*;
use crate::text::hex_lower;

verus! {

/// The SHA-256 digest of a byte string (FIPS 180-4). Only named here: the
/// library relies on nothing but its length and on it being a function of
/// the bytes alone.
pub uninterp spec fn sha256(data: Seq<u8>) -> Seq<u8>;

/// Hashes `data` with rust-crypto's `crypto::sha2::Sha256` (`new`, then
/// `Digest::input`, then `Digest::result_str`). Claimed, as the crate's source
/// shows: the returned text is the lower-case hex rendering of the digest
/// (`result_str` is `to_hex` over `result`), and it has 64 characters
/// (`output_bits` is 256).
#[verifier::external_body]
pub(crate) fn sha256_hex(data: &[u8]) -> (hex: String)
    ensures
        hex@ == hex_lower(sha256(data@)),
        hex@.len() == 64,
{
    let mut hasher = crypto::sha2::Sha256::new();
    crypto::digest::Digest::input(&mut hasher, data);
    crypto::digest::Digest::result_str(&mut hasher)
}

/// The hyphenated, lower-case text of a UUID whose sixteen bytes are `b`:
/// 8-4-4-4-12 hex digits.
pub open spec fn uuid_hyphenated(b: Seq<u8>) -> Seq<char> {
    hex_lower(b.subrange(0, 4)) + seq!['-'] + hex_lower(b.subrange(4, 6)) + seq!['-']
        + hex_lower(b.subrange(6, 8)) + seq!['-'] + hex_lower(b.subrange(8, 10)) + seq!['-']
        + hex_lower(b.subrange(10, 16))
}

/// Builds a UUID from sixteen bytes with `uuid::Builder::from_slice` and
/// `into_uuid`, and renders it with `to_string`. Claimed, as the uuid source
/// shows: `from_slice` copies the bytes unchanged (it fails only on a length
/// other than 16, which `requires` rules out) and `Display` writes the
/// lower-case hyphenated form.
#[verifier::external_body]
pub(crate) fn uuid_text(bytes: &[u8]) -> (text: String)
    requires
        bytes@.len() == 16,
    ensures
        text@ == uuid_hyphenated(bytes@),
{
    uuid::Builder::from_slice(bytes).expect("sixteen bytes").into_uuid().to_string()
}

} // verus!

verus! {

/// `std::io::Error`, carried as the error type of [`crate::data::Document::set_url`].
#[verifier::external_type_specification]
#[verifier::external_body]
pub struct ExIoError(std::io::Error);

} // verus!
