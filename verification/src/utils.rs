//! Hashing of user identifiers.

use vstd::prelude::*;
use vstd::utf8::encode_utf8;
use crate::bindings::{sha256, sha256_hex};
use crate::text::{hex_lower, is_lower_hex_digit, lemma_encode_utf8_concat, lemma_hex_lower_digits};

verus! {

/// The stored form of a user identifier: SHA-256 over the UTF-8 bytes of the
/// identifier followed by those of the salt, in lower-case hex.
pub open spec fn spec_hash_string(input: Seq<char>, salt: Seq<char>) -> Seq<char> {
    hex_lower(sha256(encode_utf8(input) + encode_utf8(salt)))
}

/// What is hashed is the whole id followed by the whole salt, as one text:
/// the hash is SHA-256 of the UTF-8 of `input + salt`, so moving a piece from
/// the end of the id to the front of the salt leaves it unchanged, and an id
/// hashed with a salt is the id-and-salt text hashed with no salt.
pub proof fn lemma_hash_string_whole_text(input: Seq<char>, piece: Seq<char>, salt: Seq<char>)
    ensures
        spec_hash_string(input, salt) == hex_lower(sha256(encode_utf8(input + salt))),
        spec_hash_string(input + piece, salt) == spec_hash_string(input, piece + salt),
        spec_hash_string(input, salt) == spec_hash_string(input + salt, Seq::<char>::empty()),
{
    lemma_encode_utf8_concat(input, salt);
    lemma_encode_utf8_concat(input + piece, salt);
    lemma_encode_utf8_concat(input, piece + salt);
    lemma_encode_utf8_concat(input + salt, Seq::<char>::empty());
    assert(input + piece + salt =~= input + (piece + salt));
    assert(encode_utf8(Seq::<char>::empty()) =~= Seq::<u8>::empty());
    assert(encode_utf8(input + salt) + encode_utf8(Seq::<char>::empty()) =~= encode_utf8(input + salt));
}

/// Hashes `input_str` salted with `salt` (the `SALT` setting).
pub fn hash_string(input_str: String, salt: String) -> (hash: String)
    ensures
        hash@ == spec_hash_string(input_str@, salt@),
        hash@.len() == 64,
        forall|i: int| 0 <= i < 64 ==> is_lower_hex_digit(#[trigger] hash@[i]),
{
    let a = input_str.as_str().as_bytes();
    let b = salt.as_str().as_bytes();
    let mut data: Vec<u8> = Vec::new();
    let mut i: usize = 0;
    while i < a.len()
        invariant
            i <= a@.len(),
            data@ == a@.subrange(0, i as int),
        decreases a@.len() - i,
    {
        data.push(a[i]);
        i = i + 1;
    }
    let mut j: usize = 0;
    while j < b.len()
        invariant
            j <= b@.len(),
            data@ == a@ + b@.subrange(0, j as int),
        decreases b@.len() - j,
    {
        data.push(b[j]);
        j = j + 1;
    }
    assert(b@.subrange(0, b@.len() as int) == b@);
    let hash = sha256_hex(data.as_slice());
    proof {
        lemma_hex_lower_digits(sha256(data@));
    }
    hash
}

} // verus!
