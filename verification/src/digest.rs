//! The digest engine: a canonical byte encoding of a block's content,
//! hashed together with the predecessor link into a fixed-length,
//! lowercase hexadecimal digest string.

use vstd::prelude::*;

verus! {

/// The hashed payload of a block: a capture time in whole seconds since a
/// fixed epoch, and an opaque caller-supplied value.
pub struct HashContent {
    pub timestamp: i64,
    pub data: i32,
}

/// The canonical byte encoding of a content value: each field in
/// declaration order, as fixed-width little-endian integers.
pub uninterp spec fn encoding_of(timestamp: i64, data: i32) -> Seq<u8>;

/// Relies on bincode::serialize (default configuration): fixed-width
/// little-endian encoding of the fields in declaration order, eight bytes
/// for the timestamp followed by four for the data value.
#[verifier::external_body]
fn encode_content(timestamp: i64, data: i32) -> (r: Vec<u8>)
    ensures
        r@ == encoding_of(timestamp, data),
        r@.len() == 12,
{
    bincode::serialize(&(timestamp, data)).unwrap()
}

/// The digest over a content encoding followed by the predecessor link:
/// the lowercase hexadecimal rendering of a 160-bit hash over the bytes of
/// the first argument followed by the UTF-8 bytes of the second.
pub uninterp spec fn sha1_hex_of(bytes: Seq<u8>, link: Seq<char>) -> Seq<char>;

/// True of a lowercase hexadecimal digit.
pub open spec fn is_hex_char(c: char) -> bool {
    ('0' <= c && c <= '9') || ('a' <= c && c <= 'f')
}

/// Relies on sha1::Sha1 (update, digest) and the Display impl of
/// sha1::Digest: a 160-bit digest over the bytes fed in, rendered as 40
/// lowercase hexadecimal characters, a function of those bytes alone.
#[verifier::external_body]
fn sha1_hex(bytes: &Vec<u8>, link: &str) -> (r: String)
    ensures
        r@ == sha1_hex_of(bytes@, link@),
        r@.len() == 40,
        forall|i: int| 0 <= i < r@.len() ==> is_hex_char(#[trigger] r@[i]),
{
    let mut hasher = sha1::Sha1::new();
    hasher.update(bytes.as_slice());
    hasher.update(link.as_bytes());
    hasher.digest().to_string()
}

/// What the digest of a block is: the hash over the canonical encoding of
/// its content and its predecessor link. Folding the link into the hash
/// input binds each block to its predecessor, so a forged link is caught
/// when the digest is recomputed.
pub open spec fn digest_of(timestamp: i64, data: i32, link: Seq<char>) -> Seq<char> {
    sha1_hex_of(encoding_of(timestamp, data), link)
}

/// Computes the digest of a block from its content and predecessor link.
pub fn generate_hash(content: &HashContent, link: &str) -> (r: String)
    ensures
        r@ == digest_of(content.timestamp, content.data, link@),
        r@.len() == 40,
        forall|i: int| 0 <= i < r@.len() ==> is_hex_char(#[trigger] r@[i]),
{
    let bytes = encode_content(content.timestamp, content.data);
    sha1_hex(&bytes, link)
}

/// Law: the digest is a function of the content fields and the link alone —
/// equal inputs always yield equal digests.
pub proof fn lemma_digest_deterministic(c1: HashContent, c2: HashContent, link1: Seq<char>, link2: Seq<char>)
    requires
        c1.timestamp == c2.timestamp,
        c1.data == c2.data,
        link1 == link2,
    ensures
        digest_of(c1.timestamp, c1.data, link1) == digest_of(c2.timestamp, c2.data, link2),
{
}

} // verus!
