//! The content checksum of release artifacts: an MD5 digest in lowercase hex.
use vstd::prelude::*;

verus! {

/// The MD5 digest of `data`.
pub uninterp spec fn md5_of(data: Seq<u8>) -> Seq<u8>;

/// The lowercase hexadecimal digit of a value below sixteen.
pub open spec fn hex_digit(d: int) -> char {
    if d < 10 {
        ((d + '0' as int) as u32) as char
    } else {
        ((d - 10 + 'a' as int) as u32) as char
    }
}

/// Two lowercase hexadecimal digits per byte, the high half first.
pub open spec fn hex_lower(b: Seq<u8>) -> Seq<char>
    decreases b.len(),
{
    if b.len() == 0 {
        Seq::empty()
    } else {
        hex_lower(b.drop_last()) + seq![
            hex_digit(b.last() as int / 16),
            hex_digit(b.last() as int % 16),
        ]
    }
}

/// The checksum text of `data`, as release descriptors give it.
pub open spec fn md5_hex(data: Seq<u8>) -> Seq<char> {
    hex_lower(md5_of(data))
}

/// Relies on md-5's `Md5::digest` (through `digest::Digest`): the digest
/// depends on the bytes alone.
#[verifier::external_body]
fn md5_digest(data: &[u8]) -> (r: Vec<u8>)
    ensures
        r@ == md5_of(data@),
        r@.len() == 16,
{
    <md5::Md5 as md5::Digest>::digest(data).to_vec()
}

/// Relies on `hex::encode`: each byte becomes two lowercase digits, the high
/// half first.
#[verifier::external_body]
fn encode_hex(bytes: &[u8]) -> (r: String)
    ensures
        r@ == hex_lower(bytes@),
{
    hex::encode(bytes)
}

/// A lowercase hexadecimal digit.
pub open spec fn is_hex_digit(c: char) -> bool {
    ('0' <= c && c <= '9') || ('a' <= c && c <= 'f')
}

/// Hex text has two digits per byte, all of them lowercase hexadecimal.
pub proof fn lemma_hex_lower(b: Seq<u8>)
    ensures
        hex_lower(b).len() == 2 * b.len(),
        forall|i: int| 0 <= i < hex_lower(b).len() ==> is_hex_digit(#[trigger] hex_lower(b)[i]),
    decreases b.len(),
{
    if b.len() > 0 {
        let rest = b.drop_last();
        lemma_hex_lower(rest);
        let hi = b.last() as int / 16;
        let lo = b.last() as int % 16;
        let tail = seq![hex_digit(hi), hex_digit(lo)];
        assert(is_hex_digit(hex_digit(hi)));
        assert(is_hex_digit(hex_digit(lo)));
        assert forall|i: int| 0 <= i < hex_lower(b).len() implies is_hex_digit(
            #[trigger] hex_lower(b)[i],
        ) by {
            if i < hex_lower(rest).len() {
                assert(hex_lower(b)[i] == hex_lower(rest)[i]);
            } else {
                assert(hex_lower(b)[i] == tail[i - hex_lower(rest).len()]);
            }
        }
    }
}

/// The checksum of a file's contents: its MD5 digest in lowercase hex, 32
/// hexadecimal digits.
pub fn md5sum(contents: &[u8]) -> (r: String)
    ensures
        r@ == md5_hex(contents@),
        r@.len() == 32,
        forall|i: int| 0 <= i < r@.len() ==> is_hex_digit(#[trigger] r@[i]),
{
    let digest = md5_digest(contents);
    let r = encode_hex(digest.as_slice());
    proof {
        lemma_hex_lower(digest@);
    }
    r
}

} // verus!
