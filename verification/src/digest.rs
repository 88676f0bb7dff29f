//! Content hashes: `sha256:` followed by the lowercase hexadecimal SHA-256 digest of a text.
use crate::text::push_char_at;
use vstd::prelude::*;
use vstd::string::*;

verus! {

/// The SHA-256 digest of the UTF-8 encoding of `text`.
pub uninterp spec fn sha256_of_text(text: Seq<char>) -> Seq<u8>;

/// Hashes the UTF-8 bytes of `text` with `sha2::Sha256::digest`. The digest is named; of it
/// only its length, 32 bytes (SHA-256's output size), is stated.
#[verifier::external_body]
fn sha256_text(text: &str) -> (d: Vec<u8>)
    ensures
        d@ == sha256_of_text(text@),
        d@.len() == 32,
{
    <sha2::Sha256 as sha2::Digest>::digest(text.as_bytes()).to_vec()
}

/// The lowercase hexadecimal digit of `d` in `0..16`.
pub open spec fn hex_digit(d: int) -> char {
    "0123456789abcdef"@[d]
}

/// Two lowercase hexadecimal digits per byte, most significant first.
pub open spec fn spec_hex(bytes: Seq<u8>) -> Seq<char>
    decreases bytes.len(),
{
    if bytes.len() == 0 {
        Seq::empty()
    } else {
        spec_hex(bytes.drop_last()) + seq![
            hex_digit((bytes.last() / 16) as int),
            hex_digit((bytes.last() % 16) as int),
        ]
    }
}

pub fn hex_lower(bytes: &Vec<u8>) -> (r: String)
    ensures
        r@ == spec_hex(bytes@),
{
    let digits = "0123456789abcdef";
    proof {
        reveal_strlit("0123456789abcdef");
    }
    let mut out = String::new();
    let mut i: usize = 0;
    assert(bytes@.subrange(0, 0) =~= Seq::<u8>::empty());
    while i < bytes.len()
        invariant
            0 <= i <= bytes@.len(),
            digits@ == "0123456789abcdef"@,
            digits@.len() == 16,
            out@ == spec_hex(bytes@.subrange(0, i as int)),
        decreases bytes@.len() - i,
    {
        let b = bytes[i];
        push_char_at(&mut out, digits, (b / 16) as usize);
        push_char_at(&mut out, digits, (b % 16) as usize);
        assert(bytes@.subrange(0, i + 1).drop_last() =~= bytes@.subrange(0, i as int));
        i += 1;
    }
    assert(bytes@.subrange(0, bytes@.len() as int) =~= bytes@);
    out
}

/// The hash of a text: `sha256:` and the hexadecimal digest of its UTF-8 bytes.
pub open spec fn spec_content_hash(text: Seq<char>) -> Seq<char> {
    "sha256:"@ + spec_hex(sha256_of_text(text))
}

pub fn content_hash(text: &str) -> (h: String)
    ensures
        h@ == spec_content_hash(text@),
{
    let digest = sha256_text(text);
    let hex = hex_lower(&digest);
    let mut out = String::from_str("sha256:");
    out.append(hex.as_str());
    out
}

} // verus!
