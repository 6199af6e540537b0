//! What a report ledger entry is made of: the SHA-256 digest of the report
//! text, the instruction data that carries it, and its hexadecimal form.
use vstd::prelude::*;
use vstd::utf8::encode_utf8;

use crate::text::string_of;

verus! {

/// The SHA-256 digest of a byte sequence.
pub uninterp spec fn sha256_of(b: Seq<u8>) -> Seq<u8>;

/// Relies on `sha2::Sha256::digest`: the digest of the bytes, 32 bytes long.
#[verifier::external_body]
fn sha256(b: &[u8]) -> (r: Vec<u8>)
    ensures
        r@ == sha256_of(b@),
        r@.len() == 32,
{
    <sha2::Sha256 as sha2::Digest>::digest(b).to_vec()
}

/// The digest of a report: SHA-256 over its UTF-8 bytes.
pub open spec fn report_digest_of(report: Seq<char>) -> Seq<u8> {
    sha256_of(encode_utf8(report))
}

/// The lower-case hexadecimal digit for `n` (below 16).
pub open spec fn hex_digit(n: u8) -> char {
    "0123456789abcdef"@[n as int]
}

/// Two lower-case hexadecimal digits per byte, in order.
pub open spec fn hex_text(b: Seq<u8>) -> Seq<char>
    decreases b.len(),
{
    if b.len() == 0 {
        seq![]
    } else {
        hex_text(b.drop_last()) + seq![hex_digit(b.last() / 16), hex_digit(b.last() % 16)]
    }
}

/// The instruction data that records a digest: the instruction tag 0, then
/// the digest.
pub open spec fn log_data_of(digest: Seq<u8>) -> Seq<u8> {
    seq![0u8] + digest
}

/// The SHA-256 digest of a report's text.
pub fn report_digest(report: &str) -> (r: Vec<u8>)
    ensures
        r@ == report_digest_of(report@),
        r@.len() == 32,
{
    sha256(report.as_bytes())
}

/// The data of the instruction that records `digest` on the ledger.
pub fn log_instruction_data(digest: &[u8]) -> (r: Vec<u8>)
    ensures
        r@ == log_data_of(digest@),
{
    let mut data: Vec<u8> = Vec::new();
    data.push(0u8);
    let mut i: usize = 0;
    while i < digest.len()
        invariant
            i <= digest@.len(),
            data@ == seq![0u8] + digest@.take(i as int),
        decreases digest@.len() - i,
    {
        data.push(digest[i]);
        i = i + 1;
        assert(data@ =~= seq![0u8] + digest@.take(i as int));
    }
    assert(digest@.take(digest@.len() as int) =~= digest@);
    data
}

/// Bytes in lower-case hexadecimal, two digits each.
pub fn hex_lower(bytes: &[u8]) -> (r: String)
    ensures
        r@ == hex_text(bytes@),
{
    let digits = crate::text::chars_of("0123456789abcdef");
    proof {
        reveal_strlit("0123456789abcdef");
    }
    let mut out: Vec<char> = Vec::new();
    let mut i: usize = 0;
    while i < bytes.len()
        invariant
            i <= bytes@.len(),
            digits@ == "0123456789abcdef"@,
            digits@.len() == 16,
            out@ == hex_text(bytes@.take(i as int)),
        decreases bytes@.len() - i,
    {
        let b = bytes[i];
        assert(bytes@.take(i + 1).drop_last() =~= bytes@.take(i as int));
        out.push(digits[(b / 16) as usize]);
        out.push(digits[(b % 16) as usize]);
        i = i + 1;
        assert(out@ =~= hex_text(bytes@.take(i as int)));
    }
    assert(bytes@.take(bytes@.len() as int) =~= bytes@);
    string_of(out.as_slice())
}

/// The hexadecimal form of a report's digest.
pub fn report_hash_hex(report: &str) -> (r: String)
    ensures
        r@ == hex_text(report_digest_of(report@)),
{
    let digest = report_digest(report);
    hex_lower(digest.as_slice())
}

} // verus!
