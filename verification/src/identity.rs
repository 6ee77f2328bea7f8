//! The virtual identity of a webhook: its localpart is derived from the
//! webhook's id alone, so every delivery finds the same sender again without
//! a table of its own.
use vstd::prelude::*;
use vstd::slice::slice_subrange;
use vstd::string::*;
use vstd::utf8::encode_utf8;
use sha2::Digest;

verus! {

/// Number of digest bytes that go into a localpart.
pub const DIGEST_PREFIX: usize = 16;

/// The SHA-256 digest of `data`.
pub uninterp spec fn sha256_digest(data: Seq<u8>) -> Seq<u8>;

/// The lower-case hexadecimal digits, by value.
pub open spec fn hex_digits() -> Seq<char> {
    seq!['0', '1', '2', '3', '4', '5', '6', '7', '8', '9', 'a', 'b', 'c', 'd', 'e', 'f']
}

/// Lower-case hexadecimal text of `data`: two digits for each byte, the high
/// half first.
pub open spec fn hex_lower(data: Seq<u8>) -> Seq<char> {
    Seq::new(
        2 * data.len(),
        |i: int|
            if i % 2 == 0 {
                hex_digits()[data[i / 2] as int / 16]
            } else {
                hex_digits()[data[i / 2] as int % 16]
            },
    )
}

/// The part of a webhook's localpart that depends on its id.
pub open spec fn id_tag(webhook_id: Seq<char>) -> Seq<char> {
    hex_lower(sha256_digest(encode_utf8(webhook_id)).subrange(0, DIGEST_PREFIX as int))
}

/// The localpart of the identity that posts for `webhook_id`, under the
/// primary identity `primary`.
pub open spec fn localpart_of(primary: Seq<char>, webhook_id: Seq<char>) -> Seq<char> {
    primary + "__"@ + id_tag(webhook_id)
}

/// `sha2::Sha256::digest`. Trusted: the result is the SHA-256 digest of the
/// input, which is 32 bytes long.
#[verifier::external_body]
fn sha256(data: &[u8]) -> (digest: Vec<u8>)
    ensures
        digest@ == sha256_digest(data@),
        digest@.len() == 32,
{
    sha2::Sha256::digest(data).to_vec()
}

/// `hex::encode`. Trusted: the result spells each input byte as two
/// lower-case hexadecimal digits, high half first, in input order.
#[verifier::external_body]
fn hex_encode(data: &[u8]) -> (out: String)
    ensures
        out@ == hex_lower(data@),
{
    hex::encode(data)
}

/// The localpart of the identity that posts for the webhook `webhook_id`:
/// the primary localpart, two underscores, and the first sixteen bytes of the
/// id's SHA-256 digest in hexadecimal.
pub fn webhook_localpart(primary: &str, webhook_id: &str) -> (out: String)
    ensures
        out@ == localpart_of(primary@, webhook_id@),
{
    let digest = sha256(webhook_id.as_bytes());
    let tag = hex_encode(slice_subrange(digest.as_slice(), 0, DIGEST_PREFIX));
    let mut out = primary.to_owned();
    out.append("__");
    out.append(tag.as_str());
    out
}

/// Two digits are equal only where their values are.
pub proof fn lemma_hex_digit_injective(x: int, y: int)
    requires
        0 <= x < 16,
        0 <= y < 16,
        hex_digits()[x] == hex_digits()[y],
    ensures
        x == y,
{
}

/// Hexadecimal text determines the bytes it was made from.
pub proof fn lemma_hex_lower_injective(a: Seq<u8>, b: Seq<u8>)
    requires
        hex_lower(a) == hex_lower(b),
    ensures
        a == b,
{
    assert(hex_lower(a).len() == 2 * a.len());
    assert(hex_lower(b).len() == 2 * b.len());
    assert(a.len() == b.len());
    assert forall|k: int| 0 <= k < a.len() implies a[k] == b[k] by {
        let x = a[k] as int;
        let y = b[k] as int;
        assert(hex_lower(a)[2 * k] == hex_digits()[x / 16]);
        assert(hex_lower(b)[2 * k] == hex_digits()[y / 16]);
        assert(hex_lower(a)[2 * k + 1] == hex_digits()[x % 16]);
        assert(hex_lower(b)[2 * k + 1] == hex_digits()[y % 16]);
        lemma_hex_digit_injective(x / 16, y / 16);
        lemma_hex_digit_injective(x % 16, y % 16);
    }
    assert(a =~= b);
}

/// Derivation is a function of its inputs, and under one primary identity two
/// webhooks share a localpart exactly when the first sixteen bytes of their
/// ids' digests agree.
pub proof fn lemma_localpart_distinct(primary: Seq<char>, id_a: Seq<char>, id_b: Seq<char>)
    ensures
        id_a == id_b ==> localpart_of(primary, id_a) == localpart_of(primary, id_b),
        localpart_of(primary, id_a) == localpart_of(primary, id_b) <==> sha256_digest(
            encode_utf8(id_a),
        ).subrange(0, DIGEST_PREFIX as int) == sha256_digest(encode_utf8(id_b)).subrange(
            0,
            DIGEST_PREFIX as int,
        ),
{
    let head = primary + "__"@;
    let ta = id_tag(id_a);
    let tb = id_tag(id_b);
    if localpart_of(primary, id_a) == localpart_of(primary, id_b) {
        assert((head + ta).subrange(head.len() as int, (head + ta).len() as int) =~= ta);
        assert((head + tb).subrange(head.len() as int, (head + tb).len() as int) =~= tb);
        assert(ta == tb);
        lemma_hex_lower_injective(
            sha256_digest(encode_utf8(id_a)).subrange(0, DIGEST_PREFIX as int),
            sha256_digest(encode_utf8(id_b)).subrange(0, DIGEST_PREFIX as int),
        );
    }
}

} // verus!
