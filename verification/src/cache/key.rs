//! Content-addressed cache keys: a namespace, a colon, and the SHA-256 of the canonical
//! payload in lower-case hexadecimal.

use sha2::Digest;
use vstd::prelude::*;
use vstd::string::StringExecFns;
use vstd::utf8::encode_utf8;

verus! {

/// The SHA-256 digest of a byte string.
pub uninterp spec fn sha256(data: Seq<u8>) -> Seq<u8>;

/// `sha2::Sha256::digest`: the SHA-256 digest of `data`, which is 32 bytes long.
#[verifier::external_body]
fn sha256_digest(data: &[u8]) -> (digest: Vec<u8>)
    ensures
        digest@ == sha256(data@),
        digest@.len() == 32,
{
    sha2::Sha256::digest(data).to_vec()
}

/// The hexadecimal digit of a value below sixteen, in lower case.
pub open spec fn hex_digit(n: nat) -> char {
    if n == 0 {
        '0'
    } else if n == 1 {
        '1'
    } else if n == 2 {
        '2'
    } else if n == 3 {
        '3'
    } else if n == 4 {
        '4'
    } else if n == 5 {
        '5'
    } else if n == 6 {
        '6'
    } else if n == 7 {
        '7'
    } else if n == 8 {
        '8'
    } else if n == 9 {
        '9'
    } else if n == 10 {
        'a'
    } else if n == 11 {
        'b'
    } else if n == 12 {
        'c'
    } else if n == 13 {
        'd'
    } else if n == 14 {
        'e'
    } else {
        'f'
    }
}

/// Whether a character is a lower-case hexadecimal digit.
pub open spec fn is_hex_digit(c: char) -> bool {
    ('0' <= c <= '9') || ('a' <= c <= 'f')
}

/// Two lower-case hexadecimal digits for each byte, the high one first.
pub open spec fn hex_lower(bytes: Seq<u8>) -> Seq<char>
    decreases bytes.len(),
{
    if bytes.len() == 0 {
        Seq::empty()
    } else {
        hex_lower(bytes.drop_last()).push(hex_digit((bytes.last() / 16) as nat)).push(
            hex_digit((bytes.last() % 16) as nat),
        )
    }
}

/// The encoding is twice as long as the bytes and holds hexadecimal digits only.
pub proof fn lemma_hex_lower_shape(bytes: Seq<u8>)
    ensures
        hex_lower(bytes).len() == 2 * bytes.len(),
        forall|i: int| 0 <= i < hex_lower(bytes).len() ==> is_hex_digit(#[trigger] hex_lower(bytes)[i]),
    decreases bytes.len(),
{
    if bytes.len() > 0 {
        lemma_hex_lower_shape(bytes.drop_last());
    }
}

/// Bytes with different encodings differ, and bytes that differ have different encodings.
pub proof fn lemma_hex_lower_injective(a: Seq<u8>, b: Seq<u8>)
    requires
        hex_lower(a) == hex_lower(b),
    ensures
        a == b,
    decreases a.len(),
{
    lemma_hex_lower_shape(a);
    lemma_hex_lower_shape(b);
    if a.len() > 0 {
        let ha = hex_lower(a);
        let hb = hex_lower(b);
        let pa = hex_lower(a.drop_last());
        let pb = hex_lower(b.drop_last());
        lemma_hex_lower_shape(a.drop_last());
        lemma_hex_lower_shape(b.drop_last());
        assert(ha[ha.len() - 1] == hex_digit((a.last() % 16) as nat));
        assert(ha[ha.len() - 2] == hex_digit((a.last() / 16) as nat));
        assert(hb[hb.len() - 1] == hex_digit((b.last() % 16) as nat));
        assert(hb[hb.len() - 2] == hex_digit((b.last() / 16) as nat));
        assert(a.last() == b.last());
        assert(pa =~= ha.take(ha.len() - 2));
        assert(pb =~= hb.take(hb.len() - 2));
        lemma_hex_lower_injective(a.drop_last(), b.drop_last());
        assert(a =~= a.drop_last().push(a.last()));
        assert(b =~= b.drop_last().push(b.last()));
    } else {
        assert(a =~= b);
    }
}

pub(crate) fn hex_char(n: u8) -> (c: char)
    requires
        n < 16,
    ensures
        c == hex_digit(n as nat),
{
    if n == 0 {
        '0'
    } else if n == 1 {
        '1'
    } else if n == 2 {
        '2'
    } else if n == 3 {
        '3'
    } else if n == 4 {
        '4'
    } else if n == 5 {
        '5'
    } else if n == 6 {
        '6'
    } else if n == 7 {
        '7'
    } else if n == 8 {
        '8'
    } else if n == 9 {
        '9'
    } else if n == 10 {
        'a'
    } else if n == 11 {
        'b'
    } else if n == 12 {
        'c'
    } else if n == 13 {
        'd'
    } else if n == 14 {
        'e'
    } else {
        'f'
    }
}

/// Writes bytes in lower-case hexadecimal.
pub fn hex_string(bytes: &Vec<u8>) -> (text: String)
    ensures
        text@ == hex_lower(bytes@),
{
    let mut text = String::new();
    let mut i: usize = 0;
    while i < bytes.len()
        invariant
            i <= bytes.len(),
            text@ == hex_lower(bytes@.take(i as int)),
        decreases bytes.len() - i,
    {
        let byte = bytes[i];
        proof {
            let next = bytes@.take(i + 1);
            assert(next.drop_last() =~= bytes@.take(i as int));
            assert(next.last() == byte);
        }
        text.push(hex_char(byte / 16));
        text.push(hex_char(byte % 16));
        i += 1;
    }
    proof {
        assert(bytes@.take(bytes.len() as int) =~= bytes@);
    }
    text
}

/// The key of a digest in a namespace: the namespace, a colon, and the digest in
/// hexadecimal.
pub open spec fn digest_key(prefix: Seq<char>, digest: Seq<u8>) -> Seq<char> {
    prefix + ":"@ + hex_lower(digest)
}

/// The key under which the response to a payload is cached in a namespace.
pub open spec fn cache_key(prefix: Seq<char>, payload: Seq<char>) -> Seq<char> {
    digest_key(prefix, sha256(encode_utf8(payload)))
}

/// Writes the key of a digest.
pub fn key_for_digest(prefix: &str, digest: &Vec<u8>) -> (key: String)
    ensures
        key@ == digest_key(prefix@, digest@),
        key@.len() == prefix@.len() + 1 + 2 * digest@.len(),
{
    let hex = hex_string(digest);
    proof {
        lemma_hex_lower_shape(digest@);
        reveal_strlit(":");
    }
    let mut key = prefix.to_owned();
    key.append(":");
    key.append(hex.as_str());
    key
}

/// Derives the cache key of a canonical payload: `prefix`, a colon, and the 64 hexadecimal
/// digits of the SHA-256 of the payload in UTF-8.
pub fn generate_cache_key(prefix: &str, data: &str) -> (key: String)
    ensures
        key@ == cache_key(prefix@, data@),
        key@.len() == prefix@.len() + 65,
{
    let digest = sha256_digest(data.as_bytes());
    key_for_digest(prefix, &digest)
}

/// Keys of one namespace are equal only where the digests are.
pub proof fn lemma_digest_key_injective(prefix: Seq<char>, a: Seq<u8>, b: Seq<u8>)
    requires
        digest_key(prefix, a) == digest_key(prefix, b),
    ensures
        a == b,
{
    let head = prefix + ":"@;
    assert(hex_lower(a) =~= digest_key(prefix, a).skip(head.len() as int));
    assert(hex_lower(b) =~= digest_key(prefix, b).skip(head.len() as int));
    lemma_hex_lower_injective(a, b);
}

} // verus!
