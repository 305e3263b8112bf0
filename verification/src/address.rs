//! Payment address codec.
//!
//! An address is `pay:sov:` followed by the base58 form of a 32-byte
//! public key with a 4-byte checksum appended.  The checksum is the
//! leading 4 bytes of the SHA-256 digest of the key.  Base58 uses the
//! Bitcoin alphabet; case is significant and surrounding whitespace
//! is never stripped, so a padded or re-cased address simply fails to
//! decode.

use vstd::prelude::*;
use crate::errors::AddressError;
use crate::strutil::str_eq;
use sha2::Digest;

verus! {

/// The method prefix the host routes by.
pub open spec fn spec_prefix() -> Seq<char> {
    seq!['p', 'a', 'y', ':', 's', 'o', 'v', ':']
}

/// Characters of the Bitcoin base58 alphabet: the digits and letters
/// without 0, O, I and l.
pub open spec fn is_b58_char(c: char) -> bool {
    (0x31 <= (c as u32) && (c as u32) <= 0x39) || (0x41 <= (c as u32) && (c as u32) <= 0x5a
        && c != 'I' && c != 'O') || (0x61 <= (c as u32) && (c as u32) <= 0x7a && c != 'l')
}

/// Base58 text of a byte string (Bitcoin alphabet).
pub uninterp spec fn b58_of(b: Seq<u8>) -> Seq<char>;

/// Bytes of a base58 text; `None` when a character is outside the
/// alphabet.
pub uninterp spec fn b58_bytes_of(s: Seq<char>) -> Option<Seq<u8>>;

/// SHA-256 digest of a byte string.
pub uninterp spec fn sha256_of(b: Seq<u8>) -> Seq<u8>;

/// Relies on bs58's encode with its default (Bitcoin) alphabet: the
/// output is determined by the input bytes alone, holds only alphabet
/// characters (at least one for a non-empty input), and decode maps
/// it back to exactly those bytes.
#[verifier::external_body]
fn b58_encode(b: &Vec<u8>) -> (r: String)
    ensures
        r@ == b58_of(b@),
        b58_bytes_of(r@) == Some(b@),
        forall|i: int| 0 <= i < r@.len() ==> is_b58_char(#[trigger] r@[i]),
        b@.len() > 0 ==> r@.len() > 0,
{
    bs58::encode(b.as_slice()).into_string()
}

/// Relies on bs58's decode with its default (Bitcoin) alphabet: a
/// string is accepted exactly when every character is in the
/// alphabet (so the empty string yields the empty byte string), and
/// an accepted string is the exact encoding of the returned bytes.
#[verifier::external_body]
fn b58_decode(s: &str) -> (r: Option<Vec<u8>>)
    ensures
        match r {
            Some(v) => b58_bytes_of(s@) == Some(v@) && b58_of(v@) == s@ && (forall|i: int|
                0 <= i < s@.len() ==> is_b58_char(#[trigger] s@[i])) && (s@.len() == 0
                ==> v@.len() == 0),
            None => b58_bytes_of(s@) is None && exists|i: int| 0 <= i < s@.len()
                && !is_b58_char(s@[i]),
        },
{
    match bs58::decode(s).into_vec() {
        Ok(v) => Some(v),
        Err(_) => None,
    }
}

/// Relies on sha2's Sha256: a 32-byte digest determined by the input
/// bytes alone.
#[verifier::external_body]
fn sha256(b: &Vec<u8>) -> (r: Vec<u8>)
    ensures
        r@ == sha256_of(b@),
        r@.len() == 32,
{
    let d = sha2::Sha256::digest(b.as_slice());
    d.to_vec()
}

/// The 4-byte checksum carried inside an address.
pub open spec fn spec_checksum(key: Seq<u8>) -> Seq<u8> {
    sha256_of(key).take(4)
}

/// The full text of the address of a 32-byte public key.
pub open spec fn spec_encode_address(key: Seq<u8>) -> Seq<char> {
    spec_prefix() + b58_of(key + spec_checksum(key))
}

pub open spec fn spec_has_prefix(s: Seq<char>) -> bool {
    s.len() >= 8 && s.take(8) == spec_prefix()
}

/// What decoding an address text yields: the 32-byte key, or the
/// first reason the text is not an address.
pub open spec fn spec_decode_address(s: Seq<char>) -> Result<Seq<u8>, AddressError> {
    if !spec_has_prefix(s) {
        Err(AddressError::MissingPrefix)
    } else {
        match b58_bytes_of(s.skip(8)) {
            None => Err(AddressError::BadBase58),
            Some(w) => {
                if w.len() != 36 {
                    Err(AddressError::BadLength)
                } else if w.skip(32) != sha256_of(w.take(32)).take(4) {
                    Err(AddressError::BadChecksum)
                } else {
                    Ok(w.take(32))
                }
            },
        }
    }
}

/// Prefix strictness: a text that does not begin with exactly
/// `pay:sov:` never decodes, whatever follows.
pub proof fn lemma_prefix_strictness(s: Seq<char>)
    requires
        !spec_has_prefix(s),
    ensures
        spec_decode_address(s) == Err::<Seq<u8>, AddressError>(AddressError::MissingPrefix),
{
}

/// Build the address of a 32-byte public key.  Decoding the result
/// yields the key back: the codec round-trips.  The text is the
/// prefix followed by a non-empty run of base58 characters.
pub fn encode_address(key: &Vec<u8>) -> (r: String)
    requires
        key@.len() == 32,
    ensures
        r@ == spec_encode_address(key@),
        spec_decode_address(r@) == Ok::<Seq<u8>, AddressError>(key@),
        r@.len() > 8,
        r@.take(8) == spec_prefix(),
        forall|i: int| 8 <= i < r@.len() ==> is_b58_char(#[trigger] r@[i]),
{
    let digest = sha256(key);
    let mut data: Vec<u8> = Vec::new();
    let mut i: usize = 0;
    while i < key.len()
        invariant
            key@.len() == 32,
            i <= 32,
            data@ == key@.take(i as int),
        decreases key@.len() - i,
    {
        data.push(key[i]);
        proof {
            assert(key@.take((i + 1) as int) =~= key@.take(i as int).push(key@[i as int]));
        }
        i = i + 1;
    }
    proof {
        assert(data@ =~= key@);
    }
    let mut i: usize = 0;
    while i < 4
        invariant
            digest@ == sha256_of(key@),
            digest@.len() == 32,
            i <= 4,
            data@ == key@ + digest@.take(i as int),
        decreases 4 - i,
    {
        data.push(digest[i]);
        proof {
            assert(digest@.take((i + 1) as int) =~= digest@.take(i as int).push(
                digest@[i as int]));
            assert(key@ + digest@.take((i + 1) as int) =~= (key@ + digest@.take(i as int)).push(
                digest@[i as int]));
        }
        i = i + 1;
    }
    proof {
        assert(data@ =~= key@ + spec_checksum(key@));
    }
    let body = b58_encode(&data);
    let mut out = String::from_str("pay:sov:");
    proof {
        reveal_strlit("pay:sov:");
        assert(out@ =~= spec_prefix());
    }
    out.append(body.as_str());
    proof {
        assert(out@ =~= spec_encode_address(key@));
        assert(out@.take(8) =~= spec_prefix());
        assert(out@.skip(8) =~= body@);
        let w = data@;
        assert(w.len() == 36);
        assert(w.take(32) =~= key@);
        assert(w.skip(32) =~= spec_checksum(key@));
        assert(spec_decode_address(out@) == Ok::<Seq<u8>, AddressError>(key@));
        assert forall|i: int| 8 <= i < out@.len() implies is_b58_char(#[trigger] out@[i]) by {
            assert(out@[i] == body@[i - 8]);
        }
    }
    out
}

/// Decode an address text to its 32-byte public key, or say exactly
/// why it is not an address.  On success the text is the canonical
/// address of the key: re-encoding yields it back.  A character
/// outside the base58 alphabet after the prefix (whitespace, say)
/// fails as bad base58, and a prefix with nothing after it fails the
/// length check.
pub fn decode_address(addr: &str) -> (r: Result<Vec<u8>, AddressError>)
    ensures
        match r {
            Ok(k) => spec_decode_address(addr@) == Ok::<Seq<u8>, AddressError>(k@)
                && k@.len() == 32 && spec_encode_address(k@) == addr@,
            Err(e) => spec_decode_address(addr@) == Err::<Seq<u8>, AddressError>(e),
        },
        spec_has_prefix(addr@) && (exists|i: int| 8 <= i < addr@.len() && !is_b58_char(
            addr@[i])) ==> spec_decode_address(addr@) == Err::<Seq<u8>, AddressError>(
            AddressError::BadBase58),
        spec_has_prefix(addr@) && addr@.len() == 8 ==> spec_decode_address(addr@) == Err::<
            Seq<u8>,
            AddressError,
        >(AddressError::BadLength),
{
    let len = addr.unicode_len();
    if len < 8 {
        proof {
            assert(!spec_has_prefix(addr@));
        }
        return Err(AddressError::MissingPrefix);
    }
    let head = addr.substring_char(0, 8);
    if !str_eq(head, "pay:sov:") {
        proof {
            reveal_strlit("pay:sov:");
            assert("pay:sov:"@ =~= spec_prefix());
            assert(head@ =~= addr@.take(8));
            assert(!spec_has_prefix(addr@));
        }
        return Err(AddressError::MissingPrefix);
    }
    proof {
        reveal_strlit("pay:sov:");
        assert("pay:sov:"@ =~= spec_prefix());
        assert(head@ =~= addr@.take(8));
        assert(addr@.take(8) =~= spec_prefix());
    }
    let body = addr.substring_char(8, len);
    proof {
        assert(body@ =~= addr@.skip(8));
    }
    let w = match b58_decode(body) {
        Some(w) => {
            proof {
                assert forall|i: int| 8 <= i < addr@.len() implies is_b58_char(
                    #[trigger] addr@[i]) by {
                    assert(addr@[i] == body@[i - 8]);
                }
                assert(addr@.len() == 8 ==> w@.len() == 0);
            }
            w
        },
        None => {
            proof {
                let ghost bad = choose|i: int| 0 <= i < body@.len() && !is_b58_char(body@[i]);
                if body@.len() > 0 {
                    assert(addr@[8 + bad] == body@[bad]);
                }
            }
            return Err(AddressError::BadBase58);
        },
    };
    if w.len() != 36 {
        return Err(AddressError::BadLength);
    }
    let mut key: Vec<u8> = Vec::new();
    let mut i: usize = 0;
    while i < 32
        invariant
            w@.len() == 36,
            i <= 32,
            key@ == w@.take(i as int),
        decreases 32 - i,
    {
        key.push(w[i]);
        proof {
            assert(w@.take((i + 1) as int) =~= w@.take(i as int).push(w@[i as int]));
        }
        i = i + 1;
    }
    proof {
        assert(key@ =~= w@.take(32));
    }
    let digest = sha256(&key);
    let mut i: usize = 0;
    let mut ok = true;
    while i < 4
        invariant
            w@.len() == 36,
            digest@.len() == 32,
            i <= 4,
            ok <==> forall|j: int| 0 <= j < i ==> w@[32 + j] == digest@[j],
        decreases 4 - i,
    {
        if w[32 + i] != digest[i] {
            ok = false;
        }
        i = i + 1;
    }
    if !ok {
        proof {
            assert(w@.skip(32) != sha256_of(w@.take(32)).take(4)) by {
                let ghost bad = choose|j: int| 0 <= j < 4 && w@[32 + j] != digest@[j];
                assert(w@.skip(32)[bad] != sha256_of(w@.take(32)).take(4)[bad]);
            };
        }
        return Err(AddressError::BadChecksum);
    }
    proof {
        assert(w@.skip(32) =~= sha256_of(w@.take(32)).take(4));
        assert(spec_decode_address(addr@) == Ok::<Seq<u8>, AddressError>(w@.take(32)));
        assert(w@.take(32) + spec_checksum(w@.take(32)) =~= w@);
        assert(spec_encode_address(key@) =~= addr@);
    }
    Ok(key)
}

/// The 32-byte key a base58 verkey text denotes, if it denotes one.
/// The host's wallet hands keys over in this form; anything that is
/// not the base58 coding of exactly 32 bytes is refused.
pub fn key_from_verkey(verkey: &str) -> (r: Option<Vec<u8>>)
    ensures
        match r {
            Some(k) => b58_bytes_of(verkey@) == Some(k@) && k@.len() == 32,
            None => match b58_bytes_of(verkey@) {
                Some(b) => b.len() != 32,
                None => true,
            },
        },
{
    match b58_decode(verkey) {
        Some(k) => {
            if k.len() == 32 {
                Some(k)
            } else {
                None
            }
        },
        None => None,
    }
}

/// Check an address text without keeping the key.  The codec's edge
/// cases carry over: after the prefix, a character outside the
/// alphabet fails as bad base58, and an empty body fails the length
/// check.
pub fn validate_address(addr: &str) -> (r: Result<(), AddressError>)
    ensures
        match r {
            Ok(()) => spec_decode_address(addr@) is Ok,
            Err(e) => spec_decode_address(addr@) == Err::<Seq<u8>, AddressError>(e),
        },
        spec_has_prefix(addr@) && (exists|i: int| 8 <= i < addr@.len() && !is_b58_char(
            addr@[i])) ==> r == Err::<(), AddressError>(AddressError::BadBase58),
        spec_has_prefix(addr@) && addr@.len() == 8 ==> r == Err::<(), AddressError>(
            AddressError::BadLength),
{
    match decode_address(addr) {
        Ok(_) => Ok(()),
        Err(e) => Err(e),
    }
}

} // verus!
