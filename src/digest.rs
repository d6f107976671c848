//! SHA-256 digests as lower-case hex, and where a digest's blob is stored.
use vstd::prelude::*;
use vstd::string::*;

verus! {

/// The SHA-256 digest of `bytes`, written as 64 lower-case hex digits.
pub uninterp spec fn sha256_hex(bytes: Seq<u8>) -> Seq<char>;

pub open spec fn is_lower_hex_char(c: char) -> bool {
    ('0' <= c && c <= '9') || ('a' <= c && c <= 'f')
}

/// A digest as this layout carries it: 64 lower-case hex digits.
pub open spec fn is_hex_digest(s: Seq<char>) -> bool {
    s.len() == 64 && forall|i: int| 0 <= i < s.len() ==> #[trigger] is_lower_hex_char(s[i])
}

/// Whether `s` is 64 lower-case hex digits.
pub fn is_hex_digest_text(s: &str) -> (r: bool)
    ensures
        r == is_hex_digest(s@),
{
    let n = s.unicode_len();
    if n != 64 {
        return false;
    }
    let mut i: usize = 0;
    while i < n
        invariant
            n == s@.len(),
            i <= n,
            forall|k: int| 0 <= k < i ==> #[trigger] is_lower_hex_char(s@[k]),
        decreases n - i,
    {
        let c = s.get_char(i);
        if !(('0' <= c && c <= '9') || ('a' <= c && c <= 'f')) {
            assert(!is_lower_hex_char(s@[i as int]));
            return false;
        }
        i = i + 1;
    }
    true
}

/// The two lower-case hex digits of each byte, in order.
pub open spec fn hex_lower(b: Seq<u8>) -> Seq<char>
    decreases b.len(),
{
    if b.len() == 0 {
        seq![]
    } else {
        hex_lower(b.drop_last()) + seq![
            crate::json::hex_digit((b.last() / 16) as u32),
            crate::json::hex_digit((b.last() % 16) as u32),
        ]
    }
}

/// The digest as documents carry it: with its algorithm in front.
pub open spec fn prefixed(hex: Seq<char>) -> Seq<char> {
    "sha256:"@ + hex
}

/// Where the blob with this digest is stored, relative to the layout's root.
pub open spec fn blob_path(hex: Seq<char>) -> Seq<char> {
    "blobs/sha256/"@ + hex
}

/// Relies on sha256::digest: SHA-256 of the string's UTF-8 bytes, hex-encoded
/// in lower case.
#[verifier::external_body]
pub(crate) fn sha256_of_text(s: &str) -> (r: String)
    ensures
        r@ == sha256_hex(s.spec_bytes()),
{
    sha256::digest(s)
}

/// Relies on data_encoding::HEXLOWER.encode: two lower-case hex digits per
/// byte, in order.
#[verifier::external_body]
pub(crate) fn hex_encode(b: &[u8]) -> (r: String)
    ensures
        r@ == hex_lower(b@),
{
    data_encoding::HEXLOWER.encode(b)
}

/// `"sha256:"` followed by `hex`.
pub fn prefixed_text(hex: &str) -> (r: String)
    ensures
        r@ == prefixed(hex@),
{
    let s = String::from_str("sha256:");
    proof {
        reveal_strlit("sha256:");
    }
    s.concat(hex)
}

/// `"blobs/sha256/"` followed by `hex`.
pub fn blob_path_text(hex: &str) -> (r: String)
    ensures
        r@ == blob_path(hex@),
{
    let s = String::from_str("blobs/sha256/");
    proof {
        reveal_strlit("blobs/sha256/");
    }
    s.concat(hex)
}

} // verus!
