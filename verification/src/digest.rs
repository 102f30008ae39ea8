//! Content digests in their textual `sha256:<hex>` form.
use crate::text::{chars_of, lower_hex, lower_hex_string, str_eq};
use crate::replicate::Replicate;
use vstd::prelude::*;

verus! {

/// The SHA-256 hash of a byte string.
pub uninterp spec fn sha256_of(data: Seq<u8>) -> Seq<u8>;

/// Calls `sha2::Sha256::digest`. Trusted: the result is the 32-byte SHA-256
/// hash of `data`, named `sha256_of`.
#[verifier::external_body]
fn sha256_bytes(data: &[u8]) -> (res: Vec<u8>)
    ensures
        res@ == sha256_of(data@),
        res@.len() == 32,
{
    <sha2::Sha256 as sha2::Digest>::digest(data).to_vec()
}

/// A digest written as the algorithm name, a colon and the hash value.
#[derive(Clone, Debug, PartialEq, Eq, PartialOrd, Ord, Hash)]
pub struct Digest {
    value: String,
}

impl View for Digest {
    type V = Seq<char>;

    closed spec fn view(&self) -> Seq<char> {
        self.value@
    }
}

pub open spec fn is_lower_hex_char(c: char) -> bool {
    ('0' <= c && c <= '9') || ('a' <= c && c <= 'f')
}

/// `sha256:` followed by 64 lowercase hexadecimal digits.
pub open spec fn valid_sha256_text(s: Seq<char>) -> bool {
    &&& s.len() == 71
    &&& s.take(7) == "sha256:"@
    &&& forall|i: int| 7 <= i < 71 ==> is_lower_hex_char(#[trigger] s[i])
}

/// The textual digest of `data`.
pub open spec fn sha256_text(data: Seq<u8>) -> Seq<char> {
    "sha256:"@ + lower_hex(sha256_of(data))
}

/// The lowercase hexadecimal SHA-256 hash of `data`.
pub fn sha256_hex(data: &[u8]) -> (s: String)
    ensures
        s@ == lower_hex(sha256_of(data@)),
        sha256_of(data@).len() == 32,
        s@.len() == 64,
{
    let hash = sha256_bytes(data);
    proof {
        lemma_lower_hex_shape(hash@);
    }
    lower_hex_string(hash.as_slice())
}

impl Digest {
    /// A digest holding the given text as it is.
    pub fn from_text(text: String) -> (d: Digest)
        ensures
            d@ == text@,
    {
        Digest { value: text }
    }

    pub fn as_str(&self) -> (s: &str)
        ensures
            s@ == self@,
    {
        self.value.as_str()
    }

    /// The SHA-256 digest of `data`.
    pub fn sha256(data: &[u8]) -> (d: Digest)
        ensures
            d@ == sha256_text(data@),
            valid_sha256_text(d@),
    {
        let hex = sha256_hex(data);
        proof {
            digest_text_is_valid(data@);
        }
        let mut value = "sha256:".to_owned();
        value.append(hex.as_str());
        Digest { value }
    }

    /// Whether the digest is a well-formed SHA-256 digest.
    pub fn is_valid_sha256(&self) -> (r: bool)
        ensures
            r == valid_sha256_text(self@),
    {
        let cs = chars_of(self.value.as_str());
        if cs.len() != 71 {
            return false;
        }
        let prefix = chars_of("sha256:");
        proof {
            reveal_strlit("sha256:");
        }
        for i in 0..7
            invariant
                cs@ == self@,
                cs@.len() == 71,
                prefix@ == "sha256:"@,
                prefix@.len() == 7,
                forall|k: int| 0 <= k < i ==> cs@[k] == prefix@[k],
        {
            if cs[i] != prefix[i] {
                assert(cs@.take(7)[i as int] != "sha256:"@[i as int]);
                return false;
            }
        }
        assert(cs@.take(7) =~= "sha256:"@);
        for i in 7..71
            invariant
                cs@ == self@,
                cs@.len() == 71,
                forall|k: int| 7 <= k < i ==> is_lower_hex_char(#[trigger] cs@[k]),
        {
            let c = cs[i];
            if !(('0' <= c && c <= '9') || ('a' <= c && c <= 'f')) {
                return false;
            }
        }
        true
    }

    /// Digest equality by text.
    pub fn same_as(&self, other: &Digest) -> (r: bool)
        ensures
            r == (self@ == other@),
    {
        str_eq(self.value.as_str(), other.value.as_str())
    }
}

proof fn lemma_lower_hex_shape(bytes: Seq<u8>)
    ensures
        lower_hex(bytes).len() == 2 * bytes.len(),
        forall|i: int| 0 <= i < lower_hex(bytes).len() ==> is_lower_hex_char(
            #[trigger] lower_hex(bytes)[i],
        ),
    decreases bytes.len(),
{
    if bytes.len() > 0 {
        lemma_lower_hex_shape(bytes.drop_last());
        let prev = lower_hex(bytes.drop_last());
        let hi = (bytes.last() / 16) as nat;
        let lo = (bytes.last() % 16) as nat;
        assert(lower_hex(bytes) == prev + seq![
            crate::text::hex_digit(hi),
            crate::text::hex_digit(lo),
        ]);
        assert forall|i: int| 0 <= i < lower_hex(bytes).len() implies is_lower_hex_char(
            #[trigger] lower_hex(bytes)[i],
        ) by {
            if i >= prev.len() {
                let d = if i == prev.len() {
                    hi
                } else {
                    lo
                };
                assert(d < 16);
                assert(lower_hex(bytes)[i] == crate::text::hex_digit(d));
            } else {
                assert(lower_hex(bytes)[i] == prev[i]);
            }
        }
    }
}

proof fn digest_text_is_valid(data: Seq<u8>)
    requires
        sha256_of(data).len() == 32,
    ensures
        valid_sha256_text(sha256_text(data)),
{
    reveal_strlit("sha256:");
    lemma_lower_hex_shape(sha256_of(data));
    let s = sha256_text(data);
    assert(s.take(7) =~= "sha256:"@);
    assert forall|i: int| 7 <= i < 71 implies is_lower_hex_char(#[trigger] s[i]) by {
        assert(s[i] == lower_hex(sha256_of(data))[i - 7]);
    }
}

impl DeepView for Digest {
    type V = Digest;

    open spec fn deep_view(&self) -> Digest {
        *self
    }
}

impl Replicate for Digest {
    fn replicate(&self) -> (r: Self) {
        Digest {
            value: self.value.clone(),
        }
    }
}

} // verus!
