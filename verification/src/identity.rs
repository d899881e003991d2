//! Experimental semantic identities: `sha256:` followed by the lower-case hex SHA-256
//! digest of a canonical encoding.
use vstd::prelude::*;
use sha2::{Digest, Sha256};
use crate::text::{hex_char, hex_digit, push_char, text_from};
use crate::conversation::Conversation;
use crate::encode::semantic_conversation_json;

verus! {

/// The SHA-256 digest of a byte string.
pub uninterp spec fn sha256(data: Seq<u8>) -> Seq<u8>;

/// Calls `sha2::Sha256::digest`, which hashes `data` in one pass. The result is the
/// SHA-256 digest of `data`, 32 bytes long.
#[verifier::external_body]
fn sha256_digest(data: &[u8]) -> (d: Vec<u8>)
    ensures
        d@ == sha256(data@),
        d@.len() == 32,
{
    Sha256::digest(data).to_vec()
}

/// Bytes as lower-case hex, two digits per byte.
pub open spec fn hex_bytes(b: Seq<u8>) -> Seq<char>
    decreases b.len(),
{
    if b.len() == 0 {
        Seq::empty()
    } else {
        hex_bytes(b.drop_last()) + seq![hex_char((b.last() / 16) as nat), hex_char((b.last() % 16) as nat)]
    }
}

/// A lower-case hexadecimal digit.
pub open spec fn is_lower_hex(c: char) -> bool {
    ||| 48 <= c as u32 <= 57
    ||| 97 <= c as u32 <= 102
}

/// `sha256:` followed by 64 lower-case hexadecimal digits.
pub open spec fn is_sha256_text(s: Seq<char>) -> bool {
    &&& s.len() == 71
    &&& s.subrange(0, 7) == "sha256:"@
    &&& forall|i: int| 7 <= i < 71 ==> is_lower_hex(#[trigger] s[i])
}

/// The identity of an encoding.
pub open spec fn identity_of(encoded: Seq<u8>) -> Seq<char> {
    "sha256:"@ + hex_bytes(sha256(encoded))
}

/// The identity of a text, hashed as UTF-8.
pub open spec fn text_identity_of(text: Seq<char>) -> Seq<char> {
    identity_of(vstd::utf8::encode_utf8(text))
}

/// The identity of an encoding.
pub fn sha256_identity(encoded: &[u8]) -> (r: String)
    ensures
        r@ == identity_of(encoded@),
        is_sha256_text(r@),
{
    let digest = sha256_digest(encoded);
    let mut r = text_from("sha256:");
    let mut i: usize = 0;
    while i < digest.len()
        invariant
            i <= digest.len(),
            r@ == "sha256:"@ + hex_bytes(digest@.subrange(0, i as int)),
        decreases digest.len() - i,
    {
        let b = digest[i];
        assert(digest@.subrange(0, i + 1).drop_last() =~= digest@.subrange(0, i as int));
        push_char(&mut r, hex_digit(b / 16));
        push_char(&mut r, hex_digit(b % 16));
        assert(r@ =~= "sha256:"@ + hex_bytes(digest@.subrange(0, i + 1)));
        i = i + 1;
    }
    assert(digest@.subrange(0, digest.len() as int) =~= digest@);
    proof {
        lemma_hex_len(digest@);
        lemma_hex_lower(digest@);
        reveal_strlit("sha256:");
        assert(r@.subrange(0, 7) =~= "sha256:"@);
        assert forall|i: int| 7 <= i < 71 implies is_lower_hex(#[trigger] r@[i]) by {
            assert(r@[i] == hex_bytes(digest@)[i - 7]);
        }
    }
    r
}

proof fn lemma_hex_char_lower(d: nat)
    requires
        d < 16,
    ensures
        is_lower_hex(hex_char(d)),
{
}

proof fn lemma_hex_lower(b: Seq<u8>)
    ensures
        forall|i: int| 0 <= i < hex_bytes(b).len() ==> is_lower_hex(#[trigger] hex_bytes(b)[i]),
    decreases b.len(),
{
    if b.len() > 0 {
        lemma_hex_lower(b.drop_last());
        lemma_hex_len(b.drop_last());
        lemma_hex_char_lower((b.last() / 16) as nat);
        lemma_hex_char_lower((b.last() % 16) as nat);
        let prefix = hex_bytes(b.drop_last());
        assert forall|i: int| 0 <= i < hex_bytes(b).len() implies is_lower_hex(#[trigger] hex_bytes(b)[i]) by {
            if i < prefix.len() {
                assert(hex_bytes(b)[i] == prefix[i]);
            }
        }
    }
}

proof fn lemma_hex_len(b: Seq<u8>)
    ensures
        hex_bytes(b).len() == 2 * b.len(),
    decreases b.len(),
{
    if b.len() > 0 {
        lemma_hex_len(b.drop_last());
    }
}

/// The identity of a text.
pub fn text_identity(text: &str) -> (r: String)
    ensures
        r@ == text_identity_of(text@),
        is_sha256_text(r@),
{
    sha256_identity(text.as_bytes())
}

/// The semantic identity of a conversation: the identity of its semantic JSON form.
pub open spec fn conversation_identity_of(c: Conversation) -> Seq<char> {
    text_identity_of(semantic_conversation_json(c))
}

/// Conversations that differ only in their schema reference and annotations have the
/// same semantic identity.
pub proof fn law_identity_ignores_metadata(a: Conversation, b: Conversation)
    requires
        a.eve_conversation == b.eve_conversation,
        a.module == b.module,
        a.roles == b.roles,
        a.types == b.types,
        a.failures == b.failures,
        a.initial == b.initial,
        a.states == b.states,
    ensures
        conversation_identity_of(a) == conversation_identity_of(b),
{
}

} // verus!
