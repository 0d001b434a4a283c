//! The key service: key pairs for push notifications. The keys are
//! placeholders that are derived from a random identifier, not a real pair.

use vstd::prelude::*;
use vstd::string::StringSliceAdditionalSpecFns;
use vstd::utf8::encode_utf8;
use crate::encoding::{base64_url, base64_url_text, can_encode, encodable};
use crate::models::VapidKey;
use crate::text::joined;

verus! {

/// The key service.
#[derive(Debug)]
pub struct VapidKeyServiceImpl;

/// The number of characters of an identifier: 32 hexadecimal digits in
/// five groups, with a hyphen between two groups.
pub const UUID_LENGTH: usize = 36;

/// `Uuid::new_v4` of the `uuid` crate, displayed. Trusted: the text is
/// random, and of every outcome only its length is claimed. `Uuid` displays
/// itself in its hyphenated form, which the crate writes into a buffer of
/// `Hyphenated::LENGTH` bytes, 36, all of them hexadecimal digits or hyphens.
#[verifier::external_body]
fn random_uuid() -> (text: String)
    ensures
        text@.len() == UUID_LENGTH,
{
    uuid::Uuid::new_v4().to_string()
}

/// The key that is derived from an identifier: the URL-safe base64 text,
/// without padding, of `prefix` followed by the identifier.
pub open spec fn derived_key(prefix: Seq<char>, uuid: Seq<char>) -> Seq<char> {
    base64_url_text(encode_utf8(prefix + uuid))
}

/// `key` is the key pair of the identifier `uuid`.
pub open spec fn is_key_of(key: VapidKey, uuid: String) -> bool {
    &&& key.uuid == uuid
    &&& key.public_key@ == derived_key("public_key_"@, uuid@)
    &&& key.private_key@ == derived_key("private_key_"@, uuid@)
}

/// The UTF-8 encoding of a text has at most four bytes for every character.
proof fn lemma_encoding_length(chars: Seq<char>)
    ensures
        encode_utf8(chars).len() <= 4 * chars.len(),
    decreases chars.len(),
{
    if chars.len() > 0 {
        lemma_encoding_length(chars.drop_first());
    }
}

/// The encoder can hold a prefix of at most twelve characters followed by an
/// identifier of the usual length.
proof fn lemma_identifier_is_encodable(prefix: Seq<char>, uuid: Seq<char>)
    requires
        prefix.len() <= 12,
        uuid.len() == UUID_LENGTH,
    ensures
        encodable(encode_utf8(prefix + uuid).len()),
{
    lemma_encoding_length(prefix + uuid);
}

fn derive_key(prefix: &str, uuid: &str) -> (key: Option<String>)
    ensures
        match key {
            Some(key) => key@ == derived_key(prefix@, uuid@),
            None => !encodable(encode_utf8(prefix@ + uuid@).len()),
        },
{
    let text = joined(prefix, uuid);
    let bytes = text.as_str().as_bytes();
    if can_encode(bytes.len()) {
        Some(base64_url(bytes))
    } else {
        None
    }
}

impl VapidKeyServiceImpl {
    /// The key service.
    pub fn new() -> (service: Self)
        ensures
            service == VapidKeyServiceImpl,
    {
        VapidKeyServiceImpl
    }

    /// The key pair of the identifier `uuid`, or `None` where the identifier
    /// is too long for the encoder.
    pub fn generate_for(uuid: String) -> (key: Option<VapidKey>)
        ensures
            match key {
                Some(key) => is_key_of(key, uuid),
                None => !encodable(encode_utf8("public_key_"@ + uuid@).len()) || !encodable(
                    encode_utf8("private_key_"@ + uuid@).len(),
                ),
            },
    {
        let public_key = derive_key("public_key_", uuid.as_str());
        let private_key = derive_key("private_key_", uuid.as_str());
        match (public_key, private_key) {
            (Some(public_key), Some(private_key)) => Some(VapidKey { public_key, private_key, uuid }),
            _ => None,
        }
    }

    /// The key pair of a fresh random identifier. There always is one: the
    /// identifier has the usual length, which the encoder can hold.
    pub fn generate(&self) -> (key: Option<VapidKey>)
        ensures
            key matches Some(key) && is_key_of(key, key.uuid) && key.uuid@.len() == UUID_LENGTH,
    {
        let uuid = random_uuid();
        proof {
            reveal_strlit("public_key_");
            reveal_strlit("private_key_");
            lemma_identifier_is_encodable("public_key_"@, uuid@);
            lemma_identifier_is_encodable("private_key_"@, uuid@);
        }
        VapidKeyServiceImpl::generate_for(uuid)
    }
}

} // verus!
