//! Keys and the names that are made of them.
//!
//! A node is known by its ID52, the 52 characters that encode its public
//! key. What a key text means, and which ID52 belongs to a secret key, is
//! the business of `fastn_id52` and `data_encoding`: the functions that ask
//! them are trusted, and their contracts name what comes back.

use vstd::prelude::*;
use vstd::string::StringSliceAdditionalSpecFns;
use crate::encoding::{base32_text, hex_text};
use crate::text::{trim, trimmed};

verus! {

/// How many bytes a key has.
pub const KEY_BYTES: usize = 32;

/// How many characters an ID52 has.
pub const ID52_CHARS: usize = 52;

/// How many characters a secret key has when written in hexadecimal.
pub const HEX_KEY_CHARS: usize = 64;

/// The secret key that `fastn_id52::SecretKey::from_str` reads from `text`,
/// as its 32 bytes, or `None` where it reports an error.
pub uninterp spec fn secret_key_bytes(text: Seq<char>) -> Option<Seq<u8>>;

/// The public key that belongs to a secret key, as
/// `fastn_id52::SecretKey::public_key` derives it.
pub uninterp spec fn public_key_of(secret: Seq<u8>) -> Seq<u8>;

/// The ID52 of a public key: its bytes in the base 32 of DNSSEC.
pub open spec fn id52_text(public: Seq<u8>) -> Seq<char> {
    base32_text(public)
}

/// The ID52 under which the holder of a secret key is known: that of the
/// public key that belongs to it.
pub open spec fn public_id52(secret: Seq<u8>) -> Seq<char> {
    id52_text(public_key_of(secret))
}

/// The public key that `fastn_id52::PublicKey::from_str` reads from an ID52,
/// as its 32 bytes, or `None` where it reports an error.
pub uninterp spec fn public_key_bytes(id52: Seq<char>) -> Option<Seq<u8>>;

/// Trusted: `fastn_id52::SecretKey::from_str` followed by `to_bytes`.
///
/// The text is read as hexadecimal when it is 64 bytes long and as base 32
/// otherwise. The decoder behind it fills a buffer of 32 bytes and panics
/// where the length of the text does not fit that buffer, which is why only
/// texts of 64 or 52 bytes are let through.
#[verifier::external_body]
pub(crate) fn decode_secret_key(text: &str) -> (secret: Option<[u8; 32]>)
    requires
        text.spec_bytes().len() == HEX_KEY_CHARS || text.spec_bytes().len() == ID52_CHARS,
    ensures
        match secret {
            Some(bytes) => secret_key_bytes(text@) == Some(bytes@),
            None => secret_key_bytes(text@).is_none(),
        },
{
    match <fastn_id52::SecretKey as std::str::FromStr>::from_str(text) {
        Ok(key) => Some(key.to_bytes()),
        Err(_) => None,
    }
}

/// Trusted: `fastn_id52::SecretKey::from_bytes` followed by `id52`, which
/// derives the public key and writes its bytes with
/// `data_encoding::BASE32_DNSSEC`.
#[verifier::external_body]
pub(crate) fn secret_key_id52(secret: &[u8; 32]) -> (id52: String)
    ensures
        id52@ == id52_text(public_key_of(secret@)),
{
    fastn_id52::SecretKey::from_bytes(secret).id52()
}

/// Trusted: `data_encoding::BASE32_DNSSEC.encode` on the bytes of a public
/// key: base 32 with the digits `0` to `9` and `a` to `v`, the highest bits
/// first, without padding.
#[verifier::external_body]
pub(crate) fn encode_id52(public: &[u8; 32]) -> (id52: String)
    ensures
        id52@ == id52_text(public@),
{
    data_encoding::BASE32_DNSSEC.encode(public)
}

/// Trusted: `fastn_id52::PublicKey::from_str` followed by `to_bytes`. Only a
/// text of 52 bytes is handed over: no other length is an ID52.
#[verifier::external_body]
pub(crate) fn decode_public_key(id52: &str) -> (public: Option<[u8; 32]>)
    requires
        id52.spec_bytes().len() == ID52_CHARS,
    ensures
        match public {
            Some(bytes) => public_key_bytes(id52@) == Some(bytes@),
            None => public_key_bytes(id52@).is_none(),
        },
{
    match <fastn_id52::PublicKey as std::str::FromStr>::from_str(id52) {
        Ok(key) => Some(key.to_bytes()),
        Err(_) => None,
    }
}

/// An ID52 has 52 characters, and a secret key in hexadecimal has 64.
pub proof fn lemma_key_text_lengths(key: Seq<u8>)
    requires
        key.len() == KEY_BYTES,
    ensures
        id52_text(key).len() == ID52_CHARS,
        hex_text(key).len() == HEX_KEY_CHARS,
{
}

/// A secret key and the name that goes with it.
#[derive(Debug)]
pub struct Identity {
    pub secret_key: [u8; 32],
    pub id52: String,
}

/// An identity, as the contracts see it.
pub struct IdentityView {
    pub secret_key: Seq<u8>,
    pub id52: Seq<char>,
}

impl View for Identity {
    type V = IdentityView;

    open spec fn view(&self) -> IdentityView {
        IdentityView { secret_key: self.secret_key@, id52: self.id52@ }
    }
}

/// The identity that the content of a key file stands for: the text without
/// the white space around it, read as a secret key. A text that is neither 64
/// nor 52 bytes long is no key.
pub open spec fn spec_read_identity(content: Seq<char>) -> Option<IdentityView> {
    let text = trimmed(content);
    let length = vstd::utf8::encode_utf8(text).len();
    if length == HEX_KEY_CHARS || length == ID52_CHARS {
        match secret_key_bytes(text) {
            Some(secret) => Some(IdentityView { secret_key: secret, id52: public_id52(secret) }),
            None => None,
        }
    } else {
        None
    }
}

/// Reads the identity that a key file holds.
pub fn read_identity(content: &str) -> (identity: Option<Identity>)
    ensures
        match identity {
            Some(found) => spec_read_identity(content@) == Some(found@),
            None => spec_read_identity(content@).is_none(),
        },
{
    let text = trim(content);
    let length = text.as_bytes().len();
    if length == HEX_KEY_CHARS || length == ID52_CHARS {
        match decode_secret_key(text) {
            Some(secret_key) => {
                let id52 = secret_key_id52(&secret_key);
                Some(Identity { secret_key, id52 })
            },
            None => None,
        }
    } else {
        None
    }
}

/// The name of the peer at the far end of a connection, from the bytes of
/// its public key.
pub fn get_remote_id52(public_key: &[u8; 32]) -> (id52: String)
    ensures
        id52@ == id52_text(public_key@),
{
    encode_id52(public_key)
}

/// The public key that an ID52 names, where it names one. A text that is not
/// 52 bytes long names none.
pub open spec fn spec_id52_to_public_key(id52: Seq<char>) -> Option<Seq<u8>> {
    if vstd::utf8::encode_utf8(id52).len() == ID52_CHARS {
        public_key_bytes(id52)
    } else {
        None
    }
}

/// Reads the public key that an ID52 names.
pub fn id52_to_public_key(id52: &str) -> (public: Option<[u8; 32]>)
    ensures
        match public {
            Some(bytes) => spec_id52_to_public_key(id52@) == Some(bytes@),
            None => spec_id52_to_public_key(id52@).is_none(),
        },
{
    if id52.as_bytes().len() == ID52_CHARS {
        decode_public_key(id52)
    } else {
        None
    }
}

/// Trusted: `data_encoding::HEXLOWER.encode` on the bytes of a secret key:
/// two hexadecimal digits in lower case for each byte. This is how
/// `fastn_id52` shows a secret key.
#[verifier::external_body]
pub(crate) fn encode_hex(secret: &[u8; 32]) -> (hex: String)
    ensures
        hex@ == hex_text(secret@),
{
    data_encoding::HEXLOWER.encode(secret)
}

/// Trusted: `fastn_id52::SecretKey::generate` followed by `to_bytes`. The
/// key comes from the random number generator of the system: nothing is
/// known of it.
#[verifier::external_body]
pub(crate) fn random_secret_key() -> (secret: [u8; 32]) {
    fastn_id52::SecretKey::generate().to_bytes()
}

/// What was found where a secret key is kept.
#[derive(Debug)]
pub enum KeyRead {
    Found(Vec<u8>),
    NotFound,
    /// The file could not be read, with the reason.
    Failed(String),
}

/// What to do about a secret key that is kept in a file.
#[derive(Debug)]
pub enum KeyStep {
    /// Use this key.
    Use(Identity),
    /// Write this new key to the file, then use it.
    Create(Identity),
    /// The file holds something that is no key.
    Invalid,
    /// Give up, with the reason.
    Fail(String),
}

/// The identity of a node that is known by its ID52 alone.
#[derive(Debug)]
pub struct PublicIdentity {
    pub id52: String,
    pub public_key: [u8; 32],
}

/// The two ends of a connection.
#[derive(Debug)]
pub struct PeerIdentity {
    pub self_id52: String,
    pub fastn_port: u16,
    pub self_public_key: [u8; 32],
    pub peer_public_key: [u8; 32],
}

impl Identity {
    /// The identity of the holder of a secret key.
    pub fn from_secret(secret_key: [u8; 32]) -> (identity: Identity)
        ensures
            identity.secret_key == secret_key,
            identity.id52@ == public_id52(secret_key@),
    {
        let id52 = secret_key_id52(&secret_key);
        Identity { secret_key, id52 }
    }

    /// A new identity, from a key that the system's random number generator
    /// makes.
    pub fn generate() -> (identity: Identity)
        ensures
            identity.id52@ == public_id52(identity.secret_key@),
    {
        Identity::from_secret(random_secret_key())
    }

    /// The secret key as it is written to a file: in hexadecimal.
    pub fn secret_hex(&self) -> (hex: String)
        ensures
            hex@ == hex_text(self.secret_key@),
    {
        encode_hex(&self.secret_key)
    }
}

impl PublicIdentity {
    /// The identity that an ID52 names, with the ID52 written as the key
    /// encodes; `None` where the text names no key.
    pub fn from_id52(id: &str) -> (identity: Option<PublicIdentity>)
        ensures
            match identity {
                Some(found) => spec_id52_to_public_key(id@) == Some(found.public_key@)
                    && found.id52@ == id52_text(found.public_key@),
                None => spec_id52_to_public_key(id@).is_none(),
            },
    {
        match id52_to_public_key(id) {
            Some(public_key) => Some(PublicIdentity { id52: encode_id52(&public_key), public_key }),
            None => None,
        }
    }

    /// This identity and a peer's, for a connection between the two; `None`
    /// where the peer's ID52 names no key.
    pub fn peer_identity(&self, fastn_port: u16, peer_id: &str) -> (pair: Option<PeerIdentity>)
        ensures
            match pair {
                Some(found) => {
                    &&& spec_id52_to_public_key(peer_id@) == Some(found.peer_public_key@)
                    &&& found.self_id52 == self.id52
                    &&& found.self_public_key == self.public_key
                    &&& found.fastn_port == fastn_port
                },
                None => spec_id52_to_public_key(peer_id@).is_none(),
            },
    {
        match id52_to_public_key(peer_id) {
            Some(peer_public_key) => Some(
                PeerIdentity {
                    self_id52: self.id52.clone(),
                    fastn_port,
                    self_public_key: self.public_key,
                    peer_public_key,
                },
            ),
            None => None,
        }
    }
}

/// The secret key that the content of a key file holds as raw bytes: the
/// file must hold exactly 32 of them.
pub fn get_secret_key(content: &[u8]) -> (secret: Option<[u8; 32]>)
    ensures
        match secret {
            Some(key) => content@.len() == KEY_BYTES && key@ == content@,
            None => content@.len() != KEY_BYTES,
        },
{
    if content.len() != KEY_BYTES {
        return None;
    }
    let mut key = [0u8; 32];
    let mut i: usize = 0;
    while i < KEY_BYTES
        invariant
            i <= KEY_BYTES,
            content@.len() == KEY_BYTES,
            forall|j: int| 0 <= j < i ==> key@[j] == content@[j],
        decreases KEY_BYTES - i,
    {
        key[i] = content[i];
        i += 1;
    }
    assert(key@ =~= content@);
    Some(key)
}

/// What to do about a secret key that is kept in a file: use the key that
/// the file holds, or make a new one where there is no file; give up where
/// the file cannot be read, or does not hold 32 bytes.
pub fn read_or_create_secret_key(read: KeyRead) -> (step: KeyStep)
    ensures
        match read {
            KeyRead::Found(content) => if content@.len() == KEY_BYTES {
                &&& step matches KeyStep::Use(identity)
                &&& identity.secret_key@ == content@
                &&& identity.id52@ == public_id52(content@)
            } else {
                step is Invalid
            },
            KeyRead::NotFound => step matches KeyStep::Create(identity) && identity.id52@
                == public_id52(identity.secret_key@),
            KeyRead::Failed(reason) => step matches KeyStep::Fail(text) && text == reason,
        },
{
    match read {
        KeyRead::Found(content) => match get_secret_key(content.as_slice()) {
            Some(secret) => KeyStep::Use(Identity::from_secret(secret)),
            None => KeyStep::Invalid,
        },
        KeyRead::NotFound => KeyStep::Create(Identity::generate()),
        KeyRead::Failed(reason) => KeyStep::Fail(reason),
    }
}

} // verus!
