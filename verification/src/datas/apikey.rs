//! API keys, of which only a hash of a prefix is stored.

use argon2::password_hash::SaltString;
use argon2::{Argon2, PasswordHasher};
use vstd::prelude::*;
use vstd::utf8::{encode_utf8, is_char_boundary};

verus! {

/// How many bytes of the original API key are hashed.
pub const KEY_PART_LEN: usize = 12;

/// The static salt; only part of the key is hashed, so a per-key salt
/// would add nothing.
pub const SALT: &'static str = "staticsalt";

/// The PHC string that Argon2 with its default parameters computes for
/// `password` with the salt whose bytes are `salt`; `None` when the salt
/// cannot be encoded or hashing fails.
pub uninterp spec fn argon2_phc_hash(password: Seq<u8>, salt: Seq<u8>) -> Option<Seq<char>>;

/// Encodes `salt` with `SaltString::encode_b64`, hashes `password` with
/// `Argon2::default().hash_password` (argon2 0.5) and renders the
/// `PasswordHash` with `to_string`. With a fixed salt the hash depends on
/// the password and the salt alone; that is all this claims. A salt of
/// fewer than 3 bytes encodes to fewer than the 4 B64 characters a salt
/// needs, and `hash_password` then panics; more than 48 bytes do not fit
/// in a `SaltString`. Both are left out.
#[verifier::external_body]
fn argon2_hash(password: &[u8], salt: &[u8]) -> (res: Option<String>)
    requires
        3 <= salt@.len() <= 48,
    ensures
        match res {
            Some(h) => argon2_phc_hash(password@, salt@) == Some(h@),
            None => argon2_phc_hash(password@, salt@) is None,
        },
{
    let salt = SaltString::encode_b64(salt).ok()?;
    Argon2::default().hash_password(password, &salt).ok().map(|hash| hash.to_string())
}

/// Why a key could not be hashed.
#[derive(Debug)]
pub enum KeyError {
    /// The hash function reported an error.
    Hashing,
}

/// The hash of the first `KEY_PART_LEN` bytes of a key.
pub open spec fn spec_partial_hash(key: Seq<char>) -> Option<Seq<char>> {
    argon2_phc_hash(encode_utf8(key).subrange(0, KEY_PART_LEN as int), encode_utf8(SALT@))
}

/// Returns a hash based on a trimmed(!) API key
pub fn api_key_partial_hash(s: &str) -> (res: Result<String, KeyError>)
    requires
        encode_utf8(s@).len() > KEY_PART_LEN,
        is_char_boundary(encode_utf8(s@), KEY_PART_LEN as int),
    ensures
        match res {
            Ok(h) => spec_partial_hash(s@) == Some(h@),
            Err(KeyError::Hashing) => spec_partial_hash(s@) is None,
        },
{
    let (part, _) = s.split_at(KEY_PART_LEN);
    proof {
        reveal_strlit("staticsalt");
        assert(vstd::string::is_ascii(SALT));
        vstd::string::is_ascii_spec_bytes(SALT);
    }
    match argon2_hash(part.as_bytes(), SALT.as_bytes()) {
        Some(h) => Ok(h),
        None => Err(KeyError::Hashing),
    }
}

/// Only the first `KEY_PART_LEN` bytes of a key are hashed: two keys that
/// begin with the same bytes have the same hash.
pub proof fn law_partial_hash_reads_prefix_only(a: Seq<char>, b: Seq<char>)
    requires
        encode_utf8(a).len() >= KEY_PART_LEN,
        encode_utf8(b).len() >= KEY_PART_LEN,
        encode_utf8(a).subrange(0, KEY_PART_LEN as int) == encode_utf8(b).subrange(
            0,
            KEY_PART_LEN as int,
        ),
    ensures
        spec_partial_hash(a) == spec_partial_hash(b),
{
}

/// Contains a not yet persistet api key
#[derive(Debug)]
pub enum TransientApiKey {
    /// A key that has not yet been hashed
    Raw(String),
    /// A key that has already been hashed
    Hashed(String),
}

/// Represents a persistent API key
#[derive(Clone, Debug, Eq, PartialEq)]
pub struct ApiKey {
    pub id: i64,
    pub hash: String,
    pub note: Option<String>,
}

/// A raw key that can be hashed: long enough, and cut on a character
/// boundary.
pub open spec fn hashable_key(key: Seq<char>) -> bool {
    &&& encode_utf8(key).len() > KEY_PART_LEN
    &&& is_char_boundary(encode_utf8(key), KEY_PART_LEN as int)
}

/// The hash under which a transient key is stored.
pub open spec fn transient_hash(tkey: TransientApiKey) -> Option<Seq<char>> {
    match tkey {
        TransientApiKey::Raw(raw) => spec_partial_hash(raw@),
        TransientApiKey::Hashed(hash) => Some(hash@),
    }
}

impl TransientApiKey {
    /// The hash under which this key is stored: raw keys are hashed,
    /// hashed keys are taken as they are.
    pub fn hash(&self) -> (res: Result<String, KeyError>)
        requires
            self matches TransientApiKey::Raw(raw) ==> hashable_key(raw@),
        ensures
            match res {
                Ok(h) => transient_hash(*self) == Some(h@),
                Err(KeyError::Hashing) => transient_hash(*self) is None,
            },
    {
        match self {
            TransientApiKey::Raw(raw) => api_key_partial_hash(raw.as_str()),
            TransientApiKey::Hashed(hash) => Ok(hash.clone()),
        }
    }
}

impl ApiKey {
    /// The record created for a new key, before the store assigns its id.
    pub fn new_record(hash: String, note: Option<String>) -> (res: ApiKey)
        ensures
            res.id == 0,
            res.hash == hash,
            res.note == note,
    {
        ApiKey { id: 0, hash, note }
    }
}

/// What looking up a key by its hash leads to.
#[derive(Debug)]
pub enum KeyLookup {
    /// The key is stored already.
    Found(ApiKey),
    /// The key is new; this record is to be stored.
    Create(ApiKey),
}

impl ApiKey {
    /// Read from the store or create: a key found under its hash is used as
    /// it is, otherwise a new record for the hash is to be stored.
    pub fn after_lookup(found: Option<ApiKey>, hash: String, note: Option<String>) -> (res:
        KeyLookup)
        ensures
            match found {
                Some(k) => res == KeyLookup::Found(k),
                None => res matches KeyLookup::Create(r) && r.id == 0 && r.hash == hash && r.note
                    == note,
            },
    {
        match found {
            Some(k) => KeyLookup::Found(k),
            None => KeyLookup::Create(ApiKey::new_record(hash, note)),
        }
    }
}

} // verus!
