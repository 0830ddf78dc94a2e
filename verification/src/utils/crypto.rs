//! API keys: how they are made and how they are hashed for storage.
use vstd::prelude::*;
use vstd::utf8::encode_utf8;
use argon2::password_hash::PasswordHasher;
use rand::Rng;
use crate::text::{from_chars, to_chars};
use crate::utils::encoding::{base64_encode, base64_standard};

verus! {

/// The number of random characters of an API key.
pub const API_KEY_LENGTH: usize = 32;

/// The characters that an API key is made of: the letters and the digits.
pub open spec fn key_alphabet() -> Seq<char> {
    "ABCDEFGHIJKLMNOPQRSTUVWXYZabcdefghijklmnopqrstuvwxyz0123456789"@
}

/// The API key for a sequence of choices from the alphabet: `lgs_` and
/// then, for each choice, the chosen character.
pub open spec fn api_key_of(choices: Seq<usize>) -> Seq<char> {
    "lgs_"@ + Seq::new(choices.len(), |i: int| key_alphabet()[choices[i] as int])
}

/// `rand::Rng::gen_range` on the thread's generator, for the range from 0
/// up to `bound`. Taken on trust: the number is below `bound`; which one it
/// is differs from call to call.
#[verifier::external_body]
fn random_below(bound: usize) -> (r: usize)
    requires
        bound > 0,
    ensures
        r < bound,
{
    rand::thread_rng().gen_range(0..bound)
}

/// Whether every choice is a place in the alphabet.
pub open spec fn choices_in_alphabet(choices: Seq<usize>) -> bool {
    forall|i: int| 0 <= i < choices.len() ==> (#[trigger] choices[i]) < 62
}

/// The API key for the given choices from the alphabet, or `None` where a
/// choice is no place in the alphabet.
pub fn api_key_from_choices(choices: &Vec<usize>) -> (key: Option<String>)
    ensures
        key.deep_view() == if choices_in_alphabet(choices@) {
            Some(api_key_of(choices@))
        } else {
            None
        },
{
    proof {
        reveal_strlit("ABCDEFGHIJKLMNOPQRSTUVWXYZabcdefghijklmnopqrstuvwxyz0123456789");
    }
    let alphabet = to_chars("ABCDEFGHIJKLMNOPQRSTUVWXYZabcdefghijklmnopqrstuvwxyz0123456789");
    assert(alphabet.len() == 62);
    let mut key = String::from_str("lgs_");
    let mut i: usize = 0;
    while i < choices.len()
        invariant
            i <= choices.len(),
            alphabet@ == key_alphabet(),
            alphabet.len() == 62,
            forall|k: int| 0 <= k < i ==> (#[trigger] choices[k]) < 62,
            key@ =~= "lgs_"@ + Seq::new(i as nat, |k: int| key_alphabet()[choices[k] as int]),
        decreases choices.len() - i,
    {
        if choices[i] >= 62 {
            return None;
        }
        key.push(alphabet[choices[i]]);
        i += 1;
    }
    Some(key)
}

/// Generate a random API key: `lgs_` and 32 characters, each drawn from the
/// letters and the digits.
pub fn generate_api_key() -> (key: String)
    ensures
        exists|choices: Seq<usize>|
            {
                &&& choices.len() == 32
                &&& choices_in_alphabet(choices)
                &&& key@ == api_key_of(choices)
            },
{
    let mut choices: Vec<usize> = Vec::new();
    let mut i: usize = 0;
    while i < API_KEY_LENGTH
        invariant
            i <= API_KEY_LENGTH,
            choices.len() == i,
            choices_in_alphabet(choices@),
        decreases API_KEY_LENGTH - i,
    {
        choices.push(random_below(62));
        i += 1;
    }
    match api_key_from_choices(&choices) {
        Some(key) => key,
        None => vstd::pervasive::unreached(),
    }
}

/// The 16 bytes that a salt text stands for: its first 16 bytes, with zeros
/// after them where it is shorter.
pub open spec fn salt_block(bytes: Seq<u8>) -> Seq<u8> {
    Seq::new(
        16,
        |i: int|
            if i < bytes.len() {
                bytes[i]
            } else {
                0u8
            },
    )
}

/// The salt as the hash function takes it: the first 22 characters of the
/// encoded block, filled up to 22 with full stops.
pub open spec fn salt_text(encoded: Seq<char>) -> Seq<char> {
    Seq::new(
        22,
        |i: int|
            if i < encoded.len() {
                encoded[i]
            } else {
                '.'
            },
    )
}

/// The Argon2 hash, in PHC string format, of a password under a salt given
/// in B64 text, with the `argon2` crate's default parameters; `None` where
/// the crate refuses the salt or the password.
pub uninterp spec fn argon2_phc(password: Seq<u8>, salt: Seq<char>) -> Option<Seq<char>>;

#[verifier::external_type_specification]
#[verifier::external_body]
pub struct ExPasswordHashError(argon2::password_hash::Error);

/// `argon2::Argon2::default().hash_password`, with the salt read by
/// `SaltString::from_b64`. Taken on trust: the result is the PHC string of
/// the hash, or the crate's error; it depends on password and salt alone.
#[verifier::external_body]
fn argon2_hash(password: &[u8], salt: &str) -> (r: Result<String, argon2::password_hash::Error>)
    ensures
        match r {
            Ok(hash) => argon2_phc(password@, salt@) == Some(hash@),
            Err(_) => argon2_phc(password@, salt@) is None,
        },
{
    let salt_string = argon2::password_hash::SaltString::from_b64(salt)?;
    let hash = argon2::Argon2::default().hash_password(password, &salt_string)?;
    Ok(hash.to_string())
}

/// The message of an error of the hash function, as its `Display` gives it.
/// Nothing is claimed of the text.
#[verifier::external_body]
fn describe(error: &argon2::password_hash::Error) -> (message: String) {
    format!("{}", error)
}

/// Why a key could not be hashed.
pub struct HashError {
    pub message: String,
}

/// The salt as the hash function takes it, from the encoded block.
pub fn salt_text_from(encoded: &str) -> (salt: String)
    ensures
        salt@ == salt_text(encoded@),
{
    let chars = to_chars(encoded);
    let kept: usize = if chars.len() < 22 {
        chars.len()
    } else {
        22
    };
    let mut salt = from_chars(&chars, 0, kept);
    let mut i: usize = kept;
    while i < 22
        invariant
            kept <= i <= 22,
            kept <= chars.len(),
            kept == chars.len() || kept == 22,
            chars@ == encoded@,
            salt@ =~= salt_text(encoded@).take(i as int),
        decreases 22 - i,
    {
        salt.push('.');
        i += 1;
    }
    salt
}

fn block_of(salt: &str) -> (block: Vec<u8>)
    ensures
        block@ == salt_block(encode_utf8(salt@)),
{
    let bytes = salt.as_bytes();
    let mut block: Vec<u8> = Vec::new();
    let mut i: usize = 0;
    while i < 16
        invariant
            i <= 16,
            bytes@ == encode_utf8(salt@),
            block@ =~= salt_block(encode_utf8(salt@)).take(i as int),
        decreases 16 - i,
    {
        if i < bytes.len() {
            block.push(bytes[i]);
        } else {
            block.push(0u8);
        }
        i += 1;
    }
    block
}

/// The stored form of an API key under a salt.
pub open spec fn hashed_key(key: Seq<char>, salt: Seq<char>) -> Option<Seq<char>> {
    argon2_phc(encode_utf8(key), salt_text(base64_standard(salt_block(encode_utf8(salt)))))
}

/// Hash an API key using Argon2. The same key and salt give the same hash.
pub fn hash_api_key(key: &str, salt: &str) -> (r: Result<String, HashError>)
    ensures
        match r {
            Ok(hash) => hashed_key(key@, salt@) == Some(hash@),
            Err(_) => hashed_key(key@, salt@) is None,
        },
{
    let block = block_of(salt);
    let encoded = base64_encode(block.as_slice());
    let salt_b64 = salt_text_from(encoded.as_str());
    match argon2_hash(key.as_bytes(), salt_b64.as_str()) {
        Ok(hash) => Ok(hash),
        Err(e) => Err(HashError { message: describe(&e) }),
    }
}

/// Verify an API key against a hash: the key is hashed again, and the
/// caller compares.
pub fn verify_api_key(key: &str, salt: &str) -> (r: Result<String, HashError>)
    ensures
        match r {
            Ok(hash) => hashed_key(key@, salt@) == Some(hash@),
            Err(_) => hashed_key(key@, salt@) is None,
        },
{
    hash_api_key(key, salt)
}

} // verus!
