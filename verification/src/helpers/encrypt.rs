//! Symmetric encryption (AES-256, Base64 text) of stored secrets, with a key
//! supplied by the caller.
use magic_crypt::MagicCryptTrait;
use vstd::prelude::*;

verus! {

/// What `MagicCrypt256::new(key, None).encrypt_str_to_base64(value)` returns.
pub uninterp spec fn magic_encrypt(key: Seq<char>, value: Seq<char>) -> Seq<char>;

/// What `MagicCrypt256::new(key, None).decrypt_base64_to_string(data)` returns:
/// `Some(text)`, or `None` where decryption fails.
pub uninterp spec fn magic_decrypt(key: Seq<char>, data: Seq<char>) -> Option<Seq<char>>;

/// Calls `encrypt_str_to_base64` of `MagicCrypt256` (fixed IV, so the result
/// depends on key and value alone); decrypting the result with the same key
/// gives the value back, as the crate documents.
#[verifier::external_body]
fn aes_encrypt(key: &str, value: &str) -> (r: String)
    ensures
        r@ == magic_encrypt(key@, value@),
        magic_decrypt(key@, r@) == Some(value@),
{
    magic_crypt::MagicCrypt256::new(key, None::<&[u8]>).encrypt_str_to_base64(value)
}

/// Calls `decrypt_base64_to_string` of `MagicCrypt256`; its result is named
/// `magic_decrypt`.
#[verifier::external_body]
fn aes_decrypt(key: &str, data: &str) -> (r: Option<String>)
    ensures
        match r {
            Some(s) => magic_decrypt(key@, data@) == Some(s@),
            None => magic_decrypt(key@, data@) is None,
        },
{
    magic_crypt::MagicCrypt256::new(key, None::<&[u8]>).decrypt_base64_to_string(data).ok()
}

/// Encrypts a secret under `key`.
pub fn encrypt(value: &String, key: &String) -> (r: String)
    ensures
        r@ == magic_encrypt(key@, value@),
        magic_decrypt(key@, r@) == Some(value@),
{
    aes_encrypt(key.as_str(), value.as_str())
}

/// Decrypts a secret under `key`; `None` where the text does not decrypt.
pub fn decrypt(value: &String, key: &String) -> (r: Option<String>)
    ensures
        match r {
            Some(s) => magic_decrypt(key@, value@) == Some(s@),
            None => magic_decrypt(key@, value@) is None,
        },
{
    aes_decrypt(key.as_str(), value.as_str())
}

} // verus!
