//! The calls this library makes into std and into the nostr protocol
//! library, each with the contract that the library relies on.

use vstd::prelude::*;

verus! {

/// What `str::to_lowercase` returns for a string.
pub uninterp spec fn lowercase_of(s: Seq<char>) -> Seq<char>;

/// Relies on `str::to_lowercase`: the lowercase form of a string depends on
/// its characters alone, and the empty string stays empty.
#[verifier::external_body]
pub(crate) fn to_lowercase(s: &str) -> (r: String)
    ensures
        r@ == lowercase_of(s@),
        s@.len() == 0 ==> r@.len() == 0,
{
    s.to_lowercase()
}

/// Bytes held in an optional vector, as a sequence.
pub open spec fn opt_bytes(r: Option<Vec<u8>>) -> Option<Seq<u8>> {
    match r {
        Some(v) => Some(v@),
        None => None,
    }
}

/// Tag entries as sequences of strings.
pub open spec fn tags_view(tags: Seq<Vec<String>>) -> Seq<Seq<Seq<char>>> {
    tags.map_values(|t: Vec<String>| t@.map_values(|s: String| s@))
}

/// The 32-byte x-only public key of a secret key, or `None` where the bytes
/// are not a valid secp256k1 secret key.
pub uninterp spec fn public_key_of(secret: Seq<u8>) -> Option<Seq<u8>>;

/// Relies on secp256k1's `SecretKey::from_slice` (which refuses anything but
/// 32 bytes of a valid key) and nostr's `Keys::new` / `Keys::public_key`: the
/// public key is a function of the secret alone, serialized in 32 bytes.
#[verifier::external_body]
pub(crate) fn derive_public_key(secret: &Vec<u8>) -> (r: Option<Vec<u8>>)
    ensures
        opt_bytes(r) == public_key_of(secret@),
        r is Some ==> r->0@.len() == 32,
        secret@.len() != 32 ==> r is None,
{
    let sk = nostr_sdk::secp256k1::SecretKey::from_slice(secret).ok()?;
    Some(nostr_sdk::Keys::new(sk).public_key().serialize().to_vec())
}

/// The message identifier of the fields (author, created_at, kind, tags,
/// content), or `None` where the author is not a valid x-only public key or a
/// tag entry does not parse.
pub uninterp spec fn event_id_of(
    author: Seq<u8>,
    created_at: u64,
    kind: u64,
    tags: Seq<Seq<Seq<char>>>,
    content: Seq<char>,
) -> Option<Seq<u8>>;

/// Relies on nostr's `EventId::new`, the SHA-256 of the canonical
/// serialization of the fields, after `XOnlyPublicKey::from_slice` on the
/// author (which refuses anything but 32 bytes) and `Tag::parse` on each tag.
/// The identifier is a 32-byte digest.
#[verifier::external_body]
pub(crate) fn compute_event_id(
    author: &Vec<u8>,
    created_at: u64,
    kind: u64,
    tags: &Vec<Vec<String>>,
    content: &str,
) -> (r: Option<Vec<u8>>)
    ensures
        opt_bytes(r) == event_id_of(author@, created_at, kind, tags_view(tags@), content@),
        r is Some ==> r->0@.len() == 32,
        author@.len() != 32 ==> r is None,
{
    let pk = nostr_sdk::secp256k1::XOnlyPublicKey::from_slice(author).ok()?;
    let tags: Vec<nostr_sdk::Tag> =
        tags.iter().cloned().map(nostr_sdk::Tag::parse).collect::<Result<_, _>>().ok()?;
    let (ts, kind) = (nostr_sdk::Timestamp::from(created_at), nostr_sdk::Kind::from(kind));
    Some(nostr_sdk::EventId::new(&pk, ts, &kind, &tags, content).as_bytes().to_vec())
}

/// Relies on nostr's `Keys::sign_schnorr`, after `SecretKey::from_slice` and
/// `Message::from_slice`. A valid secret key and a 32-byte digest are always
/// signed: `Keys::new` always holds the key pair, so `sign_schnorr` has no
/// error left, and `Message::from_slice` takes any 32 bytes. The result is a
/// 64-byte BIP-340 signature made with that key pair, which secp256k1's
/// `verify_schnorr` accepts under its x-only public key. Each signature draws
/// fresh randomness, so which signature comes back is not said.
#[verifier::external_body]
pub(crate) fn schnorr_sign(secret: &Vec<u8>, digest: &Vec<u8>) -> (r: Option<Vec<u8>>)
    ensures
        r is Some <==> (public_key_of(secret@) is Some && digest@.len() == 32),
        r is Some ==> r->0@.len() == 64,
        r is Some ==> schnorr_valid(public_key_of(secret@)->0, digest@, r->0@),
{
    let sk = nostr_sdk::secp256k1::SecretKey::from_slice(secret).ok()?;
    let msg = nostr_sdk::secp256k1::Message::from_slice(digest).ok()?;
    let sig = nostr_sdk::Keys::new(sk).sign_schnorr(&msg).ok()?;
    Some(sig.as_ref().to_vec())
}

/// Whether `signature` is a valid BIP-340 signature of `digest` under the
/// x-only public key `public_key`.
pub uninterp spec fn schnorr_valid(public_key: Seq<u8>, digest: Seq<u8>, signature: Seq<u8>) -> bool;

/// Relies on secp256k1's `verify_schnorr` (through nostr's shared context),
/// after parsing the key, digest and signature from bytes; bytes that do not
/// parse do not verify. The answer depends on the three byte strings alone.
#[verifier::external_body]
pub(crate) fn schnorr_verify(public_key: &Vec<u8>, digest: &Vec<u8>, signature: &Vec<u8>) -> (r: bool)
    ensures
        r == schnorr_valid(public_key@, digest@, signature@),
{
    match (
        nostr_sdk::secp256k1::XOnlyPublicKey::from_slice(public_key),
        nostr_sdk::secp256k1::Message::from_slice(digest),
        nostr_sdk::secp256k1::schnorr::Signature::from_slice(signature),
    ) {
        (Ok(pk), Ok(msg), Ok(sig)) => nostr_sdk::SECP256K1.verify_schnorr(&sig, &msg, &pk).is_ok(),
        _ => false,
    }
}

} // verus!
