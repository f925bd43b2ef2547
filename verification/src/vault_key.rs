//! Derivation of the vault key from a password.
//!
//! The key is the 64-bit hash that the standard library's default hasher gives
//! the password, laid out as eight bytes, least significant first. The hash is
//! fast and not cryptographic: equal passwords always give equal keys, but the
//! key resists neither guessing nor precomputed tables. A deployment that
//! protects real secrets needs a memory-hard password hash in its place.
//!
//! Which hash a password gets is the standard library's business. It is the
//! same wherever one build of the program runs; the standard library does not
//! promise to keep it from one of its releases to the next.

use std::collections::hash_map::DefaultHasher;
use std::hash::{Hash, Hasher};
use vstd::prelude::*;
use vstd::std_specs::hash::DefaultHasherAdditionalSpecFns;

verus! {

/// Number of bytes in a vault key.
pub const KEY_LEN: usize = 8;

/// The writes by which the standard library's `Hash` impl of `str` feeds
/// `text` to a hasher. They depend on the text alone.
pub uninterp spec fn str_hash_writes(text: Seq<char>) -> Seq<Seq<u8>>;

/// The hash of `password`: what a fresh default hasher holds once the
/// password has been fed to it.
pub open spec fn password_hash(password: Seq<char>) -> u64 {
    DefaultHasher::spec_finish(str_hash_writes(password))
}

/// The bytes of `hash`, least significant first.
pub open spec fn key_bytes(hash: u64) -> Seq<u8> {
    seq![
        (hash % 0x100) as u8,
        (hash / 0x100 % 0x100) as u8,
        (hash / 0x1_0000 % 0x100) as u8,
        (hash / 0x100_0000 % 0x100) as u8,
        (hash / 0x1_0000_0000 % 0x100) as u8,
        (hash / 0x100_0000_0000 % 0x100) as u8,
        (hash / 0x1_0000_0000_0000 % 0x100) as u8,
        (hash / 0x100_0000_0000_0000 % 0x100) as u8,
    ]
}

/// The vault key that belongs to `password`.
pub open spec fn derived_key(password: Seq<char>) -> Seq<u8> {
    key_bytes(password_hash(password))
}

/// Feeds `text` to `hasher` through `<str as Hash>::hash`.
///
/// Trusted: afterwards the hasher holds the writes it held before, followed
/// by the writes that the text gives rise to. Which writes these are is left
/// to the standard library.
#[verifier::external_body]
fn feed_str(hasher: &mut DefaultHasher, text: &str)
    ensures
        final(hasher)@ == old(hasher)@ + str_hash_writes(text@),
{
    text.hash(hasher);
}

/// Lays a password hash out as a vault key.
pub fn key_from_hash(hash: u64) -> (key: Vec<u8>)
    ensures
        key@ == key_bytes(hash),
{
    let key = vstd::bytes::u64_to_le_bytes(hash);
    proof {
        vstd::bytes::spec_u64_to_le_bytes_to_open(hash);
        assert(hash & 0xff == hash % 0x100) by (bit_vector);
        assert((hash >> 8) & 0xff == hash / 0x100 % 0x100) by (bit_vector);
        assert((hash >> 16) & 0xff == hash / 0x1_0000 % 0x100) by (bit_vector);
        assert((hash >> 24) & 0xff == hash / 0x100_0000 % 0x100) by (bit_vector);
        assert((hash >> 32) & 0xff == hash / 0x1_0000_0000 % 0x100) by (bit_vector);
        assert((hash >> 40) & 0xff == hash / 0x100_0000_0000 % 0x100) by (bit_vector);
        assert((hash >> 48) & 0xff == hash / 0x1_0000_0000_0000 % 0x100) by (bit_vector);
        assert((hash >> 56) & 0xff == hash / 0x100_0000_0000_0000 % 0x100) by (bit_vector);
        assert(key@ =~= key_bytes(hash));
    }
    key
}

/// Derives the vault key from `password`.
///
/// The result depends on the password alone, so the key that opened a vault
/// once opens it again.
pub fn derive_key(password: &str) -> (key: Vec<u8>)
    ensures
        key@ == derived_key(password@),
        key@.len() == KEY_LEN,
{
    let mut hasher = DefaultHasher::new();
    feed_str(&mut hasher, password);
    assert(hasher@ =~= str_hash_writes(password@));
    let hash: u64 = hasher.finish();
    key_from_hash(hash)
}

/// The number that `bytes` spell when the first byte is the least significant.
pub open spec fn le_value(bytes: Seq<u8>) -> nat
    decreases bytes.len(),
{
    if bytes.len() == 0 {
        0
    } else {
        bytes[0] as nat + 256 * le_value(bytes.drop_first())
    }
}

/// A key has eight bytes and spells the hash it was made from.
pub proof fn lemma_key_spells_hash(hash: u64)
    ensures
        key_bytes(hash).len() == KEY_LEN,
        le_value(key_bytes(hash)) == hash,
{
    let k = key_bytes(hash);
    let k1 = k.drop_first();
    let k2 = k1.drop_first();
    let k3 = k2.drop_first();
    let k4 = k3.drop_first();
    let k5 = k4.drop_first();
    let k6 = k5.drop_first();
    let k7 = k6.drop_first();
    let k8 = k7.drop_first();
    assert(le_value(k8) == 0);
    assert(le_value(k7) == k[7]);
    assert(le_value(k6) == k[6] + 256 * le_value(k7));
    assert(le_value(k5) == k[5] + 256 * le_value(k6));
    assert(le_value(k4) == k[4] + 256 * le_value(k5));
    assert(le_value(k3) == k[3] + 256 * le_value(k4));
    assert(le_value(k2) == k[2] + 256 * le_value(k3));
    assert(le_value(k1) == k[1] + 256 * le_value(k2));
    assert(le_value(k) == k[0] + 256 * le_value(k1));
}

/// Two hashes give the same key exactly when they are the same hash.
pub proof fn lemma_key_tells_hashes_apart(first: u64, second: u64)
    ensures
        key_bytes(first) == key_bytes(second) <==> first == second,
{
    lemma_key_spells_hash(first);
    lemma_key_spells_hash(second);
}

/// Deriving the key is a function of the password: two passwords that agree
/// character by character have the same key.
pub proof fn lemma_same_password_same_key(first: Seq<char>, second: Seq<char>)
    requires
        first.len() == second.len(),
        forall|i: int| 0 <= i < first.len() ==> first[i] == second[i],
    ensures
        derived_key(first) == derived_key(second),
{
    assert(first =~= second);
}

/// Two passwords share a key exactly when their hashes collide. Nothing
/// rules such a collision out, so distinct passwords may share a key.
pub proof fn lemma_keys_collide_with_hashes(first: Seq<char>, second: Seq<char>)
    ensures
        derived_key(first) == derived_key(second) <==> password_hash(first) == password_hash(
            second,
        ),
{
    lemma_key_tells_hashes_apart(password_hash(first), password_hash(second));
}

} // verus!
