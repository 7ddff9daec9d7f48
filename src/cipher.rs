//! Datagram decryption: nonce derivation from the seed word carried in the
//! ciphertext, the Salsa20 keystream, and the magic-number gate.
use vstd::prelude::*;
use crate::bytes::{le_bytes_u32, le_u32, read_u32, u32_to_le};
use salsa20::cipher::{KeyIvInit, StreamCipher};

verus! {

/// Offset of the little-endian seed word inside the still-encrypted datagram.
pub const SEED_OFFSET: usize = 0x40;

/// Value of the first little-endian word of every valid decrypted packet.
pub const MAGIC: u32 = 0x47375330;

/// Constant folded into the seed word to form the first half of the nonce.
pub const NONCE_MASK: u32 = 0xDEADBEAF;

/// The fixed 32-byte key: the ASCII text "Simulator Interface Packet GT7 v".
pub open spec fn cipher_key() -> Seq<u8> {
    seq![
        83, 105, 109, 117, 108, 97, 116, 111, 114, 32, 73, 110, 116, 101, 114, 102,
        97, 99, 101, 32, 80, 97, 99, 107, 101, 116, 32, 71, 84, 55, 32, 118,
    ]
}

/// The 8-byte nonce for seed word `iv1`: `iv1 ^ NONCE_MASK`, then `iv1`,
/// both little-endian.
pub open spec fn nonce_for(iv1: u32) -> Seq<u8> {
    le_bytes_u32(iv1 ^ NONCE_MASK) + le_bytes_u32(iv1)
}

/// Byte `pos` of the Salsa20 keystream for `key` and `nonce`, counting from
/// the start of the stream.
pub uninterp spec fn salsa20_keystream(key: Seq<u8>, nonce: Seq<u8>, pos: nat) -> u8;

/// `data` with each byte XORed with the keystream byte at its position.
pub open spec fn keystream_xor(data: Seq<u8>, key: Seq<u8>, nonce: Seq<u8>) -> Seq<u8> {
    Seq::new(data.len(), |i: int| data[i] ^ salsa20_keystream(key, nonce, i as nat))
}

/// What decryption makes of a raw datagram: empty when it is too short to
/// carry the seed word or when the decrypted bytes do not start with `MAGIC`,
/// else the decrypted bytes.
pub open spec fn decrypted(raw: Seq<u8>) -> Seq<u8> {
    if raw.len() < SEED_OFFSET + 4 {
        Seq::empty()
    } else {
        let d = keystream_xor(raw, cipher_key(), nonce_for(le_u32(raw, SEED_OFFSET as int)));
        if le_u32(d, 0) == MAGIC {
            d
        } else {
            Seq::empty()
        }
    }
}

/// Relies on salsa20's `Salsa20::new` and `StreamCipher::apply_keystream`,
/// which XORs each byte of the buffer with the keystream byte at the same
/// position, starting from the beginning of the stream.
#[verifier::external_body]
fn salsa20_apply(key: &[u8], nonce: &[u8], data: &[u8]) -> (r: Vec<u8>)
    requires
        key@.len() == 32,
        nonce@.len() == 8,
    ensures
        r@.len() == data@.len(),
        forall|i: int|
            0 <= i < data@.len() ==> r@[i] == data@[i] ^ salsa20_keystream(key@, nonce@, i as nat),
{
    let mut cipher = salsa20::Salsa20::new(salsa20::Key::from_slice(key), salsa20::Nonce::from_slice(nonce));
    let mut out = data.to_vec();
    cipher.apply_keystream(&mut out);
    out
}

fn key_bytes() -> (r: Vec<u8>)
    ensures
        r@ == cipher_key(),
{
    let r: Vec<u8> = vec![
        83, 105, 109, 117, 108, 97, 116, 111, 114, 32, 73, 110, 116, 101, 114, 102,
        97, 99, 101, 32, 80, 97, 99, 107, 101, 116, 32, 71, 84, 55, 32, 118,
    ];
    assert(r@ =~= cipher_key());
    r
}

/// The nonce that the datagram's seed word `iv1` stands for.
pub fn derive_nonce(iv1: u32) -> (r: Vec<u8>)
    ensures
        r@ == nonce_for(iv1),
{
    let mut r = u32_to_le(iv1 ^ NONCE_MASK);
    let mut tail = u32_to_le(iv1);
    r.append(&mut tail);
    r
}

/// Decrypts a raw datagram. The result is empty when the datagram is rejected:
/// too short to carry the seed word, or not starting with `MAGIC` once
/// decrypted.
pub fn salsa20_dec(dat: &[u8]) -> (r: Vec<u8>)
    ensures
        r@ == decrypted(dat@),
        r@.len() == 0 || r@.len() == dat@.len(),
{
    if dat.len() < SEED_OFFSET + 4 {
        return Vec::new();
    }
    let iv1 = read_u32(dat, SEED_OFFSET);
    let key = key_bytes();
    let nonce = derive_nonce(iv1);
    let data = salsa20_apply(key.as_slice(), nonce.as_slice(), dat);
    assert(data@ =~= keystream_xor(dat@, key@, nonce@));
    if read_u32(data.as_slice(), 0) != MAGIC {
        return Vec::new();
    }
    data
}

/// Applying the keystream twice with the same key and nonce gives the input
/// back: the cipher is its own inverse.
pub proof fn lemma_keystream_involution(data: Seq<u8>, key: Seq<u8>, nonce: Seq<u8>)
    ensures
        keystream_xor(keystream_xor(data, key, nonce), key, nonce) == data,
{
    let once = keystream_xor(data, key, nonce);
    let twice = keystream_xor(once, key, nonce);
    assert forall|i: int| 0 <= i < data.len() implies twice[i] == data[i] by {
        let a = data[i];
        let k = salsa20_keystream(key, nonce, i as nat);
        assert((a ^ k) ^ k == a) by (bit_vector);
    }
    assert(twice =~= data);
}

/// Encrypting a plaintext that starts with `MAGIC` under the nonce of seed
/// word `iv1`, where the ciphertext carries `iv1` at the seed offset, and then
/// decrypting gives the plaintext back.
pub proof fn lemma_decrypt_round_trip(plain: Seq<u8>, iv1: u32)
    requires
        plain.len() >= SEED_OFFSET + 4,
        le_u32(plain, 0) == MAGIC,
        le_u32(keystream_xor(plain, cipher_key(), nonce_for(iv1)), SEED_OFFSET as int) == iv1,
    ensures
        decrypted(keystream_xor(plain, cipher_key(), nonce_for(iv1))) == plain,
{
    lemma_keystream_involution(plain, cipher_key(), nonce_for(iv1));
}

/// A datagram whose decrypted first word differs from `MAGIC` is rejected.
pub proof fn lemma_magic_gate(raw: Seq<u8>)
    requires
        raw.len() >= SEED_OFFSET + 4,
        le_u32(keystream_xor(raw, cipher_key(), nonce_for(le_u32(raw, SEED_OFFSET as int))), 0)
            != MAGIC,
    ensures
        decrypted(raw).len() == 0,
{
}

} // verus!
