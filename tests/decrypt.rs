use gt_telemetry::cipher::{derive_nonce, salsa20_dec, MAGIC};
use salsa20::cipher::{KeyIvInit, StreamCipher};

const KEY: &[u8; 32] = b"Simulator Interface Packet GT7 v";

fn keystream(iv1: u32, len: usize) -> Vec<u8> {
    let mut nonce = Vec::new();
    nonce.extend_from_slice(&(iv1 ^ 0xDEADBEAF).to_le_bytes());
    nonce.extend_from_slice(&iv1.to_le_bytes());
    let mut c = salsa20::Salsa20::new(KEY.into(), salsa20::Nonce::from_slice(&nonce));
    let mut ks = vec![0u8; len];
    c.apply_keystream(&mut ks);
    ks
}

/// Encrypts `plain` under the nonce of seed word `iv1`, first adjusting the
/// plaintext so that the ciphertext carries `iv1` at the seed offset.
/// Returns the adjusted plaintext and the ciphertext.
fn encrypt(mut plain: Vec<u8>, iv1: u32) -> (Vec<u8>, Vec<u8>) {
    let ks = keystream(iv1, plain.len());
    let seed = iv1.to_le_bytes();
    for i in 0..4 {
        plain[0x40 + i] = seed[i] ^ ks[0x40 + i];
    }
    let cipher: Vec<u8> = plain.iter().zip(ks.iter()).map(|(p, k)| p ^ k).collect();
    (plain, cipher)
}

fn plaintext(len: usize) -> Vec<u8> {
    let mut p: Vec<u8> = (0..len).map(|i| (i * 7 + 3) as u8).collect();
    p[0..4].copy_from_slice(&MAGIC.to_le_bytes());
    p
}

#[test]
fn nonce_is_masked_seed_then_seed() {
    assert_eq!(derive_nonce(0), vec![0xAF, 0xBE, 0xAD, 0xDE, 0, 0, 0, 0]);
    assert_eq!(
        derive_nonce(0x01020304),
        vec![0xAB, 0xBD, 0xAF, 0xDF, 0x04, 0x03, 0x02, 0x01]
    );
}

#[test]
fn round_trip_reproduces_plaintext() {
    let (plain, cipher) = encrypt(plaintext(0x128), 0x1234_5678);
    assert_ne!(cipher, plain);
    assert_eq!(salsa20_dec(&cipher), plain);
}

#[test]
fn round_trip_on_full_size_datagram() {
    let (plain, cipher) = encrypt(plaintext(4096), 0xCAFE_0001);
    assert_eq!(salsa20_dec(&cipher), plain);
}

#[test]
fn wrong_magic_is_rejected() {
    let mut p = plaintext(0x128);
    p[0] ^= 0x01;
    let (_, cipher) = encrypt(p, 77);
    assert!(salsa20_dec(&cipher).is_empty());
}

#[test]
fn unencrypted_packet_is_rejected() {
    let p = plaintext(0x128);
    assert!(salsa20_dec(&p).is_empty());
}

#[test]
fn too_short_to_carry_seed_is_rejected() {
    assert!(salsa20_dec(&[]).is_empty());
    assert!(salsa20_dec(&[0u8; 0x43]).is_empty());
}
