use gt_telemetry::cipher::MAGIC;
use gt_telemetry::session::{Action, Event, HeartbeatPolicy, Session, RECV_PORT, SEND_PORT};
use gt_telemetry::telemetry::{DecodeError, GTData, RECORD_LEN};
use salsa20::cipher::{KeyIvInit, StreamCipher};

fn packet(id: i32) -> Vec<u8> {
    let mut b = vec![0u8; RECORD_LEN];
    b[0..4].copy_from_slice(&MAGIC.to_le_bytes());
    b[0x70..0x74].copy_from_slice(&id.to_le_bytes());
    b
}

fn encrypt(mut plain: Vec<u8>, iv1: u32) -> Vec<u8> {
    let key: &[u8; 32] = b"Simulator Interface Packet GT7 v";
    let mut nonce = Vec::new();
    nonce.extend_from_slice(&(iv1 ^ 0xDEADBEAF).to_le_bytes());
    nonce.extend_from_slice(&iv1.to_le_bytes());
    let mut c = salsa20::Salsa20::new(key.into(), salsa20::Nonce::from_slice(&nonce));
    let mut ks = vec![0u8; plain.len()];
    c.apply_keystream(&mut ks);
    let seed = iv1.to_le_bytes();
    for i in 0..4 {
        plain[0x40 + i] = seed[i] ^ ks[0x40 + i];
    }
    plain.iter().zip(ks.iter()).map(|(p, k)| p ^ k).collect()
}

fn session() -> Session {
    Session::new(RECV_PORT, SEND_PORT, String::from("192.168.1.85"))
}

#[test]
fn only_increasing_package_ids_are_published() {
    let mut s = session();
    let mut published = Vec::new();
    for id in [5, 3, 5, 7, 7, 9] {
        for a in s.on_decrypted(&packet(id)) {
            if let Action::Publish(r) = a {
                published.push(r.package_id);
            }
        }
    }
    assert_eq!(published, vec![5, 7, 9]);
}

#[test]
fn encrypted_datagram_is_published() {
    let mut s = session();
    let plain = packet(42);
    let raw = encrypt(plain, 0x0BAD_F00D);
    let actions = s.step(Event::Datagram(raw.clone()));
    let expected = GTData::new(&gt_telemetry::cipher::salsa20_dec(&raw));
    assert_eq!(expected.package_id, 42);
    assert_eq!(actions, vec![Action::Publish(expected)]);
    assert_eq!(s.step(Event::Datagram(raw)), vec![]);
}

#[test]
fn noise_datagram_is_dropped() {
    let mut s = session();
    assert_eq!(s.step(Event::Datagram(vec![0u8; RECORD_LEN])), vec![]);
    assert_eq!(s.step(Event::Datagram(vec![])), vec![]);
}

#[test]
fn short_decrypted_packet_is_discarded() {
    let mut s = session();
    let b = &packet(1)[..0x80];
    assert_eq!(s.on_decrypted(b), vec![Action::Discard(DecodeError::TooShort { len: 0x80 })]);
    assert_eq!(s.on_decrypted(&[]), vec![]);
}

#[test]
fn timeout_rebinds_then_sends_one_heartbeat() {
    let mut s = session();
    let actions = s.step(Event::Timeout);
    assert_eq!(actions, vec![Action::ReportTimeout, Action::Rebind, Action::SendHeartbeat]);
    assert_eq!(actions.iter().filter(|a| **a == Action::SendHeartbeat).count(), 1);
    assert_eq!(s.recv_port(), RECV_PORT);
    assert_eq!(s.send_port(), SEND_PORT);
    assert_eq!(s.playstation_ip(), "192.168.1.85");
}

#[test]
fn heartbeat_while_counter_is_zero() {
    let mut s = session();
    assert_eq!(s.step(Event::Readable), vec![Action::SendHeartbeat, Action::Receive]);
    assert_eq!(s.step(Event::WouldBlock), vec![]);
    assert_eq!(s.step(Event::Readable), vec![Action::SendHeartbeat, Action::Receive]);
    s.step(Event::Datagram(vec![1, 2, 3]));
    assert_eq!(s.step(Event::Readable), vec![Action::Receive]);
}

#[test]
fn counter_wraps_after_hundred_datagrams() {
    let mut s = session();
    for _ in 0..100 {
        s.step(Event::Datagram(vec![]));
    }
    assert_eq!(s.step(Event::Readable), vec![Action::Receive]);
    s.step(Event::Datagram(vec![]));
    assert_eq!(s.step(Event::Readable), vec![Action::SendHeartbeat, Action::Receive]);
}

#[test]
fn read_error_is_reported_and_session_goes_on() {
    let mut s = session();
    assert_eq!(s.step(Event::ReadFailed), vec![Action::ReportReadError]);
    assert_eq!(s.on_decrypted(&packet(1)).len(), 1);
}

#[test]
fn reconnect_only_policy_sends_heartbeat_after_rebind_alone() {
    let mut s = Session::with_policy(
        RECV_PORT,
        SEND_PORT,
        String::from("10.0.0.2"),
        HeartbeatPolicy::OnReconnectOnly,
    );
    assert_eq!(s.step(Event::Readable), vec![Action::Receive]);
    assert_eq!(
        s.step(Event::Timeout),
        vec![Action::ReportTimeout, Action::Rebind, Action::SendHeartbeat]
    );
    assert_eq!(s.step(Event::Readable), vec![Action::Receive]);
}
