use lumina::cert::{certificate_from_der, generate_dummy_certificate};
use lumina::handshake::{handshake_proof, new_nonce, verify_handshake};
use lumina::keys::{derive_key_pair, pin_key_pair};
use lumina::host_session::{host_session_start, host_session_step, HostAction, HostEvent, HostSession};

#[test]
fn test_derive_key_pair() {
    let seed = "23456789ABCD";
    let (_secret1, public1) = derive_key_pair(seed);
    let (_secret2, public2) = derive_key_pair(seed);

    // Same seed must produce same keys
    assert_eq!(public1.as_bytes(), public2.as_bytes());

    // Different seed must produce different keys
    let (_, public3) = derive_key_pair("23456789ABCE");
    assert_ne!(public1.as_bytes(), public3.as_bytes());
}

#[test]
fn test_generate_dummy_certificate() {
    let (certs, key) = generate_dummy_certificate().unwrap();
    assert!(!certs.is_empty(), "Certificate chain should not be empty");
    assert!(!certs[0].0.is_empty(), "First certificate should have data");
    assert!(!key.0.is_empty(), "Private key should have data");
}

#[test]
fn dummy_certificate_names_the_lumina_host() {
    let (certs, _) = generate_dummy_certificate().unwrap();
    let name = b"lumina.a4ivi4.dev";
    assert!(certs[0].0.windows(name.len()).any(|w| w == name));
}

#[test]
fn certificate_from_der_wraps_the_bytes() {
    assert!(certificate_from_der(None).is_none());
    let (certs, key) = certificate_from_der(Some((vec![0x30, 0x03, 0x02], vec![0x30, 0x01]))).unwrap();
    assert_eq!(certs.len(), 1);
    assert_eq!(certs[0].0, vec![0x30, 0x03, 0x02]);
    assert_eq!(key.0, vec![0x30, 0x01]);
}

#[test]
fn handshake_between_equal_and_different_secrets() {
    let (secret_s, _) = derive_key_pair("2345-6789-ABCD".replace("-", "").as_str());
    let (secret_c, _) = derive_key_pair("23456789ABCD");
    let (secret_x, _) = derive_key_pair("23456789ABCE");
    let ns = new_nonce();
    let nc = new_nonce();
    // each side proves knowledge of the secret over the other's nonce
    let proof_s = handshake_proof(&secret_s, &nc);
    let proof_c = handshake_proof(&secret_c, &ns);
    assert_ne!(proof_s, nc);
    assert!(verify_handshake(&secret_c, &nc, &proof_s));
    assert!(verify_handshake(&secret_s, &ns, &proof_c));
    // a wrong secret is refused
    let proof_x = handshake_proof(&secret_x, &ns);
    assert!(!verify_handshake(&secret_s, &ns, &proof_x));
    assert_ne!(secret_s.to_bytes(), secret_x.to_bytes());
    let (secret, public) = derive_key_pair("23456789ABCD");
    assert_eq!(secret.to_bytes(), secret_c.to_bytes());
    assert_ne!(&secret.to_bytes(), public.as_bytes());
}

#[test]
fn pin_dashes_do_not_change_the_keys() {
    let (s1, p1) = pin_key_pair("ABCD-EFGH-JKLM");
    let (s2, p2) = pin_key_pair("ABCDEFGHJKLM");
    let (s3, _) = derive_key_pair("ABCDEFGHJKLM");
    assert_eq!(s1.to_bytes(), s2.to_bytes());
    assert_eq!(s1.to_bytes(), s3.to_bytes());
    assert_eq!(p1.as_bytes(), p2.as_bytes());
    let nonce = new_nonce();
    assert!(verify_handshake(&s1, &nonce, &handshake_proof(&s2, &nonce)));
}

#[test]
fn host_session_needs_handshake_then_consent() {
    let s = host_session_start();
    assert_eq!(s, HostSession::Authenticating);
    assert_eq!(host_session_step(s, HostEvent::UserAccepted), (s, HostAction::Ignore));
    assert_eq!(host_session_step(s, HostEvent::HandshakeFailed), (HostSession::Closed, HostAction::Close));
    let (s, a) = host_session_step(s, HostEvent::HandshakeSucceeded);
    assert_eq!((s, a), (HostSession::AwaitingConsent, HostAction::AskUser));
    assert_eq!(host_session_step(s, HostEvent::UserRejected), (HostSession::Closed, HostAction::Close));
    let (s, a) = host_session_step(s, HostEvent::UserAccepted);
    assert_eq!((s, a), (HostSession::Streaming, HostAction::OpenStreams));
    assert_eq!(host_session_step(HostSession::Closed, HostEvent::UserAccepted), (HostSession::Closed, HostAction::Ignore));
}
