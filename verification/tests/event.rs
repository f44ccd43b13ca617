use mc_components::event::{
    AuthRequestOutput, AuthResponseOutput, ClientInitiate, Ciphertext, NonceCiphertext,
    NoncePlaintext, Plaintext, UnverifiedReport,
};

struct Nx;
struct X25519;
struct Aes;
struct Sha;

#[test]
fn auth_request_output_round_trips_its_bytes() {
    let out: AuthRequestOutput<Nx, X25519, Aes, Sha> = AuthRequestOutput::from(vec![1u8, 2, 3]);
    assert_eq!(out.as_ref(), &[1, 2, 3]);
    let back: Vec<u8> = out.into();
    assert_eq!(back, vec![1, 2, 3]);
}

#[test]
fn auth_response_output_round_trips_its_bytes() {
    let out = AuthResponseOutput::from(vec![9u8, 8]);
    assert_eq!(out.as_ref(), &[9, 8]);
    let back: Vec<u8> = out.into();
    assert_eq!(back, vec![9, 8]);
}

#[test]
fn unverified_report_keeps_the_response_bytes() {
    let report = UnverifiedReport::new(AuthResponseOutput::from(vec![4u8, 5, 6]));
    assert_eq!(report.as_ref(), &[4, 5, 6]);
    let empty = UnverifiedReport::new(AuthResponseOutput::from(Vec::new()));
    assert!(empty.as_ref().is_empty());
}

#[test]
fn payloads_keep_their_slices() {
    let aad = b"aad";
    let msg = b"message";
    let p = Plaintext::new(aad, msg);
    assert_eq!(p.aad, aad);
    assert_eq!(p.msg, msg);
    let c = Ciphertext::new(aad, msg);
    assert_eq!(c.aad, aad);
    assert_eq!(c.msg, msg);
    let np = NoncePlaintext::new(aad, msg);
    assert_eq!(np.aad(), aad);
    assert_eq!(np.msg(), msg);
    let nc = NonceCiphertext::new(aad, msg, 42);
    assert_eq!(nc.ciphertext.aad, aad);
    assert_eq!(nc.ciphertext.msg, msg);
    assert_eq!(nc.nonce, 42);
}

#[test]
fn client_initiate_has_a_default() {
    let _init: ClientInitiate<X25519, Aes, Sha> = ClientInitiate::default();
}
