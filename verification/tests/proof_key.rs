use p256::elliptic_curve::sec1::ToEncodedPoint;
use xodus_auth::hex::to_hex_lower;
use xodus_auth::key::ProofKey;
use xodus_auth::proof_key::{
    hex_line_bytes, hex_xyd, key_from_hex_line, service_proof_key, service_proof_key_xyd,
    store_generated, HexLineError, ProofKeyAction, ProofKeyEvent, ProofKeyState, SecretAnswer,
    PROOF_KEY_ENTRY, PROOF_KEY_VAR,
};

const X: &str = "60fed4ba255a9d31c961eb74c6356d68c049b8923b61fa6ce669622e60f29fb6";
const Y: &str = "7903fe1008b8bc99a41ae9e95628bc64f2f1b20c2d7e9f5177a3c294d4462299";
const D: &str = "c9afa9d845ba75166b5c215767b1d6934e50c3db36e89b127b8a622b120f6721";
const ORDER: &str = "ffffffff00000000ffffffffffffffffbce6faada7179e84f3b9cac2fc632551";
const BELOW_ORDER: &str = "ffffffff00000000ffffffffffffffffbce6faada7179e84f3b9cac2fc632550";

fn key_hex(key: &Option<ProofKey>) -> Option<String> {
    key.as_ref().map(|key| to_hex_lower(&key.to_bytes()))
}

fn from_line(line: &str) -> Option<String> {
    key_hex(&key_from_hex_line(&format!("{X}\n{Y}\n{line}\n")))
}

fn finished(action: ProofKeyAction) -> Option<ProofKey> {
    match action {
        ProofKeyAction::Finish(key) => key,
        _ => panic!("the search goes on"),
    }
}

#[test]
fn a_key_file_is_read_from_its_third_line() {
    assert_eq!(from_line(D).as_deref(), Some(D));
    assert_eq!(from_line(&D.to_uppercase()).as_deref(), Some(D));
    let messy = format!("\n x \r\n\r\ny\n\n\t{D}  \r\nmore\nlines");
    assert_eq!(key_hex(&key_from_hex_line(&messy)).as_deref(), Some(D));
}

#[test]
fn only_scalars_are_keys() {
    assert_eq!(from_line(&"0".repeat(64)), None);
    assert_eq!(from_line(ORDER), None);
    assert_eq!(from_line(BELOW_ORDER).as_deref(), Some(BELOW_ORDER));
    assert_eq!(from_line(&"f".repeat(64)), None);
    let one = format!("{}1", "0".repeat(63));
    assert_eq!(from_line(&one).as_deref(), Some(one.as_str()));
}

#[test]
fn short_scalars_are_padded() {
    let short = "11".repeat(24);
    let padded = format!("{}{short}", "00".repeat(8));
    assert_eq!(from_line(&short).as_deref(), Some(padded.as_str()));
    assert_eq!(from_line(&"11".repeat(23)), None);
    assert_eq!(from_line(&"11".repeat(33)), None);
}

#[test]
fn unreadable_lines_give_no_key() {
    assert_eq!(key_hex(&key_from_hex_line("")), None);
    assert_eq!(key_hex(&key_from_hex_line(&format!("{X}\n{D}\n\n"))), None);
    assert_eq!(from_line("not hex at all!!"), None);
    assert_eq!(key_hex(&key_from_hex_line("x\ny\nabc")), None);
    assert_eq!(from_line("\u{20ac}0"), None);
    assert_eq!(from_line(&D[1..]), None);
    assert_eq!(hex_line_bytes("a\nb"), Err(HexLineError::Missing));
    assert_eq!(hex_line_bytes("a\nb\nxy"), Err(HexLineError::NotHex));
    assert_eq!(hex_line_bytes("a\nb\n123"), Err(HexLineError::Misaligned));
    assert_eq!(hex_line_bytes("a\nb\n0102"), Ok(vec![1, 2]));
}

#[test]
fn the_public_point_belongs_to_the_scalar() {
    let key = key_from_hex_line(&format!("x\ny\n{D}"));
    let (x, y, d) = service_proof_key_xyd(key).unwrap();
    assert_eq!((x.as_str(), y.as_str(), d.as_str()), (X, Y, D));
    assert!(service_proof_key_xyd(None).is_none());
}

#[test]
fn the_three_lines_read_back_as_the_same_key() {
    let key = ProofKey::random();
    let d = key.to_bytes();
    let (x, y, hex) = service_proof_key_xyd(Some(key)).unwrap();
    assert_eq!((x.len(), y.len(), hex.len()), (64, 64, 64));
    let again = key_from_hex_line(&format!("{x}\n{y}\n{hex}")).unwrap();
    assert_eq!(again.to_bytes(), d);
    let point = p256::SecretKey::from_slice(&d).unwrap().public_key().to_encoded_point(false);
    assert_eq!(x, to_hex_lower(point.x().unwrap()));
    assert_eq!(y, to_hex_lower(point.y().unwrap()));
}

#[test]
fn lines_need_both_coordinates() {
    let lines = hex_xyd(Some(vec![1]), Some(vec![2]), &[0xab]).unwrap();
    assert_eq!(lines, ("01".to_string(), "02".to_string(), "ab".to_string()));
    assert!(hex_xyd(None, Some(vec![2]), &[3]).is_none());
    assert!(hex_xyd(Some(vec![1]), None, &[3]).is_none());
}

#[test]
fn random_keys_differ_and_are_scalars() {
    let a = ProofKey::random().to_bytes();
    let b = ProofKey::random().to_bytes();
    assert_ne!(a, b);
    assert_eq!(ProofKey::from_slice(&a).unwrap().to_bytes(), a);
}

#[test]
fn a_file_overrides_the_keychain() {
    assert_eq!(PROOF_KEY_VAR, "XODUS_PROOF_KEY");
    let event = ProofKeyEvent::Override(Some("/etc/key".to_string()));
    let step = service_proof_key(ProofKeyState::Start, event);
    assert!(matches!(&step.action, ProofKeyAction::ReadFile(path) if path == "/etc/key"));
    let text = format!("x\ny\n{D}\n");
    let step = service_proof_key(step.state, ProofKeyEvent::FileRead(Some(text)));
    assert!(matches!(step.state, ProofKeyState::Finished));
    assert_eq!(key_hex(&finished(step.action)).as_deref(), Some(D));
}

#[test]
fn a_malformed_file_gives_no_key_and_no_fall_back() {
    for text in ["", "x\ny", "x\ny\nabc", "x\ny\nzz", "x\ny\n00"] {
        let read = ProofKeyEvent::FileRead(Some(text.to_string()));
        let step = service_proof_key(ProofKeyState::ReadingFile, read);
        assert!(matches!(step.state, ProofKeyState::Finished));
        assert!(finished(step.action).is_none());
    }
}

#[test]
fn signer_and_caller_get_one_key() {
    let none = ProofKeyEvent::Secret(SecretAnswer::NoEntry);
    let step = service_proof_key(ProofKeyState::ReadingSecret, none);
    let stored = match step.action {
        ProofKeyAction::StoreSecret(bytes) => bytes,
        _ => panic!("nothing to store"),
    };
    let step = service_proof_key(step.state, ProofKeyEvent::Stored(true));
    let signer = finished(step.action).unwrap();
    let found = ProofKeyEvent::Secret(SecretAnswer::Found(stored));
    let step = service_proof_key(ProofKeyState::ReadingSecret, found);
    let (_, _, d) = service_proof_key_xyd(finished(step.action)).unwrap();
    assert_eq!(d, to_hex_lower(&signer.to_bytes()));
}

#[test]
fn a_file_that_cannot_be_read_gives_no_key() {
    let step = service_proof_key(ProofKeyState::ReadingFile, ProofKeyEvent::FileRead(None));
    assert!(finished(step.action).is_none());
}

#[test]
fn a_stored_key_is_used() {
    assert_eq!(PROOF_KEY_ENTRY, "proof_key");
    let step = service_proof_key(ProofKeyState::Start, ProofKeyEvent::Override(None));
    assert!(matches!(&step.action, ProofKeyAction::OpenEntry(name) if name == "proof_key"));
    let step = service_proof_key(step.state, ProofKeyEvent::EntryOpened(true));
    assert!(matches!(step.action, ProofKeyAction::ReadSecret));
    let mut secret = vec![0u8; 32];
    secret[31] = 7;
    let answer = ProofKeyEvent::Secret(SecretAnswer::Found(secret.clone()));
    let step = service_proof_key(step.state, answer);
    assert_eq!(finished(step.action).unwrap().to_bytes(), secret);
}

#[test]
fn keychain_faults_give_no_key() {
    let step = service_proof_key(ProofKeyState::OpeningEntry, ProofKeyEvent::EntryOpened(false));
    assert!(finished(step.action).is_none());
    let failed = ProofKeyEvent::Secret(SecretAnswer::Failed);
    let step = service_proof_key(ProofKeyState::ReadingSecret, failed);
    assert!(finished(step.action).is_none());
    let unusable = ProofKeyEvent::Secret(SecretAnswer::Found(vec![0; 32]));
    let step = service_proof_key(ProofKeyState::ReadingSecret, unusable);
    assert!(finished(step.action).is_none());
}

#[test]
fn a_generated_key_is_stored_used_and_found_again() {
    let none = ProofKeyEvent::Secret(SecretAnswer::NoEntry);
    let step = service_proof_key(ProofKeyState::ReadingSecret, none);
    let stored = match step.action {
        ProofKeyAction::StoreSecret(bytes) => bytes,
        _ => panic!("nothing to store"),
    };
    let step = service_proof_key(step.state, ProofKeyEvent::Stored(true));
    assert_eq!(finished(step.action).unwrap().to_bytes(), stored);
    let found = ProofKeyEvent::Secret(SecretAnswer::Found(stored.clone()));
    let step = service_proof_key(ProofKeyState::ReadingSecret, found);
    assert_eq!(finished(step.action).unwrap().to_bytes(), stored);
}

#[test]
fn a_key_that_cannot_be_stored_is_not_used() {
    let key = ProofKey::from_slice(&[9; 32]).unwrap();
    let step = store_generated(key);
    assert!(matches!(&step.action, ProofKeyAction::StoreSecret(bytes) if bytes == &vec![9; 32]));
    let step = service_proof_key(step.state, ProofKeyEvent::Stored(false));
    assert!(finished(step.action).is_none());
}
