use sparkhill::params::{PlainSecret, SecretParamBundle};
use sparkhill::select::{find_secret_param_by_key_id, select_by_lowered_id, SecretKeyEntry, SelectError};

fn entry(id: &str, fill: u8) -> SecretKeyEntry {
    SecretKeyEntry {
        key_id: id.to_string(),
        params: SecretParamBundle::Plain(PlainSecret::Ed25519([fill; 32])),
    }
}

fn keys() -> (SecretKeyEntry, Vec<SecretKeyEntry>) {
    (
        entry("0123456789abcdef", 1),
        vec![entry("1111222233334444", 2), entry("aaaabbbbccccdddd", 3), entry("5555666677778888", 4)],
    )
}

#[test]
fn primary_without_id_or_subkeys() {
    let pk = entry("0123456789abcdef", 9);
    let subs: Vec<SecretKeyEntry> = Vec::new();
    let r = find_secret_param_by_key_id(&None, &pk, &subs).unwrap();
    assert_eq!(*r, pk.params);
}

#[test]
fn primary_without_id_ignores_subkeys() {
    let (pk, subs) = keys();
    assert_eq!(*find_secret_param_by_key_id(&None, &pk, &subs).unwrap(), pk.params);
}

#[test]
fn subkey_by_lowercase_id() {
    let (pk, subs) = keys();
    let r = find_secret_param_by_key_id(&Some("aaaabbbbccccdddd".to_string()), &pk, &subs).unwrap();
    assert_eq!(*r, subs[1].params);
}

#[test]
fn subkey_by_uppercase_id() {
    let (pk, subs) = keys();
    let r = find_secret_param_by_key_id(&Some("AAAABBBBCCCCDDDD".to_string()), &pk, &subs).unwrap();
    assert_eq!(*r, subs[1].params);
    let r = find_secret_param_by_key_id(&Some("AaAaBbBbCcCcDdDd".to_string()), &pk, &subs).unwrap();
    assert_eq!(*r, subs[1].params);
}

#[test]
fn primary_by_uppercase_id() {
    let (pk, subs) = keys();
    let r = find_secret_param_by_key_id(&Some("0123456789ABCDEF".to_string()), &pk, &subs).unwrap();
    assert_eq!(*r, pk.params);
}

#[test]
fn unknown_id_fails_without_fallback() {
    let (pk, subs) = keys();
    let r = find_secret_param_by_key_id(&Some("ffffffffffffffff".to_string()), &pk, &subs);
    assert_eq!(r, Err(SelectError::KeyIdNotFound));
    let none: Vec<SecretKeyEntry> = Vec::new();
    let r = find_secret_param_by_key_id(&Some("ffffffffffffffff".to_string()), &pk, &none);
    assert_eq!(r, Err(SelectError::KeyIdNotFound));
}

#[test]
fn lowered_selection_is_case_sensitive() {
    let (pk, subs) = keys();
    let r = select_by_lowered_id(&Some("AAAABBBBCCCCDDDD".to_string()), &pk, &subs);
    assert_eq!(r, Err(SelectError::KeyIdNotFound));
    let r = select_by_lowered_id(&Some("5555666677778888".to_string()), &pk, &subs).unwrap();
    assert_eq!(*r, subs[2].params);
}

#[test]
fn first_matching_subkey_wins() {
    let pk = entry("0123456789abcdef", 1);
    let subs = vec![entry("1111222233334444", 2), entry("1111222233334444", 3)];
    let r = find_secret_param_by_key_id(&Some("1111222233334444".to_string()), &pk, &subs).unwrap();
    assert_eq!(*r, subs[0].params);
}
