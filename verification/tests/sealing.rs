use data_encoding::BASE64;
use openssl::ec::{EcGroup, EcKey};
use openssl::nid::Nid;
use openssl::pkey::PKey;
use openssl::rsa::{Padding, Rsa};
use sso::seal::{encrypt_org_key_for_user, sealed_key, RsaFailure};
use sso::SsoError;

#[test]
fn encrypt_org_key_for_user_uses_bitwarden_rsa_oaep_sha1_cipher_string() {
    let rsa = Rsa::generate(2048).expect("test rsa key should be generated");
    let public_key = BASE64.encode(&rsa.public_key_to_der().expect("test public key should serialize"));
    let org_key = [7_u8; 64];

    let encrypted = encrypt_org_key_for_user(&org_key, &public_key).expect("org key should encrypt");
    let encrypted_payload = encrypted.strip_prefix("4.").expect("Bitwarden RSA-OAEP-SHA1 prefix is required");
    let encrypted_bytes = BASE64.decode(encrypted_payload.as_bytes()).expect("payload should be base64");

    let mut decrypted = vec![0; rsa.size() as usize];
    let decrypted_len = rsa
        .private_decrypt(&encrypted_bytes, &mut decrypted, Padding::PKCS1_OAEP)
        .expect("payload should decrypt with matching private key");
    decrypted.truncate(decrypted_len);

    assert_eq!(decrypted, org_key);
}

#[test]
fn two_sealings_of_one_key_both_open() {
    let rsa = Rsa::generate(2048).unwrap();
    let public_key = BASE64.encode(&rsa.public_key_to_der().unwrap());
    let org_key = [9_u8; 32];
    let first = encrypt_org_key_for_user(&org_key, &public_key).unwrap();
    let second = encrypt_org_key_for_user(&org_key, &public_key).unwrap();
    assert_ne!(first, second);
    assert_eq!(first.len(), 2 + 4 * ((256 + 2) / 3));
    for text in [first, second] {
        let bytes = BASE64.decode(text[2..].as_bytes()).unwrap();
        let mut opened = vec![0; rsa.size() as usize];
        let len = rsa.private_decrypt(&bytes, &mut opened, Padding::PKCS1_OAEP).unwrap();
        assert_eq!(&opened[..len], &org_key[..]);
    }
}

#[test]
fn public_key_that_is_not_base64_is_refused() {
    let refused = encrypt_org_key_for_user(&[1; 32], "****");
    assert_eq!(refused, Err(SsoError::PublicKeyNotBase64("invalid symbol at 0".to_owned())));
    assert_eq!(
        refused.unwrap_err().message(),
        "Failed to decode SSO auto-confirm user public key: invalid symbol at 0"
    );
}

#[test]
fn public_key_that_is_no_key_is_refused() {
    let refused = encrypt_org_key_for_user(&[1; 32], &BASE64.encode(b"no key"));
    assert!(matches!(refused, Err(SsoError::PublicKeyNotParsed(_))));
}

#[test]
fn public_key_of_another_kind_is_refused() {
    let group = EcGroup::from_curve_name(Nid::X9_62_PRIME256V1).unwrap();
    let key = PKey::from_ec_key(EcKey::generate(&group).unwrap()).unwrap();
    let public_key = BASE64.encode(&key.public_key_to_der().unwrap());
    let refused = encrypt_org_key_for_user(&[1; 32], &public_key);
    assert!(matches!(refused, Err(SsoError::PublicKeyNotRsa(_))));
}

#[test]
fn data_longer_than_the_key_takes_is_refused() {
    let rsa = Rsa::generate(1024).unwrap();
    let public_key = BASE64.encode(&rsa.public_key_to_der().unwrap());
    let refused = encrypt_org_key_for_user(&[1; 128], &public_key);
    assert!(matches!(refused, Err(SsoError::OrgKeyNotEncrypted(_))));
}

#[test]
fn sealed_key_keeps_the_bytes_that_were_written() {
    assert_eq!(sealed_key(Ok((vec![77, 97, 110, 0, 0], 3))), Ok("4.TWFu".to_owned()));
    assert_eq!(sealed_key(Ok((vec![77, 97], 9))), Ok("4.TWE=".to_owned()));
    assert_eq!(sealed_key(Ok((vec![], 0))), Ok("4.".to_owned()));
}

#[test]
fn sealed_key_tells_where_rsa_gave_up() {
    let text = || "complaint".to_owned();
    assert_eq!(
        sealed_key(Err(RsaFailure::NotParsed(text()))).unwrap_err().message(),
        "Failed to parse SSO auto-confirm user public key: complaint"
    );
    assert_eq!(
        sealed_key(Err(RsaFailure::NotRsa(text()))).unwrap_err().message(),
        "SSO auto-confirm user public key is not RSA: complaint"
    );
    assert_eq!(
        sealed_key(Err(RsaFailure::NotEncrypted(text()))).unwrap_err().message(),
        "Failed to encrypt SSO auto-confirm org key: complaint"
    );
}
