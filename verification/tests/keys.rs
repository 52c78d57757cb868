use hypha::identity::{KeyError, PublicId, SecretId};
use hypha::peer;
use hypha::phone;
use iroh::SecretKey;

const SECRET: &str = "9d61b19deffd5a60ba844af492ec2cc44449c5697b326919703bac031cae7f60";
const PUBLIC: &str = "d75a980182b10ab7d54bfed3c964073a0ee172f3daa62325af021a68f707511a";

#[test]
fn the_public_name_follows_from_the_secret() {
    let secret = SecretId::from_str(SECRET).unwrap();
    assert_eq!(secret.key()[0], 0x9d);
    assert_eq!(secret.key()[31], 0x60);
    assert_eq!(secret.public().to_text(), PUBLIC);
    assert_eq!(secret.public().key()[0], 0xd7);
    let same = SecretKey::from_bytes(secret.key());
    assert_eq!(same.public().as_bytes(), secret.public().key());
}

#[test]
fn a_name_is_read_as_it_is_shown() {
    let id = PublicId::from_str(PUBLIC).unwrap();
    assert_eq!(id.to_text(), PUBLIC);
    assert_eq!(PublicId::from_str(&id.to_text()), Ok(id));
    assert_eq!(id, SecretId::from_str(SECRET).unwrap().public());
}

#[test]
fn keys_are_read_in_base_32() {
    let secret =
        SecretId::from_str("TVQ3DHPP7VNGBOUEJL2JF3BMYRCETRLJPMZGSGLQHOWAGHFOP5QA").unwrap();
    assert_eq!(secret.key(), SecretId::from_str(SECRET).unwrap().key());
    let id = PublicId::from_str("25njqamcweflpvkl73j4szahhihoc4xt3ktcgjnpaingr5yhkena").unwrap();
    assert_eq!(id.to_text(), PUBLIC);
}

#[test]
fn what_is_no_key_is_refused() {
    let bad_hex = "z".repeat(64);
    let bad_base32 = "1".repeat(52);
    let no_point = format!("02{}", "0".repeat(62));
    assert_eq!(SecretId::from_str("").err(), Some(KeyError::InvalidLength));
    assert_eq!(SecretId::from_str(&bad_hex).err(), Some(KeyError::FailedToDecodeHex));
    assert_eq!(SecretId::from_str(&bad_base32).err(), Some(KeyError::FailedToDecodeBase32));
    assert!(SecretId::from_str(&no_point).is_ok());
    assert_eq!(PublicId::from_str("abc").err(), Some(KeyError::InvalidLength));
    assert_eq!(PublicId::from_str(&bad_hex).err(), Some(KeyError::FailedToDecodeHex));
    assert_eq!(PublicId::from_str(&bad_base32).err(), Some(KeyError::FailedToDecodeBase32));
    assert_eq!(PublicId::from_str(&no_point).err(), Some(KeyError::InvalidKeyData));
}

#[test]
fn a_secret_is_not_shown() {
    assert_eq!(SecretId::from_str(SECRET).unwrap().to_text(), "SecretKey(..)");
}

#[test]
fn secrets_differ() {
    assert_ne!(SecretId::generate().key(), SecretId::generate().key());
    assert_ne!(phone::Secret::generate().key(), phone::Secret::generate().key());
}

#[test]
fn a_secret_is_kept() {
    let secret = SecretId::new([7; 32]);
    assert_eq!(secret.key(), &[7; 32]);
    assert_eq!(secret.clone().key(), &[7; 32]);
}

#[test]
fn a_secret_is_read_or_drawn() {
    let read = SecretId::read_or_generate(Some(SECRET)).unwrap();
    assert_eq!(read.key(), SecretId::from_str(SECRET).unwrap().key());
    assert_eq!(SecretId::read_or_generate(Some("x")).err(), Some(KeyError::InvalidLength));
    assert!(SecretId::read_or_generate(None).is_ok());
}

#[test]
fn one_takes_part_with_the_given_secret() {
    let secret = SecretId::from_str(SECRET).unwrap();
    assert_eq!(peer::Instance::bind(Some(secret.clone())).secret().key(), secret.key());
    assert_ne!(peer::Instance::bind(None).secret().key(), secret.key());
    let secret = phone::Secret::from_str(SECRET).unwrap();
    assert_eq!(phone::Instance::bind(Some(secret)).secret().to_text(), SECRET);
    assert_ne!(phone::Instance::bind(None).secret().to_text(), SECRET);
}

#[test]
fn the_secret_of_a_telephone_is_read_as_it_is_shown() {
    let secret = phone::Secret::from_str(SECRET).unwrap();
    assert_eq!(secret.to_text(), SECRET);
    assert_eq!(secret.node_id().to_text(), PUBLIC);
    assert_eq!(phone::Secret::from_str("").err(), Some(KeyError::InvalidLength));
}

#[test]
fn what_is_said_of_a_text_that_is_no_key() {
    assert_eq!(KeyError::FailedToDecodeHex.message(), "failed to decode hex string");
    assert_eq!(KeyError::FailedToDecodeBase32.message(), "failed to decode base32 string");
    assert_eq!(KeyError::InvalidLength.message(), "invalid length");
    assert_eq!(KeyError::InvalidKeyData.message(), "data is not a valid public key");
    let error = "".parse::<SecretKey>().unwrap_err();
    assert_eq!(error.to_string(), KeyError::InvalidLength.message());
}

#[test]
fn keys_that_differ_are_shown_differently() {
    let mut other = [7; 32];
    other[31] = 8;
    let one = SecretId::new([7; 32]).public();
    let two = SecretId::new(other).public();
    assert_ne!(one.to_text(), two.to_text());
}
