use rsa_key_policy::algorithm::{HashAlgorithm, PermittedAlgorithm};
use rsa_key_policy::attributes::{KeyType, Lifetime};
use rsa_key_policy::usage::{encryption_flags, signing_flags};
use rsa_key_policy::{build_attributes, derive_policy, CreateRsaKey};

fn command(is_for_signing: bool, bits: Option<usize>, oaep: bool) -> CreateRsaKey {
    CreateRsaKey { key_name: String::from("my-key"), is_for_signing, bits, oaep }
}

#[test]
fn command_without_flags_asks_for_an_encryption_key() {
    let attributes = command(false, None, false).attributes();
    assert_eq!(attributes.lifetime, Lifetime::Persistent);
    assert_eq!(attributes.key_type, KeyType::RsaKeyPair);
    assert_eq!(attributes.bits, 2048);
    assert_eq!(attributes.policy.usage_flags, encryption_flags());
    assert_eq!(attributes.policy.permitted_algorithm, PermittedAlgorithm::RsaPkcs1v15Crypt);
}

#[test]
fn command_with_oaep_asks_for_an_oaep_key() {
    let attributes = command(false, Some(4096), true).attributes();
    assert_eq!(attributes.bits, 4096);
    assert_eq!(attributes.policy.usage_flags, encryption_flags());
    assert_eq!(
        attributes.policy.permitted_algorithm,
        PermittedAlgorithm::RsaOaep { hash: HashAlgorithm::Sha256 }
    );
}

#[test]
fn command_for_signing_asks_for_a_signing_key() {
    let attributes = command(true, Some(3072), true).attributes();
    assert_eq!(attributes.lifetime, Lifetime::Persistent);
    assert_eq!(attributes.key_type, KeyType::RsaKeyPair);
    assert_eq!(attributes.bits, 3072);
    assert_eq!(attributes.policy.usage_flags, signing_flags());
    assert_eq!(
        attributes.policy.permitted_algorithm,
        PermittedAlgorithm::RsaPkcs1v15Sign { hash: HashAlgorithm::Sha256 }
    );
}

#[test]
fn command_attributes_are_those_built_from_its_fields() {
    for is_for_signing in [false, true] {
        for oaep in [false, true] {
            for bits in [None, Some(123usize), Some(2048)] {
                let attributes = command(is_for_signing, bits, oaep).attributes();
                assert_eq!(
                    attributes,
                    build_attributes(derive_policy(is_for_signing, oaep), bits)
                );
            }
        }
    }
}

#[test]
fn command_keeps_its_key_name() {
    let cmd = command(true, None, false);
    let _ = cmd.attributes();
    assert_eq!(cmd.key_name, "my-key");
}
