use rsa_key_policy::usage::{encryption_flags, signing_flags, PsaUsageFlags};

#[test]
fn signing_flags_permit_the_four_signing_usages() {
    let flags = signing_flags();
    assert!(flags.sign_hash());
    assert!(flags.verify_hash());
    assert!(flags.sign_message());
    assert!(flags.verify_message());
}

#[test]
fn signing_flags_permit_nothing_else() {
    let flags = signing_flags();
    assert!(!flags.encrypt());
    assert!(!flags.decrypt());
    assert!(!flags.export());
    assert!(!flags.copy());
    assert!(!flags.cache());
    assert!(!flags.derive());
}

#[test]
fn signing_flags_equal_flags_set_one_by_one() {
    let mut expected = PsaUsageFlags::default();
    let _ = expected
        .set_sign_hash()
        .set_verify_hash()
        .set_sign_message()
        .set_verify_message();
    assert_eq!(signing_flags(), expected);
}

#[test]
fn encryption_flags_permit_encrypt_and_decrypt() {
    let flags = encryption_flags();
    assert!(flags.encrypt());
    assert!(flags.decrypt());
}

#[test]
fn encryption_flags_permit_nothing_else() {
    let flags = encryption_flags();
    assert!(!flags.sign_hash());
    assert!(!flags.verify_hash());
    assert!(!flags.sign_message());
    assert!(!flags.verify_message());
    assert!(!flags.export());
    assert!(!flags.copy());
    assert!(!flags.cache());
    assert!(!flags.derive());
}

#[test]
fn encryption_flags_equal_flags_set_one_by_one() {
    let mut expected = PsaUsageFlags::default();
    let _ = expected.set_encrypt().set_decrypt();
    assert_eq!(encryption_flags(), expected);
}

#[test]
fn the_two_families_of_flags_differ() {
    assert_ne!(signing_flags(), encryption_flags());
    assert_ne!(signing_flags(), PsaUsageFlags::default());
    assert_ne!(encryption_flags(), PsaUsageFlags::default());
}
