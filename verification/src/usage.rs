//! The operations that a key may be used for.
//!
//! The usage flags themselves are the `UsageFlags` of the PSA key attributes,
//! whose fields are private. What such a value permits is modelled as a set of
//! [`Usage`], and the library builds one only through [`signing_flags`] and
//! [`encryption_flags`].

use vstd::prelude::*;

verus! {

/// One operation that the usage flags of a key can permit.
#[derive(Clone, Copy, Debug, PartialEq, Eq, Structural)]
pub enum Usage {
    Export,
    Copy,
    Cache,
    Encrypt,
    Decrypt,
    SignMessage,
    VerifyMessage,
    SignHash,
    VerifyHash,
    Derive,
}

/// Makes `UsageFlags` known to the verifier as a type whose inside it does not
/// see.
#[verifier::external_type_specification]
#[verifier::external_body]
pub struct ExUsageFlags(
    parsec_client::core::interface::operations::psa_key_attributes::UsageFlags,
);

/// The usage flags of the PSA key attributes, as the key-management client
/// takes them.
pub type PsaUsageFlags =
    parsec_client::core::interface::operations::psa_key_attributes::UsageFlags;

/// The usages that `flags` permits: `Usage::Encrypt` is a member exactly if the
/// `encrypt` flag is set, and so on for each of the ten flags.
pub uninterp spec fn permitted_usages(flags: PsaUsageFlags) -> Set<Usage>;

/// The four usages of a signing key.
pub open spec fn signing_usages() -> Set<Usage> {
    set![Usage::SignHash, Usage::VerifyHash, Usage::SignMessage, Usage::VerifyMessage]
}

/// The two usages of an encryption key.
pub open spec fn encryption_usages() -> Set<Usage> {
    set![Usage::Encrypt, Usage::Decrypt]
}

/// Trusted: `UsageFlags::default()` returns flags of which none is set.
#[verifier::external_body]
fn no_usage() -> (flags: PsaUsageFlags)
    ensures
        permitted_usages(flags) == Set::<Usage>::empty(),
{
    PsaUsageFlags::default()
}

/// Trusted: `UsageFlags::set_sign_hash` sets the `sign_hash` flag and with it
/// the `sign_message` flag, and leaves the other flags as they were.
#[verifier::external_body]
fn set_sign_hash(flags: &mut PsaUsageFlags)
    ensures
        permitted_usages(*final(flags)) == permitted_usages(*old(flags)).insert(
            Usage::SignHash,
        ).insert(Usage::SignMessage),
{
    let _ = flags.set_sign_hash();
}

/// Trusted: `UsageFlags::set_verify_hash` sets the `verify_hash` flag and with
/// it the `verify_message` flag, and leaves the other flags as they were.
#[verifier::external_body]
fn set_verify_hash(flags: &mut PsaUsageFlags)
    ensures
        permitted_usages(*final(flags)) == permitted_usages(*old(flags)).insert(
            Usage::VerifyHash,
        ).insert(Usage::VerifyMessage),
{
    let _ = flags.set_verify_hash();
}

/// Trusted: `UsageFlags::set_encrypt` sets the `encrypt` flag and leaves the
/// other flags as they were.
#[verifier::external_body]
fn set_encrypt(flags: &mut PsaUsageFlags)
    ensures
        permitted_usages(*final(flags)) == permitted_usages(*old(flags)).insert(Usage::Encrypt),
{
    let _ = flags.set_encrypt();
}

/// Trusted: `UsageFlags::set_decrypt` sets the `decrypt` flag and leaves the
/// other flags as they were.
#[verifier::external_body]
fn set_decrypt(flags: &mut PsaUsageFlags)
    ensures
        permitted_usages(*final(flags)) == permitted_usages(*old(flags)).insert(Usage::Decrypt),
{
    let _ = flags.set_decrypt();
}

/// The usage flags of a signing key: signing and verifying, of hashes and of
/// messages, and nothing else.
pub fn signing_flags() -> (flags: PsaUsageFlags)
    ensures
        permitted_usages(flags) == signing_usages(),
{
    // Permission to sign a hash is permission to sign a message too, and
    // likewise for verification: two calls give all four usages.
    let mut flags = no_usage();
    set_sign_hash(&mut flags);
    set_verify_hash(&mut flags);
    assert(permitted_usages(flags) =~= signing_usages());
    flags
}

/// The usage flags of an encryption key: encrypting and decrypting, and
/// nothing else.
pub fn encryption_flags() -> (flags: PsaUsageFlags)
    ensures
        permitted_usages(flags) == encryption_usages(),
{
    let mut flags = no_usage();
    set_encrypt(&mut flags);
    set_decrypt(&mut flags);
    assert(permitted_usages(flags) =~= encryption_usages());
    flags
}

/// No usage of a signing key is one of an encryption key.
pub proof fn lemma_usage_families_disjoint()
    ensures
        signing_usages().disjoint(encryption_usages()),
{
}

} // verus!
