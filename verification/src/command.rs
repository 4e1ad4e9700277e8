//! The command that creates an RSA key pair.

use crate::attributes::KeyAttributes;
use crate::derivation::{attributes_for, build_attributes, derive_policy, policy_for};
use vstd::prelude::*;

verus! {

/// Create an RSA key pair.
#[derive(Debug)]
pub struct CreateRsaKey {
    /// The name under which the service keeps the key.
    pub key_name: String,
    /// Create a signing key (PKCS#1 v1.5 over SHA-256) instead of an
    /// encryption key.
    pub is_for_signing: bool,
    /// The size of the key in bits; 2048 where none is given.
    pub bits: Option<usize>,
    /// Permit RSA OAEP (SHA-256) encryption instead of RSA PKCS#1 v1.5.
    pub oaep: bool,
}

impl CreateRsaKey {
    /// The attributes of the key that this command asks the service to
    /// create.
    pub fn attributes(&self) -> (attributes: KeyAttributes)
        ensures
            attributes@ == attributes_for(policy_for(self.is_for_signing, self.oaep), self.bits),
            attributes@.policy.consistent(),
    {
        let policy = derive_policy(self.is_for_signing, self.oaep);
        build_attributes(policy, self.bits)
    }
}

} // verus!
