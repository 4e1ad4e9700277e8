//! The attributes that describe a key to the key-management service.

use crate::algorithm::PermittedAlgorithm;
use crate::usage::{encryption_usages, permitted_usages, signing_usages, PsaUsageFlags, Usage};
use vstd::prelude::*;

verus! {

/// Whether a key outlives the session that created it.
#[derive(Clone, Copy, Debug, PartialEq, Eq, Structural)]
pub enum Lifetime {
    /// The key is gone when the session ends.
    Volatile,
    /// The key stays in storage until it is destroyed.
    Persistent,
}

/// The kind of key.
#[derive(Clone, Copy, Debug, PartialEq, Eq, Structural)]
pub enum KeyType {
    /// The public half of an RSA key.
    RsaPublicKey,
    /// An RSA key pair: the private and the public key.
    RsaKeyPair,
}

/// What may be done with a key.
#[derive(Clone, Copy, Debug, PartialEq, Eq)]
pub struct Policy {
    pub usage_flags: PsaUsageFlags,
    pub permitted_algorithm: PermittedAlgorithm,
}

/// A policy as a mathematical value: the set of permitted usages and the
/// permitted algorithm.
pub struct PolicyView {
    pub usages: Set<Usage>,
    pub algorithm: PermittedAlgorithm,
}

impl PolicyView {
    /// The usages fit the algorithm: signing and verifying only with a
    /// signature scheme, encrypting and decrypting only with an encryption
    /// scheme.
    pub open spec fn consistent(self) -> bool {
        &&& !self.usages.disjoint(signing_usages()) ==> self.algorithm.is_signature()
        &&& !self.usages.disjoint(encryption_usages()) ==> self.algorithm.is_encryption()
    }
}

impl View for Policy {
    type V = PolicyView;

    open spec fn view(&self) -> PolicyView {
        PolicyView {
            usages: permitted_usages(self.usage_flags),
            algorithm: self.permitted_algorithm,
        }
    }
}

/// The complete description of a key to create.
#[derive(Clone, Copy, Debug, PartialEq, Eq)]
pub struct KeyAttributes {
    pub lifetime: Lifetime,
    pub key_type: KeyType,
    /// The size of the key in bits.
    pub bits: usize,
    pub policy: Policy,
}

/// Key attributes as a mathematical value.
pub struct KeyAttributesView {
    pub lifetime: Lifetime,
    pub key_type: KeyType,
    pub bits: nat,
    pub policy: PolicyView,
}

impl View for KeyAttributes {
    type V = KeyAttributesView;

    open spec fn view(&self) -> KeyAttributesView {
        KeyAttributesView {
            lifetime: self.lifetime,
            key_type: self.key_type,
            bits: self.bits as nat,
            policy: self.policy@,
        }
    }
}

} // verus!
