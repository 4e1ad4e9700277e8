//! From what a key is for to the attributes of the key.

use crate::algorithm::{HashAlgorithm, PermittedAlgorithm};
use crate::attributes::{KeyAttributes, KeyAttributesView, KeyType, Lifetime, Policy, PolicyView};
use crate::usage::{
    encryption_flags, encryption_usages, lemma_usage_families_disjoint, signing_flags,
    signing_usages, Usage,
};
use vstd::prelude::*;

verus! {

/// The size in bits of a key for which no size was asked.
pub const DEFAULT_BITS: usize = 2048;

/// The policy of a signing key: PKCS#1 v1.5 signatures over SHA-256.
pub open spec fn signing_policy() -> PolicyView {
    PolicyView {
        usages: signing_usages(),
        algorithm: PermittedAlgorithm::RsaPkcs1v15Sign { hash: HashAlgorithm::Sha256 },
    }
}

/// The policy of an encryption key with OAEP padding over SHA-256.
pub open spec fn oaep_encryption_policy() -> PolicyView {
    PolicyView {
        usages: encryption_usages(),
        algorithm: PermittedAlgorithm::RsaOaep { hash: HashAlgorithm::Sha256 },
    }
}

/// The policy of an encryption key with PKCS#1 v1.5 padding.
pub open spec fn pkcs1v15_encryption_policy() -> PolicyView {
    PolicyView { usages: encryption_usages(), algorithm: PermittedAlgorithm::RsaPkcs1v15Crypt }
}

/// The policy of a key that is for signing or else for encryption. `oaep`
/// chooses the padding of an encryption key and means nothing for a signing
/// key.
pub open spec fn policy_for(is_for_signing: bool, oaep: bool) -> PolicyView {
    if is_for_signing {
        signing_policy()
    } else if oaep {
        oaep_encryption_policy()
    } else {
        pkcs1v15_encryption_policy()
    }
}

/// The size of a key: the size that was asked for, or the default.
pub open spec fn bits_for(bits: Option<usize>) -> usize {
    match bits {
        Some(n) => n,
        None => DEFAULT_BITS,
    }
}

/// The attributes of the RSA key pair to create for `policy` and `bits`: it is
/// persistent, so that it can be found again by name later.
pub open spec fn attributes_for(policy: PolicyView, bits: Option<usize>) -> KeyAttributesView {
    KeyAttributesView {
        lifetime: Lifetime::Persistent,
        key_type: KeyType::RsaKeyPair,
        bits: bits_for(bits) as nat,
        policy,
    }
}

/// Derives the policy of a key from what the key is for.
///
/// No combination of the two flags is an error: `oaep` is ignored for a
/// signing key.
pub fn derive_policy(is_for_signing: bool, oaep: bool) -> (policy: Policy)
    ensures
        policy@ == policy_for(is_for_signing, oaep),
        is_for_signing ==> policy@.usages == signing_usages() && policy@.usages.disjoint(
            encryption_usages(),
        ),
        !is_for_signing ==> policy@.usages == encryption_usages() && policy@.usages.disjoint(
            signing_usages(),
        ),
        policy@.consistent(),
{
    proof {
        lemma_usage_families_disjoint();
        lemma_derived_policy_consistent(is_for_signing, oaep);
    }
    if is_for_signing {
        Policy {
            usage_flags: signing_flags(),
            permitted_algorithm: PermittedAlgorithm::RsaPkcs1v15Sign {
                hash: HashAlgorithm::Sha256,
            },
        }
    } else {
        Policy {
            usage_flags: encryption_flags(),
            permitted_algorithm: if oaep {
                PermittedAlgorithm::RsaOaep { hash: HashAlgorithm::Sha256 }
            } else {
                PermittedAlgorithm::RsaPkcs1v15Crypt
            },
        }
    }
}

/// Completes a policy to the attributes of a persistent RSA key pair.
///
/// The size is taken as it is given, whatever its value: which sizes exist is
/// for the service to say.
pub fn build_attributes(policy: Policy, bits: Option<usize>) -> (attributes: KeyAttributes)
    ensures
        attributes.lifetime == Lifetime::Persistent,
        attributes.key_type == KeyType::RsaKeyPair,
        bits is None ==> attributes.bits == 2048,
        bits matches Some(n) ==> attributes.bits == n,
        attributes.policy == policy,
        attributes@ == attributes_for(policy@, bits),
{
    let bits = match bits {
        Some(n) => n,
        None => DEFAULT_BITS,
    };
    KeyAttributes { lifetime: Lifetime::Persistent, key_type: KeyType::RsaKeyPair, bits, policy }
}

/// Every derived policy is one of three: the signing policy, the OAEP
/// encryption policy or the PKCS#1 v1.5 encryption policy, and the two flags
/// say which.
pub proof fn lemma_derived_policy_is_one_of_three(is_for_signing: bool, oaep: bool)
    ensures
        is_for_signing ==> policy_for(is_for_signing, oaep) == signing_policy(),
        !is_for_signing && oaep ==> policy_for(is_for_signing, oaep) == oaep_encryption_policy(),
        !is_for_signing && !oaep ==> policy_for(is_for_signing, oaep)
            == pkcs1v15_encryption_policy(),
        policy_for(is_for_signing, oaep).usages == signing_usages() || policy_for(
            is_for_signing,
            oaep,
        ).usages == encryption_usages(),
{
}

/// A signing policy permits the four signing usages and no other; an
/// encryption policy permits encrypting and decrypting and no other. No usage
/// is permitted by both.
pub proof fn lemma_usages_mutually_exclusive(is_for_signing: bool, oaep: bool, usage: Usage)
    ensures
        is_for_signing ==> (policy_for(is_for_signing, oaep).usages.contains(usage) <==> (usage
            == Usage::SignHash || usage == Usage::VerifyHash || usage == Usage::SignMessage
            || usage == Usage::VerifyMessage)),
        !is_for_signing ==> (policy_for(is_for_signing, oaep).usages.contains(usage) <==> (usage
            == Usage::Encrypt || usage == Usage::Decrypt)),
        !(policy_for(true, oaep).usages.contains(usage) && policy_for(false, oaep).usages.contains(
            usage,
        )),
{
}

/// In every derived policy the usages fit the algorithm.
pub proof fn lemma_derived_policy_consistent(is_for_signing: bool, oaep: bool)
    ensures
        policy_for(is_for_signing, oaep).consistent(),
        policy_for(is_for_signing, oaep).algorithm.is_signature() <==> is_for_signing,
        policy_for(is_for_signing, oaep).algorithm.is_encryption() <==> !is_for_signing,
{
    lemma_usage_families_disjoint();
}

/// For a signing key `oaep` changes nothing: whatever its value, the policy
/// is the signing policy.
pub proof fn lemma_oaep_ignored_for_signing(oaep: bool, other_oaep: bool)
    ensures
        policy_for(true, oaep) == policy_for(true, other_oaep),
        policy_for(true, oaep) == signing_policy(),
{
}

} // verus!
