//! The algorithm that a key's policy permits.

use vstd::prelude::*;

verus! {

/// A hash function of the SHA-2 family.
#[derive(Clone, Copy, Debug, PartialEq, Eq, Structural)]
pub enum HashAlgorithm {
    Sha224,
    Sha256,
    Sha384,
    Sha512,
}

/// The one algorithm that an RSA key may be used with: a signature scheme or
/// an encryption scheme, never both.
#[derive(Clone, Copy, Debug, PartialEq, Eq, Structural)]
pub enum PermittedAlgorithm {
    /// RSA signature with PKCS#1 v1.5 padding over a hash of the message.
    RsaPkcs1v15Sign { hash: HashAlgorithm },
    /// RSA signature with PSS padding over a hash of the message.
    RsaPss { hash: HashAlgorithm },
    /// RSA encryption with PKCS#1 v1.5 padding.
    RsaPkcs1v15Crypt,
    /// RSA encryption with OAEP padding.
    RsaOaep { hash: HashAlgorithm },
}

impl PermittedAlgorithm {
    /// Whether this is a signature scheme.
    pub open spec fn is_signature(self) -> bool {
        self is RsaPkcs1v15Sign || self is RsaPss
    }

    /// Whether this is an encryption scheme.
    pub open spec fn is_encryption(self) -> bool {
        self is RsaPkcs1v15Crypt || self is RsaOaep
    }
}

} // verus!
