//! Hybrid public-key encryption configuration as the harness sees it: the
//! algorithm identifiers of a keypair and the single algorithm triple the
//! reference implementation accepts.

use vstd::prelude::*;

verus! {

/// Key-encapsulation mechanism identifiers, with their registry codes.
#[derive(Clone, Copy, Debug, PartialEq, Eq, Structural)]
pub enum HpkeKemId {
    P256HkdfSha256,
    X25519HkdfSha256,
}

/// Key-derivation function identifiers, with their registry codes.
#[derive(Clone, Copy, Debug, PartialEq, Eq, Structural)]
pub enum HpkeKdfId {
    HkdfSha256,
    HkdfSha384,
    HkdfSha512,
}

/// Authenticated-encryption algorithm identifiers, with their registry codes.
#[derive(Clone, Copy, Debug, PartialEq, Eq, Structural)]
pub enum HpkeAeadId {
    Aes128Gcm,
    Aes256Gcm,
    ChaCha20Poly1305,
}

impl HpkeKemId {
    /// The registry code of this key-encapsulation mechanism.
    pub fn code(&self) -> (r: u16)
        ensures
            r == self.spec_code(),
    {
        match self {
            HpkeKemId::P256HkdfSha256 => 16,
            HpkeKemId::X25519HkdfSha256 => 32,
        }
    }

    pub open spec fn spec_code(self) -> u16 {
        match self {
            HpkeKemId::P256HkdfSha256 => 16,
            HpkeKemId::X25519HkdfSha256 => 32,
        }
    }
}

impl HpkeKdfId {
    /// The registry code of this key-derivation function.
    pub fn code(&self) -> (r: u16)
        ensures
            r == self.spec_code(),
    {
        match self {
            HpkeKdfId::HkdfSha256 => 1,
            HpkeKdfId::HkdfSha384 => 2,
            HpkeKdfId::HkdfSha512 => 3,
        }
    }

    pub open spec fn spec_code(self) -> u16 {
        match self {
            HpkeKdfId::HkdfSha256 => 1,
            HpkeKdfId::HkdfSha384 => 2,
            HpkeKdfId::HkdfSha512 => 3,
        }
    }
}

impl HpkeAeadId {
    /// The registry code of this authenticated-encryption algorithm.
    pub fn code(&self) -> (r: u16)
        ensures
            r == self.spec_code(),
    {
        match self {
            HpkeAeadId::Aes128Gcm => 1,
            HpkeAeadId::Aes256Gcm => 2,
            HpkeAeadId::ChaCha20Poly1305 => 3,
        }
    }

    pub open spec fn spec_code(self) -> u16 {
        match self {
            HpkeAeadId::Aes128Gcm => 1,
            HpkeAeadId::Aes256Gcm => 2,
            HpkeAeadId::ChaCha20Poly1305 => 3,
        }
    }
}

/// Public HPKE configuration of a keypair: identifier, algorithm triple and
/// public key bytes.
#[derive(Clone, Debug)]
pub struct HpkeConfig {
    pub id: u8,
    pub kem_id: HpkeKemId,
    pub kdf_id: HpkeKdfId,
    pub aead_id: HpkeAeadId,
    pub public_key: Vec<u8>,
}

/// An HPKE keypair: the public configuration plus the private key bytes.
#[derive(Clone, Debug)]
pub struct HpkeKeypair {
    pub config: HpkeConfig,
    pub private_key: Vec<u8>,
}

/// The one algorithm triple the reference implementation supports:
/// X25519-HKDF-SHA256 key encapsulation, HKDF-SHA256 key derivation and
/// AES-128-GCM encryption.
pub open spec fn spec_triple_supported(kem: HpkeKemId, kdf: HpkeKdfId, aead: HpkeAeadId) -> bool {
    &&& kem == HpkeKemId::X25519HkdfSha256
    &&& kdf == HpkeKdfId::HkdfSha256
    &&& aead == HpkeAeadId::Aes128Gcm
}

impl HpkeConfig {
    /// Whether this configuration uses the supported algorithm triple.
    pub open spec fn spec_supported(self) -> bool {
        spec_triple_supported(self.kem_id, self.kdf_id, self.aead_id)
    }

    /// Whether this configuration uses the supported algorithm triple.
    pub fn supported(&self) -> (r: bool)
        ensures
            r == self.spec_supported(),
    {
        self.kem_id == HpkeKemId::X25519HkdfSha256 && self.kdf_id == HpkeKdfId::HkdfSha256
            && self.aead_id == HpkeAeadId::Aes128Gcm
    }
}

} // verus!
