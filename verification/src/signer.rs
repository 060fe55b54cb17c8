//! Signer descriptors: the caller chooses, per request, which signing backend
//! resolves its credential against the stored key material. The descriptors
//! carry the credential and the public key that selects the stored record;
//! they are never persisted.

use vstd::prelude::*;

use crate::keys::PublicKey;

verus! {

/// The closed set of signing backends a key store hosts.
#[derive(Debug, Clone, Copy, PartialEq, Eq, Structural)]
pub enum SignerBackend {
    Derived,
    Encrypted,
}

/// The registry name each backend is stored under in the key store.
pub open spec fn backend_registry_name(b: SignerBackend) -> Seq<char> {
    match b {
        SignerBackend::Derived => "derived"@,
        SignerBackend::Encrypted => "encrypted"@,
    }
}

impl SignerBackend {
    /// The name this backend is registered under when the key store is
    /// opened.
    pub fn registry_name(&self) -> (r: String)
        ensures
            r@ == backend_registry_name(*self),
    {
        match self {
            SignerBackend::Derived => "derived".to_owned(),
            SignerBackend::Encrypted => "encrypted".to_owned(),
        }
    }
}

/// Credential for the password-encrypted key backend: the stored key it
/// selects and the password that decrypts it.
#[derive(Debug, Clone)]
pub struct EncryptedKeyPassword {
    pub public_key: PublicKey,
    pub password: String,
}

/// Credential for the derived-key backend: the master key it selects, the
/// account index to derive, and the password protecting the master key.
#[derive(Debug, Clone)]
pub struct DerivedKeySignParams {
    pub master_key: PublicKey,
    pub account_id: u16,
    pub password: String,
}

/// The signer descriptor a caller supplies with one send request.
#[derive(Debug, Clone)]
pub enum SignData {
    Derived(DerivedKeySignParams),
    Encrypted(EncryptedKeyPassword),
}

/// Which backend a signer descriptor dispatches to.
pub open spec fn backend_of_sign_data(s: SignData) -> SignerBackend {
    match s {
        SignData::Derived(_) => SignerBackend::Derived,
        SignData::Encrypted(_) => SignerBackend::Encrypted,
    }
}

impl SignData {
    /// The backend that must resolve this descriptor's credential.
    pub fn backend(&self) -> (r: SignerBackend)
        ensures
            r == backend_of_sign_data(*self),
    {
        match self {
            SignData::Derived(_) => SignerBackend::Derived,
            SignData::Encrypted(_) => SignerBackend::Encrypted,
        }
    }

    /// The public key that selects the stored key record the backend signs
    /// with.
    pub fn public_key(&self) -> (r: &PublicKey)
        ensures
            *r == (match *self {
                SignData::Derived(p) => p.master_key,
                SignData::Encrypted(p) => p.public_key,
            }),
    {
        match self {
            SignData::Derived(p) => &p.master_key,
            SignData::Encrypted(p) => &p.public_key,
        }
    }
}

/// A request to add a key to the store, dispatched by backend; both backends
/// import from a mnemonic phrase protected by a password.
#[derive(Debug, Clone)]
pub enum CreateKeyData {
    Derived { phrase: String, password: String },
    Encrypted { phrase: String, password: String },
}

/// A request to change the password protecting a stored key.
#[derive(Debug, Clone)]
pub enum UpdateKeyData {
    Derived { master_key: PublicKey, old_password: String, new_password: String },
    Encrypted { public_key: PublicKey, old_password: String, new_password: String },
}

/// A request to export a stored key's secret material.
#[derive(Debug, Clone)]
pub enum ExportKeyData {
    Derived { master_key: PublicKey, password: String },
    Encrypted(EncryptedKeyPassword),
}

/// Which backend a create request dispatches to.
pub open spec fn backend_of_create(d: CreateKeyData) -> SignerBackend {
    match d {
        CreateKeyData::Derived { .. } => SignerBackend::Derived,
        CreateKeyData::Encrypted { .. } => SignerBackend::Encrypted,
    }
}

/// Which backend an update request dispatches to.
pub open spec fn backend_of_update(d: UpdateKeyData) -> SignerBackend {
    match d {
        UpdateKeyData::Derived { .. } => SignerBackend::Derived,
        UpdateKeyData::Encrypted { .. } => SignerBackend::Encrypted,
    }
}

/// Which backend an export request dispatches to.
pub open spec fn backend_of_export(d: ExportKeyData) -> SignerBackend {
    match d {
        ExportKeyData::Derived { .. } => SignerBackend::Derived,
        ExportKeyData::Encrypted(_) => SignerBackend::Encrypted,
    }
}

impl CreateKeyData {
    /// The backend that must handle this request.
    pub fn backend(&self) -> (r: SignerBackend)
        ensures
            r == backend_of_create(*self),
    {
        match self {
            CreateKeyData::Derived { .. } => SignerBackend::Derived,
            CreateKeyData::Encrypted { .. } => SignerBackend::Encrypted,
        }
    }
}

impl UpdateKeyData {
    /// The backend that must handle this request.
    pub fn backend(&self) -> (r: SignerBackend)
        ensures
            r == backend_of_update(*self),
    {
        match self {
            UpdateKeyData::Derived { .. } => SignerBackend::Derived,
            UpdateKeyData::Encrypted { .. } => SignerBackend::Encrypted,
        }
    }
}

impl ExportKeyData {
    /// The backend that must handle this request.
    pub fn backend(&self) -> (r: SignerBackend)
        ensures
            r == backend_of_export(*self),
    {
        match self {
            ExportKeyData::Derived { .. } => SignerBackend::Derived,
            ExportKeyData::Encrypted(_) => SignerBackend::Encrypted,
        }
    }
}

} // verus!
