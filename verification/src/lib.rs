//! A folder encryption engine: password-based key derivation, authenticated
//! encryption of whole files, a per-folder manifest that maps ciphertexts
//! back to their names, and an optional key-escrow path that lets a master
//! credential unwrap a folder's key without its password.
//!
//! The engine works on in-memory values and decides; its caller performs the
//! file I/O around it. Contracts on every operation state exactly which
//! inputs succeed, which error each failing input gets, and how the outputs
//! relate to the inputs; the laws module proves the round-trip and recovery
//! properties from those contracts.

use vstd::prelude::*;

pub mod crypto;
pub mod folder;
pub mod laws;
pub mod master;
pub mod state;

verus! {

/// The typed failures that the engine reports.
///
/// Wrong-password and corrupted-ciphertext failures are deliberately the
/// same variant (`AuthenticationFailed`): the AEAD cannot tell them apart,
/// and no side channel should either.
#[derive(Clone, Copy, Debug, PartialEq, Eq, Structural)]
pub enum SecureLockError {
    /// The given path does not name an existing directory.
    NotADirectory,
    /// The folder is already on the watched list.
    AlreadyListed,
    /// A manifest is already present at the folder root.
    AlreadyLocked,
    /// No manifest is present at the folder root.
    NotLocked,
    /// The master password is shorter than the minimum length.
    WeakPassword,
    /// No master credential has been configured.
    NotConfigured,
    /// The supplied password failed token verification.
    WrongPassword,
    /// A ciphertext is too short to contain a nonce.
    TooShort,
    /// AEAD authentication failed: wrong key or altered bytes.
    AuthenticationFailed,
    /// A wrapped key decrypted to something other than a key.
    InvalidWrappedKey,
    /// The manifest carries no recovery key.
    NoRecoveryKey,
    /// The key-derivation input was out of range.
    DerivationError,
    /// AEAD encryption refused the plaintext (it is too long).
    EncryptionFailed,
    /// The manifest's salt does not have the expected length.
    InvalidSalt,
    /// A manifest file exists but could not be read or parsed.
    ManifestError,
}

} // verus!
