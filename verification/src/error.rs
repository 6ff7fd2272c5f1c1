//! The error kinds that any part of a profile read can fail with.
//! Every failure aborts the read of the whole profile: nothing is retried
//! and no partial state is surfaced.

use vstd::prelude::*;

verus! {

/// Why a read of the profile storage failed.
#[derive(Debug, Clone, Copy, PartialEq, Eq, Structural)]
pub enum ReadError {
    /// Missing file, unreadable file, or unexpected end of data.
    Io,
    /// The envelope does not start with the `TDF$` magic.
    BadMagic,
    /// The envelope's MD5 trailer does not match its contents.
    BadSignature,
    /// An encrypted buffer is not over 16 bytes long and a multiple of 16.
    BadEncryptedSize,
    /// The SHA-1 prefix of the decrypted data does not match the outer key
    /// (also the signal for a wrong passcode).
    BadDecryptKey,
    /// The declared length of a decrypted block lies outside the allowed range.
    BadDeclaredLen,
    /// Malformed UTF-16 text, an unknown tag, an account count out of range,
    /// or a salt of the wrong size.
    InvalidData,
    /// A tag or storage generation the reader deliberately does not handle.
    Unsupported,
    /// A stream that should have been fully consumed still has bytes left.
    ExtraneousData,
    /// A referenced theme file on disk is at or over the size ceiling.
    FileTooLarge,
}

} // verus!
