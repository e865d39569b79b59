//! The numeric error-code taxonomy used on `ERR` lines.  The protocol family
//! draws its codes from a fixed, well-known space; a code outside that space
//! is an embedding-defined custom code and is carried through as a plain
//! number.

use vstd::prelude::*;

verus! {

/// The well-known error codes this library recognizes, with their canonical
/// numeric values given by [`GpgErrorCode::spec_code`].
#[derive(Clone, Copy, PartialEq, Eq, Structural, Debug)]
pub enum GpgErrorCode {
    NoError,
    General,
    UnknownPacket,
    UnknownVersion,
    PubkeyAlgo,
    DigestAlgo,
    BadPubkey,
    BadSeckey,
    BadSignature,
    NoPubkey,
    Checksum,
    BadPassphrase,
    CipherAlgo,
    KeyringOpen,
    InvPacket,
    InvArmor,
    NoUserId,
    NoSeckey,
    WrongSeckey,
    BadKey,
    ComprAlgo,
    NoPrime,
    NoEncodingMethod,
    NoEncryptionScheme,
    NoSignatureScheme,
    InvAttr,
    NoValue,
    NotFound,
    ValueNotFound,
    Syntax,
    BadMpi,
    InvPassphrase,
    SigClass,
    ResourceLimit,
    InvKeyring,
    Trustdb,
    BadCert,
    InvUserId,
    Unexpected,
    TimeConflict,
    Keyserver,
    WrongPubkeyAlgo,
    InvArg,
    InvValue,
    NoData,
    Bug,
    NotSupported,
    InvOp,
    Timeout,
    Internal,
    TooShort,
    TooLarge,
    NotImplemented,
    Conflict,
    Truncated,
    IncompleteLine,
    InvResponse,
    Assuan,
    MissingErrno,
    UnknownErrno,
    Eof,
}

/// An error code outside the well-known space, carried as its raw value.
#[derive(Clone, Copy, PartialEq, Eq, Structural, Debug)]
pub struct Custom(pub u32);

impl GpgErrorCode {
    /// The canonical numeric value of this code.
    pub open spec fn spec_code(self) -> u32 {
        match self {
            GpgErrorCode::NoError => 0,
            GpgErrorCode::General => 1,
            GpgErrorCode::UnknownPacket => 2,
            GpgErrorCode::UnknownVersion => 3,
            GpgErrorCode::PubkeyAlgo => 4,
            GpgErrorCode::DigestAlgo => 5,
            GpgErrorCode::BadPubkey => 6,
            GpgErrorCode::BadSeckey => 7,
            GpgErrorCode::BadSignature => 8,
            GpgErrorCode::NoPubkey => 9,
            GpgErrorCode::Checksum => 10,
            GpgErrorCode::BadPassphrase => 11,
            GpgErrorCode::CipherAlgo => 12,
            GpgErrorCode::KeyringOpen => 13,
            GpgErrorCode::InvPacket => 14,
            GpgErrorCode::InvArmor => 15,
            GpgErrorCode::NoUserId => 16,
            GpgErrorCode::NoSeckey => 17,
            GpgErrorCode::WrongSeckey => 18,
            GpgErrorCode::BadKey => 19,
            GpgErrorCode::ComprAlgo => 20,
            GpgErrorCode::NoPrime => 21,
            GpgErrorCode::NoEncodingMethod => 22,
            GpgErrorCode::NoEncryptionScheme => 23,
            GpgErrorCode::NoSignatureScheme => 24,
            GpgErrorCode::InvAttr => 25,
            GpgErrorCode::NoValue => 26,
            GpgErrorCode::NotFound => 27,
            GpgErrorCode::ValueNotFound => 28,
            GpgErrorCode::Syntax => 29,
            GpgErrorCode::BadMpi => 30,
            GpgErrorCode::InvPassphrase => 31,
            GpgErrorCode::SigClass => 32,
            GpgErrorCode::ResourceLimit => 33,
            GpgErrorCode::InvKeyring => 34,
            GpgErrorCode::Trustdb => 35,
            GpgErrorCode::BadCert => 36,
            GpgErrorCode::InvUserId => 37,
            GpgErrorCode::Unexpected => 38,
            GpgErrorCode::TimeConflict => 39,
            GpgErrorCode::Keyserver => 40,
            GpgErrorCode::WrongPubkeyAlgo => 41,
            GpgErrorCode::InvArg => 45,
            GpgErrorCode::InvValue => 55,
            GpgErrorCode::NoData => 58,
            GpgErrorCode::Bug => 59,
            GpgErrorCode::NotSupported => 60,
            GpgErrorCode::InvOp => 61,
            GpgErrorCode::Timeout => 62,
            GpgErrorCode::Internal => 63,
            GpgErrorCode::TooShort => 66,
            GpgErrorCode::TooLarge => 67,
            GpgErrorCode::NotImplemented => 69,
            GpgErrorCode::Conflict => 70,
            GpgErrorCode::Truncated => 74,
            GpgErrorCode::IncompleteLine => 75,
            GpgErrorCode::InvResponse => 76,
            GpgErrorCode::Assuan => 81,
            GpgErrorCode::MissingErrno => 16381,
            GpgErrorCode::UnknownErrno => 16382,
            GpgErrorCode::Eof => 16383,
        }
    }

    /// Renders this code as its canonical numeric value.
    pub fn code(&self) -> (n: u32)
        ensures
            n == self.spec_code(),
    {
        match self {
            GpgErrorCode::NoError => 0,
            GpgErrorCode::General => 1,
            GpgErrorCode::UnknownPacket => 2,
            GpgErrorCode::UnknownVersion => 3,
            GpgErrorCode::PubkeyAlgo => 4,
            GpgErrorCode::DigestAlgo => 5,
            GpgErrorCode::BadPubkey => 6,
            GpgErrorCode::BadSeckey => 7,
            GpgErrorCode::BadSignature => 8,
            GpgErrorCode::NoPubkey => 9,
            GpgErrorCode::Checksum => 10,
            GpgErrorCode::BadPassphrase => 11,
            GpgErrorCode::CipherAlgo => 12,
            GpgErrorCode::KeyringOpen => 13,
            GpgErrorCode::InvPacket => 14,
            GpgErrorCode::InvArmor => 15,
            GpgErrorCode::NoUserId => 16,
            GpgErrorCode::NoSeckey => 17,
            GpgErrorCode::WrongSeckey => 18,
            GpgErrorCode::BadKey => 19,
            GpgErrorCode::ComprAlgo => 20,
            GpgErrorCode::NoPrime => 21,
            GpgErrorCode::NoEncodingMethod => 22,
            GpgErrorCode::NoEncryptionScheme => 23,
            GpgErrorCode::NoSignatureScheme => 24,
            GpgErrorCode::InvAttr => 25,
            GpgErrorCode::NoValue => 26,
            GpgErrorCode::NotFound => 27,
            GpgErrorCode::ValueNotFound => 28,
            GpgErrorCode::Syntax => 29,
            GpgErrorCode::BadMpi => 30,
            GpgErrorCode::InvPassphrase => 31,
            GpgErrorCode::SigClass => 32,
            GpgErrorCode::ResourceLimit => 33,
            GpgErrorCode::InvKeyring => 34,
            GpgErrorCode::Trustdb => 35,
            GpgErrorCode::BadCert => 36,
            GpgErrorCode::InvUserId => 37,
            GpgErrorCode::Unexpected => 38,
            GpgErrorCode::TimeConflict => 39,
            GpgErrorCode::Keyserver => 40,
            GpgErrorCode::WrongPubkeyAlgo => 41,
            GpgErrorCode::InvArg => 45,
            GpgErrorCode::InvValue => 55,
            GpgErrorCode::NoData => 58,
            GpgErrorCode::Bug => 59,
            GpgErrorCode::NotSupported => 60,
            GpgErrorCode::InvOp => 61,
            GpgErrorCode::Timeout => 62,
            GpgErrorCode::Internal => 63,
            GpgErrorCode::TooShort => 66,
            GpgErrorCode::TooLarge => 67,
            GpgErrorCode::NotImplemented => 69,
            GpgErrorCode::Conflict => 70,
            GpgErrorCode::Truncated => 74,
            GpgErrorCode::IncompleteLine => 75,
            GpgErrorCode::InvResponse => 76,
            GpgErrorCode::Assuan => 81,
            GpgErrorCode::MissingErrno => 16381,
            GpgErrorCode::UnknownErrno => 16382,
            GpgErrorCode::Eof => 16383,
        }
    }
}

/// The well-known code with value `n`, if `n` lies in the well-known space.
pub open spec fn known_code(n: u32) -> Option<GpgErrorCode> {
    if n == 0 {
        Some(GpgErrorCode::NoError)
    } else if n == 1 {
        Some(GpgErrorCode::General)
    } else if n == 2 {
        Some(GpgErrorCode::UnknownPacket)
    } else if n == 3 {
        Some(GpgErrorCode::UnknownVersion)
    } else if n == 4 {
        Some(GpgErrorCode::PubkeyAlgo)
    } else if n == 5 {
        Some(GpgErrorCode::DigestAlgo)
    } else if n == 6 {
        Some(GpgErrorCode::BadPubkey)
    } else if n == 7 {
        Some(GpgErrorCode::BadSeckey)
    } else if n == 8 {
        Some(GpgErrorCode::BadSignature)
    } else if n == 9 {
        Some(GpgErrorCode::NoPubkey)
    } else if n == 10 {
        Some(GpgErrorCode::Checksum)
    } else if n == 11 {
        Some(GpgErrorCode::BadPassphrase)
    } else if n == 12 {
        Some(GpgErrorCode::CipherAlgo)
    } else if n == 13 {
        Some(GpgErrorCode::KeyringOpen)
    } else if n == 14 {
        Some(GpgErrorCode::InvPacket)
    } else if n == 15 {
        Some(GpgErrorCode::InvArmor)
    } else if n == 16 {
        Some(GpgErrorCode::NoUserId)
    } else if n == 17 {
        Some(GpgErrorCode::NoSeckey)
    } else if n == 18 {
        Some(GpgErrorCode::WrongSeckey)
    } else if n == 19 {
        Some(GpgErrorCode::BadKey)
    } else if n == 20 {
        Some(GpgErrorCode::ComprAlgo)
    } else if n == 21 {
        Some(GpgErrorCode::NoPrime)
    } else if n == 22 {
        Some(GpgErrorCode::NoEncodingMethod)
    } else if n == 23 {
        Some(GpgErrorCode::NoEncryptionScheme)
    } else if n == 24 {
        Some(GpgErrorCode::NoSignatureScheme)
    } else if n == 25 {
        Some(GpgErrorCode::InvAttr)
    } else if n == 26 {
        Some(GpgErrorCode::NoValue)
    } else if n == 27 {
        Some(GpgErrorCode::NotFound)
    } else if n == 28 {
        Some(GpgErrorCode::ValueNotFound)
    } else if n == 29 {
        Some(GpgErrorCode::Syntax)
    } else if n == 30 {
        Some(GpgErrorCode::BadMpi)
    } else if n == 31 {
        Some(GpgErrorCode::InvPassphrase)
    } else if n == 32 {
        Some(GpgErrorCode::SigClass)
    } else if n == 33 {
        Some(GpgErrorCode::ResourceLimit)
    } else if n == 34 {
        Some(GpgErrorCode::InvKeyring)
    } else if n == 35 {
        Some(GpgErrorCode::Trustdb)
    } else if n == 36 {
        Some(GpgErrorCode::BadCert)
    } else if n == 37 {
        Some(GpgErrorCode::InvUserId)
    } else if n == 38 {
        Some(GpgErrorCode::Unexpected)
    } else if n == 39 {
        Some(GpgErrorCode::TimeConflict)
    } else if n == 40 {
        Some(GpgErrorCode::Keyserver)
    } else if n == 41 {
        Some(GpgErrorCode::WrongPubkeyAlgo)
    } else if n == 45 {
        Some(GpgErrorCode::InvArg)
    } else if n == 55 {
        Some(GpgErrorCode::InvValue)
    } else if n == 58 {
        Some(GpgErrorCode::NoData)
    } else if n == 59 {
        Some(GpgErrorCode::Bug)
    } else if n == 60 {
        Some(GpgErrorCode::NotSupported)
    } else if n == 61 {
        Some(GpgErrorCode::InvOp)
    } else if n == 62 {
        Some(GpgErrorCode::Timeout)
    } else if n == 63 {
        Some(GpgErrorCode::Internal)
    } else if n == 66 {
        Some(GpgErrorCode::TooShort)
    } else if n == 67 {
        Some(GpgErrorCode::TooLarge)
    } else if n == 69 {
        Some(GpgErrorCode::NotImplemented)
    } else if n == 70 {
        Some(GpgErrorCode::Conflict)
    } else if n == 74 {
        Some(GpgErrorCode::Truncated)
    } else if n == 75 {
        Some(GpgErrorCode::IncompleteLine)
    } else if n == 76 {
        Some(GpgErrorCode::InvResponse)
    } else if n == 81 {
        Some(GpgErrorCode::Assuan)
    } else if n == 16381 {
        Some(GpgErrorCode::MissingErrno)
    } else if n == 16382 {
        Some(GpgErrorCode::UnknownErrno)
    } else if n == 16383 {
        Some(GpgErrorCode::Eof)
    } else {
        None
    }
}

/// Looks `n` up in the well-known code table.
pub fn code_lookup(n: u32) -> (r: Option<GpgErrorCode>)
    ensures
        r == known_code(n),
{
    match n {
        0 => Some(GpgErrorCode::NoError),
        1 => Some(GpgErrorCode::General),
        2 => Some(GpgErrorCode::UnknownPacket),
        3 => Some(GpgErrorCode::UnknownVersion),
        4 => Some(GpgErrorCode::PubkeyAlgo),
        5 => Some(GpgErrorCode::DigestAlgo),
        6 => Some(GpgErrorCode::BadPubkey),
        7 => Some(GpgErrorCode::BadSeckey),
        8 => Some(GpgErrorCode::BadSignature),
        9 => Some(GpgErrorCode::NoPubkey),
        10 => Some(GpgErrorCode::Checksum),
        11 => Some(GpgErrorCode::BadPassphrase),
        12 => Some(GpgErrorCode::CipherAlgo),
        13 => Some(GpgErrorCode::KeyringOpen),
        14 => Some(GpgErrorCode::InvPacket),
        15 => Some(GpgErrorCode::InvArmor),
        16 => Some(GpgErrorCode::NoUserId),
        17 => Some(GpgErrorCode::NoSeckey),
        18 => Some(GpgErrorCode::WrongSeckey),
        19 => Some(GpgErrorCode::BadKey),
        20 => Some(GpgErrorCode::ComprAlgo),
        21 => Some(GpgErrorCode::NoPrime),
        22 => Some(GpgErrorCode::NoEncodingMethod),
        23 => Some(GpgErrorCode::NoEncryptionScheme),
        24 => Some(GpgErrorCode::NoSignatureScheme),
        25 => Some(GpgErrorCode::InvAttr),
        26 => Some(GpgErrorCode::NoValue),
        27 => Some(GpgErrorCode::NotFound),
        28 => Some(GpgErrorCode::ValueNotFound),
        29 => Some(GpgErrorCode::Syntax),
        30 => Some(GpgErrorCode::BadMpi),
        31 => Some(GpgErrorCode::InvPassphrase),
        32 => Some(GpgErrorCode::SigClass),
        33 => Some(GpgErrorCode::ResourceLimit),
        34 => Some(GpgErrorCode::InvKeyring),
        35 => Some(GpgErrorCode::Trustdb),
        36 => Some(GpgErrorCode::BadCert),
        37 => Some(GpgErrorCode::InvUserId),
        38 => Some(GpgErrorCode::Unexpected),
        39 => Some(GpgErrorCode::TimeConflict),
        40 => Some(GpgErrorCode::Keyserver),
        41 => Some(GpgErrorCode::WrongPubkeyAlgo),
        45 => Some(GpgErrorCode::InvArg),
        55 => Some(GpgErrorCode::InvValue),
        58 => Some(GpgErrorCode::NoData),
        59 => Some(GpgErrorCode::Bug),
        60 => Some(GpgErrorCode::NotSupported),
        61 => Some(GpgErrorCode::InvOp),
        62 => Some(GpgErrorCode::Timeout),
        63 => Some(GpgErrorCode::Internal),
        66 => Some(GpgErrorCode::TooShort),
        67 => Some(GpgErrorCode::TooLarge),
        69 => Some(GpgErrorCode::NotImplemented),
        70 => Some(GpgErrorCode::Conflict),
        74 => Some(GpgErrorCode::Truncated),
        75 => Some(GpgErrorCode::IncompleteLine),
        76 => Some(GpgErrorCode::InvResponse),
        81 => Some(GpgErrorCode::Assuan),
        16381 => Some(GpgErrorCode::MissingErrno),
        16382 => Some(GpgErrorCode::UnknownErrno),
        16383 => Some(GpgErrorCode::Eof),
        _ => None,
    }
}

/// Every well-known code is found in the table under its own value: encoding
/// a known code and decoding the number gives the code back.
pub proof fn lemma_known_code_round_trip(e: GpgErrorCode)
    ensures
        known_code(e.spec_code()) == Some(e),
{
}

} // verus!
