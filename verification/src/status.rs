//! OPC UA status codes used by the runtime core.
//!
//! A status code on the wire is a `u32`; the runtime only distinguishes the
//! codes it produces or branches on, so they are modeled as an enum with an
//! exact numeric image.

use vstd::prelude::*;

verus! {

/// The status codes the runtime core produces or inspects.
#[derive(Clone, Copy, Debug, PartialEq, Eq, Structural)]
pub enum StatusCode {
    Good,
    BadUnexpectedError,
    BadInternalError,
    BadTimeout,
    BadServiceUnsupported,
    BadServerHalted,
    BadNonceInvalid,
    BadSessionIdInvalid,
    BadSessionNotActivated,
    BadSecureChannelIdInvalid,
    BadNodeIdUnknown,
    BadAttributeIdInvalid,
    BadIndexRangeInvalid,
    BadNotSupported,
    BadSecurityModeRejected,
    BadSecurityChecksFailed,
    BadCertificateInvalid,
    BadUserAccessDenied,
    BadTypeMismatch,
    BadSubscriptionIdInvalid,
    BadProtocolVersionUnsupported,
    BadConnectionClosed,
    BadTcpMessageTooLarge,
    BadSequenceNumberInvalid,
    BadRequestInterrupted,
    BadEncodingError,
    BadDecodingError,
    BadWriteNotSupported,
    BadUnknown(u32),
}

impl StatusCode {
    /// The numeric value of the code as it appears on the wire.
    pub open spec fn spec_bits(self) -> u32 {
        match self {
            StatusCode::Good => 0x0000_0000,
            StatusCode::BadUnexpectedError => 0x8001_0000,
            StatusCode::BadInternalError => 0x8002_0000,
            StatusCode::BadTimeout => 0x800A_0000,
            StatusCode::BadServiceUnsupported => 0x800B_0000,
            StatusCode::BadServerHalted => 0x800E_0000,
            StatusCode::BadNonceInvalid => 0x8024_0000,
            StatusCode::BadSessionIdInvalid => 0x8025_0000,
            StatusCode::BadSessionNotActivated => 0x8027_0000,
            StatusCode::BadSecureChannelIdInvalid => 0x8022_0000,
            StatusCode::BadNodeIdUnknown => 0x8034_0000,
            StatusCode::BadAttributeIdInvalid => 0x8035_0000,
            StatusCode::BadIndexRangeInvalid => 0x8036_0000,
            StatusCode::BadNotSupported => 0x803D_0000,
            StatusCode::BadSecurityModeRejected => 0x8054_0000,
            StatusCode::BadSecurityChecksFailed => 0x8013_0000,
            StatusCode::BadCertificateInvalid => 0x8012_0000,
            StatusCode::BadUserAccessDenied => 0x801F_0000,
            StatusCode::BadTypeMismatch => 0x8074_0000,
            StatusCode::BadSubscriptionIdInvalid => 0x8028_0000,
            StatusCode::BadProtocolVersionUnsupported => 0x80BE_0000,
            StatusCode::BadConnectionClosed => 0x80AE_0000,
            StatusCode::BadTcpMessageTooLarge => 0x80B8_0000,
            StatusCode::BadSequenceNumberInvalid => 0x80BF_0000,
            StatusCode::BadRequestInterrupted => 0x80C8_0000,
            StatusCode::BadEncodingError => 0x8038_0000,
            StatusCode::BadDecodingError => 0x8007_0000,
            StatusCode::BadWriteNotSupported => 0x8073_0000,
            StatusCode::BadUnknown(raw) => raw,
        }
    }

    /// The numeric value of the code as it appears on the wire.
    pub fn bits(self) -> (r: u32)
        ensures
            r == self.spec_bits(),
    {
        match self {
            StatusCode::Good => 0x0000_0000,
            StatusCode::BadUnexpectedError => 0x8001_0000,
            StatusCode::BadInternalError => 0x8002_0000,
            StatusCode::BadTimeout => 0x800A_0000,
            StatusCode::BadServiceUnsupported => 0x800B_0000,
            StatusCode::BadServerHalted => 0x800E_0000,
            StatusCode::BadNonceInvalid => 0x8024_0000,
            StatusCode::BadSessionIdInvalid => 0x8025_0000,
            StatusCode::BadSessionNotActivated => 0x8027_0000,
            StatusCode::BadSecureChannelIdInvalid => 0x8022_0000,
            StatusCode::BadNodeIdUnknown => 0x8034_0000,
            StatusCode::BadAttributeIdInvalid => 0x8035_0000,
            StatusCode::BadIndexRangeInvalid => 0x8036_0000,
            StatusCode::BadNotSupported => 0x803D_0000,
            StatusCode::BadSecurityModeRejected => 0x8054_0000,
            StatusCode::BadSecurityChecksFailed => 0x8013_0000,
            StatusCode::BadCertificateInvalid => 0x8012_0000,
            StatusCode::BadUserAccessDenied => 0x801F_0000,
            StatusCode::BadTypeMismatch => 0x8074_0000,
            StatusCode::BadSubscriptionIdInvalid => 0x8028_0000,
            StatusCode::BadProtocolVersionUnsupported => 0x80BE_0000,
            StatusCode::BadConnectionClosed => 0x80AE_0000,
            StatusCode::BadTcpMessageTooLarge => 0x80B8_0000,
            StatusCode::BadSequenceNumberInvalid => 0x80BF_0000,
            StatusCode::BadRequestInterrupted => 0x80C8_0000,
            StatusCode::BadEncodingError => 0x8038_0000,
            StatusCode::BadDecodingError => 0x8007_0000,
            StatusCode::BadWriteNotSupported => 0x8073_0000,
            StatusCode::BadUnknown(raw) => raw,
        }
    }

    /// The status code a wire value denotes: the named code with those bits,
    /// else `BadUnknown`.
    pub open spec fn spec_canon(raw: u32) -> StatusCode {
        if raw == 0x0000_0000 {
            StatusCode::Good
        } else if raw == 0x8001_0000 {
            StatusCode::BadUnexpectedError
        } else if raw == 0x8002_0000 {
            StatusCode::BadInternalError
        } else if raw == 0x800A_0000 {
            StatusCode::BadTimeout
        } else if raw == 0x800B_0000 {
            StatusCode::BadServiceUnsupported
        } else if raw == 0x800E_0000 {
            StatusCode::BadServerHalted
        } else if raw == 0x8024_0000 {
            StatusCode::BadNonceInvalid
        } else if raw == 0x8025_0000 {
            StatusCode::BadSessionIdInvalid
        } else if raw == 0x8027_0000 {
            StatusCode::BadSessionNotActivated
        } else if raw == 0x8022_0000 {
            StatusCode::BadSecureChannelIdInvalid
        } else if raw == 0x8034_0000 {
            StatusCode::BadNodeIdUnknown
        } else if raw == 0x8035_0000 {
            StatusCode::BadAttributeIdInvalid
        } else if raw == 0x8036_0000 {
            StatusCode::BadIndexRangeInvalid
        } else if raw == 0x803D_0000 {
            StatusCode::BadNotSupported
        } else if raw == 0x8054_0000 {
            StatusCode::BadSecurityModeRejected
        } else if raw == 0x8013_0000 {
            StatusCode::BadSecurityChecksFailed
        } else if raw == 0x8012_0000 {
            StatusCode::BadCertificateInvalid
        } else if raw == 0x801F_0000 {
            StatusCode::BadUserAccessDenied
        } else if raw == 0x8074_0000 {
            StatusCode::BadTypeMismatch
        } else if raw == 0x8028_0000 {
            StatusCode::BadSubscriptionIdInvalid
        } else if raw == 0x80BE_0000 {
            StatusCode::BadProtocolVersionUnsupported
        } else if raw == 0x80AE_0000 {
            StatusCode::BadConnectionClosed
        } else if raw == 0x80B8_0000 {
            StatusCode::BadTcpMessageTooLarge
        } else if raw == 0x80BF_0000 {
            StatusCode::BadSequenceNumberInvalid
        } else if raw == 0x80C8_0000 {
            StatusCode::BadRequestInterrupted
        } else if raw == 0x8038_0000 {
            StatusCode::BadEncodingError
        } else if raw == 0x8007_0000 {
            StatusCode::BadDecodingError
        } else if raw == 0x8073_0000 {
            StatusCode::BadWriteNotSupported
        } else {
            StatusCode::BadUnknown(raw)
        }
    }

    /// A code survives a trip over the wire unchanged exactly when it is the
    /// canonical reading of its own bits.
    pub open spec fn spec_is_canonical(self) -> bool {
        Self::spec_canon(self.spec_bits()) == self
    }

    /// Rebuild a status code from its wire value. Values of codes the runtime
    /// does not name come back as `BadUnknown`.
    pub fn from_bits(raw: u32) -> (r: StatusCode)
        ensures
            r == Self::spec_canon(raw),
            r.spec_bits() == raw,
    {
        if raw == 0x0000_0000 {
            StatusCode::Good
        } else if raw == 0x8001_0000 {
            StatusCode::BadUnexpectedError
        } else if raw == 0x8002_0000 {
            StatusCode::BadInternalError
        } else if raw == 0x800A_0000 {
            StatusCode::BadTimeout
        } else if raw == 0x800B_0000 {
            StatusCode::BadServiceUnsupported
        } else if raw == 0x800E_0000 {
            StatusCode::BadServerHalted
        } else if raw == 0x8024_0000 {
            StatusCode::BadNonceInvalid
        } else if raw == 0x8025_0000 {
            StatusCode::BadSessionIdInvalid
        } else if raw == 0x8027_0000 {
            StatusCode::BadSessionNotActivated
        } else if raw == 0x8022_0000 {
            StatusCode::BadSecureChannelIdInvalid
        } else if raw == 0x8034_0000 {
            StatusCode::BadNodeIdUnknown
        } else if raw == 0x8035_0000 {
            StatusCode::BadAttributeIdInvalid
        } else if raw == 0x8036_0000 {
            StatusCode::BadIndexRangeInvalid
        } else if raw == 0x803D_0000 {
            StatusCode::BadNotSupported
        } else if raw == 0x8054_0000 {
            StatusCode::BadSecurityModeRejected
        } else if raw == 0x8013_0000 {
            StatusCode::BadSecurityChecksFailed
        } else if raw == 0x8012_0000 {
            StatusCode::BadCertificateInvalid
        } else if raw == 0x801F_0000 {
            StatusCode::BadUserAccessDenied
        } else if raw == 0x8074_0000 {
            StatusCode::BadTypeMismatch
        } else if raw == 0x8028_0000 {
            StatusCode::BadSubscriptionIdInvalid
        } else if raw == 0x80BE_0000 {
            StatusCode::BadProtocolVersionUnsupported
        } else if raw == 0x80AE_0000 {
            StatusCode::BadConnectionClosed
        } else if raw == 0x80B8_0000 {
            StatusCode::BadTcpMessageTooLarge
        } else if raw == 0x80BF_0000 {
            StatusCode::BadSequenceNumberInvalid
        } else if raw == 0x80C8_0000 {
            StatusCode::BadRequestInterrupted
        } else if raw == 0x8038_0000 {
            StatusCode::BadEncodingError
        } else if raw == 0x8007_0000 {
            StatusCode::BadDecodingError
        } else if raw == 0x8073_0000 {
            StatusCode::BadWriteNotSupported
        } else {
            StatusCode::BadUnknown(raw)
        }
    }

    /// Every named status code decodes back to itself.
    pub proof fn lemma_named_codes_canonical(self)
        ensures
            !(self is BadUnknown) ==> self.spec_is_canonical(),
    {
    }

    /// A code is good when its severity bits are clear; the runtime's `Good`
    /// is the only good code it constructs.
    pub open spec fn spec_is_good(self) -> bool {
        self.spec_bits() & 0x8000_0000 == 0
    }

    /// Whether the severity of the code is good.
    pub fn is_good(self) -> (r: bool)
        ensures
            r == self.spec_is_good(),
    {
        self.bits() & 0x8000_0000 == 0
    }

    /// Whether the severity of the code is bad.
    pub fn is_bad(self) -> (r: bool)
        ensures
            r == (self.spec_bits() & 0x8000_0000 != 0),
    {
        self.bits() & 0x8000_0000 != 0
    }

    /// Codes counted as security rejections in the server diagnostics.
    pub open spec fn spec_is_security_error(self) -> bool {
        self == StatusCode::BadSessionIdInvalid || self == StatusCode::BadSecurityChecksFailed
            || self == StatusCode::BadUserAccessDenied
    }

    /// Whether the code counts as a security rejection in diagnostics.
    pub fn is_security_error(self) -> (r: bool)
        ensures
            r == self.spec_is_security_error(),
    {
        match self {
            StatusCode::BadSessionIdInvalid => true,
            StatusCode::BadSecurityChecksFailed => true,
            StatusCode::BadUserAccessDenied => true,
            _ => false,
        }
    }
}

} // verus!
