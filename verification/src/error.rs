//! Error type definition.

use vstd::prelude::*;

verus! {

/// The result of an operation that can fail with a status of the legacy
/// interface.
pub type Result<T> = std::result::Result<T, Error>;

/// Facility code of every status word of the legacy interface.
pub const D3D9_FACILITY: u32 = 0x876;

/// A severity bit, a facility and a code, packed into one status word.
pub open spec fn hresult_of(sev: u32, fac: u32, code: u32) -> u32 {
    (sev << 31u32) | (fac << 16u32) | code
}

/// The status word of a failure with the given code.
pub open spec fn result_of(code: u32) -> u32 {
    hresult_of(1, D3D9_FACILITY, code)
}

/// The status word of a success with the given code.
pub open spec fn status_of(code: u32) -> u32 {
    hresult_of(0, D3D9_FACILITY, code)
}

/// Packs a severity bit, a facility and a code into a status word.
pub fn make_hresult(sev: u32, fac: u32, code: u32) -> (res: u32)
    ensures
        res == hresult_of(sev, fac, code),
{
    (sev << 31u32) | (fac << 16u32) | code
}

/// Packs a failure code into a status word.
pub fn make_result(code: u32) -> (res: u32)
    ensures
        res == result_of(code),
{
    make_hresult(1, D3D9_FACILITY, code)
}

/// Packs a success code into a status word.
pub fn make_status(code: u32) -> (res: u32)
    ensures
        res == status_of(code),
{
    make_hresult(0, D3D9_FACILITY, code)
}

/// A status of the legacy interface.
#[derive(Debug, Copy, Clone, PartialEq, Eq, Structural)]
pub enum Error {
    Success,
    NotFound,
    MoreData,
    NotAvailable,
    InvalidCall,
    // Device errors
    InvalidDevice,
    DeviceHung,
    DeviceLost,
    DeviceNotReset,
    DeviceRemoved,
    // Driver errors
    DriverInvalidCall,
    DriverInternalError,
    // Resource exhaustion errors
    OutOfVideoMemory,
    TooManyOperations,
    // Resource usage errors
    WasStillDrawing,
    WrongTextureFormat,
    UnsupportedTextureFilter,
    UnsupportedColorOperation,
    UnsupportedColorArg,
    UnsupportedAlphaOperation,
    UnsupportedAlphaArg,
    UnsupportedFactorValue,
    UnsupportedOverlay,
    UnsupportedOverlayFormat,
    NoAutoGen,
    // Conflicting state
    ConflictingTextureFilter,
    ConflictingTexturePalette,
    ConflictingRenderState,
    // Protected content
    CanNotProtectContent,
    UnsupportedCrypto,
    // Misc errors
    NotResident,
    ResidentInSharedMemory,
    PresentModeChanged,
    PresentOccluded,
    PresentStatisticsDisjoint,
}

impl Error {
    /// The status word that stands for this status on the wire.
    pub open spec fn spec_code(self) -> u32 {
        match self {
            Error::Success => 0,
            Error::NotFound => result_of(2150),
            Error::MoreData => result_of(2151),
            Error::NotAvailable => result_of(2154),
            Error::InvalidCall => result_of(2156),
            Error::InvalidDevice => result_of(2155),
            Error::DeviceHung => result_of(2164),
            Error::DeviceLost => result_of(2152),
            Error::DeviceNotReset => result_of(2153),
            Error::DeviceRemoved => result_of(2160),
            Error::DriverInvalidCall => result_of(2157),
            Error::DriverInternalError => result_of(2087),
            Error::OutOfVideoMemory => result_of(380),
            Error::TooManyOperations => result_of(2077),
            Error::WasStillDrawing => result_of(540),
            Error::WrongTextureFormat => result_of(2072),
            Error::UnsupportedTextureFilter => result_of(2082),
            Error::UnsupportedColorOperation => result_of(2073),
            Error::UnsupportedColorArg => result_of(2074),
            Error::UnsupportedAlphaOperation => result_of(2075),
            Error::UnsupportedAlphaArg => result_of(2076),
            Error::UnsupportedFactorValue => result_of(2079),
            Error::UnsupportedOverlay => result_of(2171),
            Error::UnsupportedOverlayFormat => result_of(2172),
            Error::NoAutoGen => status_of(2159),
            Error::ConflictingTextureFilter => result_of(2078),
            Error::ConflictingTexturePalette => result_of(2086),
            Error::ConflictingRenderState => result_of(2081),
            Error::CanNotProtectContent => result_of(2173),
            Error::UnsupportedCrypto => result_of(2174),
            Error::NotResident => status_of(2165),
            Error::ResidentInSharedMemory => status_of(2166),
            Error::PresentModeChanged => status_of(2167),
            Error::PresentOccluded => status_of(2168),
            Error::PresentStatisticsDisjoint => status_of(2180),
        }
    }

    /// The status word that stands for this status on the wire.
    #[verifier::when_used_as_spec(spec_code)]
    pub fn code(self) -> (res: u32)
        ensures
            res == self.spec_code(),
    {
        match self {
            Error::Success => 0,
            Error::NotFound => make_result(2150),
            Error::MoreData => make_result(2151),
            Error::NotAvailable => make_result(2154),
            Error::InvalidCall => make_result(2156),
            Error::InvalidDevice => make_result(2155),
            Error::DeviceHung => make_result(2164),
            Error::DeviceLost => make_result(2152),
            Error::DeviceNotReset => make_result(2153),
            Error::DeviceRemoved => make_result(2160),
            Error::DriverInvalidCall => make_result(2157),
            Error::DriverInternalError => make_result(2087),
            Error::OutOfVideoMemory => make_result(380),
            Error::TooManyOperations => make_result(2077),
            Error::WasStillDrawing => make_result(540),
            Error::WrongTextureFormat => make_result(2072),
            Error::UnsupportedTextureFilter => make_result(2082),
            Error::UnsupportedColorOperation => make_result(2073),
            Error::UnsupportedColorArg => make_result(2074),
            Error::UnsupportedAlphaOperation => make_result(2075),
            Error::UnsupportedAlphaArg => make_result(2076),
            Error::UnsupportedFactorValue => make_result(2079),
            Error::UnsupportedOverlay => make_result(2171),
            Error::UnsupportedOverlayFormat => make_result(2172),
            Error::NoAutoGen => make_status(2159),
            Error::ConflictingTextureFilter => make_result(2078),
            Error::ConflictingTexturePalette => make_result(2086),
            Error::ConflictingRenderState => make_result(2081),
            Error::CanNotProtectContent => make_result(2173),
            Error::UnsupportedCrypto => make_result(2174),
            Error::NotResident => make_status(2165),
            Error::ResidentInSharedMemory => make_status(2166),
            Error::PresentModeChanged => make_status(2167),
            Error::PresentOccluded => make_status(2168),
            Error::PresentStatisticsDisjoint => make_status(2180),
        }
    }

    /// Splits a status into success and failure.
    pub fn into_result(self) -> (res: Result<()>)
        ensures
            res == (if self == Error::Success { Ok::<(), Error>(()) } else { Err::<(), Error>(self) }),
    {
        match self {
            Error::Success => Ok(()),
            _ => Err(self),
        }
    }

    /// The status of an operation that went well.
    pub fn from_ok(_v: ()) -> (res: Error)
        ensures
            res == Error::Success,
    {
        Error::Success
    }

    /// The status of an operation that failed: the failure itself.
    pub fn from_error(err: Error) -> (res: Error)
        ensures
            res == err,
    {
        err
    }
}

/// A status word has its code in the low half, the facility above it and
/// the severity in the top bit: a failure is `0x8876_0000` plus its code, a
/// success `0x0876_0000` plus its code.
pub proof fn status_word_layout(code: u32)
    by (bit_vector)
    requires
        code < 0x1_0000,
    ensures
        (1u32 << 31u32) | (0x876u32 << 16u32) | code == 0x8876_0000u32 + code,
        (0u32 << 31u32) | (0x876u32 << 16u32) | code == 0x0876_0000u32 + code,
{
}

} // verus!
