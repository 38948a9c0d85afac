//! Shared standard-type vocabulary: the two-valued outcome code, the static
//! version-information tuple, and auxiliary transformer/message types used
//! across the software stack.

use vstd::prelude::*;

verus! {

/// Two-valued outcome returned by every mutating operation of the sink,
/// signaling whether the operation itself was accepted.
#[derive(Debug, Clone, Copy, PartialEq, Eq, Structural)]
pub enum StdReturnType {
    EOk,
    ENotOk,
}

impl StdReturnType {
    /// Numeric code conventionally paired with `EOk`.
    pub const E_OK: u8 = 0;

    /// Numeric code conventionally paired with `ENotOk`.
    pub const E_NOT_OK: u8 = 1;
}

/// Static identity tuple of a software component, fixed at build time and
/// not tied to any instance.
#[derive(Debug, Clone, Copy, PartialEq, Eq, Structural)]
pub struct StdVersionInfoType {
    pub vendor_id: u16,
    pub sw_major_version: u8,
    pub sw_minor_version: u8,
    pub sw_patch_version: u8,
}

/// Numeric code identifying a transformer failure condition.
type StdTransformerErrorCode = u8;

/// Class of the transformer that raised an error.
pub enum StdTransformerClass {
    StdTransformerUnspecified,
    StdTransformerSerializer,
    StdTransformerSafety,
    StdTransformerSecurity,
    StdTransformerCustom,
}

/// Error raised by a transformer, with its class.
pub struct StdTransformerError {
    pub error_code: StdTransformerErrorCode,
    pub transformer_class: StdTransformerClass,
}

/// Kind of a message exchanged between components.
pub enum StdMessageTypeType {
    StdMessageTypeRequest,
    StdMessageTypeResponse,
    StdMessageTypeReserved,
}

/// Result carried by a response message.
pub enum StdMessageResultType {
    StdMessageResultOk,
    StdMessageResultError,
    StdMessageResultReserver,
}

} // verus!
