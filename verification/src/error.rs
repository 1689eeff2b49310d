use vstd::prelude::*;

verus! {

/// Why a conversion across the foreign boundary failed.
#[derive(Clone, Copy, Debug, PartialEq, Eq, Structural)]
pub enum MarshalError {
    /// Text to be externalized contains an embedded null byte, so the
    /// null-terminated buffer would be misread as shorter than intended.
    NulByte,
    /// Bytes reclaimed from the foreign side do not decode as valid text.
    InvalidText,
    /// A sequence has more elements than the container's count field can hold.
    TooLong,
}

} // verus!
