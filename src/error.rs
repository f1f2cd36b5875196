use vstd::prelude::*;

verus! {

/// Failure while turning a compiled module into bytes.
#[derive(Debug)]
pub enum SerializeError {
    /// A generic serialization error, such as a payload that does not fit the
    /// header's 32-bit length field.
    Generic(String),
}

/// Failure while reading a compiled module back from bytes.
#[derive(Debug)]
pub enum DeserializeError {
    /// A generic deserialization error.
    Generic(String),
    /// The bytes are well framed but come from another producer or format
    /// version.
    Incompatible(String),
    /// The framing itself is broken: misaligned, truncated or garbled.
    CorruptedBinary(String),
}

impl DeserializeError {
    /// The diagnostic carried by the error.
    pub fn message(&self) -> (r: String)
        ensures
            r@ == match self {
                DeserializeError::Generic(m) => m@,
                DeserializeError::Incompatible(m) => m@,
                DeserializeError::CorruptedBinary(m) => m@,
            },
    {
        match self {
            DeserializeError::Generic(m) => m.clone(),
            DeserializeError::Incompatible(m) => m.clone(),
            DeserializeError::CorruptedBinary(m) => m.clone(),
        }
    }
}

impl SerializeError {
    /// The diagnostic carried by the error.
    pub fn message(&self) -> (r: String)
        ensures
            r@ == match self {
                SerializeError::Generic(m) => m@,
            },
    {
        match self {
            SerializeError::Generic(m) => m.clone(),
        }
    }
}

} // verus!
