//! The storage error and its flattening to a display string.

use vstd::prelude::*;

verus! {

/// What a storage operation can fail with. The in-memory engine itself
/// never fails; decoding an import document can.
#[derive(Debug)]
pub enum StorageError {
    /// The import document could not be decoded into the record shapes.
    Decode { detail: String },
}

impl StorageError {
    /// The opaque human-readable string handed across the service boundary.
    pub fn message(&self) -> (r: String)
        ensures
            match self {
                StorageError::Decode { detail } => r@ == "import decode error: "@ + detail@,
            },
    {
        match self {
            StorageError::Decode { detail } => {
                String::from_str("import decode error: ").concat(detail.as_str())
            },
        }
    }
}

} // verus!
