use vstd::prelude::*;

verus! {

/// The ways an operation on an interface handle can fail.
///
/// Every failure is returned as a value from the operation that met it;
/// none is fatal to the process, and no operation retries.
#[derive(Debug, Clone, Copy, PartialEq, Eq, Structural)]
pub enum IfaceError {
    /// The interface name holds an embedded null byte, so it cannot be
    /// handed to the creation routine as a null-terminated byte string.
    /// Reported before any external routine is reached.
    NameHasNul,
    /// The creation routine reported failure, or the requested kind has
    /// no creation routine wired.
    CreationFailed,
    /// The buffer handed to a read or write exceeds the largest size a
    /// single transfer may move.
    BufferTooLarge,
    /// The handle no longer owns its descriptor: it was closed, or its
    /// descriptor was released to another owner.
    NotOpen,
    /// A read or write on the descriptor failed; holds the error code
    /// the OS reported.
    Io { errno: i32 },
}

impl IfaceError {
    /// The text a diagnostic for this error shows.
    pub open spec fn message_spec(&self) -> Seq<char> {
        match self {
            IfaceError::NameHasNul => "interface name holds a null byte"@,
            IfaceError::CreationFailed => "interface creation failed"@,
            IfaceError::BufferTooLarge => "buffer exceeds the largest single transfer"@,
            IfaceError::NotOpen => "handle no longer owns a descriptor"@,
            IfaceError::Io { .. } => "interface I/O failed"@,
        }
    }

    /// A short description of the failure.
    pub fn message(&self) -> (r: &'static str)
        ensures
            r@ == self.message_spec(),
    {
        match self {
            IfaceError::NameHasNul => "interface name holds a null byte",
            IfaceError::CreationFailed => "interface creation failed",
            IfaceError::BufferTooLarge => "buffer exceeds the largest single transfer",
            IfaceError::NotOpen => "handle no longer owns a descriptor",
            IfaceError::Io { .. } => "interface I/O failed",
        }
    }
}

} // verus!
