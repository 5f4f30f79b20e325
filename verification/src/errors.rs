//! The error taxonomy of the layer: three kinds, one per operation, each
//! carrying a diagnostic naming exactly which native step failed.

use vstd::prelude::*;

verus! {

/// Failure while constructing a pasteboard context; always fatal to that
/// construction attempt.
#[derive(Clone, Copy, Debug, PartialEq, Eq, Structural)]
pub enum InitError {
    /// The pasteboard service type could not be resolved by the runtime's
    /// dynamic class registry.
    ClassLookupFailed,
    /// The service returned a null handle for the general pasteboard.
    NullHandle,
}

impl InitError {
    /// The diagnostic string attached to this error.
    pub open spec fn message_spec(self) -> Seq<char> {
        match self {
            InitError::ClassLookupFailed => "class lookup failed"@,
            InitError::NullHandle => "service returned null handle"@,
        }
    }

    /// A human-readable diagnostic naming the native step that failed.
    pub fn message(&self) -> (r: &'static str)
        ensures
            r@ == self.message_spec(),
    {
        match self {
            InitError::ClassLookupFailed => "class lookup failed",
            InitError::NullHandle => "service returned null handle",
        }
    }
}

/// Failure while reading the pasteboard; terminal for that single call,
/// no partial result is ever returned.
#[derive(Clone, Copy, Debug, PartialEq, Eq, Structural)]
pub enum ReadError {
    /// The native call for the ordered item collection yielded null.
    NullItems,
    /// The item collection exists but holds zero items; an empty clipboard
    /// is an explicit error, not an empty success.
    NoItems,
    /// The first item's list of type identifiers was null.
    NullTypes,
    /// The first item's list of type identifiers holds zero entries.
    EmptyTypes,
    /// The raw byte data for the selected type was null.
    NullData,
}

impl ReadError {
    /// The diagnostic string attached to this error.
    pub open spec fn message_spec(self) -> Seq<char> {
        match self {
            ReadError::NullItems => "items collection is null"@,
            ReadError::NoItems => "no items present"@,
            ReadError::NullTypes => "types list is null"@,
            ReadError::EmptyTypes => "types list is empty"@,
            ReadError::NullData => "data for type is null"@,
        }
    }

    /// A human-readable diagnostic naming the native step that failed.
    pub fn message(&self) -> (r: &'static str)
        ensures
            r@ == self.message_spec(),
    {
        match self {
            ReadError::NullItems => "items collection is null",
            ReadError::NoItems => "no items present",
            ReadError::NullTypes => "types list is null",
            ReadError::EmptyTypes => "types list is empty",
            ReadError::NullData => "data for type is null",
        }
    }
}

/// Failure while writing the pasteboard; detected at the exact failing
/// native call and returned immediately.
#[derive(Clone, Copy, Debug, PartialEq, Eq, Structural)]
pub enum WriteError {
    /// The pasteboard-item constructor type could not be resolved.
    ItemClassLookupFailed,
    /// The native item rejected the data assignment.
    SetDataFailed,
    /// The pasteboard rejected the new contents after they were cleared.
    WriteObjectsFailed,
}

impl WriteError {
    /// The diagnostic string attached to this error.
    pub open spec fn message_spec(self) -> Seq<char> {
        match self {
            WriteError::ItemClassLookupFailed => "item class lookup failed"@,
            WriteError::SetDataFailed => "setData returned false"@,
            WriteError::WriteObjectsFailed => "writeObjects returned false"@,
        }
    }

    /// A human-readable diagnostic naming the native step that failed.
    pub fn message(&self) -> (r: &'static str)
        ensures
            r@ == self.message_spec(),
    {
        match self {
            WriteError::ItemClassLookupFailed => "item class lookup failed",
            WriteError::SetDataFailed => "setData returned false",
            WriteError::WriteObjectsFailed => "writeObjects returned false",
        }
    }
}

} // verus!
