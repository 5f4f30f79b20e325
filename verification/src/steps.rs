//! The decision taken after each native pasteboard call.
//!
//! The native service signals failure only by a null handle or a false
//! boolean. The unverified binding performs one native call at a time and
//! hands the observed outcome to the function here for that step; the
//! function converts every absence signal into the one named error of that
//! step, and otherwise tells the binding how to continue. An absent handle
//! is passed as `None`, an absent boolean as `false`.

use vstd::prelude::*;

use crate::errors::{InitError, ReadError, WriteError};

verus! {

/// Decision at the end of construction: the service class must resolve and
/// the general-pasteboard handle it returns must be non-null.
///
/// When the class lookup already failed, the handle was never requested and
/// `handle_nonnull` is passed as `false`.
pub fn init_outcome(class_found: bool, handle_nonnull: bool) -> (r: Result<(), InitError>)
    ensures
        !class_found ==> r == Err::<(), InitError>(InitError::ClassLookupFailed),
        class_found && !handle_nonnull ==> r == Err::<(), InitError>(InitError::NullHandle),
        class_found && handle_nonnull ==> r == Ok::<(), InitError>(()),
{
    if !class_found {
        Err(InitError::ClassLookupFailed)
    } else if !handle_nonnull {
        Err(InitError::NullHandle)
    } else {
        Ok(())
    }
}

/// Decision after requesting the ordered item collection: `count` is `None`
/// when the collection itself was null, otherwise the number of items it
/// holds. On success the returned index names the item to read: always the
/// first (first-item policy).
pub fn select_item(count: Option<usize>) -> (r: Result<usize, ReadError>)
    ensures
        count is None ==> r == Err::<usize, ReadError>(ReadError::NullItems),
        count matches Some(c) && c == 0 ==> r == Err::<usize, ReadError>(ReadError::NoItems),
        count matches Some(c) && c > 0 ==> r == Ok::<usize, ReadError>(0usize),
{
    match count {
        None => Err(ReadError::NullItems),
        Some(c) => {
            if c == 0 {
                Err(ReadError::NoItems)
            } else {
                Ok(0)
            }
        },
    }
}

/// Decision after requesting the selected item's list of type identifiers:
/// `count` is `None` when the list was null, otherwise its length. On
/// success the returned index names the representation to read: always the
/// first (first-type policy).
pub fn select_kind(count: Option<usize>) -> (r: Result<usize, ReadError>)
    ensures
        count is None ==> r == Err::<usize, ReadError>(ReadError::NullTypes),
        count matches Some(c) && c == 0 ==> r == Err::<usize, ReadError>(ReadError::EmptyTypes),
        count matches Some(c) && c > 0 ==> r == Ok::<usize, ReadError>(0usize),
{
    match count {
        None => Err(ReadError::NullTypes),
        Some(c) => {
            if c == 0 {
                Err(ReadError::EmptyTypes)
            } else {
                Ok(0)
            }
        },
    }
}

/// Decision after requesting the raw bytes for the selected type: `data` is
/// `None` when the native call yielded null. On success the payload is the
/// copied bytes paired with the type identifier, unchanged.
pub fn finish_read(data: Option<Vec<u8>>, kind: String) -> (r: Result<(Vec<u8>, String), ReadError>)
    ensures
        data is None ==> r == Err::<(Vec<u8>, String), ReadError>(ReadError::NullData),
        data matches Some(d) ==> r matches Ok(p) && p.0@ == d@ && p.1@ == kind@,
{
    match data {
        None => Err(ReadError::NullData),
        Some(d) => Ok((d, kind)),
    }
}

/// Decision after resolving the pasteboard-item constructor type by name.
pub fn item_class_outcome(found: bool) -> (r: Result<(), WriteError>)
    ensures
        !found ==> r == Err::<(), WriteError>(WriteError::ItemClassLookupFailed),
        found ==> r == Ok::<(), WriteError>(()),
{
    if found {
        Ok(())
    } else {
        Err(WriteError::ItemClassLookupFailed)
    }
}

/// Decision after asking the freshly built native item to take the caller's
/// bytes for the caller's type: the native call reports success as a boolean.
pub fn set_data_outcome(ok: bool) -> (r: Result<(), WriteError>)
    ensures
        !ok ==> r == Err::<(), WriteError>(WriteError::SetDataFailed),
        ok ==> r == Ok::<(), WriteError>(()),
{
    if ok {
        Ok(())
    } else {
        Err(WriteError::SetDataFailed)
    }
}

/// Decision after asking the pasteboard to install the one-element item
/// array as its new contents: the native call reports success as a boolean.
/// By this point the old contents are already cleared, so a `false` here
/// leaves the clipboard empty.
pub fn write_objects_outcome(ok: bool) -> (r: Result<(), WriteError>)
    ensures
        !ok ==> r == Err::<(), WriteError>(WriteError::WriteObjectsFailed),
        ok ==> r == Ok::<(), WriteError>(()),
{
    if ok {
        Ok(())
    } else {
        Err(WriteError::WriteObjectsFailed)
    }
}

} // verus!
