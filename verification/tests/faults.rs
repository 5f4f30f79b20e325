//! Failure isolation: each native refusal, injected at its own step, yields
//! its one named error, and the state left behind is exactly the specified
//! one — untouched for every read failure and for write failures before the
//! clear, emptied for a write failure after it.

use pasteboard::errors::{InitError, ReadError, WriteError};
use pasteboard::model::{ClipItem, Pasteboard, Payload};
use pasteboard::steps;

fn one_item_board() -> Pasteboard {
    let mut pb = Pasteboard::empty();
    pb.set_contents(vec![1u8, 2, 3], String::from("public.utf8-plain-text")).unwrap();
    pb
}

#[test]
fn null_items_collection_is_reported() {
    let pb = one_item_board();
    let err = pb.get_contents_with_faults(true, false, false).unwrap_err();
    assert_eq!(err, ReadError::NullItems);
    assert_eq!(err.message(), "items collection is null");
}

#[test]
fn empty_clipboard_is_an_error_not_a_default() {
    let pb = Pasteboard::empty();
    let err = pb.get_contents().unwrap_err();
    assert_eq!(err, ReadError::NoItems);
    assert_eq!(err.message(), "no items present");
}

#[test]
fn null_types_list_is_reported() {
    let pb = one_item_board();
    let err = pb.get_contents_with_faults(false, true, false).unwrap_err();
    assert_eq!(err, ReadError::NullTypes);
    assert_eq!(err.message(), "types list is null");
}

#[test]
fn empty_types_list_is_reported() {
    let pb = Pasteboard { items: vec![ClipItem { reps: vec![] }] };
    let err = pb.get_contents().unwrap_err();
    assert_eq!(err, ReadError::EmptyTypes);
    assert_eq!(err.message(), "types list is empty");
}

#[test]
fn null_data_for_type_is_reported() {
    let pb = one_item_board();
    let err = pb.get_contents_with_faults(false, false, true).unwrap_err();
    assert_eq!(err, ReadError::NullData);
    assert_eq!(err.message(), "data for type is null");
}

#[test]
fn read_failures_never_mutate() {
    let pb = one_item_board();
    assert!(pb.get_contents_with_faults(true, false, false).is_err());
    assert!(pb.get_contents_with_faults(false, true, false).is_err());
    assert!(pb.get_contents_with_faults(false, false, true).is_err());
    // The board still reads back in full after every injected fault.
    let (bytes, kind) = pb.get_contents().unwrap();
    assert_eq!(bytes, vec![1u8, 2, 3]);
    assert_eq!(kind, "public.utf8-plain-text");
}

#[test]
fn item_class_lookup_failure_leaves_state_untouched() {
    let mut pb = one_item_board();
    let err = pb
        .set_contents_with_faults(vec![9u8], String::from("public.data"), false, true, true)
        .unwrap_err();
    assert_eq!(err, WriteError::ItemClassLookupFailed);
    assert_eq!(err.message(), "item class lookup failed");
    let (bytes, kind) = pb.get_contents().unwrap();
    assert_eq!(bytes, vec![1u8, 2, 3]);
    assert_eq!(kind, "public.utf8-plain-text");
}

#[test]
fn set_data_failure_leaves_state_untouched() {
    let mut pb = one_item_board();
    let err = pb
        .set_contents_with_faults(vec![9u8], String::from("public.data"), true, false, true)
        .unwrap_err();
    assert_eq!(err, WriteError::SetDataFailed);
    assert_eq!(err.message(), "setData returned false");
    let (bytes, kind) = pb.get_contents().unwrap();
    assert_eq!(bytes, vec![1u8, 2, 3]);
    assert_eq!(kind, "public.utf8-plain-text");
}

#[test]
fn write_objects_failure_leaves_the_cleared_window() {
    let mut pb = one_item_board();
    let err = pb
        .set_contents_with_faults(vec![9u8], String::from("public.data"), true, true, false)
        .unwrap_err();
    assert_eq!(err, WriteError::WriteObjectsFailed);
    assert_eq!(err.message(), "writeObjects returned false");
    // The clear already happened and nothing rolls it back: the board is
    // observably empty, the documented inconsistency window.
    assert_eq!(pb.items.len(), 0);
    assert_eq!(pb.get_contents().unwrap_err(), ReadError::NoItems);
}

#[test]
fn construction_decision_names_each_failing_step() {
    assert_eq!(steps::init_outcome(false, false).unwrap_err(), InitError::ClassLookupFailed);
    assert_eq!(
        steps::init_outcome(false, false).unwrap_err().message(),
        "class lookup failed"
    );
    assert_eq!(steps::init_outcome(true, false).unwrap_err(), InitError::NullHandle);
    assert_eq!(
        steps::init_outcome(true, false).unwrap_err().message(),
        "service returned null handle"
    );
    assert!(steps::init_outcome(true, true).is_ok());
}

#[test]
fn each_read_step_decision_matches_its_observation() {
    assert_eq!(steps::select_item(None).unwrap_err(), ReadError::NullItems);
    assert_eq!(steps::select_item(Some(0)).unwrap_err(), ReadError::NoItems);
    assert_eq!(steps::select_item(Some(3)).unwrap(), 0);
    assert_eq!(steps::select_kind(None).unwrap_err(), ReadError::NullTypes);
    assert_eq!(steps::select_kind(Some(0)).unwrap_err(), ReadError::EmptyTypes);
    assert_eq!(steps::select_kind(Some(2)).unwrap(), 0);
    assert_eq!(
        steps::finish_read(None, String::from("public.data")).unwrap_err(),
        ReadError::NullData
    );
    let (bytes, kind) = steps::finish_read(Some(vec![5u8, 6]), String::from("public.data")).unwrap();
    assert_eq!(bytes, vec![5u8, 6]);
    assert_eq!(kind, "public.data");
}

#[test]
fn each_write_step_decision_matches_its_observation() {
    assert_eq!(
        steps::item_class_outcome(false).unwrap_err(),
        WriteError::ItemClassLookupFailed
    );
    assert!(steps::item_class_outcome(true).is_ok());
    assert_eq!(steps::set_data_outcome(false).unwrap_err(), WriteError::SetDataFailed);
    assert!(steps::set_data_outcome(true).is_ok());
    assert_eq!(
        steps::write_objects_outcome(false).unwrap_err(),
        WriteError::WriteObjectsFailed
    );
    assert!(steps::write_objects_outcome(true).is_ok());
}

#[test]
fn first_item_first_type_is_selected_among_many() {
    // An external actor can put several items up, each with several
    // representations; the read deterministically returns item 0, type 0.
    let pb = Pasteboard {
        items: vec![
            ClipItem {
                reps: vec![
                    Payload { kind: String::from("public.rtf"), data: vec![10u8, 11] },
                    Payload { kind: String::from("public.utf8-plain-text"), data: vec![12u8] },
                ],
            },
            ClipItem {
                reps: vec![Payload { kind: String::from("public.png"), data: vec![13u8] }],
            },
        ],
    };
    let (bytes, kind) = pb.get_contents().unwrap();
    assert_eq!(bytes, vec![10u8, 11]);
    assert_eq!(kind, "public.rtf");
}
