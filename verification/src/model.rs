//! The pasteboard state and the two operations of the layer.
//!
//! The pasteboard is modelled as an ordered sequence of items, each item
//! offering its content in one or more typed representations. A read
//! selects item 0 and type 0 and copies the bytes out; a write replaces
//! the whole contents with a single fresh item carrying exactly one
//! representation. The native service itself can refuse any step by a null
//! handle or a false boolean; the `_with_faults` variants take those
//! refusals as explicit inputs, so the exact error and the exact state left
//! behind are pinned down for every combination — including the window in
//! which the contents were already cleared but the new item was refused.

use vstd::prelude::*;

use crate::errors::{ReadError, WriteError};
use crate::steps;

verus! {

/// One representation of a clip: a type identifier naming the format,
/// paired with the raw bytes in that format.
pub struct Payload {
    /// The type-tag string; treated as opaque, never validated here.
    pub kind: String,
    /// The raw bytes of the clip in this representation.
    pub data: Vec<u8>,
}

/// The mathematical image of a [`Payload`].
pub struct PayloadModel {
    /// The characters of the type identifier.
    pub kind: Seq<char>,
    /// The bytes of the clip.
    pub data: Seq<u8>,
}

impl View for Payload {
    type V = PayloadModel;

    open spec fn view(&self) -> PayloadModel {
        PayloadModel { kind: self.kind@, data: self.data@ }
    }
}

/// One discrete clip unit on the pasteboard, potentially offering the same
/// content in several type representations; the first one is primary.
pub struct ClipItem {
    /// The representations on offer, in the order the source put them up.
    pub reps: Vec<Payload>,
}

impl View for ClipItem {
    type V = Seq<PayloadModel>;

    open spec fn view(&self) -> Seq<PayloadModel> {
        self.reps@.map_values(|p: Payload| p@)
    }
}

/// The shared pasteboard state: an ordered sequence of items.
pub struct Pasteboard {
    /// The items currently on the pasteboard, first item first.
    pub items: Vec<ClipItem>,
}

impl View for Pasteboard {
    type V = Seq<Seq<PayloadModel>>;

    open spec fn view(&self) -> Seq<Seq<PayloadModel>> {
        self.items@.map_values(|it: ClipItem| it@)
    }
}

/// What a read of pasteboard state `pb` returns when the native calls of
/// the sequence refuse nothing except as the state itself dictates.
pub open spec fn read_of(pb: Seq<Seq<PayloadModel>>) -> Result<PayloadModel, ReadError> {
    read_of_faulty(pb, false, false, false)
}

/// What a read of pasteboard state `pb` returns when the three native calls
/// that can yield null are made to do so: the item collection
/// (`items_null`), the first item's type list (`types_null`), and the data
/// for the selected type (`data_null`). Each refusal is checked at its own
/// step, so the earliest one wins.
pub open spec fn read_of_faulty(
    pb: Seq<Seq<PayloadModel>>,
    items_null: bool,
    types_null: bool,
    data_null: bool,
) -> Result<PayloadModel, ReadError> {
    if items_null {
        Err(ReadError::NullItems)
    } else if pb.len() == 0 {
        Err(ReadError::NoItems)
    } else if types_null {
        Err(ReadError::NullTypes)
    } else if pb[0].len() == 0 {
        Err(ReadError::EmptyTypes)
    } else if data_null {
        Err(ReadError::NullData)
    } else {
        Ok(pb[0][0])
    }
}

/// The one-item, one-representation pasteboard state that a successful
/// write installs.
pub open spec fn single_payload(kind: Seq<char>, data: Seq<u8>) -> Seq<Seq<PayloadModel>> {
    seq![seq![PayloadModel { kind: kind, data: data }]]
}

/// The pasteboard state after a successful replacement write from state
/// `pb`: whatever `pb` held is discarded, and a single fresh item with the
/// one given representation takes its place.
pub open spec fn write_transition(
    pb: Seq<Seq<PayloadModel>>,
    kind: Seq<char>,
    data: Seq<u8>,
) -> Seq<Seq<PayloadModel>> {
    single_payload(kind, data)
}

/// Copies a byte buffer into a fresh owned buffer, so that the returned
/// payload aliases no native memory.
fn copy_bytes(v: &Vec<u8>) -> (r: Vec<u8>)
    ensures
        r@ == v@,
{
    let mut out: Vec<u8> = Vec::new();
    let mut i: usize = 0;
    while i < v.len()
        invariant
            i <= v.len(),
            out@ == v@.subrange(0, i as int),
        decreases v.len() - i,
    {
        out.push(v[i]);
        i = i + 1;
        proof {
            assert(out@ =~= v@.subrange(0, i as int));
        }
    }
    proof {
        assert(out@ =~= v@);
    }
    out
}

impl Pasteboard {
    /// A pasteboard holding no items, as after an external clear with no
    /// subsequent write.
    pub fn empty() -> (r: Pasteboard)
        ensures
            r@.len() == 0,
    {
        Pasteboard { items: Vec::new() }
    }

    /// Reads the first item's primary representation: the payload of item 0
    /// under type 0, as an owned copy, or the error of the first step that
    /// finds the state lacking. The read never mutates the pasteboard.
    pub fn get_contents(&self) -> (r: Result<(Vec<u8>, String), ReadError>)
        ensures
            r matches Ok(p) ==> read_of(self@) matches Ok(q) && p.0@ == q.data && p.1@ == q.kind,
            r matches Err(e) ==> read_of(self@) matches Err(f) && e == f,
    {
        self.get_contents_with_faults(false, false, false)
    }

    /// Reads as [`Self::get_contents`] does, but with each native call that
    /// can yield null made to do so on demand: the deterministic sequence of
    /// checks turns every refusal into its one named error, at its own step,
    /// and never returns a partial result.
    pub fn get_contents_with_faults(
        &self,
        items_null: bool,
        types_null: bool,
        data_null: bool,
    ) -> (r: Result<(Vec<u8>, String), ReadError>)
        ensures
            r matches Ok(p) ==> read_of_faulty(self@, items_null, types_null, data_null)
                matches Ok(q) && p.0@ == q.data && p.1@ == q.kind,
            r matches Err(e) ==> read_of_faulty(self@, items_null, types_null, data_null)
                matches Err(f) && e == f,
    {
        let count: Option<usize> = if items_null {
            None
        } else {
            Some(self.items.len())
        };
        let idx: usize = match steps::select_item(count) {
            Ok(i) => i,
            Err(e) => {
                return Err(e);
            },
        };
        let item: &ClipItem = &self.items[idx];
        let tcount: Option<usize> = if types_null {
            None
        } else {
            Some(item.reps.len())
        };
        let tidx: usize = match steps::select_kind(tcount) {
            Ok(i) => i,
            Err(e) => {
                return Err(e);
            },
        };
        let payload: &Payload = &item.reps[tidx];
        let data: Option<Vec<u8>> = if data_null {
            None
        } else {
            Some(copy_bytes(&payload.data))
        };
        steps::finish_read(data, payload.kind.clone())
    }

    /// Replaces the whole pasteboard contents with a single fresh item
    /// carrying the given bytes under the given type identifier. In the
    /// model no native call refuses, so the write always succeeds; refusals
    /// are injected through [`Self::set_contents_with_faults`].
    pub fn set_contents(&mut self, data: Vec<u8>, kind: String) -> (r: Result<(), WriteError>)
        ensures
            r == Ok::<(), WriteError>(()),
            final(self)@ == write_transition(old(self)@, kind@, data@),
    {
        self.set_contents_with_faults(data, kind, true, true, true)
    }

    /// Writes as [`Self::set_contents`] does, but with each native call
    /// that reports failure made to do so on demand: the item-class lookup
    /// (`item_class_found`), the data assignment (`set_data_ok`), and the
    /// final installation (`write_objects_ok`). A refusal before the clear
    /// leaves the state untouched; a refusal of the installation comes
    /// after the unconditional clear, so it leaves the pasteboard empty —
    /// the documented inconsistency window of the two non-composable
    /// native calls.
    pub fn set_contents_with_faults(
        &mut self,
        data: Vec<u8>,
        kind: String,
        item_class_found: bool,
        set_data_ok: bool,
        write_objects_ok: bool,
    ) -> (r: Result<(), WriteError>)
        ensures
            !item_class_found ==> r == Err::<(), WriteError>(WriteError::ItemClassLookupFailed)
                && final(self)@ == old(self)@,
            item_class_found && !set_data_ok ==> r == Err::<(), WriteError>(
                WriteError::SetDataFailed,
            ) && final(self)@ == old(self)@,
            item_class_found && set_data_ok && !write_objects_ok ==> r == Err::<(), WriteError>(
                WriteError::WriteObjectsFailed,
            ) && final(self)@.len() == 0,
            item_class_found && set_data_ok && write_objects_ok ==> r == Ok::<(), WriteError>(())
                && final(self)@ == write_transition(old(self)@, kind@, data@),
    {
        let ghost kind_view: Seq<char> = kind@;
        let ghost data_view: Seq<u8> = data@;
        match steps::item_class_outcome(item_class_found) {
            Ok(_) => {},
            Err(e) => {
                return Err(e);
            },
        }
        let mut reps: Vec<Payload> = Vec::new();
        reps.push(Payload { kind, data });
        match steps::set_data_outcome(set_data_ok) {
            Ok(_) => {},
            Err(e) => {
                return Err(e);
            },
        }
        // The single atomic replace step: the previous contents, whatever
        // their own type or count, are discarded before the new item is
        // installed, and nothing restores them if the installation fails.
        self.items = Vec::new();
        match steps::write_objects_outcome(write_objects_ok) {
            Ok(_) => {},
            Err(e) => {
                return Err(e);
            },
        }
        let mut fresh: Vec<ClipItem> = Vec::new();
        fresh.push(ClipItem { reps });
        self.items = fresh;
        proof {
            assert(self@ =~~= single_payload(kind_view, data_view));
        }
        Ok(())
    }
}

} // verus!
