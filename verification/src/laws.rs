//! The laws of the layer, stated over the same spec functions that the
//! operations' contracts use, and proved once for all inputs.

use vstd::prelude::*;

use crate::errors::ReadError;
use crate::model::{read_of, write_transition, PayloadModel};

verus! {

/// Round-trip: from any prior pasteboard state, writing a non-empty byte
/// sequence `data` tagged with a non-empty type string `kind` and then
/// reading yields exactly that payload back — no transformation,
/// truncation or encoding change.
pub proof fn lemma_round_trip(pb: Seq<Seq<PayloadModel>>, data: Seq<u8>, kind: Seq<char>)
    requires
        data.len() > 0,
        kind.len() > 0,
    ensures
        read_of(write_transition(pb, kind, data)) matches Ok(p) && p.data == data && p.kind
            == kind,
{
}

/// Replace semantics: after two writes in sequence, a read observes exactly
/// the second payload, and the state is the same as if only the second
/// write had happened — no merging or accumulation of prior contents.
pub proof fn lemma_replace(
    pb: Seq<Seq<PayloadModel>>,
    data1: Seq<u8>,
    kind1: Seq<char>,
    data2: Seq<u8>,
    kind2: Seq<char>,
)
    requires
        data1.len() > 0,
        kind1.len() > 0,
        data2.len() > 0,
        kind2.len() > 0,
    ensures
        read_of(write_transition(write_transition(pb, kind1, data1), kind2, data2)) matches Ok(p)
            && p.data == data2 && p.kind == kind2,
        write_transition(write_transition(pb, kind1, data1), kind2, data2) == write_transition(
            pb,
            kind2,
            data2,
        ),
{
}

/// Empty-clipboard error: a pasteboard holding zero items reads as the
/// explicit no-items error, never as a default or empty payload.
pub proof fn lemma_empty_clipboard_error(pb: Seq<Seq<PayloadModel>>)
    requires
        pb.len() == 0,
    ensures
        read_of(pb) == Err::<PayloadModel, ReadError>(ReadError::NoItems),
{
}

/// First-item/first-type determinism: whenever the pasteboard offers items
/// at all and the first item offers types at all — however many of either —
/// a read returns exactly item 0 under type 0.
pub proof fn lemma_first_item_first_type(pb: Seq<Seq<PayloadModel>>)
    requires
        pb.len() > 0,
        pb[0].len() > 0,
    ensures
        read_of(pb) == Ok::<PayloadModel, ReadError>(pb[0][0]),
{
}

} // verus!
