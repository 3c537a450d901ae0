//! What holds of every buffer and every decoder.

use vstd::prelude::*;
use crate::data::{PathData, PathDataType};
use crate::decode::{
    command_at,
    commands_from,
    decoded,
    decoded_from,
    items_from,
    lemma_decoding_stops,
    lemma_decoding_unfolds,
    segments_of,
    step_at,
    total_length,
    well_formed,
    well_formed_from,
    Command,
};
use crate::error::PathError;
use crate::paths::{Path, PathIterator, PathSegment};

verus! {

/// A buffer without slots holds no command. It is well formed, it decodes to
/// the empty sequence, and a decoder at its start is exhausted before its
/// first step.
pub proof fn lemma_empty_buffer_yields_nothing(slots: Seq<PathData>)
    requires
        slots.len() == 0,
    ensures
        well_formed(slots),
        decoded(slots) == Ok::<Seq<PathSegment>, PathError>(Seq::empty()),
        step_at(slots, 0) is None,
        items_from(slots, 0) == Seq::<Result<PathSegment, PathError>>::empty(),
{
    lemma_decoding_stops(slots, 0);
}

/// A decoder that a path without slots has just handed out has nothing to
/// yield.
pub proof fn lemma_fresh_decoder_of_empty_path_is_exhausted<'a>(
    path: Path,
    decoder: PathIterator<'a>,
)
    requires
        path@.len() == 0,
        decoder.slots() == path@,
        decoder.cursor() == 0,
    ensures
        decoder.remaining() == Seq::<Result<PathSegment, PathError>>::empty(),
        step_at(decoder.slots(), decoder.cursor()) is None,
{
    lemma_empty_buffer_yields_nothing(path@);
}

/// A decoder has nothing left to yield exactly when its cursor has reached
/// the end of the buffer.
pub proof fn lemma_exhausted_iff_at_end(slots: Seq<PathData>, i: int)
    ensures
        items_from(slots, i).len() == 0 <==> i >= slots.len(),
{
    if command_at(slots, i) is Some {
        lemma_decoding_unfolds(slots, i);
    } else {
        lemma_decoding_stops(slots, i);
    }
}

/// From any slot of a buffer from which decoding succeeds, the lengths that
/// the headers of the decoded commands declare add up to the number of slots
/// that were left.
pub proof fn lemma_lengths_cover_rest(slots: Seq<PathData>, i: int)
    requires
        0 <= i <= slots.len(),
        well_formed_from(slots, i),
    ensures
        total_length(commands_from(slots, i)) == slots.len() - i,
    decreases slots.len() - i,
{
    if command_at(slots, i) is Some {
        lemma_decoding_unfolds(slots, i);
        lemma_lengths_cover_rest(slots, i + command_at(slots, i).unwrap().length);
    } else {
        lemma_decoding_stops(slots, i);
    }
}

/// In a well-formed buffer the lengths that the headers of the decoded
/// commands declare add up to the number of slots of the buffer.
pub proof fn lemma_lengths_cover_buffer(slots: Seq<PathData>)
    requires
        well_formed(slots),
    ensures
        total_length(commands_from(slots, 0)) == slots.len(),
{
    lemma_lengths_cover_rest(slots, 0);
}

/// Two decoders that one path has just handed out yield the same items in
/// the same order, and driving either to the end gives the same result.
pub proof fn lemma_decoders_of_one_path_agree<'a, 'b>(
    path: Path,
    first: PathIterator<'a>,
    second: PathIterator<'b>,
)
    requires
        first.slots() == path@,
        first.cursor() == 0,
        second.slots() == path@,
        second.cursor() == 0,
    ensures
        first.remaining() == second.remaining(),
        first.remaining() == items_from(path@, 0),
        decoded_from(first.slots(), first.cursor()) == decoded_from(
            second.slots(),
            second.cursor(),
        ),
        decoded_from(first.slots(), first.cursor()) == decoded(path@),
{
}

/// The items that a decoder yields one by one and the result of driving it
/// to the end tell the same story. Where decoding succeeds, the items are
/// the decoded segments, each as an `Ok`. Where it fails, the items are the
/// segments before the failure and then the failure, once, as the last item.
pub proof fn lemma_items_agree_with_decoded(slots: Seq<PathData>, i: int)
    ensures
        (match decoded_from(slots, i) {
            Ok(segments) => {
                &&& items_from(slots, i).len() == segments.len()
                &&& forall|k: int|
                    0 <= k < segments.len() ==> #[trigger] items_from(slots, i)[k] == Ok::<
                        PathSegment,
                        PathError,
                    >(segments[k])
            },
            Err(error) => {
                let before = segments_of(commands_from(slots, i));
                &&& error == PathError::CorruptPathData
                &&& items_from(slots, i).len() == before.len() + 1
                &&& items_from(slots, i).last() == Err::<PathSegment, PathError>(error)
                &&& forall|k: int|
                    0 <= k < before.len() ==> #[trigger] items_from(slots, i)[k] == Ok::<
                        PathSegment,
                        PathError,
                    >(before[k])
            },
        }),
{
}

/// A header whose declared length reaches past the end of the buffer is
/// never accepted: the step at it fails, and so does decoding from it.
pub proof fn lemma_length_past_end_is_corrupt(slots: Seq<PathData>, i: int)
    requires
        0 <= i < slots.len(),
        i + slots[i].header.length > slots.len(),
    ensures
        command_at(slots, i) is None,
        step_at(slots, i) == Some(Err::<Command, PathError>(PathError::CorruptPathData)),
        decoded_from(slots, i) == Err::<Seq<PathSegment>, PathError>(PathError::CorruptPathData),
        items_from(slots, i) == seq![Err::<PathSegment, PathError>(PathError::CorruptPathData)],
{
    lemma_decoding_stops(slots, i);
}

/// A header whose command would take a point from a slot outside the buffer
/// is never accepted, whatever length it declares.
pub proof fn lemma_point_past_end_is_corrupt(slots: Seq<PathData>, i: int)
    requires
        0 <= i < slots.len(),
        PathDataType::spec_from_raw(slots[i].header.data_type) matches Some(data_type) && i
            + data_type.spec_points() >= slots.len(),
    ensures
        command_at(slots, i) is None,
        step_at(slots, i) == Some(Err::<Command, PathError>(PathError::CorruptPathData)),
        decoded_from(slots, i) == Err::<Seq<PathSegment>, PathError>(PathError::CorruptPathData),
        items_from(slots, i) == seq![Err::<PathSegment, PathError>(PathError::CorruptPathData)],
{
    lemma_decoding_stops(slots, i);
}

/// A header with a tag that names no command is never accepted.
pub proof fn lemma_unknown_tag_is_corrupt(slots: Seq<PathData>, i: int)
    requires
        0 <= i < slots.len(),
        PathDataType::spec_from_raw(slots[i].header.data_type) is None,
    ensures
        command_at(slots, i) is None,
        step_at(slots, i) == Some(Err::<Command, PathError>(PathError::CorruptPathData)),
        decoded_from(slots, i) == Err::<Seq<PathSegment>, PathError>(PathError::CorruptPathData),
        items_from(slots, i) == seq![Err::<PathSegment, PathError>(PathError::CorruptPathData)],
{
    lemma_decoding_stops(slots, i);
}

/// An accepted command spans as many slots as its header declares, and
/// every slot that it reads, its header and each of its points, lies inside
/// that span and inside the buffer.
pub proof fn lemma_accepted_command_reads_in_bounds(slots: Seq<PathData>, i: int)
    requires
        command_at(slots, i) is Some,
    ensures
        0 <= i < slots.len(),
        command_at(slots, i).unwrap().length == slots[i].header.length,
        PathDataType::spec_from_raw(slots[i].header.data_type) matches Some(data_type) && i
            + data_type.spec_points() < i + command_at(slots, i).unwrap().length <= slots.len(),
{
}

} // verus!
