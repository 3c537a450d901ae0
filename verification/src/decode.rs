//! What a path buffer means, and the single decoding step.
//!
//! A command starts at a header slot. The header's tag says which command it
//! is and thereby how many points follow; the header's length says how many
//! slots the command spans, header included, and so where the next command
//! starts. A header is accepted only if its tag is known, its length leaves
//! room for the points of its tag, and the whole command lies inside the
//! buffer. Decoding always advances by the declared length, never by the
//! number of points read.

use vstd::prelude::*;
use crate::data::{PathData, PathDataType};
use crate::error::PathError;
use crate::paths::PathSegment;

verus! {

/// A decoded command: the segment it stands for and the number of slots it
/// spans in the buffer.
#[derive(Clone, Copy, Debug, PartialEq, Eq)]
pub struct Command {
    pub segment: PathSegment,
    pub length: usize,
}

/// The segment of a `data_type` command whose header stands at slot `i`: its
/// points are the point readings of the slots right after the header.
pub open spec fn segment_at(slots: Seq<PathData>, i: int, data_type: PathDataType) -> PathSegment {
    match data_type {
        PathDataType::PathMoveTo => PathSegment::MoveTo(slots[i + 1].point),
        PathDataType::PathLineTo => PathSegment::LineTo(slots[i + 1].point),
        PathDataType::PathCurveTo => PathSegment::CurveTo(
            slots[i + 1].point,
            slots[i + 2].point,
            slots[i + 3].point,
        ),
        PathDataType::PathClosePath => PathSegment::ClosePath,
    }
}

/// The command that starts at slot `i`, or `None` where `i` is outside the
/// buffer or the header there is not acceptable.
pub open spec fn command_at(slots: Seq<PathData>, i: int) -> Option<Command> {
    if 0 <= i < slots.len() {
        let header = slots[i].header;
        match PathDataType::spec_from_raw(header.data_type) {
            Some(data_type) => {
                if 1 + data_type.spec_points() <= header.length && i + header.length
                    <= slots.len() {
                    Some(
                        Command {
                            segment: segment_at(slots, i, data_type),
                            length: header.length as usize,
                        },
                    )
                } else {
                    None
                }
            },
            None => None,
        }
    } else {
        None
    }
}

/// The commands read one after the other from slot `i` on, up to the end of
/// the buffer or the first header that is not acceptable.
pub open spec fn commands_from(slots: Seq<PathData>, i: int) -> Seq<Command>
    decreases slots.len() - i,
{
    match command_at(slots, i) {
        Some(command) => seq![command] + commands_from(slots, i + command.length),
        None => Seq::empty(),
    }
}

/// Whether reading commands from slot `i` on ends exactly at the end of the
/// buffer, with every header on the way acceptable. At or past the end there
/// is nothing left to read, and nothing to object to.
pub open spec fn well_formed_from(slots: Seq<PathData>, i: int) -> bool
    decreases slots.len() - i,
{
    if i >= slots.len() {
        true
    } else {
        match command_at(slots, i) {
            Some(command) => well_formed_from(slots, i + command.length),
            None => false,
        }
    }
}

/// A buffer is well formed if it is a run of acceptable commands from its
/// first slot to its end.
pub open spec fn well_formed(slots: Seq<PathData>) -> bool {
    well_formed_from(slots, 0)
}

/// The segments of a run of commands, in order.
pub open spec fn segments_of(commands: Seq<Command>) -> Seq<PathSegment> {
    commands.map_values(|command: Command| command.segment)
}

/// The number of slots that a run of commands spans.
pub open spec fn total_length(commands: Seq<Command>) -> nat
    decreases commands.len(),
{
    if commands.len() == 0 {
        0
    } else {
        commands[0].length as nat + total_length(commands.drop_first())
    }
}

/// What decoding from slot `i` to the end gives: all the segments, or the
/// failure where a header on the way is not acceptable.
pub open spec fn decoded_from(slots: Seq<PathData>, i: int) -> Result<Seq<PathSegment>, PathError> {
    if well_formed_from(slots, i) {
        Ok(segments_of(commands_from(slots, i)))
    } else {
        Err(PathError::CorruptPathData)
    }
}

/// What decoding a whole buffer gives.
pub open spec fn decoded(slots: Seq<PathData>) -> Result<Seq<PathSegment>, PathError> {
    decoded_from(slots, 0)
}

/// The items that a decoder standing at slot `i` has yet to yield: one `Ok`
/// per command, and after them one `Err` if decoding stops at a header that
/// is not acceptable.
pub open spec fn items_from(slots: Seq<PathData>, i: int) -> Seq<Result<PathSegment, PathError>> {
    let yielded = commands_from(slots, i).map_values(
        |command: Command| Ok::<PathSegment, PathError>(command.segment),
    );
    if well_formed_from(slots, i) {
        yielded
    } else {
        yielded.push(Err(PathError::CorruptPathData))
    }
}

/// The outcome of one decoding step at `cursor`: `None` at or past the end of
/// the buffer, else the command that starts there or the failure.
pub open spec fn step_at(slots: Seq<PathData>, cursor: int) -> Option<Result<Command, PathError>> {
    if cursor >= slots.len() {
        None
    } else {
        match command_at(slots, cursor) {
            Some(command) => Some(Ok(command)),
            None => Some(Err(PathError::CorruptPathData)),
        }
    }
}

/// One decoding step over a borrowed buffer. It keeps no state: the caller
/// holds the cursor and, after a command, moves it on by the command's
/// length. Every slot it reads lies inside `slots`.
pub fn decode_at(slots: &[PathData], cursor: usize) -> (step: Option<Result<Command, PathError>>)
    ensures
        step == step_at(slots@, cursor as int),
        step matches Some(Ok(command)) ==> 1 <= command.length && cursor + command.length
            <= slots.len(),
{
    if cursor >= slots.len() {
        return None;
    }
    let header = slots[cursor].header;
    let data_type = match PathDataType::from_raw(header.data_type) {
        Some(data_type) => data_type,
        None => {
            return Some(Err(PathError::CorruptPathData));
        },
    };
    if header.length < 1 {
        return Some(Err(PathError::CorruptPathData));
    }
    let length: usize = header.length as usize;
    if length <= data_type.points() || length > slots.len() - cursor {
        return Some(Err(PathError::CorruptPathData));
    }
    let segment = match data_type {
        PathDataType::PathMoveTo => PathSegment::MoveTo(slots[cursor + 1].point),
        PathDataType::PathLineTo => PathSegment::LineTo(slots[cursor + 1].point),
        PathDataType::PathCurveTo => PathSegment::CurveTo(
            slots[cursor + 1].point,
            slots[cursor + 2].point,
            slots[cursor + 3].point,
        ),
        PathDataType::PathClosePath => PathSegment::ClosePath,
    };
    Some(Ok(Command { segment, length }))
}

/// Where a command starts at slot `i`, what is decoded from `i` is that
/// command followed by what is decoded from the slot after it.
pub proof fn lemma_decoding_unfolds(slots: Seq<PathData>, i: int)
    requires
        command_at(slots, i) is Some,
    ensures
        ({
            let command = command_at(slots, i).unwrap();
            let next = i + command.length;
            &&& commands_from(slots, i) == seq![command] + commands_from(slots, next)
            &&& well_formed_from(slots, i) == well_formed_from(slots, next)
            &&& segments_of(commands_from(slots, i)) == seq![command.segment] + segments_of(
                commands_from(slots, next),
            )
            &&& items_from(slots, i) == seq![Ok::<PathSegment, PathError>(command.segment)]
                + items_from(slots, next)
            &&& total_length(commands_from(slots, i)) == command.length + total_length(
                commands_from(slots, next),
            )
        }),
{
    let command = command_at(slots, i).unwrap();
    let next = i + command.length;
    let rest = commands_from(slots, next);
    let all = commands_from(slots, i);
    assert(all == seq![command] + rest);
    assert(segments_of(all) =~= seq![command.segment] + segments_of(rest));
    assert(items_from(slots, i) =~= seq![Ok::<PathSegment, PathError>(command.segment)]
        + items_from(slots, next));
    assert(all.drop_first() =~= rest);
}

/// Where no command starts at slot `i`, nothing is decoded from `i`: at or
/// past the end of the buffer that is a clean end, inside it a failure.
pub proof fn lemma_decoding_stops(slots: Seq<PathData>, i: int)
    requires
        command_at(slots, i) is None,
    ensures
        commands_from(slots, i) == Seq::<Command>::empty(),
        segments_of(commands_from(slots, i)) == Seq::<PathSegment>::empty(),
        total_length(commands_from(slots, i)) == 0,
        well_formed_from(slots, i) <==> i >= slots.len(),
        i >= slots.len() ==> items_from(slots, i) == Seq::<Result<PathSegment, PathError>>::empty(),
        i < slots.len() ==> items_from(slots, i) == seq![
            Err::<PathSegment, PathError>(PathError::CorruptPathData),
        ],
{
    assert(segments_of(commands_from(slots, i)) =~= Seq::<PathSegment>::empty());
    if i >= slots.len() {
        assert(items_from(slots, i) =~= Seq::<Result<PathSegment, PathError>>::empty());
    } else {
        assert(items_from(slots, i) =~= seq![
            Err::<PathSegment, PathError>(PathError::CorruptPathData),
        ]);
    }
}

} // verus!
