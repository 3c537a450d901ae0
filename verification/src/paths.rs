//! Paths, the segments they decode to, and the decoder that walks them.

use vstd::prelude::*;
use crate::data::{PathData, Point};
use crate::decode::{
    command_at,
    commands_from,
    decode_at,
    decoded_from,
    items_from,
    lemma_decoding_stops,
    lemma_decoding_unfolds,
    segments_of,
    step_at,
    well_formed_from,
};
use crate::error::PathError;

verus! {

/// One drawing command of a path, with the points it carries.
#[derive(Clone, Copy, Debug, PartialEq, Eq)]
pub enum PathSegment {
    /// Begin a new sub-path at the point.
    MoveTo(Point),
    /// A straight line from the current point to the point.
    LineTo(Point),
    /// A cubic Bezier curve from the current point: two control points, then
    /// the end point.
    CurveTo(Point, Point, Point),
    /// A line back to the start of the current sub-path.
    ClosePath,
}

/// A path: the owner of one buffer of slots. The buffer never changes while
/// the path lives, and goes when the path goes.
pub struct Path {
    data: Vec<PathData>,
}

impl Path {
    /// The slots of the buffer, in order.
    pub closed spec fn view(&self) -> Seq<PathData> {
        self.data@
    }

    /// Takes ownership of a buffer handed over by the native library. No slot
    /// is looked at here. `None` stands for the null handle that the native
    /// library gives when it could not allocate.
    pub fn wrap(data: Option<Vec<PathData>>) -> (path: Result<Path, PathError>)
        ensures
            (match data {
                Some(slots) => path is Ok && path.unwrap()@ == slots@,
                None => path is Err && path->Err_0 == PathError::AllocationFailure,
            }),
    {
        match data {
            Some(slots) => Ok(Path { data: slots }),
            None => Err(PathError::AllocationFailure),
        }
    }

    /// The number of slots in the buffer.
    pub fn num_data(&self) -> (count: usize)
        ensures
            count == self@.len(),
    {
        self.data.len()
    }

    /// A decoder over this path's buffer, standing at the first slot. Each
    /// call gives a decoder of its own; none can outlive the path.
    pub fn iter(&self) -> (decoder: PathIterator<'_>)
        ensures
            decoder.slots() == self@,
            decoder.cursor() == 0,
    {
        let slots = self.data.as_slice();
        PathIterator { data: slots, i: 0, num_data: slots.len() }
    }
}

/// A forward-only decoder over the buffer of a [`Path`]. It borrows the
/// buffer and holds a cursor into it; it allocates nothing per step.
pub struct PathIterator<'a> {
    data: &'a [PathData],
    i: usize,
    num_data: usize,
}

impl<'a> PathIterator<'a> {
    #[verifier::type_invariant]
    spec fn cursor_in_buffer(self) -> bool {
        &&& self.num_data == self.data@.len()
        &&& self.i <= self.num_data
    }

    /// The slots of the borrowed buffer.
    pub closed spec fn slots(&self) -> Seq<PathData> {
        self.data@
    }

    /// The slot at which the next command is read. At or past the number of
    /// slots, the decoder is exhausted.
    pub closed spec fn cursor(&self) -> int {
        self.i as int
    }

    /// The items that this decoder has yet to yield.
    pub open spec fn remaining(&self) -> Seq<Result<PathSegment, PathError>> {
        items_from(self.slots(), self.cursor())
    }

    /// Decodes the command at the cursor and moves the cursor past it, by
    /// the length that the header declares.
    ///
    /// Gives `None` once the cursor has reached the end of the buffer, and
    /// from then on. Gives `Some(Err(..))` at a header that is not
    /// acceptable; the decoder is exhausted after that, so a failure is
    /// reported once and nothing is decoded past it.
    pub fn next(&mut self) -> (item: Option<Result<PathSegment, PathError>>)
        ensures
            final(self).slots() == old(self).slots(),
            old(self).cursor() <= final(self).cursor() <= old(self).slots().len(),
            (match step_at(old(self).slots(), old(self).cursor()) {
                Some(Ok(command)) => {
                    &&& item == Some(Ok::<PathSegment, PathError>(command.segment))
                    &&& final(self).cursor() == old(self).cursor() + command.length
                },
                Some(Err(error)) => {
                    &&& item == Some(Err::<PathSegment, PathError>(error))
                    &&& final(self).cursor() == old(self).slots().len()
                },
                None => {
                    &&& item is None
                    &&& final(self).cursor() == old(self).cursor()
                },
            }),
            item is None <==> old(self).remaining().len() == 0,
            item matches Some(first) ==> first == old(self).remaining()[0],
            item is Some ==> final(self).remaining() == old(self).remaining().drop_first(),
            item is None ==> final(self).remaining() == old(self).remaining(),
    {
        proof {
            use_type_invariant(&*self);
            if command_at(self.slots(), self.cursor()) is Some {
                lemma_decoding_unfolds(self.slots(), self.cursor());
            } else {
                lemma_decoding_stops(self.slots(), self.cursor());
                lemma_decoding_stops(self.slots(), self.slots().len() as int);
            }
        }
        match decode_at(self.data, self.i) {
            Some(Ok(command)) => {
                self.i = self.i + command.length;
                Some(Ok(command.segment))
            },
            Some(Err(error)) => {
                self.i = self.num_data;
                Some(Err(error))
            },
            None => None,
        }
    }

    /// Drives the decoder to the end of the buffer. Gives every segment from
    /// the cursor on, in order, or the failure if a header on the way is not
    /// acceptable: never a part of the sequence.
    pub fn collect(self) -> (segments: Result<Vec<PathSegment>, PathError>)
        ensures
            (match decoded_from(self.slots(), self.cursor()) {
                Ok(all) => segments is Ok && segments.unwrap()@ == all,
                Err(error) => segments is Err && segments->Err_0 == error,
            }),
    {
        proof {
            use_type_invariant(&self);
        }
        let mut decoder = self;
        let mut segments: Vec<PathSegment> = Vec::new();
        loop
            invariant
                decoder.slots() == self.slots(),
                decoder.cursor() <= decoder.slots().len(),
                well_formed_from(self.slots(), self.cursor()) == well_formed_from(
                    decoder.slots(),
                    decoder.cursor(),
                ),
                segments_of(commands_from(self.slots(), self.cursor())) == segments@ + segments_of(
                    commands_from(decoder.slots(), decoder.cursor()),
                ),
            decreases decoder.slots().len() - decoder.cursor(),
        {
            proof {
                if command_at(decoder.slots(), decoder.cursor()) is Some {
                    lemma_decoding_unfolds(decoder.slots(), decoder.cursor());
                } else {
                    lemma_decoding_stops(decoder.slots(), decoder.cursor());
                }
            }
            match decoder.next() {
                Some(Ok(segment)) => {
                    segments.push(segment);
                },
                Some(Err(error)) => {
                    return Err(error);
                },
                None => {
                    return Ok(segments);
                },
            }
        }
    }
}

} // verus!
