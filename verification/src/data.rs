//! The slots of a path buffer, as plain values.
//!
//! The native layout makes every slot a union: the same sixteen bytes can be
//! read as a header (a command tag and a slot count) or as a point (two
//! `double`s). Which reading means something depends on where the slot
//! stands, and finding that out is the decoder's work. A [`PathData`]
//! therefore carries both readings, taken through the native field layout by
//! whoever copied the buffer out.

use vstd::prelude::*;

verus! {

/// A point in user space. Each coordinate is the IEEE 754 binary64 bit
/// pattern of the native `double` (what `f64::to_bits` gives), `x` first.
pub type Point = (u64, u64);

/// The command that a header announces.
#[derive(Clone, Copy, Debug, PartialEq, Eq)]
pub enum PathDataType {
    PathMoveTo,
    PathLineTo,
    PathCurveTo,
    PathClosePath,
}

impl PathDataType {
    /// The command that the native tag `raw` stands for: cairo numbers them
    /// 0 (move to), 1 (line to), 2 (curve to), 3 (close path).
    pub open spec fn spec_from_raw(raw: i32) -> Option<PathDataType> {
        if raw == 0 {
            Some(PathDataType::PathMoveTo)
        } else if raw == 1 {
            Some(PathDataType::PathLineTo)
        } else if raw == 2 {
            Some(PathDataType::PathCurveTo)
        } else if raw == 3 {
            Some(PathDataType::PathClosePath)
        } else {
            None
        }
    }

    /// The native tag of this command.
    pub open spec fn spec_to_raw(self) -> i32 {
        match self {
            PathDataType::PathMoveTo => 0,
            PathDataType::PathLineTo => 1,
            PathDataType::PathCurveTo => 2,
            PathDataType::PathClosePath => 3,
        }
    }

    /// How many points follow the header of this command.
    pub open spec fn spec_points(self) -> nat {
        match self {
            PathDataType::PathMoveTo => 1,
            PathDataType::PathLineTo => 1,
            PathDataType::PathCurveTo => 3,
            PathDataType::PathClosePath => 0,
        }
    }

    /// Reads a native tag; `None` for a value that names no command.
    pub fn from_raw(raw: i32) -> (data_type: Option<PathDataType>)
        ensures
            data_type == Self::spec_from_raw(raw),
    {
        if raw == 0 {
            Some(PathDataType::PathMoveTo)
        } else if raw == 1 {
            Some(PathDataType::PathLineTo)
        } else if raw == 2 {
            Some(PathDataType::PathCurveTo)
        } else if raw == 3 {
            Some(PathDataType::PathClosePath)
        } else {
            None
        }
    }

    /// The native tag of this command.
    pub fn to_raw(self) -> (raw: i32)
        ensures
            raw == self.spec_to_raw(),
    {
        match self {
            PathDataType::PathMoveTo => 0,
            PathDataType::PathLineTo => 1,
            PathDataType::PathCurveTo => 2,
            PathDataType::PathClosePath => 3,
        }
    }

    /// How many points follow the header of this command.
    pub fn points(self) -> (count: usize)
        ensures
            count == self.spec_points(),
    {
        match self {
            PathDataType::PathMoveTo => 1,
            PathDataType::PathLineTo => 1,
            PathDataType::PathCurveTo => 3,
            PathDataType::PathClosePath => 0,
        }
    }
}

/// A slot read as a header.
#[derive(Clone, Copy, Debug, PartialEq, Eq)]
pub struct PathDataHeader {
    /// The native command tag, not yet checked.
    pub data_type: i32,
    /// How many slots the command spans, its header included, as the
    /// buffer declares it; not yet checked.
    pub length: i32,
}

/// One slot of a path buffer, under both of its readings.
#[derive(Clone, Copy, Debug, PartialEq, Eq)]
pub struct PathData {
    /// The slot read as a header.
    pub header: PathDataHeader,
    /// The slot read as a point.
    pub point: Point,
}

impl PathData {
    /// A slot that reads as the header of a `data_type` command spanning
    /// `length` slots. Its point reading is zeroed.
    pub fn header(data_type: PathDataType, length: i32) -> (slot: PathData)
        ensures
            slot.header.data_type == data_type.spec_to_raw(),
            slot.header.length == length,
            slot.point == (0u64, 0u64),
    {
        PathData {
            header: PathDataHeader { data_type: data_type.to_raw(), length },
            point: (0, 0),
        }
    }

    /// A slot that reads as the point `(x, y)`. Its header reading names no
    /// command.
    pub fn point(x: u64, y: u64) -> (slot: PathData)
        ensures
            slot.point == (x, y),
            slot.header == (PathDataHeader { data_type: -1i32, length: 0i32 }),
    {
        PathData { header: PathDataHeader { data_type: -1, length: 0 }, point: (x, y) }
    }
}

} // verus!
