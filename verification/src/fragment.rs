//! Sample points.
//!
//! A `Fragment` is the point a shader is evaluated at: a spatial position
//! of one, two or three fixed-point coordinates, and a time. The position
//! is held as a vector so the combinators can be written once over any
//! dimension; `FragOne`, `FragTwo` and `FragThree` are the fixed-arity
//! spellings used at the library boundary.

use vstd::prelude::*;

use crate::fixed::Fixed;

verus! {

/// The raw counts of a sequence of scalars.
pub open spec fn pos_view(s: Seq<Fixed>) -> Seq<int> {
    s.map_values(|f: Fixed| f@)
}

/// The spatial dimensions the library supports.
pub const MAX_DIMENSION: usize = 3;

/// A sample point: a position of up to `MAX_DIMENSION` coordinates plus a
/// time.
#[derive(Debug)]
pub struct Fragment {
    pub pos: Vec<Fixed>,
    pub time: Fixed,
}

/// The mathematical value of a sample point.
pub ghost struct FragModel {
    pub pos: Seq<int>,
    pub time: int,
}

impl View for Fragment {
    type V = FragModel;

    open spec fn view(&self) -> FragModel {
        FragModel { pos: pos_view(self.pos@), time: self.time@ }
    }
}

impl Fragment {
    /// Whether the position has a supported number of coordinates.
    pub open spec fn wf(&self) -> bool {
        self.pos@.len() <= MAX_DIMENSION
    }

    /// A sample point from its coordinates and time.
    pub fn new(pos: Vec<Fixed>, time: Fixed) -> (f: Fragment)
        requires
            1 <= pos@.len() <= MAX_DIMENSION,
        ensures
            f.wf(),
            f@.pos == pos_view(pos@),
            f@.time == time@,
    {
        Fragment { pos, time }
    }
}

/// A one-dimensional sample point.
#[derive(Clone, Copy, Debug, PartialEq, Eq, Structural)]
pub struct FragOne {
    pub pos: Fixed,
    pub time: Fixed,
}

impl FragOne {
    /// The generic sample point with this single coordinate.
    pub fn fragment(&self) -> (f: Fragment)
        ensures
            f.wf(),
            f@.pos =~= seq![self.pos@],
            f@.time == self.time@,
    {
        let mut pos: Vec<Fixed> = Vec::new();
        pos.push(self.pos);
        Fragment { pos, time: self.time }
    }
}

/// A two-dimensional sample point.
#[derive(Clone, Copy, Debug)]
pub struct FragTwo {
    pub pos: [Fixed; 2],
    pub time: Fixed,
}

impl FragTwo {
    /// The generic sample point with these two coordinates.
    pub fn fragment(&self) -> (f: Fragment)
        ensures
            f.wf(),
            f@.pos =~= seq![self.pos@[0]@, self.pos@[1]@],
            f@.time == self.time@,
    {
        let mut pos: Vec<Fixed> = Vec::new();
        pos.push(self.pos[0]);
        pos.push(self.pos[1]);
        Fragment { pos, time: self.time }
    }
}

/// A three-dimensional sample point.
#[derive(Clone, Copy, Debug)]
pub struct FragThree {
    pub pos: [Fixed; 3],
    pub time: Fixed,
}

impl FragThree {
    /// The generic sample point with these three coordinates.
    pub fn fragment(&self) -> (f: Fragment)
        ensures
            f.wf(),
            f@.pos =~= seq![self.pos@[0]@, self.pos@[1]@, self.pos@[2]@],
            f@.time == self.time@,
    {
        let mut pos: Vec<Fixed> = Vec::new();
        pos.push(self.pos[0]);
        pos.push(self.pos[1]);
        pos.push(self.pos[2]);
        Fragment { pos, time: self.time }
    }
}

} // verus!
