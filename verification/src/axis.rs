//! Names for the three coordinate axes.
use vstd::prelude::*;

verus! {

/// A coordinate axis: a way to refer to the components of a point or a
/// vector without bare indices.
#[derive(Clone, Copy, Debug, PartialEq, Eq, Structural)]
pub enum Axis {
    X,
    Y,
    Z,
}

/// The axes in the order in which every per-axis computation visits them.
pub const XYZ: [Axis; 3] = [Axis::X, Axis::Y, Axis::Z];

impl Axis {
    /// The letter by which the axis is written.
    pub open spec fn letter(self) -> Seq<char> {
        match self {
            Axis::X => seq!['X'],
            Axis::Y => seq!['Y'],
            Axis::Z => seq!['Z'],
        }
    }

    /// The axis as text: its letter.
    pub fn to_string(&self) -> (s: String)
        ensures
            s@ == self.letter(),
    {
        proof {
            reveal_strlit("X");
            reveal_strlit("Y");
            reveal_strlit("Z");
        }
        let text: &str = match self {
            Axis::X => "X",
            Axis::Y => "Y",
            Axis::Z => "Z",
        };
        assert(text@ =~= self.letter());
        text.to_owned()
    }
}

} // verus!
