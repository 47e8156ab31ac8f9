//! The layout mode and the command-line flag that selects it.

use vstd::prelude::*;

verus! {

/// How the two windows are arranged. Chosen once, at startup.
#[derive(Clone, Copy, Debug, PartialEq, Eq)]
pub enum LayoutMode {
    /// The windows keep their size and meet at the monitor's centre line.
    SideBySide,
    /// Each window is resized to one quadrant of the monitor's right half.
    QuadrantTile,
}

/// The argument whose presence selects [`LayoutMode::QuadrantTile`].
pub const ENCLAVE_FLAG: &'static str = "--enclave-mode";

impl LayoutMode {
    /// The mode that a list of arguments selects: tiled where one of them is
    /// the flag, side by side where none is.
    pub open spec fn selected_by(args: Seq<Seq<char>>) -> LayoutMode {
        if args.contains(ENCLAVE_FLAG@) {
            LayoutMode::QuadrantTile
        } else {
            LayoutMode::SideBySide
        }
    }

    /// Reads the mode off the process arguments. Every argument counts,
    /// whatever its place, and it must equal the flag as a whole.
    pub fn from_args(args: &Vec<String>) -> (mode: LayoutMode)
        ensures
            mode == LayoutMode::selected_by(args.deep_view()),
    {
        let flag: String = ENCLAVE_FLAG.to_owned();
        let mut i: usize = 0;
        while i < args.len()
            invariant
                i <= args.len(),
                flag@ == ENCLAVE_FLAG@,
                forall|j: int| 0 <= j < i ==> args.deep_view()[j] != ENCLAVE_FLAG@,
            decreases args.len() - i,
        {
            if args[i] == flag {
                assert(args.deep_view()[i as int] == ENCLAVE_FLAG@);
                return LayoutMode::QuadrantTile;
            }
            i += 1;
        }
        LayoutMode::SideBySide
    }
}

} // verus!
