use vstd::prelude::*;

verus! {

/// The screen edge that the task panel docks to.
#[derive(Clone, Copy, Debug, PartialEq, Eq, Structural)]
pub enum DockSide {
    Left,
    Right,
}

impl DockSide {
    pub open spec fn name(self) -> Seq<char> {
        match self {
            DockSide::Left => "left"@,
            DockSide::Right => "right"@,
        }
    }

    /// The lower-case name under which the side is announced.
    pub fn as_str(&self) -> (r: &'static str)
        ensures
            r@ == self.name(),
    {
        match self {
            DockSide::Left => "left",
            DockSide::Right => "right",
        }
    }
}

} // verus!
