use vstd::prelude::*;

verus! {

/// An axis in visual space: the direction in which a container grows as the
/// number of its children grows.
#[derive(Clone, Copy, Debug, PartialEq, Eq, Hash, Structural)]
pub enum Axis {
    Horizontal,
    Vertical,
}

/// The alignment of a container's children on its minor axis.
#[derive(Clone, Copy, Debug, PartialEq, Eq, Hash, Structural)]
pub enum CrossAxisAlignment {
    Start,
    Center,
    End,
    Baseline,
}

/// The arrangement of a container's children on its major axis.
#[derive(Clone, Copy, Debug, PartialEq, Eq, Hash, Structural)]
pub enum MainAxisAlignment {
    Start,
    Center,
    End,
    SpaceBetween,
    SpaceEvenly,
    SpaceAround,
}

/// A container that lays its children out along one axis.
#[derive(Clone, Copy, Debug, PartialEq, Eq, Hash)]
pub struct Flex<Children> {
    pub direction: Axis,
    pub cross_alignment: CrossAxisAlignment,
    pub main_alignment: MainAxisAlignment,
    pub fill_major_axis: bool,
    pub children_seq: Children,
}

impl<Children> Flex<Children> {
    /// The same container around other children.
    pub open spec fn with_children(self, children_seq: Children) -> Self {
        Flex { children_seq, ..self }
    }

    /// Whether two containers are configured alike, whatever they hold.
    pub open spec fn same_configuration(self, other: Self) -> bool {
        &&& self.direction == other.direction
        &&& self.cross_alignment == other.cross_alignment
        &&& self.main_alignment == other.main_alignment
        &&& self.fill_major_axis == other.fill_major_axis
    }
}

} // verus!
