//! Relationship descriptors and traversal paths.
use vstd::prelude::*;

verus! {

/// A relationship type together with the side the card stands on.
#[derive(Debug, Clone, PartialEq, Eq, PartialOrd, Ord, Hash)]
pub enum LinkDescriptor {
    /// The card is the source of the relationship.
    Src(String),
    /// The card is the destination of the relationship.
    Dest(String),
}

/// A possibly empty sequence of relationship hops.
#[derive(Debug)]
pub enum Path {
    Segment(LinkDescriptor, Box<Path>),
    Nil,
}

impl Path {
    /// The hops of the path, in order.
    pub open spec fn hops(&self) -> Seq<LinkDescriptor>
        decreases self,
    {
        match self {
            Path::Segment(d, rest) => seq![*d] + rest.hops(),
            Path::Nil => Seq::empty(),
        }
    }

    pub fn is_nil(&self) -> (r: bool)
        ensures
            r == (*self is Nil),
    {
        match self {
            Path::Nil => true,
            Path::Segment(..) => false,
        }
    }
}

/// Properties that every card carries besides its custom fields.
#[derive(Debug, Clone, Copy, PartialEq, Eq)]
pub enum InternalField {
    CreateTime,
    UpdateTime,
    Creator,
}

} // verus!
