//! The native widgets that the elements of this crate mount, as plain data.

pub mod flex;

use vstd::prelude::*;
use crate::widget_sequence::WidgetSequence;

verus! {

/// The sequence of no widgets at all.
#[derive(Clone, Copy, Debug, PartialEq, Eq, Hash)]
pub struct EmptySequence;

impl Default for EmptySequence {
    fn default() -> (seq: Self)
        ensures
            seq == EmptySequence,
    {
        EmptySequence
    }
}

impl WidgetSequence for EmptySequence {
    open spec fn widget_count(&self) -> nat {
        0
    }

    fn len(&self) -> (n: usize) {
        0
    }
}

/// A widget that shows a line of text.
#[derive(Clone, Debug, PartialEq, Eq, Hash)]
pub struct LabelWidget {
    pub text: String,
}

/// The sequence of exactly one widget.
#[derive(Clone, Copy, Debug, PartialEq, Eq, Hash)]
pub struct SingleWidget<W>(pub W);

impl<W> SingleWidget<W> {
    pub fn new(widget: W) -> (seq: Self)
        ensures
            seq == SingleWidget(widget),
    {
        SingleWidget(widget)
    }
}

impl<W> WidgetSequence for SingleWidget<W> {
    open spec fn widget_count(&self) -> nat {
        1
    }

    fn len(&self) -> (n: usize) {
        1
    }
}

} // verus!
