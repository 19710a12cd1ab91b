//! The capability through which the tree reaches native widgets.

use vstd::prelude::*;

verus! {

/// An ordered collection of native widgets, flattened: a container widget
/// counts once, whatever it holds.
pub trait WidgetSequence: Sized {
    /// How many widgets the sequence holds at its own level.
    spec fn widget_count(&self) -> nat;

    /// The number of widgets at the sequence's own level.
    fn len(&self) -> (n: usize)
        requires
            self.widget_count() <= usize::MAX,
        ensures
            n == self.widget_count(),
    ;
}

impl<First: WidgetSequence, Second: WidgetSequence> WidgetSequence for (First, Second) {
    open spec fn widget_count(&self) -> nat {
        self.0.widget_count() + self.1.widget_count()
    }

    fn len(&self) -> (n: usize) {
        self.0.len() + self.1.len()
    }
}

} // verus!
