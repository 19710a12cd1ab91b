//! A retained-mode virtual DOM: declarative element trees are built into
//! virtual-DOM nodes, which mount and reconcile a tree of native widgets and
//! turn what the host reports into typed component events.
//!
//! An [`Element`] describes one node of the GUI. It is made anew for every
//! build and consumed by [`Element::build`], which returns a [`VirtualDom`]
//! node together with the state that the next build of the same place in the
//! tree starts from. A node mounts the widgets that show it with
//! [`VirtualDom::init_tree`], and brings widgets that showed the previous node
//! in line with itself with [`VirtualDom::reconcile`].
//!
//! Events travel upwards. [`VirtualDom::process_event`] lets the nodes below
//! a node go first and then handles the one event that they raise: an element
//! made with [`ElementExt::on`] changes the local state of the component it
//! stands in, one made with [`ElementExt::map_event`] or
//! [`ElementExt::bubble_up`] puts an event in the component's queue, and each
//! of them passes on unchanged what is not of the type it was made for. A
//! component hands the events in its queue to its parent one by one, oldest
//! first.
//!
//! Widgets and host contexts are plain data here. Whoever drives a real
//! toolkit keeps the toolkit's widgets in step with them.

pub mod element_tree;
pub mod elements;
pub mod glue;
pub mod widget_sequence;
pub mod widgets;

pub use element_tree::{CompCtx, Element, ElementExt, Metadata, NoEvent, NoState, VirtualDom};
