//! The elements that come with the crate.

pub mod component;
pub mod empty;
pub mod flex;
pub mod group;
pub mod label;
pub mod with_event;

pub use component::{Component, ComponentHolder, ComponentOutput};
pub use empty::EmptyElement;
pub use flex::{Column, Row};
pub use group::Group;
pub use label::Label;
