//! Plain records of what the host toolkit hands to the tree and takes back.
//!
//! The tree itself never looks inside these values: containers pass them on to
//! their children untouched, and only leaf nodes read or write them.

use vstd::prelude::*;

verus! {

/// One raw input as the host reports it: the native widget it came from and a
/// host-defined code for what happened there.
#[derive(Clone, Copy, Debug, PartialEq, Eq, Hash)]
pub struct Action {
    pub widget: u64,
    pub code: u32,
}

/// What a node asks of the host while its widgets are brought up to date.
#[derive(Clone, Copy, Debug, Default, PartialEq, Eq, Hash)]
pub struct EventCtx {
    pub layout_requested: bool,
    pub paint_requested: bool,
}

/// Application data shared between the host and the tree: the raw inputs that
/// the host has recorded and that no node has taken yet, oldest first.
#[derive(Clone, Debug, Default, PartialEq, Eq, Hash)]
pub struct AppData {
    pub pending: Vec<Action>,
}

/// The host's environment: theme settings as key and value.
#[derive(Clone, Debug, Default, PartialEq, Eq, Hash)]
pub struct Env {
    pub settings: Vec<(u64, u64)>,
}

/// What the host delivers for one event pass.
#[derive(Clone, Debug, Default, PartialEq, Eq, Hash)]
pub struct GlobalEventCx {
    pub raw: Vec<Action>,
}

} // verus!
