use vstd::prelude::*;
use vstd::string::StringExecFns;
use crate::element_tree::{
    Describe, Element, EventPass, LocalEventPass, NoEvent, NoState, ProcessEventCtx,
    ReconcileCtx, VirtualDom,
};
use crate::glue::{AppData, Env, EventCtx, GlobalEventCx};
use crate::widget_sequence::WidgetSequence;
use crate::widgets::EmptySequence;

verus! {

/// A placeholder element.
///
/// This does **not** represent a blank area or a zero-sized widget. Rather,
/// it represents the *absence* of a widget: a container that holds it lays
/// out as if it were not there. It raises no events.
#[derive(Clone, Copy, Debug, PartialEq, Eq, Hash)]
pub struct EmptyElement;

/// The virtual-DOM node of [`EmptyElement`].
#[derive(Clone, Copy, Debug, PartialEq, Eq, Hash)]
pub struct EmptyElementData;

impl EmptyElement {
    pub fn new() -> (element: EmptyElement)
        ensures
            element == EmptyElement,
    {
        EmptyElement
    }
}

impl Describe for EmptyElement {
    open spec fn description(&self) -> Seq<char> {
        "EmptyElement"@
    }

    fn describe(&self) -> (text: String) {
        String::from_str("EmptyElement")
    }
}

impl Describe for EmptyElementData {
    open spec fn description(&self) -> Seq<char> {
        "EmptyElementData"@
    }

    fn describe(&self) -> (text: String) {
        String::from_str("EmptyElementData")
    }
}

impl<CpEvent, CpState> Element<CpEvent, CpState> for EmptyElement {
    type Event = NoEvent;

    type ComponentState = NoState;

    type AggregateChildrenState = ();

    type BuildOutput = EmptyElementData;

    open spec fn wf(&self) -> bool {
        true
    }

    open spec fn built(self, prev_state: ()) -> (EmptyElementData, ()) {
        (EmptyElementData, ())
    }

    fn build(self, _prev_state: ()) -> (out: (EmptyElementData, ())) {
        (EmptyElementData, ())
    }

    open spec fn component_state(state: &()) -> Option<&NoState> {
        None
    }

    fn get_component_state(_state: &()) -> (local: Option<&NoState>) {
        None
    }
}

impl<CpEvent, CpState> VirtualDom<CpEvent, CpState> for EmptyElementData {
    type Event = NoEvent;

    type AggregateChildrenState = ();

    type TargetWidgetSeq = EmptySequence;

    open spec fn wf(&self) -> bool {
        true
    }

    open spec fn mounted(&self) -> EmptySequence {
        EmptySequence
    }

    fn init_tree(&self) -> (widget_seq: EmptySequence) {
        EmptySequence
    }

    open spec fn reconciled(
        &self,
        other: &Self,
        widget_seq: EmptySequence,
        host: (EventCtx, AppData, Env),
    ) -> (EmptySequence, (EventCtx, AppData, Env)) {
        (widget_seq, host)
    }

    fn reconcile(&self, _other: &Self, _widget_seq: &mut EmptySequence, _ctx: &mut ReconcileCtx) {
    }

    open spec fn shown_by(&self, widget_seq: EmptySequence) -> bool {
        true
    }

    fn is_shown_by(&self, widget_seq: &EmptySequence) -> (shown: bool) {
        true
    }

    proof fn lemma_mounted_shows(&self) {
    }

    proof fn lemma_reconciled_shows(
        &self,
        other: &Self,
        widget_seq: EmptySequence,
        host: (EventCtx, AppData, Env),
    ) {
    }

    proof fn lemma_reconcile_unchanged(
        &self,
        widget_seq: EmptySequence,
        host: (EventCtx, AppData, Env),
    ) {
    }

    open spec fn event_processed(
        &self,
        pass: EventPass<CpEvent, CpState, (), EmptySequence>,
    ) -> EventPass<CpEvent, CpState, (), EmptySequence> {
        pass
    }

    fn process_event(
        &self,
        _comp_ctx: &mut ProcessEventCtx<CpEvent, CpState>,
        _children_state: &mut (),
        _widget_seq: &mut EmptySequence,
        _cx: &mut GlobalEventCx,
    ) {
    }

    open spec fn local_event(
        &self,
        children_state: (),
        widget_seq: EmptySequence,
        cx: GlobalEventCx,
    ) -> LocalEventPass<NoEvent, (), EmptySequence> {
        LocalEventPass { event: None, children_state, widget_seq, cx }
    }

    fn process_local_event(
        &self,
        _children_state: &mut (),
        _widget_seq: &mut EmptySequence,
        _cx: &mut GlobalEventCx,
    ) -> (event: Option<NoEvent>) {
        None
    }
}

/// An empty element is the same in every context: whatever component it
/// stands in, it builds to the empty node and keeps no state, its node
/// mounts no widget, and reconciling its node changes neither the widgets
/// nor what the host sees.
pub proof fn lemma_empty_element_identity<CpEvent, CpState>(
    widget_seq: EmptySequence,
    host: (EventCtx, AppData, Env),
)
    ensures
        <EmptyElement as Element<CpEvent, CpState>>::wf(&EmptyElement),
        <EmptyElement as Element<CpEvent, CpState>>::built(EmptyElement, ()) == (
            EmptyElementData,
            (),
        ),
        <EmptyElementData as VirtualDom<CpEvent, CpState>>::mounted(&EmptyElementData)
            == EmptySequence,
        EmptySequence.widget_count() == 0,
        <EmptyElementData as VirtualDom<CpEvent, CpState>>::reconciled(
            &EmptyElementData,
            &EmptyElementData,
            widget_seq,
            host,
        ) == (widget_seq, host),
{
}

} // verus!
