use vstd::prelude::*;
use vstd::string::StringExecFns;
use crate::element_tree::{
    describe_as, described, Describe, Element, EventPass, LocalEventPass, NoEvent, NoState,
    ProcessEventCtx, ReconcileCtx, VirtualDom,
};
use crate::glue::{AppData, Env, EventCtx, GlobalEventCx};
use crate::widgets::{LabelWidget, SingleWidget};

verus! {

/// A line of text. It raises no events.
#[derive(Clone, Debug, PartialEq, Eq, Hash)]
pub struct Label {
    pub text: String,
}

/// The virtual-DOM node of [`Label`].
#[derive(Clone, Debug, PartialEq, Eq, Hash)]
pub struct LabelData {
    pub text: String,
}

impl Label {
    pub fn new(text: &str) -> (label: Label)
        ensures
            label.text@ == text@,
    {
        Label { text: String::from_str(text) }
    }
}

impl Describe for Label {
    open spec fn description(&self) -> Seq<char> {
        described("Label"@, self.text@)
    }

    fn describe(&self) -> (text: String) {
        describe_as("Label", self.text.clone())
    }
}

impl Describe for LabelData {
    open spec fn description(&self) -> Seq<char> {
        described("LabelData"@, self.text@)
    }

    fn describe(&self) -> (text: String) {
        describe_as("LabelData", self.text.clone())
    }
}

impl<CpEvent, CpState> Element<CpEvent, CpState> for Label {
    type Event = NoEvent;

    type ComponentState = NoState;

    type AggregateChildrenState = ();

    type BuildOutput = LabelData;

    open spec fn wf(&self) -> bool {
        true
    }

    open spec fn built(self, prev_state: ()) -> (LabelData, ()) {
        (LabelData { text: self.text }, ())
    }

    fn build(self, _prev_state: ()) -> (out: (LabelData, ())) {
        (LabelData { text: self.text }, ())
    }

    open spec fn component_state(state: &()) -> Option<&NoState> {
        None
    }

    fn get_component_state(_state: &()) -> (local: Option<&NoState>) {
        None
    }
}

impl<CpEvent, CpState> VirtualDom<CpEvent, CpState> for LabelData {
    type Event = NoEvent;

    type AggregateChildrenState = ();

    type TargetWidgetSeq = SingleWidget<LabelWidget>;

    open spec fn wf(&self) -> bool {
        true
    }

    open spec fn mounted(&self) -> SingleWidget<LabelWidget> {
        SingleWidget(LabelWidget { text: self.text })
    }

    fn init_tree(&self) -> (widget_seq: SingleWidget<LabelWidget>) {
        SingleWidget::new(LabelWidget { text: self.text.clone() })
    }

    /// Where the text differs from the previous node's, the widget takes the
    /// new text and the host is asked to lay out again. Where it does not,
    /// nothing is touched.
    open spec fn reconciled(
        &self,
        other: &Self,
        widget_seq: SingleWidget<LabelWidget>,
        host: (EventCtx, AppData, Env),
    ) -> (SingleWidget<LabelWidget>, (EventCtx, AppData, Env)) {
        if self.text@ == other.text@ {
            (widget_seq, host)
        } else {
            (
                SingleWidget(LabelWidget { text: self.text }),
                (
                    EventCtx { layout_requested: true, paint_requested: host.0.paint_requested },
                    host.1,
                    host.2,
                ),
            )
        }
    }

    fn reconcile(
        &self,
        other: &Self,
        widget_seq: &mut SingleWidget<LabelWidget>,
        ctx: &mut ReconcileCtx,
    ) {
        if !(self.text == other.text) {
            widget_seq.0.text = self.text.clone();
            ctx.event_ctx.layout_requested = true;
        }
    }

    open spec fn shown_by(&self, widget_seq: SingleWidget<LabelWidget>) -> bool {
        widget_seq.0.text@ == self.text@
    }

    fn is_shown_by(&self, widget_seq: &SingleWidget<LabelWidget>) -> (shown: bool) {
        widget_seq.0.text == self.text
    }

    proof fn lemma_mounted_shows(&self) {
    }

    proof fn lemma_reconciled_shows(
        &self,
        other: &Self,
        widget_seq: SingleWidget<LabelWidget>,
        host: (EventCtx, AppData, Env),
    ) {
    }

    proof fn lemma_reconcile_unchanged(
        &self,
        widget_seq: SingleWidget<LabelWidget>,
        host: (EventCtx, AppData, Env),
    ) {
    }

    open spec fn event_processed(
        &self,
        pass: EventPass<CpEvent, CpState, (), SingleWidget<LabelWidget>>,
    ) -> EventPass<CpEvent, CpState, (), SingleWidget<LabelWidget>> {
        pass
    }

    fn process_event(
        &self,
        _comp_ctx: &mut ProcessEventCtx<CpEvent, CpState>,
        _children_state: &mut (),
        _widget_seq: &mut SingleWidget<LabelWidget>,
        _cx: &mut GlobalEventCx,
    ) {
    }

    open spec fn local_event(
        &self,
        children_state: (),
        widget_seq: SingleWidget<LabelWidget>,
        cx: GlobalEventCx,
    ) -> LocalEventPass<NoEvent, (), SingleWidget<LabelWidget>> {
        LocalEventPass { event: None, children_state, widget_seq, cx }
    }

    fn process_local_event(
        &self,
        _children_state: &mut (),
        _widget_seq: &mut SingleWidget<LabelWidget>,
        _cx: &mut GlobalEventCx,
    ) -> (event: Option<NoEvent>) {
        None
    }
}

} // verus!
